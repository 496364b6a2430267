use vstd::prelude::*;

verus! {

/// Failure of a backend connection attempt.
#[derive(PartialEq, Eq, Structural, Clone, Copy, Debug)]
pub enum Error {
    ConnectionError,
}

/// The kinds of backend adapter that a server can be created with.
#[derive(PartialEq, Eq, Structural, Clone, Copy, Debug)]
pub enum CommunicatorType {
    CSGO,
}

} // verus!
