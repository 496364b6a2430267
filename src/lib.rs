pub mod commands;
pub mod communicator;
pub mod envelope;
mod ids;
pub mod server;
pub mod state;
