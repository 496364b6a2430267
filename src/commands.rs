use vstd::prelude::*;

use crate::server::ServerInfo;
use crate::state::{infos_of, Client, State};

verus! {

/// A command sent by a client.
#[derive(Debug)]
pub enum ClientCommand {
    /// Ask for the snapshots of all registered servers.
    ListServers,
    /// Send a raw command to the server with the given id.
    SendCommand { server: u128, command: String },
}

/// A command sent to a client.
#[derive(Debug)]
pub enum ServerCommand {
    /// The client's own identity, sent once when it connects.
    Identity(Client),
    /// The snapshots of all registered servers.
    ServerList(Vec<ServerInfo>),
    /// A notice or a response, as text.
    Print(String),
    /// A server's snapshot after a change.
    Status(ServerInfo),
}

/// What to do with a client's command: answer the client, or send a command
/// to a server and answer with its response.
#[derive(Debug)]
pub enum Dispatch {
    Reply(ServerCommand),
    Forward { server: u128, command: String },
}

pub open spec fn unknown_command_text() -> Seq<char> {
    "Unknown command"@
}

pub open spec fn unknown_server_text() -> Seq<char> {
    "Unknown server"@
}

/// The notice for an inbound frame that holds no valid command.
pub fn unknown_command() -> (r: ServerCommand)
    ensures
        r matches ServerCommand::Print(s) && s@ == unknown_command_text(),
{
    proof {
        reveal_strlit("Unknown command");
    }
    ServerCommand::Print(String::from_str("Unknown command"))
}

/// The notice for a command addressed to a server that is not registered.
pub fn unknown_server() -> (r: ServerCommand)
    ensures
        r matches ServerCommand::Print(s) && s@ == unknown_server_text(),
{
    proof {
        reveal_strlit("Unknown server");
    }
    ServerCommand::Print(String::from_str("Unknown server"))
}

/// The first command sent to a newly connected client: its identity.
pub fn identity(client: &Client) -> (r: ServerCommand)
    ensures
        r matches ServerCommand::Identity(c) && c == *client,
{
    ServerCommand::Identity(client.copied())
}

/// The answer to a command that was forwarded to a server: its response.
pub fn forwarded_reply(response: String) -> (r: ServerCommand)
    ensures
        r matches ServerCommand::Print(s) && s@ == response@,
{
    ServerCommand::Print(response)
}

/// The answer to a forwarded command, given what sending it gave: the
/// response, or `None` when the server was no longer registered.
pub fn forward_outcome(response: Option<String>) -> (r: ServerCommand)
    ensures
        match response {
            Some(t) => r matches ServerCommand::Print(s) && s@ == t@,
            None => r matches ServerCommand::Print(s) && s@ == unknown_server_text(),
        },
{
    match response {
        Some(t) => forwarded_reply(t),
        None => unknown_server(),
    }
}

/// The list of all registered servers' snapshots, whoever asks.
pub fn list_servers<C>(state: &State<C>, client_id: u128) -> (r: Option<ServerCommand>)
    ensures
        r matches Some(ServerCommand::ServerList(v)) && v@ == infos_of(state.servers_view()) && (
        state.wf() ==> forall|i: int|
            0 <= i < v@.len() ==> #[trigger] v@[i].id == state.servers_view()[i].id_view()),
{
    Some(ServerCommand::ServerList(state.server_infos()))
}

/// Decides what to do with a client's command. Listing servers is answered
/// at once; a command for a registered server is forwarded to it; one for an
/// unknown server is answered with a notice.
pub fn process_command<C>(cmd: ClientCommand, client_id: u128, state: &State<C>) -> (r: Dispatch)
    requires
        state.wf(),
    ensures
        match cmd {
            ClientCommand::ListServers => r matches Dispatch::Reply(ServerCommand::ServerList(v))
                && v@ == infos_of(state.servers_view()),
            ClientCommand::SendCommand { server, command } => if state.has_server(server) {
                r matches Dispatch::Forward { server: s, command: c } && s == server && c@
                    == command@
            } else {
                r matches Dispatch::Reply(ServerCommand::Print(t)) && t@ == unknown_server_text()
            },
        },
{
    match cmd {
        ClientCommand::ListServers => Dispatch::Reply(ServerCommand::ServerList(state.server_infos())),
        ClientCommand::SendCommand { server, command } => {
            match state.find_server(server) {
                Some(_) => Dispatch::Forward { server, command },
                None => Dispatch::Reply(unknown_server()),
            }
        },
    }
}

/// Decides what to do with an inbound frame, given the command read from it
/// (`None` when it held none): a notice for no command, otherwise as
/// `process_command`.
pub fn handle_inbound<C>(cmd: Option<ClientCommand>, client_id: u128, state: &State<C>) -> (r: Dispatch)
    requires
        state.wf(),
    ensures
        match cmd {
            None => r matches Dispatch::Reply(ServerCommand::Print(t)) && t@ == unknown_command_text(),
            Some(ClientCommand::ListServers) => r matches Dispatch::Reply(
                ServerCommand::ServerList(v),
            ) && v@ == infos_of(state.servers_view()),
            Some(ClientCommand::SendCommand { server, command }) => if state.has_server(server) {
                r matches Dispatch::Forward { server: s, command: c } && s == server && c@
                    == command@
            } else {
                r matches Dispatch::Reply(ServerCommand::Print(t)) && t@ == unknown_server_text()
            },
        },
{
    match cmd {
        None => Dispatch::Reply(unknown_command()),
        Some(c) => process_command(c, client_id, state),
    }
}

} // verus!
