//! Run commands on a host over an authenticated websocket: the wire protocol and the decisions
//! that the server, the client and the daemon control make, each with its contract.

pub mod auth;
pub mod cli;
pub mod cli_laws;
pub mod cli_rules;
pub mod client;
pub mod client_laws;
pub mod command;
pub mod command_laws;
pub mod config;
pub mod daemon;
pub mod decode_error;
pub mod failure;
pub mod frame_ends;
pub mod launch_laws;
pub mod logging;
pub mod protocol;
pub mod roundtrip;
pub mod server;
pub mod server_laws;
pub mod session;
pub mod session_laws;
pub mod ssh;
pub mod startup;
pub mod startup_laws;
pub mod stop;
pub mod stop_laws;
pub mod text;
pub mod text_laws;
pub mod view_laws;
pub mod wire;
pub mod wire_laws;
