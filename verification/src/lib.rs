//! A small RESP (Redis serialization protocol) server and its terminal client:
//! the protocol parsing, the command rules, the client registry and the
//! decisions of the completion-driven event loop, with their contracts.
pub mod callbacks;
pub mod resp;
pub mod command;
pub mod state;
pub mod event_loop;
pub mod text;
pub mod widgets;
pub mod cli;
