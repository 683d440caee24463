//! A minimal chat bot library: it watches a gateway event stream for the
//! command `!ping` and answers `Pong!`.
//!
//! The verified core is the event dispatcher: a pure decision from one
//! incoming event to at most one outbound action. The surrounding event
//! loop (gateway connection, HTTP sends, console output) lives outside
//! the library and merely executes the actions decided here.

pub mod dispatch;
pub mod event;
pub mod startup;
pub mod text;
