//! An OAuth login flow for a desktop application: a transient local HTTP
//! callback server, a bearer-token extractor for query strings and URL
//! fragments, flip-once terminal flags, and a take-once event coordinator
//! that delivers exactly one outcome per login attempt.

pub mod code_grant;
pub mod coordinator;
pub mod events;
pub mod extract;
pub mod flow;
pub mod ports;
pub mod server;
pub mod state;
pub mod strutil;
