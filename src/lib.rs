//! Session core of a client for libSQL's hrana protocol: turning statements
//! into wire requests, and working out where and how a session connects.
pub mod failure;
pub mod session;
pub mod statement;
pub mod target;
pub mod url_parts;
pub mod wire;
