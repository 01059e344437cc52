//! Client side of the NexaDB wire protocol: the twelve-byte frame codec, the
//! MessagePack payload, the request/response rules, and the command interpreter
//! that turns a typed line into one request and a reply into what is shown.
pub mod frame;
pub mod value;
pub mod client;
pub mod text;
pub mod interp;
pub mod render;
