//! Client-side correlation engine for a duplex, message-oriented bot-control
//! protocol: echo tokens, the table of pending calls, response routing,
//! batching, the event feed's reconnect machine and the segment mapper.

pub mod echo;
pub mod error;
pub mod response;
pub mod table;
pub mod call;
pub mod batch;
pub mod feed;
pub mod message;
pub mod config;
pub mod event;
pub mod raw;
pub mod send;
