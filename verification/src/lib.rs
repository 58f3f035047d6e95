pub mod conversation_builder;
pub mod implementation;
pub mod interface;
pub mod message_search;
pub mod members;
pub mod messages;
pub mod network;
pub mod signal;
pub mod types;
pub mod users;
