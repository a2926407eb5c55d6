//! One module per chat platform, the IRC grammar they rest on, and the
//! message both sides produce.
pub mod connector_message;
pub mod discord;
pub mod irc_parser;
pub mod twitch;
