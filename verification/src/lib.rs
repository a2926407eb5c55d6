//! The protocol core of a relay between a Twitch chat channel and a Discord
//! channel.
//!
//! Nothing here touches a socket or a clock. The connectors turn lines read
//! from the IRC stream and events delivered by Discord into
//! [`connectors::connector_message::ConnectorMessage`] values and format the
//! lines to write; the [`coordinator`] decides where each message goes and
//! what text is sent there. A caller owns the connections, performs the
//! reads and writes, and feeds the outcomes back in.
pub mod connectors;
pub mod coordinator;
pub mod text;
