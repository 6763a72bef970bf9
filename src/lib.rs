//! The message relay of a Discord bot: each message that a person sends is
//! handed to a generation service, and its reply goes back to the channel,
//! inline or as a file.
pub mod delivery;
pub mod relay;
pub mod response;
pub mod runs;
