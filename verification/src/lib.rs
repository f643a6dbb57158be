//! Client-side logic of a group chat: frame decoding, roster and message-log
//! state, and the colour by which a participant is shown.

pub mod chat;
pub mod color;
pub mod json;
pub mod laws;
pub mod protocol;
pub mod text;
pub mod user;
