//! The state and the rules of a small websocket chat room client: who is
//! online, which messages have arrived, what a submitted line turns into, and
//! how the screen shows each message.

pub mod text;
pub mod protocol;
pub mod chat;
pub mod login;
pub mod laws;
