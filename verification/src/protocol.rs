//! The frames the chat server and the client exchange, and their models.

use vstd::prelude::*;

verus! {

/// What a frame on the chat socket is about.
#[derive(Clone, Copy, Debug, PartialEq, Eq, Structural)]
pub enum MsgTypes {
    /// The server lists who is online (`data_array` holds the names).
    Users,
    /// A client announces its user name (`data` holds it).
    Register,
    /// A chat line (`data` holds it; from the server, as encoded `MessageData`).
    Message,
}

/// One frame on the chat socket.
#[derive(Clone, Debug, PartialEq, Eq)]
pub struct WebSocketMessage {
    pub message_type: MsgTypes,
    pub data_array: Option<Vec<String>>,
    pub data: Option<String>,
}

/// One chat line as the server relays it: who wrote it and what.
#[derive(Clone, Debug, PartialEq, Eq)]
pub struct MessageData {
    pub from: String,
    pub message: String,
}

/// The contents of a frame, as character sequences.
pub struct FrameModel {
    pub message_type: MsgTypes,
    pub data_array: Option<Seq<Seq<char>>>,
    pub data: Option<Seq<char>>,
}

/// The contents of a chat line, as character sequences.
pub struct MessageModel {
    pub from: Seq<char>,
    pub message: Seq<char>,
}

/// The texts held by a sequence of strings.
pub open spec fn texts(v: Seq<String>) -> Seq<Seq<char>> {
    v.map_values(|s: String| s@)
}

/// The text held by an optional string.
pub open spec fn opt_text(o: Option<String>) -> Option<Seq<char>> {
    match o {
        Some(s) => Some(s@),
        None => None,
    }
}

impl View for WebSocketMessage {
    type V = FrameModel;

    open spec fn view(&self) -> FrameModel {
        FrameModel {
            message_type: self.message_type,
            data_array: match self.data_array {
                Some(v) => Some(texts(v@)),
                None => None,
            },
            data: opt_text(self.data),
        }
    }
}

impl View for MessageData {
    type V = MessageModel;

    open spec fn view(&self) -> MessageModel {
        MessageModel { from: self.from@, message: self.message@ }
    }
}

/// The frame by which a client joins the room as `name`.
pub open spec fn register_frame(name: Seq<char>) -> FrameModel {
    FrameModel { message_type: MsgTypes::Register, data_array: None, data: Some(name) }
}

/// The frame that carries the chat line `text`.
pub open spec fn message_frame(text: Seq<char>) -> FrameModel {
    FrameModel { message_type: MsgTypes::Message, data_array: None, data: Some(text) }
}

impl WebSocketMessage {
    /// The frame by which a client joins the room as `name`.
    pub fn register(name: String) -> (r: WebSocketMessage)
        ensures
            r@ == register_frame(name@),
            r.message_type == MsgTypes::Register,
            r.data_array is None,
            r.data matches Some(d) && d@ == name@,
    {
        WebSocketMessage { message_type: MsgTypes::Register, data_array: None, data: Some(name) }
    }

    /// The frame that carries the chat line `text`.
    pub fn message(text: String) -> (r: WebSocketMessage)
        ensures
            r@ == message_frame(text@),
            r.message_type == MsgTypes::Message,
            r.data_array is None,
            r.data matches Some(d) && d@ == text@,
    {
        WebSocketMessage { message_type: MsgTypes::Message, data_array: None, data: Some(text) }
    }
}

} // verus!
