//! Shapes of inbound control requests read from the duplex connection.

use vstd::prelude::*;

use crate::ws::{CommandType, MatrixMessageDataField};

verus! {

/// One decoded control request: owner, correlation id, command kind, and an
/// optional typed payload.
#[derive(Clone, Debug)]
pub struct WebsocketMatrixRequest {
    pub mxid: String,
    pub req_id: i32,
    pub command: CommandType,
    pub data: Option<MatrixRequestDataField>,
}

/// Payload of a control request: a query by identifier, or an outbound
/// message to send.
#[derive(Clone, Debug)]
pub enum MatrixRequestDataField {
    Query(MatrixRequestDataQuery),
    Message(MatrixRequestDataMessage),
}

/// Identifiers a query command addresses.
#[derive(Clone, Debug)]
pub struct MatrixRequestDataQuery {
    pub wechat_id: String,
    pub group_id: String,
}

/// An outbound message: its conversation target, kind, text content, and
/// optional typed payload.
#[derive(Clone, Debug)]
pub struct MatrixRequestDataMessage {
    pub target: String,
    pub message_type: MatrixMessageType,
    pub content: String,
    pub data: Option<MatrixMessageDataField>,
}

/// Kind of an outbound message.
#[derive(Clone, Copy, Debug, PartialEq, Eq, Structural)]
pub enum MatrixMessageType {
    Text,
    Emote,
    Notice,
    Image,
    Location,
    Video,
    Audio,
    File,
}

} // verus!
