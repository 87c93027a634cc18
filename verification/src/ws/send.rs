//! Shapes of outbound messages written to the duplex connection: correlated
//! command replies and normalized events.

use vstd::prelude::*;

use crate::wechat::{WechatGroupInfo, WechatUserInfo};
use crate::ws::{CommandType, MatrixMessageDataField};

verus! {

/// Anything the agent writes to the remote peer.
#[derive(Clone, Debug)]
pub enum WebsocketMessage {
    Command(WebsocketCommand),
    Event(WebsocketEvent),
}

impl WebsocketMessage {
    /// The owner identifier a message belongs to.
    pub open spec fn spec_mxid(self) -> String {
        match self {
            WebsocketMessage::Command(cmd) => cmd.mxid,
            WebsocketMessage::Event(e) => e.base.mxid,
        }
    }

    pub fn mxid(&self) -> (r: String)
        ensures
            r == self.spec_mxid(),
    {
        match self {
            WebsocketMessage::Command(cmd) => cmd.mxid.clone(),
            WebsocketMessage::Event(e) => e.base.mxid.clone(),
        }
    }
}

/// A correlated reply to one control request.
#[derive(Clone, Debug)]
pub struct WebsocketCommand {
    pub mxid: String,
    pub req_id: i32,
    pub command: CommandType,
    pub data: CommandResponseData,
}

/// Payload of a reply, one shape per command family.
#[derive(Clone, Debug)]
pub enum CommandResponseData {
    Empty,
    ErrorMessage(String),
    Bytes(Vec<u8>),
    LoginStatus(bool),
    User(WechatUserInfo),
    Users(Vec<WechatUserInfo>),
    Group(WechatGroupInfo),
    Groups(Vec<WechatGroupInfo>),
    Members(Vec<String>),
    Nickname(String),
}

/// A normalized event together with its optional typed payload.
#[derive(Clone, Debug)]
pub struct WebsocketEvent {
    pub base: WebsocketEventBase,
    pub extra: Option<MatrixMessageDataField>,
}

/// The common fields of a normalized event. The timestamp is milliseconds
/// since the epoch.
#[derive(Clone, Debug)]
pub struct WebsocketEventBase {
    pub mxid: String,
    pub id: u64,
    pub event_type: EventType,
    pub timestamp_ms: i64,
    pub sender: String,
    pub target: String,
    pub content: String,
    pub reply: Option<ReplyInfo>,
}

/// Reference to the message an event replies to.
#[derive(Clone, Debug)]
pub struct ReplyInfo {
    pub id: u64,
    pub sender: String,
}

/// Kind of a normalized event.
#[derive(Clone, Copy, Debug, PartialEq, Eq, Structural)]
pub enum EventType {
    Text,
    Image,
    Audio,
    Video,
    File,
    Location,
    Notice,
    App,
    Revoke,
    VoIP,
    System,
}

} // verus!
