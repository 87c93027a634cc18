//! Wire-facing data shapes shared by both directions of the duplex
//! connection. Geographic coordinates are carried as the decimal text the
//! wire uses, validated by the translator; turning them into machine floats
//! is left to the unverified rim.

use vstd::prelude::*;

pub mod recv;
pub mod send;

verus! {

/// Kind tag of a message on the duplex connection.
#[derive(Clone, Copy, Debug, PartialEq, Eq, Structural)]
pub enum CommandType {
    Connect,
    Disconnect,
    LoginWithQRCode,
    IsLogin,
    GetSelf,
    GetUserInfo,
    GetGroupInfo,
    GetGroupMembers,
    GetGroupMemberNickname,
    GetFriendList,
    GetGroupList,
    SendMessage,
    Response,
    Error,
    Ping,
    WebsocketClosed,
}

/// Typed payload attached to a normalized event or a send command.
#[derive(Clone, Debug)]
pub enum MatrixMessageDataField {
    Mentions(Vec<String>),
    Blob(MatrixMessageDataBlob),
    Location(MatrixMessageDataLocation),
    Media(MatrixMessageDataMedia),
    Link(MatrixMessageDataLink),
}

/// A named binary payload.
#[derive(Clone, Debug)]
pub struct MatrixMessageDataBlob {
    pub name: Option<String>,
    pub binary: Vec<u8>,
}

/// A media reference by name and remote address.
#[derive(Clone, Debug)]
pub struct MatrixMessageDataMedia {
    pub name: String,
    pub url: String,
}

/// A geographic point with its place name and address label. The
/// coordinates keep the wire's decimal text form.
#[derive(Clone, Debug)]
pub struct MatrixMessageDataLocation {
    pub name: String,
    pub address: String,
    pub longitude: String,
    pub latitude: String,
}

/// A shared link card.
#[derive(Clone, Debug)]
pub struct MatrixMessageDataLink {
    pub title: String,
    pub des: String,
    pub url: String,
}

} // verus!
