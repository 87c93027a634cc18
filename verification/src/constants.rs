//! Well-known control-API operation codes, tuning constants, and the
//! control-API address line.

use vstd::prelude::*;

use crate::text::{spec_uint_str, u32_to_string};

verus! {

/// The local control-API address for one hooked client: the loopback host,
/// the client's port, and the operation code.
pub fn wechat_api(port: u32, msg_type: u32) -> (r: String)
    ensures
        r@ == "http://127.0.0.1:"@ + spec_uint_str(port as nat) + "/api/?type="@ + spec_uint_str(
            msg_type as nat,
        ),
{
    let mut s = String::from_str("http://127.0.0.1:");
    s.append(u32_to_string(port).as_str());
    s.append("/api/?type=");
    s.append(u32_to_string(msg_type).as_str());
    s
}

// login check
pub const WECHAT_IS_LOGIN: u32 = 0;

// self info
pub const WECHAT_GET_SELF_INFO: u32 = 1;

// send message
pub const WECHAT_MSG_SEND_TEXT: u32 = 2;
pub const WECHAT_MSG_SEND_AT: u32 = 3;
pub const WECHAT_MSG_SEND_IMAGE: u32 = 5;
pub const WECHAT_MSG_SEND_FILE: u32 = 6;

// receive message
pub const WECHAT_MSG_START_HOOK: u32 = 9;
pub const WECHAT_MSG_START_IMAGE_HOOK: u32 = 11;
pub const WECHAT_MSG_START_VOICE_HOOK: u32 = 13;

// contact
pub const WECHAT_CONTACT_GET_LIST: u32 = 15;

// chatroom
pub const WECHAT_CHATROOM_GET_MEMBER_LIST: u32 = 25;
pub const WECHAT_CHATROOM_GET_MEMBER_NICKNAME: u32 = 26;

// database
pub const WECHAT_DATABASE_GET_HANDLES: u32 = 32;
pub const WECHAT_DATABASE_QUERY: u32 = 34;

pub const WECHAT_GET_QRCODE_IMAGE: u32 = 41;
pub const WECHAT_LOGOUT: u32 = 44;

pub const DEFAULT_WRITE_WS_RETRY_TIME: u8 = 3;
pub const MAX_WECHAT_CALLBACK_FAIL_COUNT: u8 = 0;
pub const MAX_WS_RECONNECT_COUNT: u32 = 5;

} // verus!
