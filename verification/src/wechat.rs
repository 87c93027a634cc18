//! One hooked native-client session and the pure logic around its control
//! calls: message-kind codes, contact-row decoding, friend and group list
//! assembly, member-list splitting, login-status interpretation, and the
//! classification of outbound sends.
//!
//! The HTTP calls themselves happen outside the library; these functions do
//! everything around them on plain values.

use vstd::prelude::*;
use vstd::seq_lib::group_seq_properties;

use crate::error::AgentError;
use crate::text::spec_ends_with;
use crate::text::{ends_with_str, eq_str, spec_split, split_str};
use crate::ws::recv::{MatrixMessageType, MatrixRequestDataMessage};
use crate::ws::{MatrixMessageDataBlob, MatrixMessageDataField};

verus! {

/// One hooked native-client process bound to one owner identifier.
#[derive(Debug)]
pub struct WechatInstance {
    pub port: u32,
    pub message_hook_port: u32,
    pub save_path: String,
    pub pid: u32,
    pub mxid: String,
}

impl Clone for WechatInstance {
    fn clone(&self) -> (r: Self)
        ensures
            r == *self,
    {
        WechatInstance {
            port: self.port,
            message_hook_port: self.message_hook_port,
            save_path: self.save_path.clone(),
            pid: self.pid,
            mxid: self.mxid.clone(),
        }
    }
}

impl WechatInstance {
    /// Builds the session record for a process the driver injected.
    pub fn new(port: u32, save_path: String, msg_hook_port: u32, pid: u32, mxid: String) -> (r:
        WechatInstance)
        ensures
            r.port == port,
            r.save_path == save_path,
            r.message_hook_port == msg_hook_port,
            r.pid == pid,
            r.mxid == mxid,
    {
        WechatInstance { port, message_hook_port: msg_hook_port, save_path, pid, mxid }
    }
}

/// One line of the local callback stream, decoded. The timestamp is seconds
/// since the epoch.
#[derive(Debug)]
pub struct WechatMessage {
    pub pid: u32,
    pub message_id: u64,
    pub timestamp: i64,
    pub wechat_id: String,
    pub sender: String,
    pub self_id: String,
    pub is_send_message: i8,
    pub is_send_by_phone: Option<i8>,
    pub msg_type: WechatMessageType,
    pub message: String,
    pub file_path: String,
    pub thumb_path: String,
    pub extra_info: String,
}

/// Kind tag of a callback line, as the wire's numeric code names it.
#[derive(Clone, Copy, Debug, PartialEq, Eq, Structural)]
pub enum WechatMessageType {
    Unknown,
    Text,
    Image,
    Voice,
    Video,
    Sticker,
    Location,
    App,
    PrivateVoIP,
    LastMessage,
    Hint,
    System,
}

/// The numeric wire code of each message kind.
pub open spec fn spec_message_type_code(t: WechatMessageType) -> int {
    match t {
        WechatMessageType::Unknown => 0,
        WechatMessageType::Text => 1,
        WechatMessageType::Image => 3,
        WechatMessageType::Voice => 34,
        WechatMessageType::Video => 43,
        WechatMessageType::Sticker => 47,
        WechatMessageType::Location => 48,
        WechatMessageType::App => 49,
        WechatMessageType::PrivateVoIP => 50,
        WechatMessageType::LastMessage => 51,
        WechatMessageType::Hint => 10000,
        WechatMessageType::System => 10002,
    }
}

impl WechatMessageType {
    /// Decodes the wire's numeric kind code.
    pub fn from_code(code: u32) -> (r: Option<WechatMessageType>)
        ensures
            r matches Some(t) ==> spec_message_type_code(t) == code as int,
            r is None ==> forall|t: WechatMessageType| spec_message_type_code(t) != code as int,
    {
        if code == 0 {
            Some(WechatMessageType::Unknown)
        } else if code == 1 {
            Some(WechatMessageType::Text)
        } else if code == 3 {
            Some(WechatMessageType::Image)
        } else if code == 34 {
            Some(WechatMessageType::Voice)
        } else if code == 43 {
            Some(WechatMessageType::Video)
        } else if code == 47 {
            Some(WechatMessageType::Sticker)
        } else if code == 48 {
            Some(WechatMessageType::Location)
        } else if code == 49 {
            Some(WechatMessageType::App)
        } else if code == 50 {
            Some(WechatMessageType::PrivateVoIP)
        } else if code == 51 {
            Some(WechatMessageType::LastMessage)
        } else if code == 10000 {
            Some(WechatMessageType::Hint)
        } else if code == 10002 {
            Some(WechatMessageType::System)
        } else {
            None
        }
    }
}

/// Sub-type of a compound envelope, decoded from its numeric code.
#[derive(Clone, Copy, Debug, PartialEq, Eq, Structural)]
pub enum WechatMessageAppType {
    File,
    Sticker,
    Reply,
    Notice,
    Other,
}

impl WechatMessageAppType {
    /// The sub-type for a numeric code; unknown codes map to `Other`.
    pub fn from_code(code: u32) -> (r: WechatMessageAppType)
        ensures
            code == 6 ==> r == WechatMessageAppType::File,
            code == 8 ==> r == WechatMessageAppType::Sticker,
            code == 57 ==> r == WechatMessageAppType::Reply,
            code == 87 ==> r == WechatMessageAppType::Notice,
            code != 6 && code != 8 && code != 57 && code != 87 ==> r
                == WechatMessageAppType::Other,
    {
        if code == 6 {
            WechatMessageAppType::File
        } else if code == 8 {
            WechatMessageAppType::Sticker
        } else if code == 57 {
            WechatMessageAppType::Reply
        } else if code == 87 {
            WechatMessageAppType::Notice
        } else {
            WechatMessageAppType::Other
        }
    }
}

/// One row of the contact database, reduced to what the bridge reports.
#[derive(Debug)]
pub struct ContactInfo {
    pub username: String,
    pub nickname: String,
    pub avatar_url: String,
    pub remark: String,
}

impl Clone for ContactInfo {
    fn clone(&self) -> (r: Self)
        ensures
            r == *self,
    {
        ContactInfo {
            username: self.username.clone(),
            nickname: self.nickname.clone(),
            avatar_url: self.avatar_url.clone(),
            remark: self.remark.clone(),
        }
    }
}

/// A user as reported to the remote peer.
#[derive(Clone, Debug)]
pub struct WechatUserInfo {
    pub id: String,
    pub nickname: String,
    pub avatar: String,
    pub remark: Option<String>,
}

/// The user record a contact row denotes: the big avatar wins over the small
/// one when both are present (the row parser already chose).
pub open spec fn spec_user_of(c: ContactInfo) -> WechatUserInfo {
    WechatUserInfo {
        id: c.username,
        nickname: c.nickname,
        avatar: c.avatar_url,
        remark: Some(c.remark),
    }
}

impl From<ContactInfo> for WechatUserInfo {
    fn from(contact: ContactInfo) -> (r: Self)
        ensures
            r == spec_user_of(contact),
    {
        WechatUserInfo {
            id: contact.username,
            nickname: contact.nickname,
            avatar: contact.avatar_url,
            remark: Some(contact.remark),
        }
    }
}

impl vstd::std_specs::convert::FromSpecImpl<ContactInfo> for WechatUserInfo {
    open spec fn obeys_from_spec() -> bool {
        true
    }

    open spec fn from_spec(v: ContactInfo) -> Self {
        spec_user_of(v)
    }
}

/// A group as reported to the remote peer.
#[derive(Clone, Debug)]
pub struct WechatGroupInfo {
    pub id: String,
    pub nickname: String,
    pub avatar: String,
    pub notice: String,
    pub member_ids: Vec<String>,
}

/// Whether a group record denotes the given contact row: identifiers and
/// avatar taken over, the notice empty, the members not listed.
pub open spec fn spec_group_denotes(g: WechatGroupInfo, c: ContactInfo) -> bool {
    &&& g.id == c.username
    &&& g.nickname == c.nickname
    &&& g.avatar == c.avatar_url
    &&& g.notice@ == Seq::<char>::empty()
    &&& g.member_ids@ == Seq::<String>::empty()
}

impl WechatGroupInfo {
    /// The group record for a contact row.
    pub fn from_contact(contact: ContactInfo) -> (r: Self)
        ensures
            spec_group_denotes(r, contact),
    {
        WechatGroupInfo {
            id: contact.username,
            nickname: contact.nickname,
            avatar: contact.avatar_url,
            notice: String::new(),
            member_ids: Vec::new(),
        }
    }
}

/// The contact a database row of five columns denotes: user name, nickname,
/// avatar (the fourth column when the third is empty), remark.
pub open spec fn spec_contact_of(row: Seq<String>) -> ContactInfo {
    ContactInfo {
        username: row[0],
        nickname: row[1],
        avatar_url: if row[2]@.len() == 0 {
            row[3]
        } else {
            row[2]
        },
        remark: row[4],
    }
}

/// Decodes the row set a contact query returned: the first row is the header
/// and is skipped; every further row must have at least five columns. Fails
/// with `NotFound` when there is no data row or the first data row is not
/// five columns wide, and with `UpstreamFailure` on any shorter later row.
pub fn parse_contact_rows(rows: &Vec<Vec<String>>) -> (r: Result<Vec<ContactInfo>, AgentError>)
    ensures
        r matches Ok(cs) ==> {
            &&& rows@.len() >= 2
            &&& rows@[1]@.len() == 5
            &&& forall|i: int| 1 <= i < rows@.len() ==> #[trigger] rows@[i]@.len() >= 5
            &&& cs@.len() == rows@.len() - 1
            &&& forall|i: int| 0 <= i < cs@.len() ==> #[trigger] cs@[i] == spec_contact_of(
                rows@[i + 1]@,
            )
        },
        (rows@.len() < 2 || rows@[1]@.len() != 5) <==> (r matches Err(e) && e matches
            AgentError::NotFound(_)),
        r matches Err(e) ==> (e matches AgentError::NotFound(_) || e matches
            AgentError::UpstreamFailure(_)),
        (r matches Err(e) && e matches AgentError::UpstreamFailure(_)) ==> exists|i: int|
            1 <= i < rows@.len() && #[trigger] rows@[i]@.len() < 5,
{
    if rows.len() < 2 || rows[1].len() != 5 {
        return Err(AgentError::NotFound(String::from_str("no contact found")));
    }
    let n = rows.len();
    let mut out: Vec<ContactInfo> = Vec::new();
    let mut i: usize = 1;
    while i < n
        invariant
            n == rows@.len(),
            n >= 2,
            rows@[1]@.len() == 5,
            1 <= i <= n,
            out@.len() == i - 1,
            forall|k: int| 1 <= k < i ==> #[trigger] rows@[k]@.len() >= 5,
            forall|k: int| 0 <= k < out@.len() ==> #[trigger] out@[k] == spec_contact_of(
                rows@[k + 1]@,
            ),
        decreases n - i,
    {
        let row = &rows[i];
        if row.len() < 5 {
            return Err(AgentError::UpstreamFailure(String::from_str("contact row too short")));
        }
        let avatar = if row[2].unicode_len() == 0 {
            row[3].clone()
        } else {
            row[2].clone()
        };
        out.push(
            ContactInfo {
                username: row[0].clone(),
                nickname: row[1].clone(),
                avatar_url: avatar,
                remark: row[4].clone(),
            },
        );
        i += 1;
    }
    Ok(out)
}

/// The contact a lookup by identifier reports: by this library's convention
/// the first data row of the result set.
pub fn first_contact(contacts: &Vec<ContactInfo>) -> (r: Result<ContactInfo, AgentError>)
    ensures
        contacts@.len() > 0 ==> r == Ok::<ContactInfo, AgentError>(contacts@[0]),
        contacts@.len() == 0 ==> (r matches Err(e) && e matches AgentError::NotFound(_)),
{
    if contacts.len() == 0 {
        return Err(AgentError::NotFound(String::from_str("no contact row")));
    }
    Ok(contacts[0].clone())
}

/// Suffix that marks a group conversation.
pub open spec fn spec_is_group_id(s: Seq<char>) -> bool {
    spec_ends_with(s, "@chatroom"@)
}

/// The friend list: every regular contact, then every network contact whose
/// identifier is not a group's, each as the user record its row denotes.
pub fn merge_friend_lists(micro: Vec<ContactInfo>, open_im: Vec<ContactInfo>) -> (r: Vec<
    WechatUserInfo,
>)
    ensures
        r@ == micro@.map_values(|c: ContactInfo| spec_user_of(c)) + open_im@.filter(
            |c: ContactInfo| !spec_is_group_id(c.username@),
        ).map_values(|c: ContactInfo| spec_user_of(c)),
{
    broadcast use group_seq_properties;

    let mut out: Vec<WechatUserInfo> = Vec::new();
    let n1 = micro.len();
    let mut i: usize = 0;
    while i < n1
        invariant
            n1 == micro@.len(),
            0 <= i <= n1,
            out@ =~= micro@.take(i as int).map_values(|c: ContactInfo| spec_user_of(c)),
        decreases n1 - i,
    {
        let c = micro[i].clone();
        out.push(WechatUserInfo::from(c));
        proof {
            assert(micro@.take(i + 1).drop_last() =~= micro@.take(i as int));
            assert(micro@.take(i + 1) =~= micro@.take(i as int).push(micro@[i as int]));
        }
        i += 1;
    }
    proof {
        assert(micro@.take(n1 as int) =~= micro@);
    }
    let n2 = open_im.len();
    let mut j: usize = 0;
    while j < n2
        invariant
            n1 == micro@.len(),
            n2 == open_im@.len(),
            0 <= j <= n2,
            out@ =~= micro@.map_values(|c: ContactInfo| spec_user_of(c)) + open_im@.take(
                j as int,
            ).filter(|c: ContactInfo| !spec_is_group_id(c.username@)).map_values(
                |c: ContactInfo| spec_user_of(c),
            ),
        decreases n2 - j,
    {
        let c = open_im[j].clone();
        let keep = !ends_with_str(c.username.as_str(), "@chatroom");
        proof {
            reveal(Seq::filter);
            assert(open_im@.take(j + 1).drop_last() =~= open_im@.take(j as int));
            assert(open_im@.take(j + 1).last() == open_im@[j as int]);
        }
        if keep {
            out.push(WechatUserInfo::from(c));
        }
        j += 1;
    }
    proof {
        assert(open_im@.take(n2 as int) =~= open_im@);
    }
    out
}

/// The group list: one group record per contact whose identifier carries the
/// group suffix, in row order.
pub fn groups_from_contacts(contacts: Vec<ContactInfo>) -> (r: Vec<WechatGroupInfo>)
    ensures
        r@.len() == contacts@.filter(|c: ContactInfo| spec_is_group_id(c.username@)).len(),
        forall|i: int| 0 <= i < r@.len() ==> spec_group_denotes(
            #[trigger] r@[i],
            contacts@.filter(|c: ContactInfo| spec_is_group_id(c.username@))[i],
        ),
{
    broadcast use group_seq_properties;

    let n = contacts.len();
    let mut out: Vec<WechatGroupInfo> = Vec::new();
    let mut i: usize = 0;
    while i < n
        invariant
            n == contacts@.len(),
            0 <= i <= n,
            out@.len() == contacts@.take(i as int).filter(
                |c: ContactInfo| spec_is_group_id(c.username@),
            ).len(),
            forall|k: int| 0 <= k < out@.len() ==> spec_group_denotes(
                #[trigger] out@[k],
                contacts@.take(i as int).filter(
                    |c: ContactInfo| spec_is_group_id(c.username@),
                )[k],
            ),
        decreases n - i,
    {
        let c = contacts[i].clone();
        let keep = ends_with_str(c.username.as_str(), "@chatroom");
        proof {
            reveal(Seq::filter);
            assert(contacts@.take(i + 1).drop_last() =~= contacts@.take(i as int));
            assert(contacts@.take(i + 1).last() == contacts@[i as int]);
        }
        if keep {
            out.push(WechatGroupInfo::from_contact(c));
        }
        i += 1;
    }
    proof {
        assert(contacts@.take(n as int) =~= contacts@);
    }
    out
}

/// The handle of the named database among the handle rows the control
/// interface listed: the first row with that name decides.
pub open spec fn spec_db_handle(rows: Seq<(String, i64)>, name: Seq<char>) -> Option<i64>
    decreases rows.len(),
{
    if rows.len() == 0 {
        None
    } else if rows[0].0@ == name {
        Some(rows[0].1)
    } else {
        spec_db_handle(rows.drop_first(), name)
    }
}

/// Looks a database handle up by name.
pub fn find_db_handle(handles: &Vec<(String, i64)>, name: &str) -> (r: Option<i64>)
    ensures
        r == spec_db_handle(handles@, name@),
{
    let n = handles.len();
    let mut i: usize = 0;
    proof {
        assert(handles@.skip(0) =~= handles@);
    }
    while i < n
        invariant
            n == handles@.len(),
            0 <= i <= n,
            spec_db_handle(handles@, name@) == spec_db_handle(handles@.skip(i as int), name@),
        decreases n - i,
    {
        proof {
            assert(handles@.skip(i as int)[0] == handles@[i as int]);
            assert(handles@.skip(i as int).drop_first() =~= handles@.skip(i as int + 1));
        }
        if eq_str(handles[i].0.as_str(), name) {
            return Some(handles[i].1);
        }
        i += 1;
    }
    None
}

/// Splits the member field of a group query at its `^G` markers.
pub fn parse_group_members(members: &str) -> (r: Vec<String>)
    ensures
        r.deep_view() == spec_split(members@, "^G"@),
{
    let sep = "^G";
    proof {
        reveal_strlit("^G");
    }
    split_str(members, sep)
}

/// Reads a login-status answer: any result other than `OK` is an upstream
/// failure; otherwise the status is the flag compared to one.
pub fn interpret_login_resp(result: &str, is_login: u8) -> (r: Result<bool, AgentError>)
    ensures
        result@ == "OK"@ ==> r == Ok::<bool, AgentError>(is_login == 1),
        result@ != "OK"@ ==> (r matches Err(e) && e matches AgentError::UpstreamFailure(_)),
{
    if eq_str(result, "OK") {
        Ok(is_login == 1)
    } else {
        Err(AgentError::UpstreamFailure(String::from_str("login status query failed")))
    }
}

/// What a send command asks the hooked client to do, after classification.
#[derive(Debug)]
pub enum SendPlan {
    /// One plain-text send.
    PlainText { target: String, content: String },
    /// One mention send addressed to the listed identifiers.
    AtText { target: String, content: String, mentions: Vec<String> },
    /// Persist the blob under the session's save path, then one image send
    /// referencing the written file.
    SaveAndSendImage { target: String, blob: MatrixMessageDataBlob },
    /// Persist the blob, then one file send referencing the written file.
    SaveAndSendFile { target: String, blob: MatrixMessageDataBlob },
}

/// The kind/payload pairings a send command accepts.
pub open spec fn spec_send_shape_ok(msg: MatrixRequestDataMessage) -> bool {
    ||| (msg.message_type == MatrixMessageType::Text && (msg.data is None || msg.data matches Some(
        MatrixMessageDataField::Mentions(_),
    )))
    ||| ((msg.message_type == MatrixMessageType::Image || msg.message_type
        == MatrixMessageType::Video || msg.message_type == MatrixMessageType::File)
        && msg.data matches Some(MatrixMessageDataField::Blob(_)))
}

/// The plan a send command classifies to: text without mentions, or with an
/// empty mention list, is a plain-text send; text with mentions is a mention
/// send addressed to exactly those; image and video kinds with a blob persist
/// it and send an image; the file kind with a blob persists it and sends a
/// file.
pub open spec fn spec_send_plan_matches(msg: MatrixRequestDataMessage, plan: SendPlan) -> bool {
    &&& ((msg.message_type == MatrixMessageType::Text && msg.data is None) ==> (plan matches
        SendPlan::PlainText { target, content } && target == msg.target && content == msg.content))
    &&& (msg.message_type == MatrixMessageType::Text ==> (msg.data matches Some(
        MatrixMessageDataField::Mentions(m),
    ) ==> ((m@.len() == 0 ==> (plan matches SendPlan::PlainText { target, content } && target
        == msg.target && content == msg.content)) && (m@.len() > 0 ==> (plan matches
        SendPlan::AtText { target, content, mentions } && target == msg.target && content
        == msg.content && mentions == m)))))
    &&& ((msg.message_type == MatrixMessageType::Image || msg.message_type
        == MatrixMessageType::Video) ==> (msg.data matches Some(MatrixMessageDataField::Blob(b))
        ==> (plan matches SendPlan::SaveAndSendImage { target, blob } && target == msg.target
        && blob == b)))
    &&& (msg.message_type == MatrixMessageType::File ==> (msg.data matches Some(
        MatrixMessageDataField::Blob(b),
    ) ==> (plan matches SendPlan::SaveAndSendFile { target, blob } && target == msg.target && blob
        == b)))
}

/// Classifies one send command. Text without mentions, or with an empty
/// mention list, is a plain-text send; text with mentions is a mention send;
/// image and video kinds with a blob persist it and send an image; the file
/// kind with a blob persists it and sends a file. Every other pairing is an
/// invalid payload.
pub fn classify_send(msg: MatrixRequestDataMessage) -> (r: Result<SendPlan, AgentError>)
    ensures
        (msg.message_type == MatrixMessageType::Text && msg.data is None) ==> (r matches Ok(
            SendPlan::PlainText { target, content },
        ) && target == msg.target && content == msg.content),
        msg.message_type == MatrixMessageType::Text ==> (msg.data matches Some(
            MatrixMessageDataField::Mentions(m),
        ) ==> ((m@.len() == 0 ==> (r matches Ok(SendPlan::PlainText { target, content }) && target
            == msg.target && content == msg.content)) && (m@.len() > 0 ==> (r matches Ok(
            SendPlan::AtText { target, content, mentions },
        ) && target == msg.target && content == msg.content && mentions == m)))),
        (msg.message_type == MatrixMessageType::Image || msg.message_type
            == MatrixMessageType::Video) ==> (msg.data matches Some(
            MatrixMessageDataField::Blob(b),
        ) ==> (r matches Ok(SendPlan::SaveAndSendImage { target, blob }) && target == msg.target
            && blob == b)),
        msg.message_type == MatrixMessageType::File ==> (msg.data matches Some(
            MatrixMessageDataField::Blob(b),
        ) ==> (r matches Ok(SendPlan::SaveAndSendFile { target, blob }) && target == msg.target
            && blob == b)),
        !spec_send_shape_ok(msg) <==> (r matches Err(e) && e matches AgentError::InvalidPayload(
            _,
        )),
        r is Err ==> (r matches Err(e) && e matches AgentError::InvalidPayload(_)),
        r matches Ok(plan) ==> spec_send_plan_matches(msg, plan),
{
    match (msg.message_type, msg.data) {
        (MatrixMessageType::Text, None) => Ok(
            SendPlan::PlainText { target: msg.target, content: msg.content },
        ),
        (MatrixMessageType::Text, Some(MatrixMessageDataField::Mentions(mentions))) => {
            if mentions.len() == 0 {
                Ok(SendPlan::PlainText { target: msg.target, content: msg.content })
            } else {
                Ok(SendPlan::AtText { target: msg.target, content: msg.content, mentions })
            }
        },
        (MatrixMessageType::Image, Some(MatrixMessageDataField::Blob(blob))) => Ok(
            SendPlan::SaveAndSendImage { target: msg.target, blob },
        ),
        (MatrixMessageType::Video, Some(MatrixMessageDataField::Blob(blob))) => Ok(
            SendPlan::SaveAndSendImage { target: msg.target, blob },
        ),
        (MatrixMessageType::File, Some(MatrixMessageDataField::Blob(blob))) => Ok(
            SendPlan::SaveAndSendFile { target: msg.target, blob },
        ),
        _ => Err(
            AgentError::InvalidPayload(
                String::from_str("message type and data are mismatched"),
            ),
        ),
    }
}

/// The file name a blob is persisted under: its own name when it has a
/// non-empty one, else the hexadecimal MD5 of its bytes.
pub fn media_save_name(blob: &MatrixMessageDataBlob) -> (r: String)
    ensures
        (blob.name matches Some(n) && n@.len() > 0) ==> r@ == blob.name.unwrap()@,
        (blob.name is None || blob.name.unwrap()@.len() == 0) ==> r@ == crate::utils::spec_hex_upper(
            crate::utils::md5_of(blob.binary@),
        ),
{
    match &blob.name {
        Some(n) => {
            if n.unicode_len() > 0 {
                n.clone()
            } else {
                crate::utils::calculate_md5(&blob.binary)
            }
        },
        None => crate::utils::calculate_md5(&blob.binary),
    }
}

/// The text of a blob's save name.
pub open spec fn spec_media_save_name(blob: MatrixMessageDataBlob) -> Seq<char> {
    if blob.name matches Some(n) && n@.len() > 0 {
        blob.name.unwrap()@
    } else {
        crate::utils::spec_hex_upper(crate::utils::md5_of(blob.binary@))
    }
}

/// The path a blob is persisted at: the media directory under the session's
/// save path, then the blob's save name.
pub fn media_save_path(save_path: &str, blob: &MatrixMessageDataBlob) -> (r: String)
    ensures
        r@ == crate::utils::spec_join_path(
            crate::utils::spec_join_path(save_path@, "matrix_media"@),
            spec_media_save_name(*blob),
        ),
{
    let name = media_save_name(blob);
    let dir = crate::utils::join_path(save_path, "matrix_media");
    crate::utils::join_path(dir.as_str(), name.as_str())
}

} // verus!
