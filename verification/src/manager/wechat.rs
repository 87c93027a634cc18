//! The event translator: classifies one raw callback event and turns it into
//! at most one normalized outbound event.
//!
//! Media-carrying kinds cannot be finished without touching a disk or the
//! network, so translation may pause at a `Fetch`: the rim performs the named
//! read or download (probing with the bounded retry policy) and hands the
//! outcome to `complete_fetch`, which never fails — an exhausted fetch
//! degrades to the kind's placeholder text, as malformed bodies do.

use vstd::prelude::*;

use crate::error::AgentError;
use crate::manager::WechatManager;
use crate::text::{
    all_digits, digits_val, ends_with_str, eq_str, find_from, first_match_from,
    lemma_first_match_props, parse_u32, parse_u64, spec_ends_with, spec_split, spec_trim,
    spec_uint_str, split_str, trim_str, u32_to_string,
};
use crate::utils::{
    get_filename, join_path, spec_filename, spec_join_path, spec_with_extension, with_extension,
};
use crate::wechat::{WechatInstance, WechatMessage, WechatMessageAppType, WechatMessageType};
use crate::ws::send::{EventType, ReplyInfo, WebsocketEvent, WebsocketEventBase};
use crate::ws::{
    MatrixMessageDataBlob, MatrixMessageDataField, MatrixMessageDataLink, MatrixMessageDataLocation,
};
use crate::xml::{elem_text, spec_elem_text, spec_xml_attr, xml_attr};

verus! {

/// Which media a paused translation is waiting for.
#[derive(Clone, Copy, Debug, PartialEq, Eq, Structural)]
pub enum MediaKind {
    Image,
    Voice,
    Video,
    File,
    Sticker,
}

/// A translation waiting for its media: the event assembled so far, the kind
/// of media, and the name the payload will carry.
#[derive(Debug)]
pub struct PendingEvent {
    pub base: WebsocketEventBase,
    pub kind: MediaKind,
    pub name: Option<String>,
}

/// What the rim must fetch to finish a paused translation.
#[derive(Debug)]
pub enum MediaFetch {
    /// Probe the directory for the first candidate file that exists, with the
    /// bounded retry policy, and read it.
    ProbeImage { dir: String, candidates: Vec<String> },
    /// Read this file, probing with the bounded retry policy.
    ReadVoice { path: String },
    /// Read this file under the platform's document directory.
    ReadVideo { doc_relative: String },
    /// Read this file under the platform's document directory.
    ReadFile { doc_relative: String },
    /// Download from this address, decompressing gzip transparently.
    Download { url: String },
}

/// The outcome of translating one raw event.
#[derive(Debug)]
pub enum Translation {
    /// Silently no event.
    Dropped,
    /// One normalized event, ready to write.
    Emit(WebsocketEvent),
    /// One fetch to perform, then `complete_fetch` finishes the event.
    Fetch { fetch: MediaFetch, pending: PendingEvent },
}

/// A compound envelope's decoded meaning.
#[derive(Debug)]
pub enum EnumAppMessage {
    File,
    Sticker,
    Announcement(String),
    Reply(AppReply),
    Link(MatrixMessageDataLink),
}

/// A decoded reply reference: the replied-to text, the referenced message,
/// and whichever sender fields the envelope carried.
#[derive(Debug)]
pub struct AppReply {
    pub content: String,
    pub refer_msg_id: u64,
    pub chat_sender: Option<String>,
    pub user_sender: Option<String>,
}

/// The mention list an extra-info body carries: the trimmed text of its
/// `atuserlist` element, split at commas; nothing when the element is absent.
pub open spec fn spec_mentions(s: Seq<char>) -> Option<Seq<Seq<char>>> {
    match spec_elem_text(s, "atuserlist"@) {
        Some(t) => Some(spec_split(spec_trim(t), ","@)),
        None => None,
    }
}

/// Reads the mention list out of an extra-info body; any failure means no
/// mentions, never a hard error.
pub fn get_mentions(extra: &str) -> (r: Option<Vec<String>>)
    ensures
        r matches Some(v) ==> (spec_mentions(extra@) matches Some(w) && v.deep_view() == w),
        r is None ==> spec_mentions(extra@) is None,
{
    let sep = ",";
    proof {
        reveal_strlit(",");
    }
    match elem_text(extra, "atuserlist") {
        Some(t) => {
            let trimmed = trim_str(t.as_str());
            Some(split_str(trimmed.as_str(), sep))
        },
        None => None,
    }
}

/// The value of a digit string when it is one and fits the bound.
pub open spec fn spec_uint_text(t: Seq<char>, max: int) -> Option<int> {
    if t.len() > 0 && all_digits(t) && digits_val(t) <= max {
        Some(digits_val(t))
    } else {
        None
    }
}

/// The four location attributes, in wire order: x, y, place name, label.
pub open spec fn spec_location_parts(s: Seq<char>) -> Option<
    (Seq<char>, Seq<char>, Seq<char>, Seq<char>),
> {
    match (
        spec_xml_attr(s, "location"@, "x"@),
        spec_xml_attr(s, "location"@, "y"@),
        spec_xml_attr(s, "location"@, "poiname"@),
        spec_xml_attr(s, "location"@, "label"@),
    ) {
        (Some(x), Some(y), Some(n), Some(l)) => Some((x, y, n, l)),
        _ => None,
    }
}

/// A location body translates when all four attributes are present and both
/// coordinates are decimal numbers.
pub open spec fn spec_location_ok(s: Seq<char>) -> bool {
    match spec_location_parts(s) {
        Some(p) => crate::text::is_decimal(p.0) && crate::text::is_decimal(p.1),
        None => false,
    }
}

/// Decodes a location body: x is the latitude, y the longitude, both kept as
/// decimal text; a missing attribute or a coordinate outside the plain
/// decimal shape (exponent forms included) is a hard translation failure for
/// this event, which the caller degrades to the location placeholder.
pub fn parse_location(msg: &str) -> (r: Result<MatrixMessageDataLocation, AgentError>)
    ensures
        r is Ok <==> spec_location_ok(msg@),
        r matches Ok(loc) ==> (spec_location_parts(msg@) matches Some(p) && loc.latitude@ == p.0
            && loc.longitude@ == p.1 && loc.name@ == p.2 && loc.address@ == p.3),
        r is Err ==> (r matches Err(e) && e matches AgentError::TranslationFailure(_)),
{
    let x = xml_attr(msg, "location", "x");
    let y = xml_attr(msg, "location", "y");
    let name = xml_attr(msg, "location", "poiname");
    let label = xml_attr(msg, "location", "label");
    match (x, y, name, label) {
        (Some(x), Some(y), Some(name), Some(label)) => {
            if crate::text::is_decimal_str(x.as_str()) && crate::text::is_decimal_str(y.as_str()) {
                Ok(
                    MatrixMessageDataLocation {
                        name,
                        address: label,
                        longitude: y,
                        latitude: x,
                    },
                )
            } else {
                Err(
                    AgentError::TranslationFailure(
                        String::from_str("location coordinates are not decimal"),
                    ),
                )
            }
        },
        _ => Err(AgentError::TranslationFailure(String::from_str("location attributes missing"))),
    }
}

/// The envelope's numeric sub-type code.
pub open spec fn spec_app_code(s: Seq<char>) -> Option<int> {
    match spec_elem_text(s, "type"@) {
        Some(t) => spec_uint_text(t, u32::MAX as int),
        None => None,
    }
}

/// The referenced message id inside the envelope's reply block.
pub open spec fn spec_app_reply_id(s: Seq<char>) -> Option<int> {
    match spec_elem_text(s, "refermsg"@) {
        Some(span) => match spec_elem_text(span, "svrid"@) {
            Some(t) => spec_uint_text(t, u64::MAX as int),
            None => None,
        },
        None => None,
    }
}

/// An envelope decodes when its sub-type code, title and description are all
/// present, and its reply block, when there is one, carries a numeric
/// referenced-message id.
pub open spec fn spec_app_ok(s: Seq<char>) -> bool {
    &&& spec_app_code(s) is Some
    &&& spec_elem_text(s, "title"@) is Some
    &&& spec_elem_text(s, "des"@) is Some
    &&& (spec_elem_text(s, "refermsg"@) is Some ==> spec_app_reply_id(s) is Some)
}

/// An optional string field equals an optional text.
pub open spec fn spec_opt_text(o: Option<String>, t: Option<Seq<char>>) -> bool {
    match t {
        Some(v) => o matches Some(x) && x@ == v,
        None => o is None,
    }
}

/// Decodes a compound envelope by its sub-type code: a file or sticker
/// delegates to the media paths, a reply carries its reference, a notice with
/// an announcement becomes the announcement, and everything else is a link
/// card with best-effort fields.
pub fn parse_app(msg: &str) -> (r: Result<EnumAppMessage, AgentError>)
    ensures
        r is Ok <==> spec_app_ok(msg@),
        r is Err ==> (r matches Err(e) && e matches AgentError::TranslationFailure(_)),
        spec_app_ok(msg@) ==> ({
            let code = spec_app_code(msg@).unwrap();
            let title = spec_elem_text(msg@, "title"@).unwrap();
            let des = spec_elem_text(msg@, "des"@).unwrap();
            &&& (code == 6 ==> r == Ok::<EnumAppMessage, AgentError>(EnumAppMessage::File))
            &&& (code == 8 ==> r == Ok::<EnumAppMessage, AgentError>(EnumAppMessage::Sticker))
            &&& ((code == 57 && spec_app_reply_id(msg@) is Some) ==> (r matches Ok(
                EnumAppMessage::Reply(ar),
            ) && ar.content@ == title && ar.refer_msg_id as int == spec_app_reply_id(
                msg@,
            ).unwrap() && spec_opt_text(
                ar.chat_sender,
                spec_elem_text(spec_elem_text(msg@, "refermsg"@).unwrap(), "chatusr"@),
            ) && spec_opt_text(
                ar.user_sender,
                spec_elem_text(spec_elem_text(msg@, "refermsg"@).unwrap(), "fromusr"@),
            )))
            &&& ((code == 87 && spec_elem_text(msg@, "textannouncement"@) is Some) ==> (r matches
                Ok(EnumAppMessage::Announcement(a)) && a@ == spec_elem_text(
                msg@,
                "textannouncement"@,
            ).unwrap()))
            &&& ((code != 6 && code != 8 && !(code == 57 && spec_app_reply_id(msg@) is Some) && !(
            code == 87 && spec_elem_text(msg@, "textannouncement"@) is Some)) ==> (r matches Ok(
                EnumAppMessage::Link(l),
            ) && l.title@ == title && l.des@ == des && (match spec_elem_text(msg@, "url"@) {
                Some(u) => l.url@ == u,
                None => l.url@.len() == 0,
            })))
        }),
{
    let code_text = elem_text(msg, "type");
    let title = elem_text(msg, "title");
    let des = elem_text(msg, "des");
    let (code_text, title, des) = match (code_text, title, des) {
        (Some(c), Some(t), Some(d)) => (c, t, d),
        _ => {
            return Err(
                AgentError::TranslationFailure(String::from_str("envelope fields missing")),
            );
        },
    };
    let code = match parse_u32(code_text.as_str()) {
        Some(c) => c,
        None => {
            return Err(
                AgentError::TranslationFailure(String::from_str("envelope sub-type not numeric")),
            );
        },
    };
    let app_type = WechatMessageAppType::from_code(code);
    let reply_block = elem_text(msg, "refermsg");
    let refer_msg_id: Option<u64> = match &reply_block {
        Some(span) => {
            match elem_text(span.as_str(), "svrid") {
                Some(id_text) => {
                    match parse_u64(id_text.as_str()) {
                        Some(id) => Some(id),
                        None => {
                            return Err(
                                AgentError::TranslationFailure(
                                    String::from_str("reply block has no numeric reference"),
                                ),
                            );
                        },
                    }
                },
                None => {
                    return Err(
                        AgentError::TranslationFailure(
                            String::from_str("reply block has no numeric reference"),
                        ),
                    );
                },
            }
        },
        None => None,
    };
    if app_type == WechatMessageAppType::File {
        return Ok(EnumAppMessage::File);
    }
    if app_type == WechatMessageAppType::Sticker {
        return Ok(EnumAppMessage::Sticker);
    }
    if app_type == WechatMessageAppType::Reply {
        match (reply_block, refer_msg_id) {
            (Some(span), Some(refer_msg_id)) => {
                let chat_sender = elem_text(span.as_str(), "chatusr");
                let user_sender = elem_text(span.as_str(), "fromusr");
                return Ok(
                    EnumAppMessage::Reply(
                        AppReply { content: title, refer_msg_id, chat_sender, user_sender },
                    ),
                );
            },
            _ => {},
        }
    }
    if app_type == WechatMessageAppType::Notice {
        match elem_text(msg, "textannouncement") {
            Some(a) => {
                return Ok(EnumAppMessage::Announcement(a));
            },
            None => {},
        }
    }
    let url = match elem_text(msg, "url") {
        Some(u) => u,
        None => String::new(),
    };
    Ok(EnumAppMessage::Link(MatrixMessageDataLink { title, des, url }))
}

/// The private-call status text: the numeric status names a start or an end,
/// an unknown status is reported with its number, a bubble body is quoted,
/// and anything else is empty (no event follows).
pub open spec fn spec_voip_text(s: Seq<char>) -> Seq<char> {
    match spec_elem_text(s, "status"@) {
        Some(t) => match spec_uint_text(t, u32::MAX as int) {
            Some(st) => if st == 1 {
                "VoIP: Started a call"@
            } else if st == 2 {
                "VoIP: Call ended"@
            } else {
                "VoIP: Unknown status: "@ + spec_uint_str(st as nat)
            },
            None => spec_voip_bubble(s),
        },
        None => spec_voip_bubble(s),
    }
}

/// The bubble fallback of the private-call text.
pub open spec fn spec_voip_bubble(s: Seq<char>) -> Seq<char> {
    match spec_elem_text(s, "VoIPBubbleMsg"@) {
        Some(span) => match spec_elem_text(span, "msg"@) {
            Some(b) => "VoIP: "@ + b,
            None => Seq::empty(),
        },
        None => Seq::empty(),
    }
}

/// Decodes a private-call body through either of its two shapes.
pub fn parse_private_voip(msg: &str) -> (r: String)
    ensures
        r@ == spec_voip_text(msg@),
{
    match elem_text(msg, "status") {
        Some(t) => {
            match parse_u32(t.as_str()) {
                Some(st) => {
                    if st == 1 {
                        String::from_str("VoIP: Started a call")
                    } else if st == 2 {
                        String::from_str("VoIP: Call ended")
                    } else {
                        let mut out = String::from_str("VoIP: Unknown status: ");
                        out.append(u32_to_string(st).as_str());
                        out
                    }
                },
                None => voip_bubble(msg),
            }
        },
        None => voip_bubble(msg),
    }
}

fn voip_bubble(msg: &str) -> (r: String)
    ensures
        r@ == spec_voip_bubble(msg@),
{
    match elem_text(msg, "VoIPBubbleMsg") {
        Some(span) => {
            match elem_text(span.as_str(), "msg") {
                Some(b) => {
                    let mut out = String::from_str("VoIP: ");
                    out.append(b.as_str());
                    out
                },
                None => String::new(),
            }
        },
        None => String::new(),
    }
}

/// A hint body's best-effort text: when the body is one element holding plain
/// text, that text; otherwise the body unchanged.
pub open spec fn spec_hint_text(s: Seq<char>) -> Seq<char> {
    if s.len() > 0 && s[0] == '<' {
        match first_match_from(s, seq!['>'], 0) {
            Some(gt) => if 1 < gt && gt <= s.len() {
                match spec_elem_text(s, s.subrange(1, gt)) {
                    Some(t) => if first_match_from(t, seq!['<'], 0) is None {
                        t
                    } else {
                        s
                    },
                    None => s,
                }
            } else {
                s
            },
            None => s,
        }
    } else {
        s
    }
}

/// Decodes a hint body (a revoke or similar), best effort; only an empty body
/// is an error.
pub fn parse_hint(msg: &str) -> (r: Result<String, AgentError>)
    ensures
        msg@.len() == 0 ==> (r matches Err(e) && e matches AgentError::TranslationFailure(_)),
        msg@.len() > 0 ==> (r matches Ok(t) && t@ == spec_hint_text(msg@)),
{
    let slen = msg.unicode_len();
    if slen == 0 {
        return Err(AgentError::TranslationFailure(String::from_str("no data in hint body")));
    }
    let gt = ">";
    let lt = "<";
    proof {
        reveal_strlit(">");
        reveal_strlit("<");
        assert(gt@ =~= seq!['>']);
        assert(lt@ =~= seq!['<']);
    }
    if msg.get_char(0) != '<' {
        return Ok(String::from_str(msg));
    }
    let g = match find_from(msg, gt, 0) {
        Some(g) => g,
        None => {
            return Ok(String::from_str(msg));
        },
    };
    proof {
        lemma_first_match_props(msg@, gt@, 0);
    }
    if !(1 < g) {
        return Ok(String::from_str(msg));
    }
    let name = msg.substring_char(1, g);
    match elem_text(msg, name) {
        Some(t) => {
            match find_from(t.as_str(), lt, 0) {
                None => Ok(t),
                Some(_) => Ok(String::from_str(msg)),
            }
        },
        None => Ok(String::from_str(msg)),
    }
}

/// A system body's text: empty when the body does not carry a system tag or
/// carries a tickle or revoke sub-type (those are resent through the hint
/// path), else the body unchanged.
pub open spec fn spec_system_text(s: Seq<char>) -> Seq<char> {
    match spec_xml_attr(s, "sysmsg"@, "type"@) {
        Some(t) => if t == "pat"@ || t == "revokemsg"@ {
            Seq::empty()
        } else {
            s
        },
        None => Seq::empty(),
    }
}

/// Decodes a system body; only an empty body is an error.
pub fn parse_system_message(msg: &str) -> (r: Result<String, AgentError>)
    ensures
        msg@.len() == 0 ==> (r matches Err(e) && e matches AgentError::TranslationFailure(_)),
        msg@.len() > 0 ==> (r matches Ok(t) && t@ == spec_system_text(msg@)),
{
    let slen = msg.unicode_len();
    if slen == 0 {
        return Err(AgentError::TranslationFailure(String::from_str("no data in system body")));
    }
    match xml_attr(msg, "sysmsg", "type") {
        Some(t) => {
            if eq_str(t.as_str(), "pat") || eq_str(t.as_str(), "revokemsg") {
                Ok(String::new())
            } else {
                Ok(String::from_str(msg))
            }
        },
        None => Ok(String::new()),
    }
}

/// The event kind a finished fetch produces.
pub open spec fn spec_media_event_type(k: MediaKind) -> EventType {
    match k {
        MediaKind::Image => EventType::Image,
        MediaKind::Voice => EventType::Audio,
        MediaKind::Video => EventType::Video,
        MediaKind::File => EventType::File,
        MediaKind::Sticker => EventType::Image,
    }
}

/// The placeholder text an exhausted fetch degrades to.
pub open spec fn spec_media_placeholder(k: MediaKind) -> Seq<char> {
    match k {
        MediaKind::Image => "[图片下载失败]"@,
        MediaKind::Voice => "[语音下载失败]"@,
        MediaKind::Video => "[视频下载失败]"@,
        MediaKind::File => "[文件下载失败]"@,
        MediaKind::Sticker => "[表情下载失败]"@,
    }
}

/// Two event bases agree on everything but the content.
pub open spec fn spec_base_like_except_content(a: WebsocketEventBase, b: WebsocketEventBase) -> bool {
    &&& a.mxid == b.mxid
    &&& a.id == b.id
    &&& a.event_type == b.event_type
    &&& a.timestamp_ms == b.timestamp_ms
    &&& a.sender == b.sender
    &&& a.target == b.target
    &&& a.reply == b.reply
}

/// The base with another event kind.
pub open spec fn spec_base_with_type(b: WebsocketEventBase, t: EventType) -> WebsocketEventBase {
    WebsocketEventBase {
        mxid: b.mxid,
        id: b.id,
        event_type: t,
        timestamp_ms: b.timestamp_ms,
        sender: b.sender,
        target: b.target,
        content: b.content,
        reply: b.reply,
    }
}

fn placeholder_string(kind: MediaKind) -> (r: String)
    ensures
        r@ == spec_media_placeholder(kind),
{
    match kind {
        MediaKind::Image => String::from_str("[图片下载失败]"),
        MediaKind::Voice => String::from_str("[语音下载失败]"),
        MediaKind::Video => String::from_str("[视频下载失败]"),
        MediaKind::File => String::from_str("[文件下载失败]"),
        MediaKind::Sticker => String::from_str("[表情下载失败]"),
    }
}

/// Finishes a paused translation with the fetched bytes, or degrades to the
/// kind's placeholder text when the fetch came back empty-handed; a missing
/// file is never a hard error.
pub fn complete_fetch(pending: PendingEvent, data: Option<Vec<u8>>) -> (ev: WebsocketEvent)
    ensures
        data matches Some(bytes) ==> ({
            &&& ev.base == spec_base_with_type(pending.base, spec_media_event_type(pending.kind))
            &&& (ev.extra matches Some(MatrixMessageDataField::Blob(b)) && b.name == pending.name
                && b.binary == bytes)
        }),
        data is None ==> ({
            &&& ev.extra is None
            &&& spec_base_like_except_content(ev.base, pending.base)
            &&& ev.base.content@ == spec_media_placeholder(pending.kind)
        }),
{
    let PendingEvent { mut base, kind, name } = pending;
    match data {
        Some(bytes) => {
            base.event_type = match kind {
                MediaKind::Image => EventType::Image,
                MediaKind::Voice => EventType::Audio,
                MediaKind::Video => EventType::Video,
                MediaKind::File => EventType::File,
                MediaKind::Sticker => EventType::Image,
            };
            WebsocketEvent {
                base,
                extra: Some(
                    MatrixMessageDataField::Blob(
                        MatrixMessageDataBlob { name, binary: bytes },
                    ),
                ),
            }
        },
        None => {
            base.content = placeholder_string(kind);
            WebsocketEvent { base, extra: None }
        },
    }
}

/// Whether an event is a phone-originated duplicate that must be dropped to
/// avoid double delivery: flagged as such and not itself a hint.
pub open spec fn spec_phone_dup(msg: WechatMessage) -> bool {
    (msg.is_send_by_phone matches Some(p) && p == 0) && msg.msg_type != WechatMessageType::Hint
}

/// The common fields of the event an inbound line denotes, before kind
/// dispatch: for an inbound (not self-sent) event the sender is the remote
/// identifier, and outside a group conversation the target is the session
/// owner's own identifier; a self-sent event keeps self as sender and the
/// remote side as target.
pub open spec fn spec_base_event(msg: WechatMessage, ins: WechatInstance, now_ms: i64) -> WebsocketEventBase {
    WebsocketEventBase {
        mxid: ins.mxid,
        id: msg.message_id,
        event_type: EventType::Text,
        timestamp_ms: now_ms,
        sender: if msg.is_send_message == 0 {
            msg.wechat_id
        } else {
            msg.self_id
        },
        target: if msg.is_send_message == 0 && !spec_ends_with(msg.sender@, "@chatroom"@) {
            msg.self_id
        } else {
            msg.sender
        },
        content: msg.message,
        reply: None,
    }
}

/// Two event bases agree on owner, id, timestamp, sender and target.
pub open spec fn spec_base_core(a: WebsocketEventBase, b: WebsocketEventBase) -> bool {
    &&& a.mxid == b.mxid
    &&& a.id == b.id
    &&& a.timestamp_ms == b.timestamp_ms
    &&& a.sender == b.sender
    &&& a.target == b.target
}

/// The translation degraded into a plain-text event whose content is the
/// given placeholder text.
pub open spec fn spec_text_placeholder(
    r: Result<Translation, AgentError>,
    base: WebsocketEventBase,
    text: Seq<char>,
) -> bool {
    r matches Ok(Translation::Emit(ev)) && ev.extra is None && spec_base_core(ev.base, base)
        && ev.base.event_type == EventType::Text && ev.base.reply is None && ev.base.content@
        == text
}

/// What translating a sticker body yields: a download when the body names a
/// remote address and a key, else the sticker placeholder.
pub open spec fn spec_sticker_outcome(
    r: Result<Translation, AgentError>,
    s: Seq<char>,
    base: WebsocketEventBase,
) -> bool {
    match (spec_xml_attr(s, "emoji"@, "cdnurl"@), spec_xml_attr(s, "emoji"@, "aeskey"@)) {
        (Some(u), Some(k)) => r matches Ok(Translation::Fetch { fetch, pending }) && pending.base
            == base && pending.kind == MediaKind::Sticker && (pending.name matches Some(nm) && nm@
            == k) && (fetch matches MediaFetch::Download { url } && url@ == u),
        _ => spec_text_placeholder(r, base, spec_media_placeholder(MediaKind::Sticker)),
    }
}

/// The file a video event is read from, under the document directory: the
/// event's own path, or the thumbnail path with the video extension when the
/// event names none.
pub open spec fn spec_video_rel(msg: WechatMessage) -> Seq<char> {
    if msg.file_path@.len() == 0 {
        spec_with_extension(msg.thumb_path@, "mp4"@)
    } else {
        msg.file_path@
    }
}

/// What translating one raw event yields, by kind, once its session is
/// resolved. This is the translator's full classification table.
pub open spec fn spec_translation_matches(
    r: Result<Translation, AgentError>,
    msg: WechatMessage,
    ins: WechatInstance,
    now_ms: i64,
) -> bool {
    let base = spec_base_event(msg, ins, now_ms);
    match msg.msg_type {
        WechatMessageType::Unknown => r == Ok::<Translation, AgentError>(
            Translation::Emit(WebsocketEvent { base, extra: None }),
        ),
        WechatMessageType::Text => (match spec_mentions(msg.extra_info@) {
            Some(w) => r matches Ok(Translation::Emit(ev)) && ev.base == base && (ev.extra matches
                Some(MatrixMessageDataField::Mentions(list)) && list.deep_view() == w),
            None => r == Ok::<Translation, AgentError>(
                Translation::Emit(WebsocketEvent { base, extra: None }),
            ),
        }),
        WechatMessageType::Image => ({
            let f = spec_filename(msg.file_path@);
            if crate::utils::spec_has_filename(msg.file_path@) {
                r matches Ok(Translation::Fetch { fetch, pending }) && pending.base == base
                    && pending.kind == MediaKind::Image && (pending.name matches Some(nm) && nm@
                    == f) && (fetch matches MediaFetch::ProbeImage { dir, candidates } && dir@
                    == spec_join_path(ins.save_path@, msg.self_id@) && candidates@.len() == 4
                    && candidates@[0]@ == f && candidates@[1]@ == spec_with_extension(f, "png"@)
                    && candidates@[2]@ == spec_with_extension(f, "gif"@) && candidates@[3]@
                    == spec_with_extension(f, "jpg"@))
            } else {
                spec_text_placeholder(r, base, spec_media_placeholder(MediaKind::Image))
            }
        }),
        WechatMessageType::Voice => (match spec_xml_attr(
            msg.message@,
            "voicemsg"@,
            "clientmsgid"@,
        ) {
            Some(id) => r matches Ok(Translation::Fetch { fetch, pending }) && pending.base == base
                && pending.kind == MediaKind::Voice && (pending.name matches Some(nm) && nm@ == id
                + ".amr"@) && (fetch matches MediaFetch::ReadVoice { path } && path@
                == spec_join_path(spec_join_path(ins.save_path@, msg.self_id@), id + ".amr"@)),
            None => spec_text_placeholder(r, base, spec_media_placeholder(MediaKind::Voice)),
        }),
        WechatMessageType::Video => ({
            let rel = spec_video_rel(msg);
            if crate::utils::spec_has_filename(rel) {
                r matches Ok(Translation::Fetch { fetch, pending }) && pending.base == base
                    && pending.kind == MediaKind::Video && (pending.name matches Some(nm) && nm@
                    == spec_filename(rel)) && (fetch matches MediaFetch::ReadVideo { doc_relative }
                    && doc_relative@ == rel)
            } else {
                spec_text_placeholder(r, base, spec_media_placeholder(MediaKind::Video))
            }
        }),
        WechatMessageType::Sticker => spec_sticker_outcome(r, msg.message@, base),
        WechatMessageType::Location => (if spec_location_ok(msg.message@) {
            let p = spec_location_parts(msg.message@).unwrap();
            r matches Ok(Translation::Emit(ev)) && ev.base == spec_base_with_type(
                base,
                EventType::Location,
            ) && (ev.extra matches Some(MatrixMessageDataField::Location(loc)) && loc.latitude@
                == p.0 && loc.longitude@ == p.1 && loc.name@ == p.2 && loc.address@ == p.3)
        } else {
            spec_text_placeholder(r, base, "[位置解析失败]"@)
        }),
        WechatMessageType::App => (if !spec_app_ok(msg.message@) {
            spec_text_placeholder(r, base, "[应用解析失败]"@)
        } else {
            let code = spec_app_code(msg.message@).unwrap();
            let title = spec_elem_text(msg.message@, "title"@).unwrap();
            let des = spec_elem_text(msg.message@, "des"@).unwrap();
            if code == 6 {
                let f = spec_filename(msg.file_path@);
                if crate::utils::spec_has_filename(msg.file_path@) {
                    r matches Ok(Translation::Fetch { fetch, pending }) && pending.base == base
                        && pending.kind == MediaKind::File && (pending.name matches Some(nm) && nm@
                        == f) && (fetch matches MediaFetch::ReadFile { doc_relative }
                        && doc_relative@ == msg.file_path@)
                } else {
                    spec_text_placeholder(r, base, spec_media_placeholder(MediaKind::File))
                }
            } else if code == 8 {
                spec_sticker_outcome(r, msg.message@, base)
            } else if code == 57 && spec_app_reply_id(msg.message@) is Some {
                let span = spec_elem_text(msg.message@, "refermsg"@).unwrap();
                let chat = spec_elem_text(span, "chatusr"@);
                let from = spec_elem_text(span, "fromusr"@);
                if chat is None && from is None {
                    r matches Err(e) && e matches AgentError::TranslationFailure(_)
                } else {
                    r matches Ok(Translation::Emit(ev)) && ev.extra is None && spec_base_core(
                        ev.base,
                        base,
                    ) && ev.base.event_type == EventType::Text && ev.base.content@ == title && (
                    ev.base.reply matches Some(ri) && ri.id as int == spec_app_reply_id(
                        msg.message@,
                    ).unwrap() && ri.sender@ == (if chat is Some {
                        chat.unwrap()
                    } else {
                        from.unwrap()
                    }))
                }
            } else if code == 87 && spec_elem_text(msg.message@, "textannouncement"@) is Some {
                r matches Ok(Translation::Emit(ev)) && ev.extra is None && spec_base_core(
                    ev.base,
                    base,
                ) && ev.base.event_type == EventType::Notice && ev.base.reply is None
                    && ev.base.content@ == spec_elem_text(msg.message@, "textannouncement"@).unwrap()
            } else {
                r matches Ok(Translation::Emit(ev)) && ev.base == spec_base_with_type(
                    base,
                    EventType::App,
                ) && (ev.extra matches Some(MatrixMessageDataField::Link(l)) && l.title@ == title
                    && l.des@ == des && (match spec_elem_text(msg.message@, "url"@) {
                    Some(u) => l.url@ == u,
                    None => l.url@.len() == 0,
                }))
            }
        }),
        WechatMessageType::PrivateVoIP => ({
            let t = spec_voip_text(msg.message@);
            if t.len() == 0 {
                r == Ok::<Translation, AgentError>(Translation::Dropped)
            } else {
                r matches Ok(Translation::Emit(ev)) && ev.extra is None && spec_base_core(
                    ev.base,
                    base,
                ) && ev.base.event_type == EventType::VoIP && ev.base.reply is None
                    && ev.base.content@ == t
            }
        }),
        WechatMessageType::LastMessage => r == Ok::<Translation, AgentError>(Translation::Dropped),
        WechatMessageType::Hint => (if msg.message@.len() == 0 {
            spec_text_placeholder(r, base, "[撤回消息解析失败]"@)
        } else {
            r matches Ok(Translation::Emit(ev)) && ev.extra is None && spec_base_core(
                ev.base,
                base,
            ) && ev.base.event_type == EventType::Revoke && ev.base.reply is None
                && ev.base.content@ == spec_hint_text(msg.message@)
        }),
        WechatMessageType::System => (if msg.sender@ == "weixin"@ || msg.is_send_message == 1 {
            r == Ok::<Translation, AgentError>(Translation::Dropped)
        } else if msg.message@.len() == 0 {
            spec_text_placeholder(r, base, "[系统消息解析失败]"@)
        } else {
            let t = spec_system_text(msg.message@);
            if t.len() == 0 {
                r == Ok::<Translation, AgentError>(Translation::Dropped)
            } else {
                r matches Ok(Translation::Emit(ev)) && ev.extra is None && ev.base.mxid == base.mxid
                    && ev.base.id == base.id && ev.base.timestamp_ms == base.timestamp_ms
                    && ev.base.sender == base.sender && ev.base.event_type == EventType::System
                    && ev.base.reply is None && ev.base.content@ == t && ev.base.target == (if (t
                    == "You recalled a message"@ || t == "你撤回了一条消息"@) && !spec_ends_with(
                    msg.sender@,
                    "@chatroom"@,
                ) {
                    msg.wechat_id
                } else {
                    base.target
                })
            }
        }),
    }
}

/// Translates a sticker body into its download, or the placeholder.
fn sticker_translation(message: &str, base: WebsocketEventBase) -> (r: Translation)
    requires
        base.event_type == EventType::Text,
        base.reply is None,
    ensures
        spec_sticker_outcome(Ok::<Translation, AgentError>(r), message@, base),
{
    let url = xml_attr(message, "emoji", "cdnurl");
    let key = xml_attr(message, "emoji", "aeskey");
    match (url, key) {
        (Some(url), Some(key)) => Translation::Fetch {
            fetch: MediaFetch::Download { url },
            pending: PendingEvent { base, kind: MediaKind::Sticker, name: Some(key) },
        },
        _ => {
            let mut b = base;
            b.content = placeholder_string(MediaKind::Sticker);
            Translation::Emit(WebsocketEvent { base: b, extra: None })
        },
    }
}

impl WechatManager {
    /// Translates one raw callback line into at most one outbound event,
    /// resolving the owning session by process identifier. A flagged
    /// phone-originated duplicate that is not a hint is dropped before
    /// anything else; an unknown process fails the event; after that the
    /// classification table of `spec_translation_matches` decides. Malformed
    /// bodies degrade to their kind's placeholder event; the one remaining
    /// hard failure is a reply envelope naming no sender at all.
    pub fn handle_wechat_callback(&self, msg: WechatMessage, now_ms: i64) -> (r: Result<
        Translation,
        AgentError,
    >)
        requires
            self.wf(),
        ensures
            spec_phone_dup(msg) ==> r == Ok::<Translation, AgentError>(Translation::Dropped),
            (!spec_phone_dup(msg) && !self.pid_has(msg.pid)) ==> (r matches Err(e) && e matches
                AgentError::NotFound(_)),
            (!spec_phone_dup(msg) && self.pid_has(msg.pid)) ==> spec_translation_matches(
                r,
                msg,
                self.pid_session(msg.pid),
                now_ms,
            ),
    {
        let dup = match msg.is_send_by_phone {
            Some(p) => p == 0,
            None => false,
        };
        let is_hint = match msg.msg_type {
            WechatMessageType::Hint => true,
            _ => false,
        };
        if dup && !is_hint {
            return Ok(Translation::Dropped);
        }
        let ins = match self.get_instance_by_pid(msg.pid) {
            Ok(i) => i,
            Err(e) => {
                return Err(e);
            },
        };
        let mut base = WebsocketEventBase {
            mxid: ins.mxid.clone(),
            id: msg.message_id,
            event_type: EventType::Text,
            timestamp_ms: now_ms,
            sender: msg.self_id.clone(),
            target: msg.sender.clone(),
            content: msg.message.clone(),
            reply: None,
        };
        if msg.is_send_message == 0 {
            base.sender = msg.wechat_id.clone();
            if !ends_with_str(msg.sender.as_str(), "@chatroom") {
                base.target = msg.self_id.clone();
            }
        }
        proof {
            assert(base == spec_base_event(msg, ins, now_ms));
        }
        match msg.msg_type {
            WechatMessageType::Unknown => Ok(Translation::Emit(WebsocketEvent { base, extra: None })),
            WechatMessageType::Text => {
                match get_mentions(msg.extra_info.as_str()) {
                    Some(list) => Ok(
                        Translation::Emit(
                            WebsocketEvent {
                                base,
                                extra: Some(MatrixMessageDataField::Mentions(list)),
                            },
                        ),
                    ),
                    None => Ok(Translation::Emit(WebsocketEvent { base, extra: None })),
                }
            },
            WechatMessageType::Image => {
                match get_filename(msg.file_path.as_str()) {
                    Ok(fname) => {
                        let dir = join_path(ins.save_path.as_str(), msg.self_id.as_str());
                        let mut candidates: Vec<String> = Vec::new();
                        candidates.push(fname.clone());
                        candidates.push(with_extension(fname.as_str(), "png"));
                        candidates.push(with_extension(fname.as_str(), "gif"));
                        candidates.push(with_extension(fname.as_str(), "jpg"));
                        Ok(
                            Translation::Fetch {
                                fetch: MediaFetch::ProbeImage { dir, candidates },
                                pending: PendingEvent {
                                    base,
                                    kind: MediaKind::Image,
                                    name: Some(fname),
                                },
                            },
                        )
                    },
                    Err(_) => {
                        let mut b = base;
                        b.content = placeholder_string(MediaKind::Image);
                        Ok(Translation::Emit(WebsocketEvent { base: b, extra: None }))
                    },
                }
            },
            WechatMessageType::Voice => {
                match xml_attr(msg.message.as_str(), "voicemsg", "clientmsgid") {
                    Some(id) => {
                        let mut fname = id;
                        fname.append(".amr");
                        let dir = join_path(ins.save_path.as_str(), msg.self_id.as_str());
                        let path = join_path(dir.as_str(), fname.as_str());
                        Ok(
                            Translation::Fetch {
                                fetch: MediaFetch::ReadVoice { path },
                                pending: PendingEvent {
                                    base,
                                    kind: MediaKind::Voice,
                                    name: Some(fname),
                                },
                            },
                        )
                    },
                    None => {
                        let mut b = base;
                        b.content = placeholder_string(MediaKind::Voice);
                        Ok(Translation::Emit(WebsocketEvent { base: b, extra: None }))
                    },
                }
            },
            WechatMessageType::Video => {
                let rel: String = if msg.file_path.unicode_len() == 0 {
                    with_extension(msg.thumb_path.as_str(), "mp4")
                } else {
                    msg.file_path.clone()
                };
                match get_filename(rel.as_str()) {
                    Ok(nm) => Ok(
                        Translation::Fetch {
                            fetch: MediaFetch::ReadVideo { doc_relative: rel },
                            pending: PendingEvent { base, kind: MediaKind::Video, name: Some(nm) },
                        },
                    ),
                    Err(_) => {
                        let mut b = base;
                        b.content = placeholder_string(MediaKind::Video);
                        Ok(Translation::Emit(WebsocketEvent { base: b, extra: None }))
                    },
                }
            },
            WechatMessageType::Sticker => Ok(sticker_translation(msg.message.as_str(), base)),
            WechatMessageType::Location => {
                match parse_location(msg.message.as_str()) {
                    Ok(loc) => {
                        let mut b = base;
                        b.event_type = EventType::Location;
                        Ok(
                            Translation::Emit(
                                WebsocketEvent {
                                    base: b,
                                    extra: Some(MatrixMessageDataField::Location(loc)),
                                },
                            ),
                        )
                    },
                    Err(_) => {
                        let mut b = base;
                        b.content = String::from_str("[位置解析失败]");
                        Ok(Translation::Emit(WebsocketEvent { base: b, extra: None }))
                    },
                }
            },
            WechatMessageType::App => {
                match parse_app(msg.message.as_str()) {
                    Err(_) => {
                        let mut b = base;
                        b.content = String::from_str("[应用解析失败]");
                        Ok(Translation::Emit(WebsocketEvent { base: b, extra: None }))
                    },
                    Ok(EnumAppMessage::File) => {
                        match get_filename(msg.file_path.as_str()) {
                            Ok(nm) => Ok(
                                Translation::Fetch {
                                    fetch: MediaFetch::ReadFile {
                                        doc_relative: msg.file_path.clone(),
                                    },
                                    pending: PendingEvent {
                                        base,
                                        kind: MediaKind::File,
                                        name: Some(nm),
                                    },
                                },
                            ),
                            Err(_) => {
                                let mut b = base;
                                b.content = placeholder_string(MediaKind::File);
                                Ok(Translation::Emit(WebsocketEvent { base: b, extra: None }))
                            },
                        }
                    },
                    Ok(EnumAppMessage::Sticker) => Ok(
                        sticker_translation(msg.message.as_str(), base),
                    ),
                    Ok(EnumAppMessage::Reply(ar)) => {
                        let sender: Option<String> = match (ar.chat_sender, ar.user_sender) {
                            (Some(c), _) => Some(c),
                            (None, Some(u)) => Some(u),
                            (None, None) => None,
                        };
                        match sender {
                            None => Err(
                                AgentError::TranslationFailure(
                                    String::from_str("reply names no sender"),
                                ),
                            ),
                            Some(s) => {
                                let mut b = base;
                                b.content = ar.content;
                                b.reply = Some(ReplyInfo { id: ar.refer_msg_id, sender: s });
                                Ok(Translation::Emit(WebsocketEvent { base: b, extra: None }))
                            },
                        }
                    },
                    Ok(EnumAppMessage::Announcement(a)) => {
                        let mut b = base;
                        b.event_type = EventType::Notice;
                        b.content = a;
                        Ok(Translation::Emit(WebsocketEvent { base: b, extra: None }))
                    },
                    Ok(EnumAppMessage::Link(l)) => {
                        let mut b = base;
                        b.event_type = EventType::App;
                        Ok(
                            Translation::Emit(
                                WebsocketEvent {
                                    base: b,
                                    extra: Some(MatrixMessageDataField::Link(l)),
                                },
                            ),
                        )
                    },
                }
            },
            WechatMessageType::PrivateVoIP => {
                let t = parse_private_voip(msg.message.as_str());
                if t.unicode_len() == 0 {
                    Ok(Translation::Dropped)
                } else {
                    let mut b = base;
                    b.event_type = EventType::VoIP;
                    b.content = t;
                    Ok(Translation::Emit(WebsocketEvent { base: b, extra: None }))
                }
            },
            WechatMessageType::LastMessage => Ok(Translation::Dropped),
            WechatMessageType::Hint => {
                match parse_hint(msg.message.as_str()) {
                    Err(_) => {
                        let mut b = base;
                        b.content = String::from_str("[撤回消息解析失败]");
                        Ok(Translation::Emit(WebsocketEvent { base: b, extra: None }))
                    },
                    Ok(t) => {
                        let mut b = base;
                        b.event_type = EventType::Revoke;
                        b.content = t;
                        Ok(Translation::Emit(WebsocketEvent { base: b, extra: None }))
                    },
                }
            },
            WechatMessageType::System => {
                if eq_str(msg.sender.as_str(), "weixin") || msg.is_send_message == 1 {
                    return Ok(Translation::Dropped);
                }
                match parse_system_message(msg.message.as_str()) {
                    Err(_) => {
                        let mut b = base;
                        b.content = String::from_str("[系统消息解析失败]");
                        Ok(Translation::Emit(WebsocketEvent { base: b, extra: None }))
                    },
                    Ok(t) => {
                        if t.unicode_len() == 0 {
                            Ok(Translation::Dropped)
                        } else {
                            let recalled = eq_str(t.as_str(), "You recalled a message") || eq_str(
                                t.as_str(),
                                "你撤回了一条消息",
                            );
                            let mut b = base;
                            b.event_type = EventType::System;
                            if recalled && !ends_with_str(msg.sender.as_str(), "@chatroom") {
                                b.target = msg.wechat_id.clone();
                            }
                            b.content = t;
                            Ok(Translation::Emit(WebsocketEvent { base: b, extra: None }))
                        }
                    },
                }
            },
        }
    }
}

/// A system event whose sender is the service's own pseudo-sender is never
/// emitted; one from any other sender, not self-originated, whose body
/// carries a system tag that is not resent through the hint path, is emitted
/// with the system kind.
pub proof fn lemma_system_filtering(
    r: Result<Translation, AgentError>,
    msg: WechatMessage,
    ins: WechatInstance,
    now_ms: i64,
)
    requires
        msg.msg_type == WechatMessageType::System,
        spec_translation_matches(r, msg, ins, now_ms),
    ensures
        msg.sender@ == "weixin"@ ==> r == Ok::<Translation, AgentError>(Translation::Dropped),
        (msg.sender@ != "weixin"@ && msg.is_send_message != 1 && spec_system_text(
            msg.message@,
        ).len() > 0) ==> (r matches Ok(Translation::Emit(ev)) && ev.base.event_type
            == EventType::System),
{
}

/// One more ingestion failure on a local connection, and whether that
/// connection must now be torn down (the budget is exceeded).
pub fn record_callback_failure(err_cnt: u8) -> (r: (u8, bool))
    requires
        err_cnt < u8::MAX,
    ensures
        r.0 == err_cnt + 1,
        r.1 == (err_cnt + 1 > crate::constants::MAX_WECHAT_CALLBACK_FAIL_COUNT),
{
    let next = err_cnt + 1;
    (next, next > crate::constants::MAX_WECHAT_CALLBACK_FAIL_COUNT)
}

} // verus!
