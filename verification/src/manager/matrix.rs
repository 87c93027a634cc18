//! The command dispatcher: matches one decoded control request to a registry
//! or session operation and determines its correlated reply.
//!
//! Dispatching is split in two so that no verified code waits on the network:
//! `handle_matrix_events` decides what to do and either replies at once or
//! names the session operation to perform; once the rim has performed it,
//! `command_reply` (or `complete_connect`, for connects) turns the outcome
//! into the one reply for that request.

use vstd::prelude::*;

use crate::manager::WechatManager;
use crate::wechat::{classify_send, SendPlan, WechatInstance};
use crate::ws::recv::{MatrixRequestDataField, WebsocketMatrixRequest};
use crate::ws::send::{CommandResponseData, WebsocketCommand};
use crate::ws::CommandType;

verus! {

/// One operation the rim performs against a session's hooked client.
#[derive(Debug)]
pub enum SessionOp {
    /// Start message, image and voice hooking for the session.
    HookMessage,
    /// Fetch the login QR image bytes.
    LoginQr,
    /// Query the login status.
    IsLogin,
    /// Query the session's own user record.
    GetSelf,
    /// Look one user up by identifier.
    GetUserInfo { wechat_id: String },
    /// Look one group up by identifier.
    GetGroupInfo { group_id: String },
    /// List a group's member identifiers.
    GetGroupMembers { group_id: String },
    /// One member's nickname inside a group.
    GetGroupMemberNickname { group_id: String, wechat_id: String },
    /// List the session's contacts.
    GetFriendList,
    /// List the session's groups.
    GetGroupList,
    /// Perform one classified send.
    Send(SendPlan),
}

/// What the dispatcher decided for one request.
#[derive(Debug)]
pub enum DispatchAction {
    /// The reply is already determined; write it.
    Reply(WebsocketCommand),
    /// No session exists for the owner: launch and hook a new client on this
    /// control port, then finish through `complete_connect`.
    Launch { port: u32 },
    /// Perform the operation against this session, then finish through
    /// `command_reply`.
    Perform { instance: WechatInstance, op: SessionOp },
}

/// A reply correlates to the request: same owner, same request id, and it is
/// a response or an error, nothing else.
pub open spec fn spec_correlated(c: WebsocketCommand, mxid: Seq<char>, req_id: i32) -> bool {
    &&& c.mxid@ == mxid
    &&& c.req_id == req_id
    &&& (c.command == CommandType::Response || c.command == CommandType::Error)
}

/// Every action the dispatcher returns leads to exactly one reply correlated
/// to the request: a `Reply` is one already, and the two continuations
/// promise one.
pub open spec fn spec_action_correlated(a: DispatchAction, msg: WebsocketMatrixRequest) -> bool {
    match a {
        DispatchAction::Reply(c) => spec_correlated(c, msg.mxid@, msg.req_id),
        DispatchAction::Launch { .. } => true,
        DispatchAction::Perform { .. } => true,
    }
}

/// Builds the success reply for one request.
pub fn write_command_resp(mxid: String, req_id: i32, data: CommandResponseData) -> (r:
    WebsocketCommand)
    ensures
        r.mxid == mxid,
        r.req_id == req_id,
        r.command == CommandType::Response,
        r.data == data,
{
    WebsocketCommand { mxid, req_id, command: CommandType::Response, data }
}

/// Builds the error reply for one request, carrying the failure's message.
pub fn write_command_error(mxid: String, req_id: i32, message: String) -> (r: WebsocketCommand)
    ensures
        r.mxid == mxid,
        r.req_id == req_id,
        r.command == CommandType::Error,
        r.data == CommandResponseData::ErrorMessage(message),
{
    WebsocketCommand { mxid, req_id, command: CommandType::Error, data: CommandResponseData::ErrorMessage(message) }
}

/// Turns a performed operation's outcome into the request's one reply: a
/// response on success, an error carrying the failure's message otherwise —
/// except that a failed login-status query is best-effort and replies
/// "not logged in" rather than an error.
pub fn command_reply(
    mxid: String,
    req_id: i32,
    op_is_login: bool,
    outcome: Result<CommandResponseData, String>,
) -> (r: WebsocketCommand)
    ensures
        spec_correlated(r, mxid@, req_id),
        outcome matches Ok(d) ==> r.command == CommandType::Response && r.data == d,
        outcome matches Err(m) ==> (if op_is_login {
            r.command == CommandType::Response && r.data == CommandResponseData::LoginStatus(false)
        } else {
            r.command == CommandType::Error && r.data == CommandResponseData::ErrorMessage(m)
        }),
{
    match outcome {
        Ok(d) => write_command_resp(mxid, req_id, d),
        Err(m) => {
            if op_is_login {
                write_command_resp(mxid, req_id, CommandResponseData::LoginStatus(false))
            } else {
                write_command_error(mxid, req_id, m)
            }
        },
    }
}

impl WechatManager {
    /// Finishes a connect: when hooking succeeded, registers the session for
    /// the owner and replies with success; when it failed, registers nothing
    /// and replies with the error.
    pub fn complete_connect(
        &mut self,
        mxid: String,
        req_id: i32,
        instance: WechatInstance,
        hook_result: Result<(), String>,
    ) -> (r: WebsocketCommand)
        requires
            old(self).wf(),
        ensures
            final(self).wf(),
            spec_correlated(r, mxid@, req_id),
            hook_result is Ok ==> {
                &&& r.command == CommandType::Response
                &&& r.data == CommandResponseData::Empty
                &&& final(self).owner_has(mxid@)
                &&& final(self).owner_session(mxid@) == crate::manager::spec_keyed_session(
                    instance,
                    mxid,
                )
                &&& final(self).pid_has(instance.pid)
                &&& final(self).pid_session(instance.pid) == crate::manager::spec_keyed_session(
                    instance,
                    mxid,
                )
            },
            hook_result matches Err(m) ==> (r.command == CommandType::Error && r.data
                == CommandResponseData::ErrorMessage(m) && *final(self) == *old(self)),
            hook_result is Ok ==> forall|m: Seq<char>|
                m != mxid@ ==> ((#[trigger] final(self).owner_has(m)) <==> (old(self).owner_has(m)
                    && old(self).owner_session(m).pid != instance.pid)),
            forall|m: Seq<char>|
                m != mxid@ && #[trigger] final(self).owner_has(m) ==> final(self).owner_session(m) == old(self).owner_session(m),
    {
        match hook_result {
            Ok(()) => {
                let reply_mxid = mxid.clone();
                let stored = self.store_instance(mxid, instance);
                proof {
                    assert(stored is Ok);
                }
                write_command_resp(reply_mxid, req_id, CommandResponseData::Empty)
            },
            Err(m) => write_command_error(mxid, req_id, m),
        }
    }

    /// Matches one control request to its action. Connects reuse the owner's
    /// session or launch a fresh client on the next port; disconnects remove
    /// the session and reply at once; session commands name the operation to
    /// perform; a malformed payload, an unknown owner, or an unsupported
    /// command is answered with an error reply at once.
    pub fn handle_matrix_events(&mut self, msg: WebsocketMatrixRequest) -> (r: DispatchAction)
        requires
            old(self).wf(),
        ensures
            final(self).wf(),
            spec_action_correlated(r, msg),
            msg.command == CommandType::Connect ==> (if old(self).owner_has(msg.mxid@) {
                r == (DispatchAction::Perform {
                    instance: old(self).owner_session(msg.mxid@),
                    op: SessionOp::HookMessage,
                }) && *final(self) == *old(self)
            } else {
                r == (DispatchAction::Launch { port: old(self).wechat_listen_port }) && final(self).wechat_listen_port == crate::manager::spec_next_listen_port(
                    old(self).wechat_listen_port,
                ) && final(self).sessions()
                    == old(self).sessions() && final(self).save_path == old(self).save_path
                    && final(self).message_hook_port == old(self).message_hook_port
            }),
            msg.command == CommandType::Disconnect ==> (if old(self).owner_has(msg.mxid@) {
                &&& (r matches DispatchAction::Reply(c) && c.command == CommandType::Response
                    && c.data == CommandResponseData::Empty)
                &&& !final(self).owner_has(msg.mxid@)
                &&& !final(self).pid_has(old(self).owner_session(msg.mxid@).pid)
            } else {
                (r matches DispatchAction::Reply(c) && c.command == CommandType::Error) && *final(self) == *old(self)
            }),
            msg.command == CommandType::Disconnect ==> forall|m: Seq<char>|
                m != msg.mxid@ ==> ((#[trigger] final(self).owner_has(m)) <==> old(self).owner_has(m)),
            (msg.command == CommandType::LoginWithQRCode || msg.command == CommandType::IsLogin
                || msg.command == CommandType::GetSelf || msg.command == CommandType::GetFriendList
                || msg.command == CommandType::GetGroupList) ==> *final(self) == *old(self) && (
            if old(self).owner_has(msg.mxid@) {
                r matches DispatchAction::Perform { instance, op } && instance == old(self).owner_session(msg.mxid@) && op == (match msg.command {
                    CommandType::LoginWithQRCode => SessionOp::LoginQr,
                    CommandType::IsLogin => SessionOp::IsLogin,
                    CommandType::GetSelf => SessionOp::GetSelf,
                    CommandType::GetFriendList => SessionOp::GetFriendList,
                    _ => SessionOp::GetGroupList,
                })
            } else {
                r matches DispatchAction::Reply(c) && c.command == CommandType::Error
            }),
            (msg.command == CommandType::GetUserInfo || msg.command == CommandType::GetGroupInfo
                || msg.command == CommandType::GetGroupMembers || msg.command
                == CommandType::GetGroupMemberNickname) ==> *final(self) == *old(self) && (
            match msg.data {
                Some(MatrixRequestDataField::Query(q)) => if old(self).owner_has(msg.mxid@) {
                    r matches DispatchAction::Perform { instance, op } && instance == old(self).owner_session(msg.mxid@) && op == (match msg.command {
                        CommandType::GetUserInfo => SessionOp::GetUserInfo {
                            wechat_id: q.wechat_id,
                        },
                        CommandType::GetGroupInfo => SessionOp::GetGroupInfo {
                            group_id: q.group_id,
                        },
                        CommandType::GetGroupMembers => SessionOp::GetGroupMembers {
                            group_id: q.group_id,
                        },
                        _ => SessionOp::GetGroupMemberNickname {
                            group_id: q.group_id,
                            wechat_id: q.wechat_id,
                        },
                    })
                } else {
                    r matches DispatchAction::Reply(c) && c.command == CommandType::Error
                },
                _ => r matches DispatchAction::Reply(c) && c.command == CommandType::Error,
            }),
            msg.command == CommandType::SendMessage ==> *final(self) == *old(self) && (
            match msg.data {
                Some(MatrixRequestDataField::Message(mm)) => if !old(self).owner_has(msg.mxid@) {
                    r matches DispatchAction::Reply(c) && c.command == CommandType::Error
                } else if crate::wechat::spec_send_shape_ok(mm) {
                    r matches DispatchAction::Perform { instance, op } && instance == old(self).owner_session(msg.mxid@) && (op matches SessionOp::Send(plan)
                        && crate::wechat::spec_send_plan_matches(mm, plan))
                } else {
                    r matches DispatchAction::Reply(c) && c.command == CommandType::Error
                },
                _ => r matches DispatchAction::Reply(c) && c.command == CommandType::Error,
            }),
            (msg.command == CommandType::Response || msg.command == CommandType::Error
                || msg.command == CommandType::Ping || msg.command
                == CommandType::WebsocketClosed) ==> *final(self) == *old(self) && (
            r matches DispatchAction::Reply(c) && c.command == CommandType::Error),
    {
        let mxid = msg.mxid;
        let req_id = msg.req_id;
        match msg.command {
            CommandType::Connect => {
                match self.get_instance_by_mxid(mxid.as_str()) {
                    Ok(ins) => DispatchAction::Perform { instance: ins, op: SessionOp::HookMessage },
                    Err(_) => {
                        let port = self.alloc_listen_port();
                        DispatchAction::Launch { port }
                    },
                }
            },
            CommandType::Disconnect => {
                match self.drop_instance(mxid.as_str()) {
                    Ok(()) => DispatchAction::Reply(
                        write_command_resp(mxid, req_id, CommandResponseData::Empty),
                    ),
                    Err(e) => DispatchAction::Reply(write_command_error(mxid, req_id, e.message())),
                }
            },
            CommandType::LoginWithQRCode => self.simple_session_op(mxid, req_id, SessionOp::LoginQr),
            CommandType::IsLogin => self.simple_session_op(mxid, req_id, SessionOp::IsLogin),
            CommandType::GetSelf => self.simple_session_op(mxid, req_id, SessionOp::GetSelf),
            CommandType::GetFriendList => self.simple_session_op(
                mxid,
                req_id,
                SessionOp::GetFriendList,
            ),
            CommandType::GetGroupList => self.simple_session_op(
                mxid,
                req_id,
                SessionOp::GetGroupList,
            ),
            CommandType::GetUserInfo => {
                match msg.data {
                    Some(MatrixRequestDataField::Query(q)) => self.simple_session_op(
                        mxid,
                        req_id,
                        SessionOp::GetUserInfo { wechat_id: q.wechat_id },
                    ),
                    _ => DispatchAction::Reply(
                        write_command_error(
                            mxid,
                            req_id,
                            String::from_str("deserialize matrix message failed"),
                        ),
                    ),
                }
            },
            CommandType::GetGroupInfo => {
                match msg.data {
                    Some(MatrixRequestDataField::Query(q)) => self.simple_session_op(
                        mxid,
                        req_id,
                        SessionOp::GetGroupInfo { group_id: q.group_id },
                    ),
                    _ => DispatchAction::Reply(
                        write_command_error(
                            mxid,
                            req_id,
                            String::from_str("deserialize matrix message failed"),
                        ),
                    ),
                }
            },
            CommandType::GetGroupMembers => {
                match msg.data {
                    Some(MatrixRequestDataField::Query(q)) => self.simple_session_op(
                        mxid,
                        req_id,
                        SessionOp::GetGroupMembers { group_id: q.group_id },
                    ),
                    _ => DispatchAction::Reply(
                        write_command_error(
                            mxid,
                            req_id,
                            String::from_str("deserialize matrix message failed"),
                        ),
                    ),
                }
            },
            CommandType::GetGroupMemberNickname => {
                match msg.data {
                    Some(MatrixRequestDataField::Query(q)) => self.simple_session_op(
                        mxid,
                        req_id,
                        SessionOp::GetGroupMemberNickname {
                            group_id: q.group_id,
                            wechat_id: q.wechat_id,
                        },
                    ),
                    _ => DispatchAction::Reply(
                        write_command_error(
                            mxid,
                            req_id,
                            String::from_str("deserialize matrix message failed"),
                        ),
                    ),
                }
            },
            CommandType::SendMessage => {
                match msg.data {
                    Some(MatrixRequestDataField::Message(mm)) => {
                        match self.get_instance_by_mxid(mxid.as_str()) {
                            Ok(ins) => {
                                match classify_send(mm) {
                                    Ok(plan) => DispatchAction::Perform {
                                        instance: ins,
                                        op: SessionOp::Send(plan),
                                    },
                                    Err(e) => DispatchAction::Reply(
                                        write_command_error(mxid, req_id, e.message()),
                                    ),
                                }
                            },
                            Err(e) => DispatchAction::Reply(
                                write_command_error(mxid, req_id, e.message()),
                            ),
                        }
                    },
                    _ => DispatchAction::Reply(
                        write_command_error(
                            mxid,
                            req_id,
                            String::from_str("deserialize matrix message failed"),
                        ),
                    ),
                }
            },
            CommandType::Response | CommandType::Error | CommandType::Ping
                | CommandType::WebsocketClosed => DispatchAction::Reply(
                write_command_error(
                    mxid,
                    req_id,
                    String::from_str("deserialize matrix message failed"),
                ),
            ),
        }
    }

    /// Resolves the owner's session for one operation, or replies with the
    /// lookup error at once.
    fn simple_session_op(&self, mxid: String, req_id: i32, op: SessionOp) -> (r: DispatchAction)
        requires
            self.wf(),
        ensures
            self.owner_has(mxid@) ==> (r matches DispatchAction::Perform {
                instance,
                op: out_op,
            } && instance == self.owner_session(mxid@) && out_op == op),
            !self.owner_has(mxid@) ==> (r matches DispatchAction::Reply(c) && spec_correlated(
                c,
                mxid@,
                req_id,
            ) && c.command == CommandType::Error),
    {
        match self.get_instance_by_mxid(mxid.as_str()) {
            Ok(ins) => DispatchAction::Perform { instance: ins, op },
            Err(e) => DispatchAction::Reply(write_command_error(mxid, req_id, e.message())),
        }
    }
}

/// For one request there is exactly one reply, and it carries the request's
/// id: the dispatcher returns one action; an immediate reply is already
/// correlated, and each continuation returns exactly one reply which its
/// contract correlates to the request.
pub proof fn lemma_one_correlated_reply(
    msg: WebsocketMatrixRequest,
    action: DispatchAction,
    reply: WebsocketCommand,
)
    requires
        spec_action_correlated(action, msg),
        match action {
            DispatchAction::Reply(c) => reply == c,
            DispatchAction::Launch { .. } => spec_correlated(reply, msg.mxid@, msg.req_id),
            DispatchAction::Perform { .. } => spec_correlated(reply, msg.mxid@, msg.req_id),
        },
    ensures
        reply.mxid@ == msg.mxid@,
        reply.req_id == msg.req_id,
        reply.command == CommandType::Response || reply.command == CommandType::Error,
{
}

} // verus!
