use matrix_wechat_agent::manager::matrix::{
    command_reply, DispatchAction, SessionOp,
};
use matrix_wechat_agent::manager::WechatManager;
use matrix_wechat_agent::wechat::{SendPlan, WechatInstance};
use matrix_wechat_agent::ws::recv::{
    MatrixMessageType, MatrixRequestDataField, MatrixRequestDataMessage, MatrixRequestDataQuery,
    WebsocketMatrixRequest,
};
use matrix_wechat_agent::ws::send::CommandResponseData;
use matrix_wechat_agent::ws::{CommandType, MatrixMessageDataBlob, MatrixMessageDataField};

fn manager_with_alice() -> WechatManager {
    let mut m = WechatManager::new(23333, String::from("C:/save"));
    let ins = WechatInstance::new(23334, String::from("C:/save"), 23333, 7, String::from("@a:x"));
    m.store_instance(String::from("@a:x"), ins).unwrap();
    m
}

fn request(
    mxid: &str,
    req_id: i32,
    command: CommandType,
    data: Option<MatrixRequestDataField>,
) -> WebsocketMatrixRequest {
    WebsocketMatrixRequest { mxid: String::from(mxid), req_id, command, data }
}

#[test]
fn connect_reuses_existing_session() {
    let mut m = manager_with_alice();
    let action = m.handle_matrix_events(request("@a:x", 1, CommandType::Connect, None));
    match action {
        DispatchAction::Perform { instance, op } => {
            assert_eq!(instance.pid, 7);
            assert!(matches!(op, SessionOp::HookMessage));
        }
        _ => panic!("expected a perform"),
    }
}

#[test]
fn connect_launches_on_next_port_for_new_owner() {
    let mut m = manager_with_alice();
    let action = m.handle_matrix_events(request("@b:x", 2, CommandType::Connect, None));
    match action {
        DispatchAction::Launch { port } => assert_eq!(port, 23334),
        _ => panic!("expected a launch"),
    }
    assert_eq!(m.wechat_listen_port, 23335);
}

#[test]
fn complete_connect_registers_and_replies() {
    let mut m = WechatManager::new(23333, String::from("C:/save"));
    let ins = WechatInstance::new(23334, String::from("C:/save"), 23333, 9, String::from("@c:x"));
    let reply = m.complete_connect(String::from("@c:x"), 5, ins, Ok(()));
    assert_eq!(reply.req_id, 5);
    assert_eq!(reply.mxid, "@c:x");
    assert!(matches!(reply.command, CommandType::Response));
    assert_eq!(m.get_instance_by_mxid("@c:x").unwrap().pid, 9);
}

#[test]
fn complete_connect_failure_registers_nothing() {
    let mut m = WechatManager::new(23333, String::from("C:/save"));
    let ins = WechatInstance::new(23334, String::from("C:/save"), 23333, 9, String::from("@c:x"));
    let reply = m.complete_connect(String::from("@c:x"), 5, ins, Err(String::from("hook failed")));
    assert!(matches!(reply.command, CommandType::Error));
    assert!(m.get_instance_by_mxid("@c:x").is_err());
}

#[test]
fn disconnect_replies_and_removes() {
    let mut m = manager_with_alice();
    let action = m.handle_matrix_events(request("@a:x", 3, CommandType::Disconnect, None));
    match action {
        DispatchAction::Reply(c) => {
            assert_eq!(c.req_id, 3);
            assert!(matches!(c.command, CommandType::Response));
        }
        _ => panic!("expected a reply"),
    }
    assert!(m.get_instance_by_mxid("@a:x").is_err());
}

#[test]
fn disconnect_of_unknown_owner_is_an_error_reply() {
    let mut m = WechatManager::new(23333, String::from("C:/save"));
    let action = m.handle_matrix_events(request("@a:x", 4, CommandType::Disconnect, None));
    match action {
        DispatchAction::Reply(c) => {
            assert_eq!(c.req_id, 4);
            assert!(matches!(c.command, CommandType::Error));
        }
        _ => panic!("expected a reply"),
    }
}

#[test]
fn get_user_info_without_query_is_an_error_reply() {
    let mut m = manager_with_alice();
    let action = m.handle_matrix_events(request("@a:x", 5, CommandType::GetUserInfo, None));
    assert!(matches!(action, DispatchAction::Reply(ref c) if matches!(c.command, CommandType::Error)));
}

#[test]
fn get_user_info_names_the_lookup() {
    let mut m = manager_with_alice();
    let q = MatrixRequestDataQuery {
        wechat_id: String::from("wxid_friend"),
        group_id: String::new(),
    };
    let action = m.handle_matrix_events(request(
        "@a:x",
        6,
        CommandType::GetUserInfo,
        Some(MatrixRequestDataField::Query(q)),
    ));
    match action {
        DispatchAction::Perform { op: SessionOp::GetUserInfo { wechat_id }, .. } => {
            assert_eq!(wechat_id, "wxid_friend");
        }
        _ => panic!("expected a user lookup"),
    }
}

#[test]
fn unsupported_command_is_an_error_reply() {
    let mut m = manager_with_alice();
    let action = m.handle_matrix_events(request("@a:x", 7, CommandType::Ping, None));
    match action {
        DispatchAction::Reply(c) => {
            assert_eq!(c.req_id, 7);
            assert!(matches!(c.command, CommandType::Error));
        }
        _ => panic!("expected a reply"),
    }
}

#[test]
fn send_message_for_unknown_owner_is_an_error_reply() {
    let mut m = WechatManager::new(23333, String::from("C:/save"));
    let msg = MatrixRequestDataMessage {
        target: String::from("wxid_t"),
        message_type: MatrixMessageType::Text,
        content: String::from("hi"),
        data: None,
    };
    let action = m.handle_matrix_events(request(
        "@a:x",
        8,
        CommandType::SendMessage,
        Some(MatrixRequestDataField::Message(msg)),
    ));
    assert!(matches!(action, DispatchAction::Reply(ref c) if matches!(c.command, CommandType::Error)));
}

#[test]
fn send_message_dispatches_the_plan() {
    let mut m = manager_with_alice();
    let msg = MatrixRequestDataMessage {
        target: String::from("wxid_t"),
        message_type: MatrixMessageType::Text,
        content: String::from("hi"),
        data: None,
    };
    let action = m.handle_matrix_events(request(
        "@a:x",
        9,
        CommandType::SendMessage,
        Some(MatrixRequestDataField::Message(msg)),
    ));
    match action {
        DispatchAction::Perform { op: SessionOp::Send(SendPlan::PlainText { target, content }), .. } => {
            assert_eq!(target, "wxid_t");
            assert_eq!(content, "hi");
        }
        _ => panic!("expected a plain-text send"),
    }
}

#[test]
fn send_message_with_mismatched_payload_is_an_error_reply() {
    let mut m = manager_with_alice();
    let msg = MatrixRequestDataMessage {
        target: String::from("wxid_t"),
        message_type: MatrixMessageType::Image,
        content: String::new(),
        data: None,
    };
    let action = m.handle_matrix_events(request(
        "@a:x",
        10,
        CommandType::SendMessage,
        Some(MatrixRequestDataField::Message(msg)),
    ));
    assert!(matches!(action, DispatchAction::Reply(ref c) if matches!(c.command, CommandType::Error)));
}

#[test]
fn every_outcome_gets_one_correlated_reply() {
    let ok = command_reply(
        String::from("@a:x"),
        11,
        false,
        Ok(CommandResponseData::Nickname(String::from("nick"))),
    );
    assert_eq!(ok.req_id, 11);
    assert_eq!(ok.mxid, "@a:x");
    assert!(matches!(ok.command, CommandType::Response));

    let err = command_reply(String::from("@a:x"), 11, false, Err(String::from("boom")));
    assert_eq!(err.req_id, 11);
    assert!(matches!(err.command, CommandType::Error));
    assert!(matches!(err.data, CommandResponseData::ErrorMessage(ref m) if m == "boom"));
}

#[test]
fn failed_login_query_replies_not_logged_in() {
    let r = command_reply(String::from("@a:x"), 12, true, Err(String::from("unreachable")));
    assert!(matches!(r.command, CommandType::Response));
    assert!(matches!(r.data, CommandResponseData::LoginStatus(false)));
}

#[test]
fn text_with_empty_mentions_is_a_plain_send() {
    let msg = MatrixRequestDataMessage {
        target: String::from("t"),
        message_type: MatrixMessageType::Text,
        content: String::from("hello"),
        data: Some(MatrixMessageDataField::Mentions(vec![])),
    };
    match matrix_wechat_agent::wechat::classify_send(msg).unwrap() {
        SendPlan::PlainText { target, content } => {
            assert_eq!(target, "t");
            assert_eq!(content, "hello");
        }
        _ => panic!("expected a plain-text send"),
    }
}

#[test]
fn text_with_mentions_is_an_at_send_to_exactly_those() {
    let msg = MatrixRequestDataMessage {
        target: String::from("t"),
        message_type: MatrixMessageType::Text,
        content: String::from("hello"),
        data: Some(MatrixMessageDataField::Mentions(vec![
            String::from("a"),
            String::from("b"),
        ])),
    };
    match matrix_wechat_agent::wechat::classify_send(msg).unwrap() {
        SendPlan::AtText { target, mentions, .. } => {
            assert_eq!(target, "t");
            assert_eq!(mentions, vec![String::from("a"), String::from("b")]);
        }
        _ => panic!("expected a mention send"),
    }
}

#[test]
fn image_with_blob_persists_then_sends_image() {
    let msg = MatrixRequestDataMessage {
        target: String::from("t"),
        message_type: MatrixMessageType::Image,
        content: String::new(),
        data: Some(MatrixMessageDataField::Blob(MatrixMessageDataBlob {
            name: Some(String::from("pic.png")),
            binary: vec![1, 2, 3],
        })),
    };
    match matrix_wechat_agent::wechat::classify_send(msg).unwrap() {
        SendPlan::SaveAndSendImage { target, blob } => {
            assert_eq!(target, "t");
            assert_eq!(blob.binary, vec![1, 2, 3]);
            let path =
                matrix_wechat_agent::wechat::media_save_path("C:/save", &blob);
            assert_eq!(path, "C:/save/matrix_media/pic.png");
        }
        _ => panic!("expected an image send"),
    }
}

#[test]
fn video_with_blob_also_sends_as_image() {
    let msg = MatrixRequestDataMessage {
        target: String::from("t"),
        message_type: MatrixMessageType::Video,
        content: String::new(),
        data: Some(MatrixMessageDataField::Blob(MatrixMessageDataBlob {
            name: None,
            binary: vec![],
        })),
    };
    assert!(matches!(
        matrix_wechat_agent::wechat::classify_send(msg),
        Ok(SendPlan::SaveAndSendImage { .. })
    ));
}

#[test]
fn file_with_blob_sends_as_file() {
    let msg = MatrixRequestDataMessage {
        target: String::from("t"),
        message_type: MatrixMessageType::File,
        content: String::new(),
        data: Some(MatrixMessageDataField::Blob(MatrixMessageDataBlob {
            name: Some(String::from("doc.pdf")),
            binary: vec![9],
        })),
    };
    assert!(matches!(
        matrix_wechat_agent::wechat::classify_send(msg),
        Ok(SendPlan::SaveAndSendFile { .. })
    ));
}

#[test]
fn location_kind_send_is_invalid_payload() {
    let msg = MatrixRequestDataMessage {
        target: String::from("t"),
        message_type: MatrixMessageType::Location,
        content: String::new(),
        data: None,
    };
    let e = matrix_wechat_agent::wechat::classify_send(msg).unwrap_err();
    assert!(matches!(e, matrix_wechat_agent::error::AgentError::InvalidPayload(_)));
}

#[test]
fn nameless_blob_is_saved_under_its_digest() {
    let blob = MatrixMessageDataBlob { name: None, binary: vec![] };
    let name = matrix_wechat_agent::wechat::media_save_name(&blob);
    assert_eq!(name, "D41D8CD98F00B204E9800998ECF8427E");
}
