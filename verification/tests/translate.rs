use matrix_wechat_agent::manager::wechat::{
    complete_fetch, get_mentions, parse_app, parse_hint, parse_location, parse_private_voip,
    parse_system_message, record_callback_failure, EnumAppMessage, MediaFetch, MediaKind,
    Translation,
};
use matrix_wechat_agent::manager::WechatManager;
use matrix_wechat_agent::wechat::{WechatInstance, WechatMessage, WechatMessageType};
use matrix_wechat_agent::ws::send::EventType;
use matrix_wechat_agent::ws::MatrixMessageDataField;

fn manager_with_session() -> WechatManager {
    let mut m = WechatManager::new(23333, String::from("C:/save"));
    let ins = WechatInstance::new(23334, String::from("C:/save"), 23333, 7, String::from("@a:x"));
    m.store_instance(String::from("@a:x"), ins).unwrap();
    m
}

fn raw_event(msg_type: WechatMessageType, message: &str) -> WechatMessage {
    WechatMessage {
        pid: 7,
        message_id: 1001,
        timestamp: 1700000000,
        wechat_id: String::from("wxid_peer"),
        sender: String::from("wxid_peer"),
        self_id: String::from("wxid_self"),
        is_send_message: 0,
        is_send_by_phone: None,
        msg_type,
        message: String::from(message),
        file_path: String::new(),
        thumb_path: String::new(),
        extra_info: String::new(),
    }
}

#[test]
fn location_event_carries_its_coordinates() {
    let m = manager_with_session();
    let ev = raw_event(
        WechatMessageType::Location,
        "<location x=\"31.2\" y=\"121.4\" poiname=\"X\" label=\"Y\"/>",
    );
    match m.handle_wechat_callback(ev, 1700000000000).unwrap() {
        Translation::Emit(out) => {
            assert!(matches!(out.base.event_type, EventType::Location));
            match out.extra {
                Some(MatrixMessageDataField::Location(loc)) => {
                    assert_eq!(loc.latitude, "31.2");
                    assert_eq!(loc.longitude, "121.4");
                    assert_eq!(loc.name, "X");
                    assert_eq!(loc.address, "Y");
                }
                _ => panic!("expected a location payload"),
            }
        }
        _ => panic!("expected an emitted event"),
    }
}

#[test]
fn bad_location_body_degrades_to_placeholder() {
    let m = manager_with_session();
    let ev = raw_event(
        WechatMessageType::Location,
        "<location x=\"north\" y=\"east\" poiname=\"X\" label=\"Y\"/>",
    );
    match m.handle_wechat_callback(ev, 0).unwrap() {
        Translation::Emit(out) => {
            assert_eq!(out.base.content, "[位置解析失败]");
            assert!(matches!(out.base.event_type, EventType::Text));
        }
        _ => panic!("expected an emitted event"),
    }
}

#[test]
fn absent_image_file_yields_placeholder_not_error() {
    let m = manager_with_session();
    let mut ev = raw_event(WechatMessageType::Image, "");
    ev.file_path = String::from("C:/hook/img_1.dat");
    let (fetch, pending) = match m.handle_wechat_callback(ev, 0).unwrap() {
        Translation::Fetch { fetch, pending } => (fetch, pending),
        _ => panic!("expected a fetch"),
    };
    match fetch {
        MediaFetch::ProbeImage { dir, candidates } => {
            assert_eq!(dir, "C:/save/wxid_self");
            assert_eq!(
                candidates,
                vec![
                    String::from("img_1.dat"),
                    String::from("img_1.png"),
                    String::from("img_1.gif"),
                    String::from("img_1.jpg"),
                ]
            );
        }
        _ => panic!("expected an image probe"),
    }
    // the file stayed absent through every probe attempt
    let out = complete_fetch(pending, None);
    assert_eq!(out.base.content, "[图片下载失败]");
    assert!(out.extra.is_none());
    assert!(matches!(out.base.event_type, EventType::Text));
}

#[test]
fn fetched_image_becomes_an_image_event() {
    let m = manager_with_session();
    let mut ev = raw_event(WechatMessageType::Image, "");
    ev.file_path = String::from("C:/hook/img_1.dat");
    let pending = match m.handle_wechat_callback(ev, 0).unwrap() {
        Translation::Fetch { pending, .. } => pending,
        _ => panic!("expected a fetch"),
    };
    let out = complete_fetch(pending, Some(vec![0xFF, 0xD8]));
    assert!(matches!(out.base.event_type, EventType::Image));
    match out.extra {
        Some(MatrixMessageDataField::Blob(b)) => {
            assert_eq!(b.name.as_deref(), Some("img_1.dat"));
            assert_eq!(b.binary, vec![0xFF, 0xD8]);
        }
        _ => panic!("expected a blob payload"),
    }
}

#[test]
fn system_event_from_weixin_is_dropped() {
    let m = manager_with_session();
    let mut ev = raw_event(WechatMessageType::System, "<sysmsg type=\"other\">x</sysmsg>");
    ev.sender = String::from("weixin");
    assert!(matches!(
        m.handle_wechat_callback(ev, 0).unwrap(),
        Translation::Dropped
    ));
}

#[test]
fn system_event_from_other_sender_is_emitted_as_system() {
    let m = manager_with_session();
    let ev = raw_event(WechatMessageType::System, "<sysmsg type=\"other\">x</sysmsg>");
    match m.handle_wechat_callback(ev, 0).unwrap() {
        Translation::Emit(out) => {
            assert!(matches!(out.base.event_type, EventType::System));
            assert_eq!(out.base.content, "<sysmsg type=\"other\">x</sysmsg>");
        }
        _ => panic!("expected an emitted event"),
    }
}

#[test]
fn self_sent_system_event_is_dropped() {
    let m = manager_with_session();
    let mut ev = raw_event(WechatMessageType::System, "<sysmsg type=\"other\">x</sysmsg>");
    ev.is_send_message = 1;
    assert!(matches!(
        m.handle_wechat_callback(ev, 0).unwrap(),
        Translation::Dropped
    ));
}

#[test]
fn tickle_system_subtype_is_dropped() {
    let m = manager_with_session();
    let ev = raw_event(WechatMessageType::System, "<sysmsg type=\"pat\">x</sysmsg>");
    assert!(matches!(
        m.handle_wechat_callback(ev, 0).unwrap(),
        Translation::Dropped
    ));
}

#[test]
fn phone_duplicate_is_dropped_before_anything() {
    let m = manager_with_session();
    let mut ev = raw_event(WechatMessageType::Text, "hello");
    ev.is_send_by_phone = Some(0);
    assert!(matches!(
        m.handle_wechat_callback(ev, 0).unwrap(),
        Translation::Dropped
    ));
}

#[test]
fn unknown_process_fails_with_not_found() {
    let m = manager_with_session();
    let mut ev = raw_event(WechatMessageType::Text, "hello");
    ev.pid = 999;
    let e = m.handle_wechat_callback(ev, 0).unwrap_err();
    assert!(matches!(e, matrix_wechat_agent::error::AgentError::NotFound(_)));
}

#[test]
fn inbound_private_text_targets_the_owner() {
    let m = manager_with_session();
    let ev = raw_event(WechatMessageType::Text, "hello");
    match m.handle_wechat_callback(ev, 42).unwrap() {
        Translation::Emit(out) => {
            assert_eq!(out.base.mxid, "@a:x");
            assert_eq!(out.base.sender, "wxid_peer");
            assert_eq!(out.base.target, "wxid_self");
            assert_eq!(out.base.content, "hello");
            assert_eq!(out.base.timestamp_ms, 42);
            assert_eq!(out.base.id, 1001);
            assert!(out.extra.is_none());
        }
        _ => panic!("expected an emitted event"),
    }
}

#[test]
fn group_text_keeps_the_group_as_target() {
    let m = manager_with_session();
    let mut ev = raw_event(WechatMessageType::Text, "hello");
    ev.sender = String::from("12345@chatroom");
    ev.extra_info = String::from("<msgsource><atuserlist>wx_a,wx_b</atuserlist></msgsource>");
    match m.handle_wechat_callback(ev, 0).unwrap() {
        Translation::Emit(out) => {
            assert_eq!(out.base.target, "12345@chatroom");
            match out.extra {
                Some(MatrixMessageDataField::Mentions(list)) => {
                    assert_eq!(list, vec![String::from("wx_a"), String::from("wx_b")]);
                }
                _ => panic!("expected mentions"),
            }
        }
        _ => panic!("expected an emitted event"),
    }
}

#[test]
fn mentions_parse_failure_attaches_none() {
    assert!(get_mentions("").is_none());
    assert!(get_mentions("<msgsource></msgsource>").is_none());
    let list = get_mentions("<msgsource><atuserlist> wx_a </atuserlist></msgsource>").unwrap();
    assert_eq!(list, vec![String::from("wx_a")]);
}

#[test]
fn voice_event_names_the_client_message_file() {
    let m = manager_with_session();
    let ev = raw_event(
        WechatMessageType::Voice,
        "<msg><voicemsg endflag=\"1\" clientmsgid=\"abc123\" length=\"10\"/></msg>",
    );
    match m.handle_wechat_callback(ev, 0).unwrap() {
        Translation::Fetch { fetch: MediaFetch::ReadVoice { path }, pending } => {
            assert_eq!(path, "C:/save/wxid_self/abc123.amr");
            assert_eq!(pending.name.as_deref(), Some("abc123.amr"));
            assert!(matches!(pending.kind, MediaKind::Voice));
        }
        _ => panic!("expected a voice read"),
    }
}

#[test]
fn video_event_falls_back_to_the_thumbnail_path() {
    let m = manager_with_session();
    let mut ev = raw_event(WechatMessageType::Video, "");
    ev.thumb_path = String::from("clips/v_9.jpg");
    match m.handle_wechat_callback(ev, 0).unwrap() {
        Translation::Fetch { fetch: MediaFetch::ReadVideo { doc_relative }, .. } => {
            assert_eq!(doc_relative, "clips/v_9.mp4");
        }
        _ => panic!("expected a video read"),
    }
}

#[test]
fn sticker_event_downloads_its_address() {
    let m = manager_with_session();
    let ev = raw_event(
        WechatMessageType::Sticker,
        "<msg><emoji cdnurl=\"https://cdn.example/e.gif\" aeskey=\"k0\"/></msg>",
    );
    match m.handle_wechat_callback(ev, 0).unwrap() {
        Translation::Fetch { fetch: MediaFetch::Download { url }, pending } => {
            assert_eq!(url, "https://cdn.example/e.gif");
            assert_eq!(pending.name.as_deref(), Some("k0"));
            assert!(matches!(pending.kind, MediaKind::Sticker));
        }
        _ => panic!("expected a download"),
    }
}

#[test]
fn last_message_marker_is_dropped() {
    let m = manager_with_session();
    let ev = raw_event(WechatMessageType::LastMessage, "x");
    assert!(matches!(m.handle_wechat_callback(ev, 0).unwrap(), Translation::Dropped));
}

#[test]
fn app_reply_keeps_the_reference() {
    let m = manager_with_session();
    let body = "<msg><appmsg><type>57</type><title>quoted answer</title><des>d</des>\
                <refermsg><svrid>424242</svrid><chatusr>wx_orig</chatusr></refermsg></appmsg></msg>";
    let ev = raw_event(WechatMessageType::App, body);
    match m.handle_wechat_callback(ev, 0).unwrap() {
        Translation::Emit(out) => {
            assert_eq!(out.base.content, "quoted answer");
            let reply = out.base.reply.unwrap();
            assert_eq!(reply.id, 424242);
            assert_eq!(reply.sender, "wx_orig");
        }
        _ => panic!("expected an emitted event"),
    }
}

#[test]
fn app_reply_without_any_sender_is_a_hard_failure() {
    let m = manager_with_session();
    let body = "<msg><appmsg><type>57</type><title>t</title><des>d</des>\
                <refermsg><svrid>1</svrid></refermsg></appmsg></msg>";
    let ev = raw_event(WechatMessageType::App, body);
    assert!(m.handle_wechat_callback(ev, 0).is_err());
}

#[test]
fn app_announcement_becomes_a_notice() {
    let m = manager_with_session();
    let body = "<msg><appmsg><type>87</type><title>t</title><des>d</des>\
                <textannouncement>meeting moved</textannouncement></appmsg></msg>";
    let ev = raw_event(WechatMessageType::App, body);
    match m.handle_wechat_callback(ev, 0).unwrap() {
        Translation::Emit(out) => {
            assert!(matches!(out.base.event_type, EventType::Notice));
            assert_eq!(out.base.content, "meeting moved");
        }
        _ => panic!("expected an emitted event"),
    }
}

#[test]
fn other_app_subtype_becomes_a_link_card() {
    let m = manager_with_session();
    let body = "<msg><appmsg><type>5</type><title>a page</title><des>about it</des>\
                <url>https://example.org</url></appmsg></msg>";
    let ev = raw_event(WechatMessageType::App, body);
    match m.handle_wechat_callback(ev, 0).unwrap() {
        Translation::Emit(out) => {
            assert!(matches!(out.base.event_type, EventType::App));
            match out.extra {
                Some(MatrixMessageDataField::Link(l)) => {
                    assert_eq!(l.title, "a page");
                    assert_eq!(l.des, "about it");
                    assert_eq!(l.url, "https://example.org");
                }
                _ => panic!("expected a link payload"),
            }
        }
        _ => panic!("expected an emitted event"),
    }
}

#[test]
fn malformed_app_body_degrades_to_placeholder() {
    let m = manager_with_session();
    let ev = raw_event(WechatMessageType::App, "not xml at all");
    match m.handle_wechat_callback(ev, 0).unwrap() {
        Translation::Emit(out) => assert_eq!(out.base.content, "[应用解析失败]"),
        _ => panic!("expected an emitted event"),
    }
}

#[test]
fn voip_statuses_read_as_texts() {
    assert_eq!(
        parse_private_voip("<voipinvitemsg><status>1</status></voipinvitemsg>"),
        "VoIP: Started a call"
    );
    assert_eq!(
        parse_private_voip("<voipinvitemsg><status>2</status></voipinvitemsg>"),
        "VoIP: Call ended"
    );
    assert_eq!(
        parse_private_voip("<voipinvitemsg><status>9</status></voipinvitemsg>"),
        "VoIP: Unknown status: 9"
    );
    assert_eq!(
        parse_private_voip("<msg><VoIPBubbleMsg><msg>call declined</msg></VoIPBubbleMsg></msg>"),
        "VoIP: call declined"
    );
    assert_eq!(parse_private_voip("garbage"), "");
}

#[test]
fn unparseable_voip_body_yields_no_event() {
    let m = manager_with_session();
    let ev = raw_event(WechatMessageType::PrivateVoIP, "garbage");
    assert!(matches!(m.handle_wechat_callback(ev, 0).unwrap(), Translation::Dropped));
}

#[test]
fn hint_becomes_a_revoke_event() {
    let m = manager_with_session();
    let ev = raw_event(WechatMessageType::Hint, "<revokemsg>\"x\" recalled a message</revokemsg>");
    match m.handle_wechat_callback(ev, 0).unwrap() {
        Translation::Emit(out) => {
            assert!(matches!(out.base.event_type, EventType::Revoke));
            assert_eq!(out.base.content, "\"x\" recalled a message");
        }
        _ => panic!("expected an emitted event"),
    }
}

#[test]
fn hint_parsers_are_best_effort() {
    assert_eq!(parse_hint("<a>text</a>").unwrap(), "text");
    assert_eq!(
        parse_hint("<sysmsg type=\"x\"><inner>y</inner></sysmsg>").unwrap(),
        "<sysmsg type=\"x\"><inner>y</inner></sysmsg>"
    );
    assert_eq!(parse_hint("plain words").unwrap(), "plain words");
    assert!(parse_hint("").is_err());
}

#[test]
fn system_parser_filters_resent_subtypes() {
    assert_eq!(parse_system_message("<sysmsg type=\"pat\">x</sysmsg>").unwrap(), "");
    assert_eq!(parse_system_message("<sysmsg type=\"revokemsg\">x</sysmsg>").unwrap(), "");
    assert_eq!(
        parse_system_message("<sysmsg type=\"roomtool\">x</sysmsg>").unwrap(),
        "<sysmsg type=\"roomtool\">x</sysmsg>"
    );
    assert_eq!(parse_system_message("no tag here").unwrap(), "");
    assert!(parse_system_message("").is_err());
}

#[test]
fn location_parser_requires_decimal_coordinates() {
    let ok = parse_location("<location x=\"-31.25\" y=\"+121\" poiname=\"p\" label=\"l\"/>").unwrap();
    assert_eq!(ok.latitude, "-31.25");
    assert_eq!(ok.longitude, "+121");
    assert!(parse_location("<location x=\"\" y=\"1\" poiname=\"p\" label=\"l\"/>").is_err());
    assert!(parse_location("<location y=\"1\" poiname=\"p\" label=\"l\"/>").is_err());
}

#[test]
fn app_parser_sorts_subtypes() {
    let file = "<msg><appmsg><type>6</type><title>t</title><des>d</des></appmsg></msg>";
    assert!(matches!(parse_app(file).unwrap(), EnumAppMessage::File));
    let sticker = "<msg><appmsg><type>8</type><title>t</title><des>d</des></appmsg></msg>";
    assert!(matches!(parse_app(sticker).unwrap(), EnumAppMessage::Sticker));
    assert!(parse_app("<msg><appmsg><title>t</title><des>d</des></appmsg></msg>").is_err());
}

#[test]
fn one_ingestion_failure_exhausts_the_budget() {
    let (cnt, teardown) = record_callback_failure(0);
    assert_eq!(cnt, 1);
    assert!(teardown);
}

#[test]
fn empty_hint_body_degrades_to_placeholder() {
    let m = manager_with_session();
    let ev = raw_event(WechatMessageType::Hint, "");
    match m.handle_wechat_callback(ev, 0).unwrap() {
        Translation::Emit(out) => {
            assert_eq!(out.base.content, "[撤回消息解析失败]");
            assert!(matches!(out.base.event_type, EventType::Text));
        }
        _ => panic!("expected an emitted event"),
    }
}

#[test]
fn empty_system_body_degrades_to_placeholder() {
    let m = manager_with_session();
    let ev = raw_event(WechatMessageType::System, "");
    match m.handle_wechat_callback(ev, 0).unwrap() {
        Translation::Emit(out) => {
            assert_eq!(out.base.content, "[系统消息解析失败]");
            assert!(matches!(out.base.event_type, EventType::Text));
        }
        _ => panic!("expected an emitted event"),
    }
}

#[test]
fn malformed_reply_block_fails_the_whole_envelope() {
    let body = "<msg><appmsg><type>5</type><title>t</title><des>d</des>\
                <refermsg><displayname>x</displayname></refermsg></appmsg></msg>";
    assert!(parse_app(body).is_err());
    let m = manager_with_session();
    let ev = raw_event(WechatMessageType::App, body);
    match m.handle_wechat_callback(ev, 0).unwrap() {
        Translation::Emit(out) => assert_eq!(out.base.content, "[应用解析失败]"),
        _ => panic!("expected an emitted event"),
    }
}
