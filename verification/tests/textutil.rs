use matrix_wechat_agent::constants::wechat_api;
use matrix_wechat_agent::text::{
    ends_with_str, eq_str, find_from, is_decimal_str, parse_u32, parse_u64, split_str, trim_str,
    u32_to_string, u64_to_string,
};
use matrix_wechat_agent::utils::{
    calculate_md5, get_filename, join_path, to_hex_upper, with_extension, RetryPolicy,
};
use matrix_wechat_agent::wechat::parse_group_members;
use matrix_wechat_agent::xml::{elem_text, xml_attr};

#[test]
fn control_api_addresses_are_formatted() {
    assert_eq!(wechat_api(23334, 9), "http://127.0.0.1:23334/api/?type=9");
    assert_eq!(wechat_api(80, 0), "http://127.0.0.1:80/api/?type=0");
}

#[test]
fn numbers_render_in_decimal() {
    assert_eq!(u32_to_string(0), "0");
    assert_eq!(u32_to_string(23333), "23333");
    assert_eq!(u64_to_string(u64::MAX), "18446744073709551615");
}

#[test]
fn decimal_parsing_is_exact() {
    assert_eq!(parse_u32("0"), Some(0));
    assert_eq!(parse_u32("4294967295"), Some(u32::MAX));
    assert_eq!(parse_u32("4294967296"), None);
    assert_eq!(parse_u32(""), None);
    assert_eq!(parse_u32("12a"), None);
    assert_eq!(parse_u64("18446744073709551615"), Some(u64::MAX));
    assert_eq!(parse_u64("18446744073709551616"), None);
}

#[test]
fn decimal_shapes_are_recognised() {
    assert!(is_decimal_str("31.2"));
    assert!(is_decimal_str("-31.25"));
    assert!(is_decimal_str("+121"));
    assert!(is_decimal_str("0"));
    assert!(!is_decimal_str(""));
    assert!(!is_decimal_str("."));
    assert!(!is_decimal_str("1."));
    assert!(!is_decimal_str(".5"));
    assert!(!is_decimal_str("1.2.3"));
    assert!(!is_decimal_str("north"));
}

#[test]
fn searching_and_comparing_characters() {
    assert!(eq_str("abc", "abc"));
    assert!(!eq_str("abc", "abd"));
    assert_eq!(find_from("abcabc", "ca", 0), Some(2));
    assert_eq!(find_from("abcabc", "ca", 3), None);
    assert!(ends_with_str("12345@chatroom", "@chatroom"));
    assert!(!ends_with_str("wxid_x", "@chatroom"));
}

#[test]
fn trimming_and_splitting() {
    assert_eq!(trim_str("  a,b \t"), "a,b");
    assert_eq!(split_str("a,b,c", ","), vec!["a", "b", "c"]);
    assert_eq!(split_str("abc", ","), vec!["abc"]);
    assert_eq!(split_str("", ","), vec![""]);
    assert_eq!(split_str("a,,c", ","), vec!["a", "", "c"]);
}

#[test]
fn group_member_fields_split_at_their_marker() {
    assert_eq!(
        parse_group_members("wx_a^Gwx_b^Gwx_c"),
        vec!["wx_a", "wx_b", "wx_c"]
    );
    assert_eq!(parse_group_members("wx_a"), vec!["wx_a"]);
}

#[test]
fn filenames_come_off_both_separator_kinds() {
    assert_eq!(get_filename("C:\\hook\\img.dat").unwrap(), "img.dat");
    assert_eq!(get_filename("a/b/c.mp4").unwrap(), "c.mp4");
    assert_eq!(get_filename("plain.txt").unwrap(), "plain.txt");
    assert_eq!(get_filename("a/b/").unwrap(), "b");
    assert_eq!(get_filename("a\\b\\\\").unwrap(), "b");
    assert!(get_filename("").is_err());
    assert!(get_filename("///").is_err());
    assert!(get_filename("a/..").is_err());
    assert!(get_filename("a/.").is_err());
}

#[test]
fn extensions_replace_or_append() {
    assert_eq!(with_extension("img.dat", "png"), "img.png");
    assert_eq!(with_extension("img", "png"), "img.png");
    assert_eq!(with_extension("a.dir/file", "mp4"), "a.dir/file.mp4");
    assert_eq!(with_extension("clips/v.jpg", "mp4"), "clips/v.mp4");
    assert_eq!(with_extension(".bashrc", "png"), ".bashrc.png");
}

#[test]
fn paths_join_with_one_separator() {
    assert_eq!(join_path("C:/save", "wxid"), "C:/save/wxid");
    assert_eq!(join_path("C:/save/", "wxid"), "C:/save/wxid");
    assert_eq!(join_path("", "wxid"), "/wxid");
}

#[test]
fn hex_rendering_is_upper_case() {
    assert_eq!(to_hex_upper(&vec![0x00, 0x0F, 0xAB]), "000FAB");
    assert_eq!(to_hex_upper(&vec![]), "");
}

#[test]
fn digests_match_known_vectors() {
    assert_eq!(calculate_md5(&vec![]), "D41D8CD98F00B204E9800998ECF8427E");
    assert_eq!(calculate_md5(&b"abc".to_vec()), "900150983CD24FB0D6963F7D28E17F72");
}

#[test]
fn attribute_and_element_reads() {
    let doc = "<msg><emoji cdnurl=\"u\" aeskey=\"k\"/><type>57</type></msg>";
    assert_eq!(xml_attr(doc, "emoji", "cdnurl").unwrap(), "u");
    assert_eq!(xml_attr(doc, "emoji", "aeskey").unwrap(), "k");
    assert!(xml_attr(doc, "emoji", "md5").is_none());
    assert!(xml_attr(doc, "voicemsg", "clientmsgid").is_none());
    assert_eq!(elem_text(doc, "type").unwrap(), "57");
    assert!(elem_text(doc, "title").is_none());
}

#[test]
fn attribute_must_sit_inside_the_open_tag() {
    let doc = "<a b=\"1\"><c d=\"2\"/></a>";
    assert!(xml_attr(doc, "a", "d").is_none());
    assert_eq!(xml_attr(doc, "c", "d").unwrap(), "2");
}

#[test]
fn probe_delays_double_and_run_out() {
    let p = RetryPolicy::file_probe();
    assert_eq!(p.delay_for(0), Some(1000));
    assert_eq!(p.delay_for(1), Some(2000));
    assert_eq!(p.delay_for(2), Some(4000));
    assert_eq!(p.delay_for(3), None);
}

#[test]
fn error_messages_name_their_class() {
    let e = matrix_wechat_agent::error::AgentError::NotFound(String::from("owner @a:x"));
    assert_eq!(e.message(), "not found: owner @a:x");
    let e = matrix_wechat_agent::error::AgentError::UnsupportedCommand(String::from("ping"));
    assert_eq!(e.message(), "unsupported command: ping");
}

#[test]
fn largest_port_still_formats() {
    assert_eq!(
        wechat_api(u32::MAX, 45),
        "http://127.0.0.1:4294967295/api/?type=45"
    );
}

#[test]
fn all_whitespace_trims_to_nothing() {
    assert_eq!(trim_str(" \t\r\n"), "");
    assert_eq!(trim_str(""), "");
}

#[test]
fn digest_text_is_always_thirty_two_characters() {
    assert_eq!(calculate_md5(&vec![7u8; 100]).len(), 32);
}
