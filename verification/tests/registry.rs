use matrix_wechat_agent::manager::WechatManager;
use matrix_wechat_agent::wechat::WechatInstance;

fn sample_instance(pid: u32, mxid: &str) -> WechatInstance {
    WechatInstance::new(23334, String::from("C:/save"), 23333, pid, String::from(mxid))
}

#[test]
fn connect_then_both_lookups_resolve() {
    let mut m = WechatManager::new(23333, String::from("C:/save"));
    let ins = sample_instance(4242, "@alice:example.org");
    m.store_instance(String::from("@alice:example.org"), ins).unwrap();

    let by_owner = m.get_instance_by_mxid("@alice:example.org").unwrap();
    assert_eq!(by_owner.pid, 4242);
    let by_pid = m.get_instance_by_pid(by_owner.pid).unwrap();
    assert_eq!(by_pid.mxid, "@alice:example.org");
    assert_eq!(by_pid.port, 23334);
}

#[test]
fn disconnect_makes_both_lookups_fail() {
    let mut m = WechatManager::new(23333, String::from("C:/save"));
    let ins = sample_instance(4242, "@alice:example.org");
    m.store_instance(String::from("@alice:example.org"), ins).unwrap();
    m.drop_instance("@alice:example.org").unwrap();

    assert!(m.get_instance_by_mxid("@alice:example.org").is_err());
    assert!(m.get_instance_by_pid(4242).is_err());
}

#[test]
fn drop_of_unknown_owner_is_not_found() {
    let mut m = WechatManager::new(23333, String::from("C:/save"));
    assert!(m.drop_instance("@nobody:example.org").is_err());
}

#[test]
fn store_replaces_owners_session() {
    let mut m = WechatManager::new(23333, String::from("C:/save"));
    m.store_instance(String::from("@a:x"), sample_instance(1, "@a:x")).unwrap();
    m.store_instance(String::from("@a:x"), sample_instance(2, "@a:x")).unwrap();

    assert_eq!(m.get_instance_by_mxid("@a:x").unwrap().pid, 2);
    assert!(m.get_instance_by_pid(1).is_err());
    assert_eq!(m.get_instance_by_pid(2).unwrap().mxid, "@a:x");
}

#[test]
fn other_owners_survive_store_and_drop() {
    let mut m = WechatManager::new(23333, String::from("C:/save"));
    m.store_instance(String::from("@a:x"), sample_instance(1, "@a:x")).unwrap();
    m.store_instance(String::from("@b:x"), sample_instance(2, "@b:x")).unwrap();
    m.drop_instance("@a:x").unwrap();

    assert_eq!(m.get_instance_by_mxid("@b:x").unwrap().pid, 2);
    assert_eq!(m.get_instance_by_pid(2).unwrap().mxid, "@b:x");
}

#[test]
fn listen_ports_count_up_from_hook_port() {
    let mut m = WechatManager::new(23333, String::from("C:/save"));
    assert_eq!(m.alloc_listen_port(), 23334);
    assert_eq!(m.alloc_listen_port(), 23335);
    assert_eq!(m.wechat_listen_port, 23336);
}

#[test]
fn taking_over_a_live_process_evicts_its_old_owner() {
    let mut m = WechatManager::new(23333, String::from("C:/save"));
    m.store_instance(String::from("@a:x"), sample_instance(7, "@a:x")).unwrap();
    m.store_instance(String::from("@b:x"), sample_instance(7, "@b:x")).unwrap();

    assert!(m.get_instance_by_mxid("@a:x").is_err());
    assert_eq!(m.get_instance_by_pid(7).unwrap().mxid, "@b:x");
}

#[test]
fn listen_ports_wrap_at_the_top_of_the_range() {
    let mut m = WechatManager::new(u32::MAX, String::from("C:/save"));
    assert_eq!(m.alloc_listen_port(), 0);
    assert_eq!(m.alloc_listen_port(), 1);
    let mut m2 = WechatManager::new(u32::MAX - 1, String::from("C:/save"));
    assert_eq!(m2.alloc_listen_port(), u32::MAX);
    assert_eq!(m2.alloc_listen_port(), 0);
}
