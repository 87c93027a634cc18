use matrix_wechat_agent::transport::ReconnectState;

const MINUTE_MS: i64 = 60000;

#[test]
fn three_failures_in_the_window_wait_three_units() {
    let s0 = ReconnectState::initial(0);
    // quiet for longer than the window, then failures one minute apart
    let t0 = 10 * MINUTE_MS;
    let (s1, w1) = s0.step(t0);
    let (s2, w2) = s1.step(t0 + MINUTE_MS);
    let (s3, w3) = s2.step(t0 + 2 * MINUTE_MS);
    assert_eq!(w1, Some(5000));
    assert_eq!(w2, Some(10000));
    assert_eq!(s3.err_cnt, 3);
    assert_eq!(w3, Some(3 * 5000));
}

#[test]
fn a_late_failure_resets_the_multiplier() {
    let s0 = ReconnectState::initial(0);
    let (s1, _) = s0.step(MINUTE_MS);
    let (s2, _) = s1.step(2 * MINUTE_MS);
    assert_eq!(s2.err_cnt, 2);
    // ten minutes later: outside the five-minute window
    let (s3, w3) = s2.step(12 * MINUTE_MS);
    assert_eq!(s3.err_cnt, 1);
    assert_eq!(w3, Some(5000));
}

#[test]
fn exceeding_the_budget_gives_up() {
    let mut st = ReconnectState::initial(0);
    let mut t = 10 * MINUTE_MS;
    for expected in 1..=5u32 {
        let (next, wait) = st.step(t);
        assert_eq!(next.err_cnt, expected);
        assert!(wait.is_some());
        st = next;
        t += 1;
    }
    let (last, wait) = st.step(t);
    assert_eq!(last.err_cnt, 6);
    assert!(wait.is_none());
}
