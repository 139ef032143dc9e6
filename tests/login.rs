use bili_avatar::login::{apply_qr_step, cookies_from_set_cookie, qr_poll_step, QrStep};
use bili_avatar::state::{AppState, Cookies};

#[test]
fn poll_decisions() {
    assert_eq!(qr_poll_step(181, true, 0, Some(0)), QrStep::Stop);
    assert_eq!(qr_poll_step(10, false, 0, Some(0)), QrStep::Stop);
    assert_eq!(qr_poll_step(180, true, 0, Some(0)), QrStep::LoggedIn);
    assert_eq!(qr_poll_step(5, true, 0, Some(86038)), QrStep::Refresh);
    assert_eq!(qr_poll_step(5, true, 0, Some(86090)), QrStep::Scanned);
    assert_eq!(qr_poll_step(5, true, 0, Some(86101)), QrStep::Wait);
    assert_eq!(qr_poll_step(5, true, -1, Some(0)), QrStep::Wait);
    assert_eq!(qr_poll_step(5, true, 0, None), QrStep::Wait);
}

#[test]
fn set_cookie_lines_fill_login_cookies() {
    let lines = vec![
        "SESSDATA=abc%2C123; Path=/; Domain=bilibili.com; HttpOnly".to_string(),
        " DedeUserID = 42 ; Path=/".to_string(),
        "DedeUserID__ckMd5=ff00; Path=/".to_string(),
        "bili_jct=tok".to_string(),
        "unrelated=1; Path=/".to_string(),
        "no pair here".to_string(),
        "sid=a=b; Path=/".to_string(),
    ];
    let c = cookies_from_set_cookie(&lines);
    assert_eq!(c.SESSDATA, "abc%2C123");
    assert_eq!(c.DedeUserID.as_deref(), Some("42"));
    assert_eq!(c.DedeUserID__ckMd5.as_deref(), Some("ff00"));
    assert_eq!(c.bili_jct.as_deref(), Some("tok"));
    assert_eq!(c.sid.as_deref(), Some("a=b"));
    let none = cookies_from_set_cookie(&vec![]);
    assert_eq!(none.SESSDATA, "");
    assert!(none.sid.is_none());
    let wide = cookies_from_set_cookie(&vec!["\u{3000}sid\t=\u{a0}x y\u{2009}; Path=/".to_string()]);
    assert_eq!(wide.sid.as_deref(), Some("x y"));
    let later = cookies_from_set_cookie(&vec!["sid=1".to_string(), "sid=2".to_string()]);
    assert_eq!(later.sid.as_deref(), Some("2"));
}

#[test]
fn login_steps_update_session() {
    let mut s = AppState::new(None);
    s.set_qr_started(true);
    s.set_qrcode_key(Some("k".to_string()));
    s.set_qr_svg(Some(vec![1]));
    apply_qr_step(&mut s, QrStep::Refresh, 10, Cookies::default());
    assert!(!s.qr_started());
    assert!(s.qrcode_key().is_none());
    assert!(s.qr_svg().is_none());
    assert_eq!(s.qr_status(), "二维码已失效，正在刷新...");
    apply_qr_step(&mut s, QrStep::Scanned, 12, Cookies::default());
    assert_eq!(s.qr_status(), "已扫码，等待确认...");
    apply_qr_step(&mut s, QrStep::Stop, 200, Cookies::default());
    assert_eq!(s.qr_status(), "二维码已超时，请刷新");
    let mut c = Cookies::default();
    c.SESSDATA = "x".to_string();
    apply_qr_step(&mut s, QrStep::LoggedIn, 20, c);
    assert!(s.is_logged_in());
    assert_eq!(s.cookie_header().unwrap(), "SESSDATA=x");
    assert_eq!(s.qr_status(), "登录成功");
    apply_qr_step(&mut s, QrStep::Wait, 20, Cookies::default());
    assert_eq!(s.qr_status(), "登录成功");
}
