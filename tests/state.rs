use bili_avatar::state::{AppState, Cookies, Page, SavedLogin, Theme, UserProfile};

fn cookies(sess: &str) -> Cookies {
    Cookies {
        SESSDATA: sess.to_string(),
        DedeUserID: None,
        DedeUserID__ckMd5: None,
        bili_jct: None,
        sid: None,
    }
}

#[test]
fn fresh_state_defaults() {
    let s = AppState::new(None);
    assert_eq!(s.current_page(), Page::Home);
    assert_eq!(s.theme(), Theme::Dark);
    assert!(!s.is_logged_in());
    assert!(s.user().is_none());
    assert!(s.cookie_header().is_none());
    assert!(!s.qr_started());
    assert!(s.qrcode_key().is_none());
    assert!(s.qr_svg().is_none());
    assert_eq!(s.qr_status(), "");
    assert!(!s.is_user_menu_open());
}

#[test]
fn saved_login_is_restored() {
    let user = UserProfile { uname: Some("bob".to_string()), ..UserProfile::default() };
    let s = AppState::new(Some(SavedLogin { logged_in: true, cookies: cookies("abc"), user: Some(user) }));
    assert!(s.is_logged_in());
    assert_eq!(s.user().unwrap().uname.as_deref(), Some("bob"));
    assert_eq!(s.cookie_header().unwrap(), "SESSDATA=abc");
}

#[test]
fn cookie_header_orders_present_pairs() {
    let mut s = AppState::new(None);
    s.set_cookies(Cookies {
        SESSDATA: "S".to_string(),
        DedeUserID: Some("42".to_string()),
        DedeUserID__ckMd5: Some("m5".to_string()),
        bili_jct: Some("j".to_string()),
        sid: Some("x".to_string()),
    });
    assert_eq!(s.cookie_header().unwrap(), "DedeUserID=42; DedeUserID__ckMd5=m5; bili_jct=j; sid=x; SESSDATA=S");
    s.set_cookies(Cookies { bili_jct: Some("j".to_string()), ..cookies("S") });
    assert_eq!(s.cookie_header().unwrap(), "bili_jct=j; SESSDATA=S");
}

#[test]
fn persist_login_keeps_state_or_empty_cookies() {
    let mut s = AppState::new(None);
    let saved = s.persist_login();
    assert!(!saved.logged_in);
    assert_eq!(saved.cookies.SESSDATA, "");
    assert!(saved.cookies.sid.is_none());
    assert!(saved.user.is_none());
    s.set_logged_in(true);
    s.set_cookies(cookies("zz"));
    s.set_user(UserProfile { face_local: Some("/a.webp".to_string()), ..UserProfile::default() });
    let saved = s.persist_login();
    assert!(saved.logged_in);
    assert_eq!(saved.cookies.SESSDATA, "zz");
    assert_eq!(saved.user.unwrap().face_local.as_deref(), Some("/a.webp"));
}

#[test]
fn toggles_and_setters() {
    let mut s = AppState::new(None);
    s.toggle_theme();
    assert_eq!(s.theme(), Theme::Light);
    s.toggle_theme();
    assert_eq!(s.theme(), Theme::Dark);
    s.set_theme(Theme::Light);
    assert_eq!(s.theme(), Theme::Light);
    s.set_page(Page::Settings);
    assert_eq!(s.current_page(), Page::Settings);
    s.toggle_user_menu();
    assert!(s.is_user_menu_open());
    s.set_user_menu_open(false);
    assert!(!s.is_user_menu_open());
    s.set_qr_started(true);
    assert!(s.qr_started());
    s.set_qrcode_key(Some("k1".to_string()));
    assert_eq!(s.qrcode_key().map(|k| k.as_str()), Some("k1"));
    s.set_qr_svg(Some(vec![1, 2, 3]));
    assert_eq!(s.qr_svg(), Some(&[1u8, 2, 3][..]));
    s.set_qr_status("waiting");
    assert_eq!(s.qr_status(), "waiting");
}
