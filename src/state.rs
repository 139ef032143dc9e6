//! The application's session state: current page, theme, login and the
//! transient state of the QR-code login page.
use vstd::prelude::*;

verus! {

#[derive(Clone, Copy, Debug, PartialEq, Eq, Structural)]
pub enum Page {
    Home,
    Settings,
}

#[derive(Clone, Copy, Debug, PartialEq, Eq, Structural)]
pub enum Theme {
    Dark,
    Light,
}

/// The site's login cookies.
#[allow(non_snake_case)]
#[derive(Clone, Debug)]
pub struct Cookies {
    pub SESSDATA: String,
    pub DedeUserID: Option<String>,
    pub DedeUserID__ckMd5: Option<String>,
    pub bili_jct: Option<String>,
    pub sid: Option<String>,
}

/// The signed-in user's public profile.
#[derive(Clone, Debug)]
pub struct UserProfile {
    pub uname: Option<String>,
    pub face: Option<String>,
    /// Local copy of the avatar image, once downloaded.
    pub face_local: Option<String>,
    pub pendant_image: Option<String>,
}

/// The login as it is kept between runs.
#[derive(Clone, Debug)]
pub struct SavedLogin {
    pub logged_in: bool,
    pub cookies: Cookies,
    pub user: Option<UserProfile>,
}

/// Cookies with every value empty or absent.
pub open spec fn no_cookies(c: Cookies) -> bool {
    &&& c.SESSDATA@ == Seq::<char>::empty()
    &&& c.DedeUserID is None
    &&& c.DedeUserID__ckMd5 is None
    &&& c.bili_jct is None
    &&& c.sid is None
}

impl Default for Cookies {
    fn default() -> (r: Cookies)
        ensures
            no_cookies(r),
    {
        Cookies { SESSDATA: String::new(), DedeUserID: None, DedeUserID__ckMd5: None, bili_jct: None, sid: None }
    }
}

impl Default for UserProfile {
    fn default() -> (r: UserProfile)
        ensures
            r.uname is None && r.face is None && r.face_local is None && r.pendant_image is None,
    {
        UserProfile { uname: None, face: None, face_local: None, pendant_image: None }
    }
}

fn copy_text(o: &Option<String>) -> (r: Option<String>)
    ensures
        r == *o,
{
    match o {
        Some(s) => Some(s.clone()),
        None => None,
    }
}

fn copy_cookies(c: &Cookies) -> (r: Cookies)
    ensures
        r == *c,
{
    Cookies {
        SESSDATA: c.SESSDATA.clone(),
        DedeUserID: copy_text(&c.DedeUserID),
        DedeUserID__ckMd5: copy_text(&c.DedeUserID__ckMd5),
        bili_jct: copy_text(&c.bili_jct),
        sid: copy_text(&c.sid),
    }
}

fn copy_profile(u: &UserProfile) -> (r: UserProfile)
    ensures
        r == *u,
{
    UserProfile {
        uname: copy_text(&u.uname),
        face: copy_text(&u.face),
        face_local: copy_text(&u.face_local),
        pendant_image: copy_text(&u.pendant_image),
    }
}

/// `name=value`.
pub open spec fn cookie_pair(name: Seq<char>, value: Seq<char>) -> Seq<char> {
    name + "="@ + value
}

pub open spec fn optional_pair(name: Seq<char>, value: Option<String>) -> Seq<Seq<char>> {
    match value {
        Some(v) => seq![cookie_pair(name, v@)],
        None => Seq::empty(),
    }
}

/// The `name=value` pairs of a cookie header, in header order: the optional
/// cookies that are present, then the session cookie.
pub open spec fn cookie_parts(c: Cookies) -> Seq<Seq<char>> {
    optional_pair("DedeUserID"@, c.DedeUserID) + optional_pair("DedeUserID__ckMd5"@, c.DedeUserID__ckMd5)
        + optional_pair("bili_jct"@, c.bili_jct) + optional_pair("sid"@, c.sid) + seq![
        cookie_pair("SESSDATA"@, c.SESSDATA@),
    ]
}

/// The parts joined with `sep` between neighbours.
pub open spec fn join(parts: Seq<Seq<char>>, sep: Seq<char>) -> Seq<char>
    decreases parts.len(),
{
    if parts.len() == 0 {
        Seq::empty()
    } else if parts.len() == 1 {
        parts[0]
    } else {
        join(parts.drop_last(), sep) + sep + parts.last()
    }
}

/// Appends `name=value` to a header that holds the parts `parts` so far.
fn append_pair(out: String, name: &str, value: &str, Ghost(parts): Ghost<Seq<Seq<char>>>) -> (r: String)
    requires
        out@ == join(parts, "; "@),
        out@.len() == 0 <==> parts.len() == 0,
    ensures
        r@ == join(parts.push(cookie_pair(name@, value@)), "; "@),
        r@.len() > 0,
{
    let pair = String::from_str(name).concat("=").concat(value);
    proof {
        reveal_strlit("=");
        let next = parts.push(cookie_pair(name@, value@));
        assert(next.drop_last() =~= parts);
    }
    if out.as_str().unicode_len() == 0 {
        pair
    } else {
        out.concat("; ").concat(pair.as_str())
    }
}

fn append_optional(
    out: String,
    name: &str,
    value: &Option<String>,
    Ghost(parts): Ghost<Seq<Seq<char>>>,
) -> (r: String)
    requires
        out@ == join(parts, "; "@),
        out@.len() == 0 <==> parts.len() == 0,
    ensures
        r@.len() == 0 <==> (parts + optional_pair(name@, *value)).len() == 0,
        r@ == join(parts + optional_pair(name@, *value), "; "@),
{
    match value {
        Some(v) => {
            let r = append_pair(out, name, v.as_str(), Ghost(parts));
            proof {
                assert(parts.push(cookie_pair(name@, v@)) =~= parts + optional_pair(name@, *value));
            }
            r
        },
        None => {
            assert(parts + optional_pair(name@, *value) =~= parts);
            out
        },
    }
}

/// What the application state holds.
pub struct AppStateView {
    pub current_page: Page,
    pub theme: Theme,
    pub logged_in: bool,
    pub cookies: Option<Cookies>,
    pub user: Option<UserProfile>,
    pub qr_started: bool,
    pub qrcode_key: Option<String>,
    pub qr_svg: Option<Seq<u8>>,
    pub qr_status: Seq<char>,
    pub user_menu_open: bool,
}

/// The session state of the application window.
pub struct AppState {
    current_page: Page,
    theme: Theme,
    logged_in: bool,
    cookies: Option<Cookies>,
    user: Option<UserProfile>,
    qr_started: bool,
    qrcode_key: Option<String>,
    qr_svg: Option<Vec<u8>>,
    qr_status: String,
    user_menu_open: bool,
}

impl View for AppState {
    type V = AppStateView;

    closed spec fn view(&self) -> AppStateView {
        AppStateView {
            current_page: self.current_page,
            theme: self.theme,
            logged_in: self.logged_in,
            cookies: self.cookies,
            user: self.user,
            qr_started: self.qr_started,
            qrcode_key: self.qrcode_key,
            qr_svg: match self.qr_svg {
                Some(v) => Some(v@),
                None => None,
            },
            qr_status: self.qr_status@,
            user_menu_open: self.user_menu_open,
        }
    }
}

/// The state of a fresh session: home page, dark theme, nobody signed in,
/// login page idle, user menu closed.
pub open spec fn initial_view(v: AppStateView) -> bool {
    &&& v.current_page == Page::Home
    &&& v.theme == Theme::Dark
    &&& !v.qr_started
    &&& v.qrcode_key is None
    &&& v.qr_svg is None
    &&& v.qr_status == Seq::<char>::empty()
    &&& !v.user_menu_open
}

/// The login kept from a previous run, if any, restored into a fresh session.
pub open spec fn restored_login(v: AppStateView, saved: Option<SavedLogin>) -> bool {
    match saved {
        Some(s) => v.logged_in == s.logged_in && v.cookies == Some(s.cookies) && v.user == s.user,
        None => !v.logged_in && v.cookies is None && v.user is None,
    }
}

pub open spec fn other_theme(t: Theme) -> Theme {
    match t {
        Theme::Dark => Theme::Light,
        Theme::Light => Theme::Dark,
    }
}

/// The value of a cookie header for the given cookies.
pub open spec fn cookie_header_of(c: Cookies) -> Seq<char> {
    join(cookie_parts(c), "; "@)
}

impl AppState {
    /// A fresh session that restores `saved`, the login kept from an earlier
    /// run, where there is one.
    pub fn new(saved: Option<SavedLogin>) -> (r: AppState)
        ensures
            initial_view(r@),
            restored_login(r@, saved),
    {
        let mut s = AppState {
            current_page: Page::Home,
            theme: Theme::Dark,
            logged_in: false,
            cookies: None,
            user: None,
            qr_started: false,
            qrcode_key: None,
            qr_svg: None,
            qr_status: String::new(),
            user_menu_open: false,
        };
        if let Some(saved) = saved {
            s.cookies = Some(saved.cookies);
            s.logged_in = saved.logged_in;
            s.user = saved.user;
        }
        s
    }

    pub fn current_page(&self) -> (r: Page)
        ensures
            r == self@.current_page,
    {
        self.current_page
    }

    pub fn set_page(&mut self, page: Page)
        ensures
            final(self)@ == (AppStateView { current_page: page, ..old(self)@ }),
    {
        self.current_page = page;
    }

    pub fn theme(&self) -> (r: Theme)
        ensures
            r == self@.theme,
    {
        self.theme
    }

    pub fn set_theme(&mut self, theme: Theme)
        ensures
            final(self)@ == (AppStateView { theme, ..old(self)@ }),
    {
        self.theme = theme;
    }

    /// Switches between the dark and the light theme.
    pub fn toggle_theme(&mut self)
        ensures
            final(self)@ == (AppStateView { theme: other_theme(old(self)@.theme), ..old(self)@ }),
    {
        self.theme = match self.theme {
            Theme::Dark => Theme::Light,
            Theme::Light => Theme::Dark,
        };
    }

    pub fn is_logged_in(&self) -> (r: bool)
        ensures
            r == self@.logged_in,
    {
        self.logged_in
    }

    pub fn user(&self) -> (r: Option<&UserProfile>)
        ensures
            r is Some <==> self@.user is Some,
            r is Some ==> *r.unwrap() == self@.user.unwrap(),
    {
        match &self.user {
            Some(u) => Some(u),
            None => None,
        }
    }

    pub fn set_logged_in(&mut self, logged: bool)
        ensures
            final(self)@ == (AppStateView { logged_in: logged, ..old(self)@ }),
    {
        self.logged_in = logged;
    }

    pub fn set_cookies(&mut self, cookies: Cookies)
        ensures
            final(self)@ == (AppStateView { cookies: Some(cookies), ..old(self)@ }),
    {
        self.cookies = Some(cookies);
    }

    pub fn set_user(&mut self, user: UserProfile)
        ensures
            final(self)@ == (AppStateView { user: Some(user), ..old(self)@ }),
    {
        self.user = Some(user);
    }

    /// The `Cookie` header for the stored cookies: the present pairs among
    /// `DedeUserID`, `DedeUserID__ckMd5`, `bili_jct` and `sid`, then
    /// `SESSDATA`, joined by `"; "`; `None` when no cookies are stored.
    pub fn cookie_header(&self) -> (r: Option<String>)
        ensures
            r is Some <==> self@.cookies is Some,
            r is Some ==> r.unwrap()@ == cookie_header_of(self@.cookies.unwrap()),
    {
        let c = match &self.cookies {
            Some(c) => c,
            None => {
                return None;
            },
        };
        let ghost p0 = Seq::<Seq<char>>::empty();
        let out = String::new();
        let out = append_optional(out, "DedeUserID", &c.DedeUserID, Ghost(p0));
        let ghost p1 = p0 + optional_pair("DedeUserID"@, c.DedeUserID);
        let out = append_optional(out, "DedeUserID__ckMd5", &c.DedeUserID__ckMd5, Ghost(p1));
        let ghost p2 = p1 + optional_pair("DedeUserID__ckMd5"@, c.DedeUserID__ckMd5);
        let out = append_optional(out, "bili_jct", &c.bili_jct, Ghost(p2));
        let ghost p3 = p2 + optional_pair("bili_jct"@, c.bili_jct);
        let out = append_optional(out, "sid", &c.sid, Ghost(p3));
        let ghost p4 = p3 + optional_pair("sid"@, c.sid);
        let out = append_pair(out, "SESSDATA", c.SESSDATA.as_str(), Ghost(p4));
        proof {
            assert(p4.push(cookie_pair("SESSDATA"@, c.SESSDATA@)) =~= cookie_parts(*c));
        }
        Some(out)
    }

    /// The login record to keep for the next run: the login flag, the stored
    /// cookies (empty ones when none are stored) and the user profile.
    pub fn persist_login(&self) -> (r: SavedLogin)
        ensures
            r.logged_in == self@.logged_in,
            self@.cookies is Some ==> r.cookies == self@.cookies.unwrap(),
            self@.cookies is None ==> no_cookies(r.cookies),
            r.user == self@.user,
    {
        let cookies = match &self.cookies {
            Some(c) => copy_cookies(c),
            None => Cookies::default(),
        };
        let user = match &self.user {
            Some(u) => Some(copy_profile(u)),
            None => None,
        };
        SavedLogin { logged_in: self.logged_in, cookies, user }
    }

    pub fn qr_started(&self) -> (r: bool)
        ensures
            r == self@.qr_started,
    {
        self.qr_started
    }

    pub fn set_qr_started(&mut self, v: bool)
        ensures
            final(self)@ == (AppStateView { qr_started: v, ..old(self)@ }),
    {
        self.qr_started = v;
    }

    pub fn qrcode_key(&self) -> (r: Option<&String>)
        ensures
            r is Some <==> self@.qrcode_key is Some,
            r is Some ==> *r.unwrap() == self@.qrcode_key.unwrap(),
    {
        match &self.qrcode_key {
            Some(k) => Some(k),
            None => None,
        }
    }

    pub fn set_qrcode_key(&mut self, k: Option<String>)
        ensures
            final(self)@ == (AppStateView { qrcode_key: k, ..old(self)@ }),
    {
        self.qrcode_key = k;
    }

    /// The QR code image of the login page, as SVG bytes.
    pub fn qr_svg(&self) -> (r: Option<&[u8]>)
        ensures
            r is Some <==> self@.qr_svg is Some,
            r is Some ==> r.unwrap()@ == self@.qr_svg.unwrap(),
    {
        match &self.qr_svg {
            Some(v) => Some(v.as_slice()),
            None => None,
        }
    }

    pub fn set_qr_svg(&mut self, data: Option<Vec<u8>>)
        ensures
            final(self)@ == (AppStateView {
                qr_svg: match data {
                    Some(v) => Some(v@),
                    None => None,
                },
                ..old(self)@
            }),
    {
        self.qr_svg = data;
    }

    pub fn qr_status(&self) -> (r: &str)
        ensures
            r@ == self@.qr_status,
    {
        self.qr_status.as_str()
    }

    pub fn set_qr_status(&mut self, s: &str)
        ensures
            final(self)@ == (AppStateView { qr_status: s@, ..old(self)@ }),
    {
        self.qr_status = String::from_str(s);
    }

    pub fn is_user_menu_open(&self) -> (r: bool)
        ensures
            r == self@.user_menu_open,
    {
        self.user_menu_open
    }

    pub fn set_user_menu_open(&mut self, open: bool)
        ensures
            final(self)@ == (AppStateView { user_menu_open: open, ..old(self)@ }),
    {
        self.user_menu_open = open;
    }

    pub fn toggle_user_menu(&mut self)
        ensures
            final(self)@ == (AppStateView { user_menu_open: !old(self)@.user_menu_open, ..old(self)@ }),
    {
        self.user_menu_open = !self.user_menu_open;
    }
}

} // verus!
