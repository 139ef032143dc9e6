//! Decisions of the QR-code login: what each poll reply means for the
//! session, and the login cookies taken from `Set-Cookie` headers.
use vstd::prelude::*;
use crate::state::{AppState, AppStateView, Cookies};

verus! {

/// How long a QR code is polled before it is given up, in seconds.
pub const QR_TIMEOUT_SECS: u64 = 180;

/// Poll status: the login was confirmed.
pub const POLL_CONFIRMED: i64 = 0;
/// Poll status: the QR code expired.
pub const POLL_EXPIRED: i64 = 86038;
/// Poll status: the code was scanned and awaits confirmation.
pub const POLL_SCANNED: i64 = 86090;

/// What the login page does after a poll.
#[derive(Clone, Copy, Debug, PartialEq, Eq, Structural)]
pub enum QrStep {
    /// Stop polling: the code timed out or was withdrawn.
    Stop,
    /// The login succeeded: store the cookies, keep the login and stop.
    LoggedIn,
    /// The code expired: fetch a new one, then go on polling.
    Refresh,
    /// The code was scanned: report it and go on polling.
    Scanned,
    /// Wait and poll again.
    Wait,
}

/// The decision after a poll made `elapsed_secs` after the code was shown,
/// with the reply's status `reply_code` (negative when the reply could not
/// be read) and the login status inside it, if any.
pub open spec fn qr_decision(elapsed_secs: u64, key_present: bool, reply_code: i64, login_code: Option<i64>) -> QrStep {
    if elapsed_secs > QR_TIMEOUT_SECS || !key_present {
        QrStep::Stop
    } else if reply_code != 0 || login_code is None {
        QrStep::Wait
    } else if login_code.unwrap() == POLL_CONFIRMED {
        QrStep::LoggedIn
    } else if login_code.unwrap() == POLL_EXPIRED {
        QrStep::Refresh
    } else if login_code.unwrap() == POLL_SCANNED {
        QrStep::Scanned
    } else {
        QrStep::Wait
    }
}

/// Decides what follows a poll of the login status.
pub fn qr_poll_step(elapsed_secs: u64, key_present: bool, reply_code: i64, login_code: Option<i64>) -> (r: QrStep)
    ensures
        r == qr_decision(elapsed_secs, key_present, reply_code, login_code),
{
    if elapsed_secs > QR_TIMEOUT_SECS || !key_present {
        return QrStep::Stop;
    }
    match login_code {
        Some(c) if reply_code == 0 => {
            if c == POLL_CONFIRMED {
                QrStep::LoggedIn
            } else if c == POLL_EXPIRED {
                QrStep::Refresh
            } else if c == POLL_SCANNED {
                QrStep::Scanned
            } else {
                QrStep::Wait
            }
        },
        _ => QrStep::Wait,
    }
}

/// Whether `c` has the Unicode `White_Space` property, the characters that
/// `char::is_whitespace` accepts and `str::trim` strips.
pub open spec fn is_white_space(c: char) -> bool {
    let u = c as u32;
    ||| 0x09 <= u <= 0x0D
    ||| u == 0x20 || u == 0x85 || u == 0xA0 || u == 0x1680
    ||| 0x2000 <= u <= 0x200A
    ||| u == 0x2028 || u == 0x2029 || u == 0x202F || u == 0x205F || u == 0x3000
}

fn white_space(c: char) -> (r: bool)
    ensures
        r == is_white_space(c),
{
    let u = c as u32;
    (0x09 <= u && u <= 0x0D) || u == 0x20 || u == 0x85 || u == 0xA0 || u == 0x1680 || (0x2000 <= u && u
        <= 0x200A) || u == 0x2028 || u == 0x2029 || u == 0x202F || u == 0x205F || u == 0x3000
}

/// `s` without its leading white space.
pub open spec fn trim_start(s: Seq<char>) -> Seq<char>
    decreases s.len(),
{
    if s.len() > 0 && is_white_space(s[0]) {
        trim_start(s.subrange(1, s.len() as int))
    } else {
        s
    }
}

/// `s` without its trailing white space.
pub open spec fn trim_end(s: Seq<char>) -> Seq<char>
    decreases s.len(),
{
    if s.len() > 0 && is_white_space(s.last()) {
        trim_end(s.drop_last())
    } else {
        s
    }
}

/// `s` without leading and trailing white space.
pub open spec fn trimmed(s: Seq<char>) -> Seq<char> {
    trim_end(trim_start(s))
}

/// The text without leading and trailing white space.
fn trim_text(s: &str) -> (r: String)
    ensures
        r@ == trimmed(s@),
{
    let n = s.unicode_len();
    let mut a: usize = 0;
    proof {
        assert(s@.subrange(0, n as int) =~= s@);
    }
    while a < n && white_space(s.get_char(a))
        invariant
            n == s@.len(),
            a <= n,
            trim_start(s@.subrange(a as int, n as int)) == trim_start(s@),
        decreases n - a,
    {
        proof {
            assert(s@.subrange(a as int, n as int).subrange(1, (n - a) as int) =~= s@.subrange(a + 1, n as int));
        }
        a = a + 1;
    }
    let mut e: usize = n;
    while e > a && white_space(s.get_char(e - 1))
        invariant
            n == s@.len(),
            a <= e <= n,
            trim_end(s@.subrange(a as int, e as int)) == trim_end(s@.subrange(a as int, n as int)),
        decreases e - a,
    {
        proof {
            assert(s@.subrange(a as int, e as int).drop_last() =~= s@.subrange(a as int, e - 1));
        }
        e = e - 1;
    }
    String::from_str(s.substring_char(a, e))
}

/// Whether `i` is where the first `c` in `s` stands, or the length of `s`
/// when it holds no `c`.
pub open spec fn is_first(s: Seq<char>, c: char, i: int) -> bool {
    &&& 0 <= i <= s.len()
    &&& i < s.len() ==> s[i] == c
    &&& forall|j: int| 0 <= j < i ==> s[j] != c
}

/// The position of the first `c` in `s`, or its length.
pub open spec fn first_of(s: Seq<char>, c: char) -> int {
    choose|i: int| is_first(s, c, i)
}

proof fn lemma_first_of(s: Seq<char>, c: char, i: int)
    requires
        is_first(s, c, i),
    ensures
        first_of(s, c) == i,
{
    let k = first_of(s, c);
    assert(is_first(s, c, k));
    if k < i {
        assert(s[k] != c);
    }
    if i < k {
        assert(s[i] != c);
    }
}

fn find_char(s: &str, c: char) -> (r: usize)
    ensures
        r == first_of(s@, c),
        is_first(s@, c, r as int),
{
    let n = s.unicode_len();
    let mut i: usize = 0;
    while i < n && s.get_char(i) != c
        invariant
            n == s@.len(),
            i <= n,
            forall|j: int| 0 <= j < i ==> s@[j] != c,
        decreases n - i,
    {
        i = i + 1;
    }
    proof {
        lemma_first_of(s@, c, i as int);
    }
    i
}

/// The name and value of the first attribute of a `Set-Cookie` line: the
/// text before the first `;`, split at its first `=`, both sides trimmed.
pub open spec fn set_cookie_pair(line: Seq<char>) -> Option<(Seq<char>, Seq<char>)> {
    let first = line.subrange(0, first_of(line, ';'));
    let eq = first_of(first, '=');
    if eq == first.len() {
        None
    } else {
        Some((trimmed(first.subrange(0, eq)), trimmed(first.subrange(eq + 1, first.len() as int))))
    }
}

/// Login cookies as plain values.
pub struct CookiesView {
    pub sessdata: Seq<char>,
    pub dede_user_id: Option<Seq<char>>,
    pub dede_user_id_ck_md5: Option<Seq<char>>,
    pub bili_jct: Option<Seq<char>>,
    pub sid: Option<Seq<char>>,
}

pub open spec fn text_view(o: Option<String>) -> Option<Seq<char>> {
    match o {
        Some(s) => Some(s@),
        None => None,
    }
}

pub open spec fn cookies_view(c: Cookies) -> CookiesView {
    CookiesView {
        sessdata: c.SESSDATA@,
        dede_user_id: text_view(c.DedeUserID),
        dede_user_id_ck_md5: text_view(c.DedeUserID__ckMd5),
        bili_jct: text_view(c.bili_jct),
        sid: text_view(c.sid),
    }
}

/// No login cookies.
pub open spec fn empty_cookies() -> CookiesView {
    CookiesView {
        sessdata: Seq::empty(),
        dede_user_id: None,
        dede_user_id_ck_md5: None,
        bili_jct: None,
        sid: None,
    }
}

/// The cookies after one `Set-Cookie` line: a login cookie that it names
/// takes its value; any other line changes nothing.
pub open spec fn apply_set_cookie(c: CookiesView, line: Seq<char>) -> CookiesView {
    match set_cookie_pair(line) {
        None => c,
        Some((k, v)) => if k == "SESSDATA"@ {
            CookiesView { sessdata: v, ..c }
        } else if k == "DedeUserID"@ {
            CookiesView { dede_user_id: Some(v), ..c }
        } else if k == "DedeUserID__ckMd5"@ {
            CookiesView { dede_user_id_ck_md5: Some(v), ..c }
        } else if k == "bili_jct"@ {
            CookiesView { bili_jct: Some(v), ..c }
        } else if k == "sid"@ {
            CookiesView { sid: Some(v), ..c }
        } else {
            c
        },
    }
}

/// The cookies after the given `Set-Cookie` lines, in order.
pub open spec fn apply_set_cookies(c: CookiesView, lines: Seq<Seq<char>>) -> CookiesView
    decreases lines.len(),
{
    if lines.len() == 0 {
        c
    } else {
        apply_set_cookie(apply_set_cookies(c, lines.drop_last()), lines.last())
    }
}

fn same_text(a: &String, b: &str) -> (r: bool)
    ensures
        r == (a@ == b@),
{
    a.eq(&String::from_str(b))
}

fn take_set_cookie(c: &mut Cookies, line: &str)
    ensures
        cookies_view(*final(c)) == apply_set_cookie(cookies_view(*old(c)), line@),
{
    let n = line.unicode_len();
    let end = find_char(line, ';');
    let first = line.substring_char(0, end);
    let m = first.unicode_len();
    let eq = find_char(first, '=');
    if eq == m {
        return;
    }
    let k = trim_text(first.substring_char(0, eq));
    let v = trim_text(first.substring_char(eq + 1, m));
    if same_text(&k, "SESSDATA") {
        c.SESSDATA = v;
    } else if same_text(&k, "DedeUserID") {
        c.DedeUserID = Some(v);
    } else if same_text(&k, "DedeUserID__ckMd5") {
        c.DedeUserID__ckMd5 = Some(v);
    } else if same_text(&k, "bili_jct") {
        c.bili_jct = Some(v);
    } else if same_text(&k, "sid") {
        c.sid = Some(v);
    }
}

/// The login cookies that a login reply sets: starting from empty cookies,
/// each `Set-Cookie` line in turn gives its first attribute to the login
/// cookie of that name.
pub fn cookies_from_set_cookie(lines: &Vec<String>) -> (r: Cookies)
    ensures
        cookies_view(r) == apply_set_cookies(empty_cookies(), lines@.map_values(|l: String| l@)),
{
    let mut c = Cookies::default();
    assert(cookies_view(c) == empty_cookies());
    let n = lines.len();
    let mut i: usize = 0;
    while i < n
        invariant
            n == lines@.len(),
            i <= n,
            cookies_view(c) == apply_set_cookies(
                empty_cookies(),
                lines@.map_values(|l: String| l@).subrange(0, i as int),
            ),
        decreases n - i,
    {
        take_set_cookie(&mut c, lines[i].as_str());
        proof {
            let ls = lines@.map_values(|l: String| l@);
            assert(ls.subrange(0, i as int + 1).drop_last() =~= ls.subrange(0, i as int));
        }
        i = i + 1;
    }
    proof {
        assert(lines@.map_values(|l: String| l@).subrange(0, n as int) =~= lines@.map_values(|l: String| l@));
    }
    c
}

/// Carries out a login decision on the session. A confirmed login stores
/// `cookies`, marks the user signed in and reports success; an expired code
/// clears the login page for a new code; a scan and a timeout are reported.
pub fn apply_qr_step(state: &mut AppState, step: QrStep, elapsed_secs: u64, cookies: Cookies)
    ensures
        step == QrStep::LoggedIn ==> final(state)@ == (AppStateView {
            cookies: Some(cookies),
            logged_in: true,
            qr_status: "登录成功"@,
            ..old(state)@
        }),
        step == QrStep::Refresh ==> final(state)@ == (AppStateView {
            qr_status: "二维码已失效，正在刷新..."@,
            qr_started: false,
            qr_svg: None,
            qrcode_key: None,
            ..old(state)@
        }),
        step == QrStep::Scanned ==> final(state)@ == (AppStateView {
            qr_status: "已扫码，等待确认..."@,
            ..old(state)@
        }),
        step == QrStep::Stop && elapsed_secs > QR_TIMEOUT_SECS ==> final(state)@ == (AppStateView {
            qr_status: "二维码已超时，请刷新"@,
            ..old(state)@
        }),
        step == QrStep::Stop && elapsed_secs <= QR_TIMEOUT_SECS ==> final(state)@ == old(state)@,
        step == QrStep::Wait ==> final(state)@ == old(state)@,
{
    match step {
        QrStep::LoggedIn => {
            state.set_cookies(cookies);
            state.set_logged_in(true);
            state.set_qr_status("登录成功");
        },
        QrStep::Refresh => {
            state.set_qr_status("二维码已失效，正在刷新...");
            state.set_qr_started(false);
            state.set_qr_svg(None);
            state.set_qrcode_key(None);
        },
        QrStep::Scanned => {
            state.set_qr_status("已扫码，等待确认...");
        },
        QrStep::Stop => {
            if elapsed_secs > QR_TIMEOUT_SECS {
                state.set_qr_status("二维码已超时，请刷新");
            }
        },
        QrStep::Wait => {},
    }
}

} // verus!
