//! Small decisions of the chat client's screens: theme names, status
//! messages, titles, avatars and form validation.
use vstd::prelude::*;
use crate::text::{
    ascii_lower, ascii_lower_chars, chars_of, contains_seq, contains_str, is_blank, push_all,
    string_of, trim, trim_str, upper_char, upper_char_exec,
};

verus! {

/// The colour theme a user picked.
#[derive(Clone, Copy, PartialEq, Eq, Structural, Debug)]
pub enum ThemePreference {
    System,
    Light,
    Dark,
}

/// The name under which a theme is stored in the profile.
pub open spec fn theme_name(t: ThemePreference) -> Seq<char> {
    match t {
        ThemePreference::System => "system"@,
        ThemePreference::Light => "light"@,
        ThemePreference::Dark => "dark"@,
    }
}

/// The theme that a stored name stands for: `light` and `dark` in any
/// letter case, and the system theme for anything else or nothing.
pub open spec fn theme_from_name(value: Option<Seq<char>>) -> ThemePreference {
    match value {
        Some(v) => if ascii_lower(v) == "light"@ {
            ThemePreference::Light
        } else if ascii_lower(v) == "dark"@ {
            ThemePreference::Dark
        } else {
            ThemePreference::System
        },
        None => ThemePreference::System,
    }
}

/// A theme stored under its name is read back as the same theme.
pub proof fn law_theme_round_trip(t: ThemePreference)
    ensures
        theme_from_name(Some(theme_name(t))) == t,
{
    reveal_strlit("light");
    reveal_strlit("dark");
    reveal_strlit("system");
    assert(ascii_lower("light"@) =~= "light"@);
    assert(ascii_lower("dark"@) =~= "dark"@);
    let sys = ascii_lower("system"@);
    assert(sys.len() == 6);
    assert(sys[0] == 's');
    assert(sys != "light"@);
    assert(sys != "dark"@);
}

impl ThemePreference {
    /// `as_str`: the stored name of the theme.
    pub fn as_str(self) -> (r: &'static str)
        ensures
            r@ == theme_name(self),
    {
        match self {
            ThemePreference::System => "system",
            ThemePreference::Light => "light",
            ThemePreference::Dark => "dark",
        }
    }

    /// `from_profile`: the theme stored in a profile, if any.
    pub fn from_profile(value: Option<&str>) -> (r: Self)
        ensures
            r == theme_from_name(match value {
                Some(v) => Some(v@),
                None => None,
            }),
    {
        match value {
            Some(v) => {
                let lowered = ascii_lower_chars(chars_of(v).as_slice());
                let light: Vec<char> = vec!['l', 'i', 'g', 'h', 't'];
                let dark: Vec<char> = vec!['d', 'a', 'r', 'k'];
                proof {
                    reveal_strlit("light");
                    reveal_strlit("dark");
                    assert(light@ =~= "light"@);
                    assert(dark@ =~= "dark"@);
                }
                if same_chars(lowered.as_slice(), light.as_slice()) {
                    ThemePreference::Light
                } else if same_chars(lowered.as_slice(), dark.as_slice()) {
                    ThemePreference::Dark
                } else {
                    ThemePreference::System
                }
            },
            None => ThemePreference::System,
        }
    }
}

/// Whether two character slices are equal.
pub fn same_chars(a: &[char], b: &[char]) -> (r: bool)
    ensures
        r == (a@ == b@),
{
    if a.len() != b.len() {
        return false;
    }
    let mut i: usize = 0;
    while i < a.len()
        invariant
            a@.len() == b@.len(),
            i <= a@.len(),
            forall|j: int| 0 <= j < i ==> a@[j] == b@[j],
        decreases a.len() - i,
    {
        if a[i] != b[i] {
            return false;
        }
        i += 1;
    }
    assert(a@ =~= b@);
    true
}

/// Whether two strings are equal.
pub fn same_str(a: &str, b: &str) -> (r: bool)
    ensures
        r == (a@ == b@),
{
    let x = chars_of(a);
    let y = chars_of(b);
    same_chars(x.as_slice(), y.as_slice())
}

/// A status line under one of the settings sections. `expires_at_ms` is a
/// time on the client's monotonic clock, in milliseconds.
pub struct SettingsStatus {
    pub message: String,
    pub is_error: bool,
    pub expires_at_ms: Option<u64>,
}

/// A settings status as the specification sees it.
pub struct StatusView {
    pub message: Seq<char>,
    pub is_error: bool,
    pub expires_at_ms: Option<u64>,
}

impl View for SettingsStatus {
    type V = StatusView;

    open spec fn view(&self) -> StatusView {
        StatusView { message: self.message@, is_error: self.is_error, expires_at_ms: self.expires_at_ms }
    }
}

impl SettingsStatus {
    /// `success`: a lasting success message.
    pub fn success(message: &str) -> (r: Self)
        ensures
            r@ == (StatusView { message: message@, is_error: false, expires_at_ms: None }),
    {
        SettingsStatus { message: message.to_owned(), is_error: false, expires_at_ms: None }
    }

    /// `success_for`: a success message that goes away `duration_ms` after
    /// `now_ms`.
    pub fn success_for(message: &str, duration_ms: u64, now_ms: u64) -> (r: Self)
        requires
            now_ms + duration_ms <= u64::MAX,
        ensures
            r@ == (StatusView {
                message: message@,
                is_error: false,
                expires_at_ms: Some((now_ms + duration_ms) as u64),
            }),
    {
        SettingsStatus { message: message.to_owned(), is_error: false, expires_at_ms: Some(now_ms + duration_ms) }
    }

    /// `error`: a lasting error message.
    pub fn error(message: &str) -> (r: Self)
        ensures
            r@ == (StatusView { message: message@, is_error: true, expires_at_ms: None }),
    {
        SettingsStatus { message: message.to_owned(), is_error: true, expires_at_ms: None }
    }

    /// A copy of the status.
    pub fn copy(&self) -> (r: Self)
        ensures
            r@ == self@,
    {
        SettingsStatus { message: self.message.clone(), is_error: self.is_error, expires_at_ms: self.expires_at_ms }
    }
}

/// Whether a status has expired at `now_ms`.
pub open spec fn status_expired(s: Option<StatusView>, now_ms: u64) -> bool {
    match s {
        Some(v) => match v.expires_at_ms {
            Some(t) => t <= now_ms,
            None => false,
        },
        None => false,
    }
}

/// A status with its expired message removed.
pub open spec fn status_after(s: Option<StatusView>, now_ms: u64) -> Option<StatusView> {
    if status_expired(s, now_ms) {
        None
    } else {
        s
    }
}

/// Drops the status held in `slot` if it has expired at `now_ms`.
pub fn expire_status(slot: &mut Option<SettingsStatus>, now_ms: u64)
    ensures
        match *final(slot) {
            Some(s) => Some(s@),
            None => None,
        } == status_after(
            match *old(slot) {
                Some(s) => Some(s@),
                None => None,
            },
            now_ms,
        ),
{
    let expired = match slot {
        Some(s) => match s.expires_at_ms {
            Some(t) => t <= now_ms,
            None => false,
        },
        None => false,
    };
    if expired {
        *slot = None;
    }
}

/// Longest title, in characters, that the sidebar shows whole.
pub const SIDEBAR_TITLE_MAX_CHARS: usize = 28;

/// A conversation title as the sidebar shows it: whole when it has at most
/// 28 characters, else its first 25 characters followed by `...`.
pub open spec fn sidebar_title_spec(title: Seq<char>) -> Seq<char> {
    if title.len() <= 28 {
        title
    } else {
        title.take(25) + "..."@
    }
}

/// A sidebar title never has more than [`SIDEBAR_TITLE_MAX_CHARS`]
/// characters, and it begins like the title it shows.
pub proof fn law_sidebar_title_fits(title: Seq<char>)
    ensures
        sidebar_title_spec(title).len() <= SIDEBAR_TITLE_MAX_CHARS,
        title.len() <= SIDEBAR_TITLE_MAX_CHARS ==> sidebar_title_spec(title) == title,
        title.len() > SIDEBAR_TITLE_MAX_CHARS ==> sidebar_title_spec(title).take(25) == title.take(25),
{
    reveal_strlit("...");
    if title.len() > 28 {
        assert((title.take(25) + "..."@).take(25) =~= title.take(25));
    }
}

/// `sidebar_title`.
pub fn sidebar_title(title: &str) -> (r: String)
    ensures
        r@ == sidebar_title_spec(title@),
{
    let cs = chars_of(title);
    if cs.len() <= SIDEBAR_TITLE_MAX_CHARS {
        return title.to_owned();
    }
    let mut out: Vec<char> = Vec::new();
    let mut i: usize = 0;
    while i < 25
        invariant
            i <= 25,
            cs@.len() > 28,
            cs@ == title@,
            out@ == cs@.take(i as int),
        decreases 25 - i,
    {
        out.push(cs[i]);
        i += 1;
        assert(out@ =~= cs@.take(i as int));
    }
    out.push('.');
    out.push('.');
    out.push('.');
    proof {
        reveal_strlit("...");
        assert(out@ =~= title@.take(25) + "..."@);
    }
    string_of(out.as_slice())
}

/// The characters that a reply shows as a plain space: no-break spaces,
/// the word joiner and the byte-order mark.
pub open spec fn is_odd_space(c: char) -> bool {
    c == '\u{00A0}' || c == '\u{2007}' || c == '\u{202F}' || c == '\u{2060}' || c == '\u{FEFF}'
}

/// A reply with each of those characters replaced by a space.
pub open spec fn normalize_spec(s: Seq<char>) -> Seq<char> {
    Seq::new(s.len(), |i: int| if is_odd_space(s[i]) { ' ' } else { s[i] })
}

/// Normalising keeps the length, leaves none of the odd spaces, and a
/// second pass changes nothing.
pub proof fn law_normalize_idempotent(s: Seq<char>)
    ensures
        normalize_spec(s).len() == s.len(),
        forall|i: int| 0 <= i < s.len() ==> !is_odd_space(#[trigger] normalize_spec(s)[i]),
        normalize_spec(normalize_spec(s)) == normalize_spec(s),
{
    assert(normalize_spec(normalize_spec(s)) =~= normalize_spec(s));
}

/// `normalize_ai_text`.
pub fn normalize_ai_text(text: &str) -> (r: String)
    ensures
        r@ == normalize_spec(text@),
{
    let cs = chars_of(text);
    let mut out: Vec<char> = Vec::new();
    let mut i: usize = 0;
    while i < cs.len()
        invariant
            i <= cs@.len(),
            cs@ == text@,
            out@ =~= normalize_spec(cs@.take(i as int)),
        decreases cs.len() - i,
    {
        let c = cs[i];
        if c == '\u{00A0}' || c == '\u{2007}' || c == '\u{202F}' || c == '\u{2060}' || c == '\u{FEFF}' {
            out.push(' ');
        } else {
            out.push(c);
        }
        i += 1;
        assert(out@ =~= normalize_spec(cs@.take(i as int)));
    }
    assert(cs@.take(cs@.len() as int) =~= cs@);
    string_of(out.as_slice())
}

/// The letter shown on the avatar button: the first character of the
/// e-mail address, upper-cased if it is an ASCII letter, or `U`.
pub open spec fn initials_spec(email: Option<Seq<char>>) -> Seq<char> {
    match email {
        Some(e) => if e.len() > 0 {
            seq![upper_char(e[0])]
        } else {
            "U"@
        },
        None => "U"@,
    }
}

/// `profile_initials`.
pub fn profile_initials(user_email: &Option<String>) -> (r: String)
    ensures
        r@ == initials_spec(match user_email {
            Some(e) => Some(e@),
            None => None,
        }),
{
    match user_email {
        Some(e) => {
            let cs = chars_of(e.as_str());
            if cs.len() > 0 {
                let c = upper_char_exec(cs[0]);
                let v: Vec<char> = vec![c];
                string_of(v.as_slice())
            } else {
                proof {
                    reveal_strlit("U");
                }
                "U".to_owned()
            }
        },
        None => {
            proof {
                reveal_strlit("U");
            }
            "U".to_owned()
        },
    }
}

/// The media type of an avatar picked from a file with the given
/// extension: PNG for `png` in any letter case, else JPEG.
pub open spec fn avatar_mime_spec(extension: Option<Seq<char>>) -> Seq<char> {
    match extension {
        Some(e) => if ascii_lower(e) == "png"@ {
            "image/png"@
        } else {
            "image/jpeg"@
        },
        None => "image/jpeg"@,
    }
}

/// The media type sent with an uploaded avatar.
pub fn avatar_mime(extension: Option<&str>) -> (r: String)
    ensures
        r@ == avatar_mime_spec(match extension {
            Some(e) => Some(e@),
            None => None,
        }),
{
    match extension {
        Some(e) => {
            let lowered = ascii_lower_chars(chars_of(e).as_slice());
            let png: Vec<char> = vec!['p', 'n', 'g'];
            proof {
                reveal_strlit("png");
                assert(png@ =~= "png"@);
            }
            if same_chars(lowered.as_slice(), png.as_slice()) {
                "image/png".to_owned()
            } else {
                "image/jpeg".to_owned()
            }
        },
        None => "image/jpeg".to_owned(),
    }
}

} // verus!
