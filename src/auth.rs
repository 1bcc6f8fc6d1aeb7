//! The login session: the tokens it holds and the decisions taken on the
//! server's replies.

use vstd::prelude::*;

use crate::text::{is_white, white_space};

verus! {

/// The profile of a logged-in user.
#[derive(Clone, Debug)]
pub struct UserInfo {
    pub id: i32,
    pub username: String,
    pub name: String,
    pub email: String,
    pub phone: String,
    pub role: String,
}

/// What a successful login hands back.
#[derive(Clone, Debug)]
pub struct AuthResponse {
    pub token: String,
    pub refresh_token: String,
    pub user_info: UserInfo,
}

/// The fields of a login reply, each absent where the reply lacks it.
#[derive(Clone, Debug)]
pub struct LoginReply {
    pub token: Option<String>,
    pub refresh_token: Option<String>,
    pub user_id: Option<i64>,
    pub username: Option<String>,
    pub name: Option<String>,
    pub email: Option<String>,
    pub phone: Option<String>,
    pub role: Option<String>,
}

/// A login session against one server: the server's base address, the
/// access token and the refresh token, each once obtained.
pub struct AuthService {
    api_base_url: String,
    token: Option<String>,
    refresh_token: Option<String>,
}

/// The mathematical content of an `AuthService`.
pub struct SessionView {
    pub api_base_url: Seq<char>,
    pub token: Option<Seq<char>>,
    pub refresh_token: Option<Seq<char>>,
}

/// The text of an optional string.
pub open spec fn text_of(o: Option<String>) -> Option<Seq<char>> {
    match o {
        Some(s) => Some(s@),
        None => None,
    }
}

/// The text of an optional string, or the empty text.
pub open spec fn text_or_empty(o: Option<String>) -> Seq<char> {
    match o {
        Some(s) => s@,
        None => Seq::empty(),
    }
}

impl View for AuthService {
    type V = SessionView;

    closed spec fn view(&self) -> SessionView {
        SessionView {
            api_base_url: self.api_base_url@,
            token: text_of(self.token),
            refresh_token: text_of(self.refresh_token),
        }
    }
}

/// Whether a character is left out of a phone number before it is checked:
/// white space, `-`, `(` or `)`.
pub open spec fn phone_separator(c: char) -> bool {
    white_space(c) || c == '-' || c == '(' || c == ')'
}

/// `s` without its phone separators.
pub open spec fn without_separators(s: Seq<char>) -> Seq<char>
    decreases s.len(),
{
    if s.len() == 0 {
        s
    } else {
        let before = without_separators(s.drop_last());
        if phone_separator(s.last()) {
            before
        } else {
            before.push(s.last())
        }
    }
}

/// Whether the regular expression `pattern` compiles (`Some`) and, if so,
/// whether it matches somewhere in `text`.
pub uninterp spec fn regex_verdict(pattern: Seq<char>, text: Seq<char>) -> Option<bool>;

/// Relies on `regex::Regex::new`, which compiles a pattern or fails, and
/// `regex::Regex::is_match`, which tells whether the compiled pattern
/// matches somewhere in the text.
#[verifier::external_body]
fn regex_match(pattern: &str, text: &str) -> (r: Option<bool>)
    ensures
        r == regex_verdict(pattern@, text@),
{
    match regex::Regex::new(pattern) {
        Ok(re) => Some(re.is_match(text)),
        Err(_) => None,
    }
}

/// A mainland mobile number: `1` and ten more digits.
pub const MOBILE_PATTERN: &'static str = "^1\\d{10}$";

/// An international number: an optional `+` and ten to fifteen digits.
pub const INTERNATIONAL_PATTERN: &'static str = "^\\+?\\d{10,15}$";

/// Whether a login name, once stripped of separators, reads as a phone
/// number under one of the two patterns.
pub open spec fn phone_like(value: Seq<char>) -> bool {
    let t = without_separators(value);
    regex_verdict(MOBILE_PATTERN@, t) == Some(true) || regex_verdict(INTERNATIONAL_PATTERN@, t)
        == Some(true)
}

/// `value` without white space, `-`, `(` and `)`.
pub fn strip_phone_separators(value: &str) -> (r: String)
    ensures
        r@ == without_separators(value@),
{
    let n = value.unicode_len();
    let mut out = String::new();
    let mut k: usize = 0;
    while k < n
        invariant
            n == value@.len(),
            k <= n,
            out@ == without_separators(value@.take(k as int)),
        decreases n - k,
    {
        let c = value.get_char(k);
        assert(value@.take(k + 1).drop_last() =~= value@.take(k as int));
        assert(value@.take(k + 1).last() == c);
        if !(is_white(c) || c == '-' || c == '(' || c == ')') {
            let piece = value.substring_char(k, k + 1);
            assert(piece@ =~= seq![c]);
            out.append(piece);
            assert(out@ =~= without_separators(value@.take(k as int)).push(c));
        }
        k = k + 1;
    }
    assert(value@.take(n as int) =~= value@);
    out
}

/// An empty token means that nobody has logged in.
pub fn require_session(token: &str) -> (r: Result<(), String>)
    ensures
        r is Err <==> token@.len() == 0,
        r matches Err(e) ==> e@ == "未登录"@,
{
    if token.unicode_len() == 0 {
        Err("未登录".to_string())
    } else {
        Ok(())
    }
}

impl AuthService {
    /// A session with no tokens yet.
    pub fn new(api_base_url: String) -> (r: Self)
        ensures
            r@ == (SessionView { api_base_url: api_base_url@, token: None, refresh_token: None }),
    {
        AuthService { api_base_url, token: None, refresh_token: None }
    }

    /// A session that holds only a refresh token, to obtain a new access token.
    pub fn with_refresh_token(api_base_url: String, refresh_token: String) -> (r: Self)
        ensures
            r@ == (SessionView {
                api_base_url: api_base_url@,
                token: None,
                refresh_token: Some(refresh_token@),
            }),
    {
        AuthService { api_base_url, token: None, refresh_token: Some(refresh_token) }
    }

    /// The access token, once obtained.
    pub fn get_token(&self) -> (r: Option<&str>)
        ensures
            match r {
                Some(t) => self@.token == Some(t@),
                None => self@.token is None,
            },
    {
        match &self.token {
            Some(t) => Some(t.as_str()),
            None => None,
        }
    }

    /// Whether a login name is a phone number rather than a user name: with
    /// white space, `-`, `(` and `)` left out, it is `1` and ten more digits,
    /// or an optional `+` and ten to fifteen digits.
    pub fn is_phone_number(value: &str) -> (r: bool)
        ensures
            r == phone_like(value@),
    {
        let cleaned = strip_phone_separators(value);
        if let Some(true) = regex_match(MOBILE_PATTERN, cleaned.as_str()) {
            return true;
        }
        match regex_match(INTERNATIONAL_PATTERN, cleaned.as_str()) {
            Some(matched) => matched,
            None => false,
        }
    }

    /// The address that logins are posted to.
    pub fn login_url(&self) -> (r: String)
        ensures
            r@ == self@.api_base_url + "/api/v1/auth/login"@,
    {
        self.api_base_url.clone().concat("/api/v1/auth/login")
    }

    /// The address that token refreshes are posted to.
    pub fn refresh_url(&self) -> (r: String)
        ensures
            r@ == self@.api_base_url + "/api/v1/auth/refresh"@,
    {
        self.api_base_url.clone().concat("/api/v1/auth/refresh")
    }

    /// Takes in a successful login reply. Without a token it fails and the
    /// session is unchanged; otherwise the session keeps the token and the
    /// refresh token (empty when the reply has none), and the user's profile
    /// takes each absent field as empty and an absent id as 0.
    pub fn complete_login(&mut self, reply: LoginReply) -> (r: Result<AuthResponse, String>)
        ensures
            r is Err <==> reply.token is None,
            r matches Err(e) ==> e@ == "token 不存在"@ && final(self)@ == old(self)@,
            r matches Ok(resp) ==> {
                &&& Some(resp.token@) == text_of(reply.token)
                &&& resp.refresh_token@ == text_or_empty(reply.refresh_token)
                &&& resp.user_info.id == (match reply.user_id {
                    Some(id) => id as i32,
                    None => 0i32,
                })
                &&& resp.user_info.username@ == text_or_empty(reply.username)
                &&& resp.user_info.name@ == text_or_empty(reply.name)
                &&& resp.user_info.email@ == text_or_empty(reply.email)
                &&& resp.user_info.phone@ == text_or_empty(reply.phone)
                &&& resp.user_info.role@ == text_or_empty(reply.role)
                &&& final(self)@ == (SessionView {
                    api_base_url: old(self)@.api_base_url,
                    token: Some(resp.token@),
                    refresh_token: Some(resp.refresh_token@),
                })
            },
    {
        let token = match reply.token {
            Some(t) => t,
            None => {
                return Err("token 不存在".to_string());
            },
        };
        let refresh_token = or_empty(reply.refresh_token);
        let id: i32 = match reply.user_id {
            Some(id) => #[verifier::truncate] (id as i32),
            None => 0,
        };
        let user_info = UserInfo {
            id,
            username: or_empty(reply.username),
            name: or_empty(reply.name),
            email: or_empty(reply.email),
            phone: or_empty(reply.phone),
            role: or_empty(reply.role),
        };
        self.token = Some(token.clone());
        self.refresh_token = Some(refresh_token.clone());
        Ok(AuthResponse { token, refresh_token, user_info })
    }

    /// The refresh token to send, or an error when the session has none.
    pub fn refresh_request(&self) -> (r: Result<String, String>)
        ensures
            r is Err <==> self@.refresh_token is None,
            r matches Ok(t) ==> self@.refresh_token == Some(t@),
            r matches Err(e) ==> e@ == "RefreshToken不存在"@,
    {
        match &self.refresh_token {
            Some(t) => Ok(t.clone()),
            None => Err("RefreshToken不存在".to_string()),
        }
    }

    /// Takes in the token of a successful refresh reply: the session keeps
    /// it; without one it fails and the session is unchanged.
    pub fn complete_refresh(&mut self, token: Option<String>) -> (r: Result<String, String>)
        ensures
            r is Err <==> token is None,
            r matches Err(e) ==> e@ == "刷新后的token不存在"@ && final(self)@ == old(self)@,
            r matches Ok(t) ==> Some(t@) == text_of(token) && final(self)@ == (SessionView {
                token: Some(t@),
                ..old(self)@
            }),
    {
        match token {
            Some(t) => {
                self.token = Some(t.clone());
                Ok(t)
            },
            None => Err("刷新后的token不存在".to_string()),
        }
    }
}

/// The string held, or the empty string.
pub fn or_empty(o: Option<String>) -> (r: String)
    ensures
        r@ == text_or_empty(o),
{
    match o {
        Some(s) => s,
        None => String::new(),
    }
}

} // verus!
