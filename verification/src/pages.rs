//! Decisions of the site's pages: the answer to a password change, the
//! cookie that forgets a remembered login, the contact form's prefilled
//! address, the home page's redirect and the path of a package's page.

use vstd::prelude::*;
use crate::text::{chars_of, string_of, concat_str, contains_str, contains, parse_i32, parsed_i32};

verus! {

/// Header values the site sets.
#[derive(Clone, Copy, Debug, PartialEq, Eq, Structural)]
pub enum Value {
    /// Expires the remember-me cookie.
    RememberMeTokenInvalidate,
}

pub open spec fn header_text(v: Value) -> Seq<char> {
    match v {
        Value::RememberMeTokenInvalidate => "remember_me_token=\"\"; path=/; expires=Thu, 01 Jan 1970 00:00:00 GMT"@,
    }
}

impl Value {
    /// The header value's text.
    pub fn header_value(&self) -> (r: String)
        ensures
            r@ == header_text(*self),
    {
        match self {
            Value::RememberMeTokenInvalidate => String::from_str(
                "remember_me_token=\"\"; path=/; expires=Thu, 01 Jan 1970 00:00:00 GMT",
            ),
        }
    }
}

/// How a password change ended.
#[derive(Clone, Copy, Debug, PartialEq, Eq, Structural)]
pub enum PasswordChange {
    Changed,
    /// The current password given was wrong.
    WrongPassword,
    Failed,
}

pub open spec fn password_message(o: PasswordChange) -> Seq<char> {
    match o {
        PasswordChange::Changed => "Change password successfully"@,
        PasswordChange::WrongPassword => "Wrong password. Try again!"@,
        PasswordChange::Failed => "Unexpected error. Try again!"@,
    }
}

/// The answer to a password change.
pub enum ProfileReply {
    /// The form was not valid: the profile page shows it again.
    ShowForm,
    /// The password changed: the session is cleared, these cookies are set
    /// and the browser goes to `location`.
    Redirect { cookies: Vec<String>, location: String },
    /// The profile page shows the error.
    ShowError(String),
}

/// The answer to a password change: a form that is not valid is shown
/// again (and nothing is changed); otherwise the outcome of the change
/// decides.
pub fn password_change_reply(form_valid: bool, outcome: PasswordChange) -> (r: ProfileReply)
    ensures
        !form_valid ==> r is ShowForm,
        form_valid && outcome == PasswordChange::Changed ==> (r matches ProfileReply::Redirect { cookies, location }
            && cookies@.len() == 2 && cookies@[0]@ == header_text(Value::RememberMeTokenInvalidate)
            && cookies@[1]@ == "flash="@ + password_message(outcome) + "; path=/; Max-Age=10"@
            && location@ == "/accounts/login/"@),
        form_valid && outcome != PasswordChange::Changed ==> (r matches ProfileReply::ShowError(m) && m@
            == password_message(outcome)),
{
    if !form_valid {
        return ProfileReply::ShowForm;
    }
    match outcome {
        PasswordChange::Changed => {
            let mut cookies: Vec<String> = Vec::new();
            cookies.push(Value::RememberMeTokenInvalidate.header_value());
            let flash = concat_str("flash=Change password successfully", "; path=/; Max-Age=10");
            proof {
                reveal_strlit("flash=Change password successfully");
                reveal_strlit("flash=");
                reveal_strlit("Change password successfully");
                assert("flash=Change password successfully"@ =~= "flash="@ + "Change password successfully"@);
            }
            cookies.push(flash);
            ProfileReply::Redirect { cookies, location: String::from_str("/accounts/login/") }
        },
        PasswordChange::WrongPassword => ProfileReply::ShowError(String::from_str("Wrong password. Try again!")),
        PasswordChange::Failed => ProfileReply::ShowError(String::from_str("Unexpected error. Try again!")),
    }
}

/// The text of pages asked for without a signed-in user.
pub open spec fn user_not_found() -> Seq<char> {
    "Cannot find user"@
}

pub fn user_not_found_text() -> (r: String)
    ensures
        r@ == user_not_found(),
{
    String::from_str("Cannot find user")
}

/// The contact form is prefilled with the account's email, but not with an
/// address made up for it (one in the no-reply domain).
pub open spec fn prefilled_email(email: Seq<char>, no_reply_host: Seq<char>) -> Seq<char> {
    if contains(email, no_reply_host) {
        Seq::empty()
    } else {
        email
    }
}

pub fn contact_email(email: &str, no_reply_host: &str) -> (r: String)
    ensures
        r@ == prefilled_email(email@, no_reply_host@),
{
    if contains_str(email, no_reply_host) {
        String::new()
    } else {
        String::from_str(email)
    }
}

/// Where the home page sends a request made to the redirected host.
pub open spec fn home_redirect_target() -> Seq<char> {
    "https://www.movey.net"@
}

/// The host redirected when none is configured.
pub open spec fn default_redirect_host() -> Seq<char> {
    "www.movey.org"@
}

/// The home page redirects requests to `host` when it is the redirected
/// host (the configured one, or the default).
pub fn home_redirect(host: &str, configured: Option<&str>) -> (r: Option<String>)
    ensures
        ({
            let redirected = match configured {
                Some(h) => h@,
                None => default_redirect_host(),
            };
            &&& r is Some <==> host@ == redirected
            &&& r matches Some(t) ==> t@ == home_redirect_target()
        }),
{
    let redirected = match configured {
        Some(h) => String::from_str(h),
        None => String::from_str("www.movey.org"),
    };
    let h = String::from_str(host);
    if h == redirected {
        Some(String::from_str("https://www.movey.net"))
    } else {
        None
    }
}

/// The path of a package's page.
pub fn package_page_path(slug: &str) -> (r: String)
    ensures
        r@ == "/packages/"@ + slug@,
{
    concat_str("/packages/", slug)
}

/// The signed-in user as the site's scripts see it.
#[derive(Debug)]
pub struct LoggedInUser {
    pub id: i32,
    pub name: String,
    pub email: String,
    pub avatar: Option<String>,
}

/// The answer to a request for the signed-in user.
pub enum MeReply {
    /// Nobody is signed in (or the account is gone): the session is
    /// cleared, the remember-me cookie expired and the body is `{}`.
    Nobody { cookie: String, body: String },
    User(LoggedInUser),
}

/// The answer for the signed-in user: `account` is the user's account
/// when the request is authenticated and the account was found.
pub fn logged_in_reply(account: Option<LoggedInUser>) -> (r: MeReply)
    ensures
        match account {
            Some(a) => r == MeReply::User(a),
            None => r matches MeReply::Nobody { cookie, body } && cookie@ == header_text(
                Value::RememberMeTokenInvalidate,
            ) && body@ == "{}"@,
        },
{
    match account {
        Some(a) => MeReply::User(a),
        None => MeReply::Nobody {
            cookie: Value::RememberMeTokenInvalidate.header_value(),
            body: String::from_str("{}"),
        },
    }
}

/// What follows the first `c` in `s`, if `s` holds one.
pub open spec fn after_first(s: Seq<char>, c: char) -> Option<Seq<char>>
    decreases s.len(),
{
    if s.len() == 0 {
        None
    } else if s[0] == c {
        Some(s.skip(1))
    } else {
        after_first(s.skip(1), c)
    }
}

/// The account id a remember-me cookie's value names: the number after its
/// first `=`. `None` where the value holds no `=` or no `i32` follows it;
/// a request with such a cookie fails.
pub open spec fn remembered_uid(cookie: Seq<char>) -> Option<i32> {
    match after_first(cookie, '=') {
        Some(rest) => parsed_i32(rest),
        None => None,
    }
}

pub fn remember_me_uid(cookie: &str) -> (r: Option<i32>)
    ensures
        r == remembered_uid(cookie@),
{
    let v = chars_of(cookie);
    let mut i: usize = 0;
    assert(v@.skip(0) =~= v@);
    while i < v.len()
        invariant
            v@ == cookie@,
            i <= v@.len(),
            after_first(v@, '=') == after_first(v@.skip(i as int), '='),
        decreases v.len() - i,
    {
        assert(v@.skip(i as int)[0] == v@[i as int]);
        assert(v@.skip(i as int).skip(1) =~= v@.skip(i + 1));
        if v[i] == '=' {
            let mut rest: Vec<char> = Vec::new();
            let mut k: usize = i + 1;
            while k < v.len()
                invariant
                    i + 1 <= k <= v@.len(),
                    rest@ == v@.subrange(i + 1, k as int),
                decreases v.len() - k,
            {
                rest.push(v[k]);
                k = k + 1;
                assert(rest@ =~= v@.subrange(i + 1, k as int));
            }
            assert(rest@ =~= v@.skip(i + 1));
            let text = string_of(rest.as_slice());
            return parse_i32(text.as_str());
        }
        i = i + 1;
    }
    assert(v@.skip(i as int) =~= Seq::<char>::empty());
    None
}

} // verus!
