//! Logging in: the form and query payloads, each way a login can fail, and
//! the redirect a failure answers with.

use vstd::prelude::*;

use crate::text::dec_digit_char;

verus! {

/// What the login page is asked with: an error to show, if any.
#[derive(Clone, Debug)]
pub struct QueryParams {
    pub error: Option<String>,
}

/// What the login form posts.
#[derive(Clone, Debug)]
pub struct FormData {
    pub username: String,
    pub password: String,
}

/// Why credential validation failed; each variant carries the account of the
/// underlying error.
#[derive(Clone, Debug)]
pub enum AuthError {
    InvalidCredentials(String),
    UnexpectedError(String),
}

/// Every way a login can fail.
#[derive(Clone, Debug)]
pub enum LoginError {
    AuthError(String),
    UnexpectedError(String),
}

/// Characters a URL carries as they are; everything else is percent-encoded.
pub open spec fn is_url_safe_char(c: char) -> bool {
    ('0' <= c && c <= '9') || ('A' <= c && c <= 'Z') || ('a' <= c && c <= 'z') || c == '-' || c
        == '.' || c == '_' || c == '~'
}

/// The digit `d` as an upper-case hexadecimal character, for `0 <= d <= 15`.
pub open spec fn hex_digit_char(d: int) -> char {
    if d < 10 {
        dec_digit_char(d)
    } else if d == 10 {
        'A'
    } else if d == 11 {
        'B'
    } else if d == 12 {
        'C'
    } else if d == 13 {
        'D'
    } else if d == 14 {
        'E'
    } else {
        'F'
    }
}

/// How one ASCII character travels in a URL: itself when safe, else `%` and
/// its code in two upper-case hex digits.
pub open spec fn percent_char_rep(c: char) -> Seq<char> {
    if is_url_safe_char(c) {
        seq![c]
    } else {
        seq!['%', hex_digit_char(c as int / 16), hex_digit_char(c as int % 16)]
    }
}

/// An ASCII string percent-encoded, character by character.
pub open spec fn percent_encoded(s: Seq<char>) -> Seq<char>
    decreases s.len(),
{
    if s.len() == 0 {
        Seq::<char>::empty()
    } else {
        percent_encoded(s.drop_last()) + percent_char_rep(s.last())
    }
}

/// Relies on `urlencoding::encode`: every byte except ASCII letters, digits
/// and `-`, `_`, `.`, `~` becomes `%` and two upper-case hex digits, and on
/// ASCII input the bytes are exactly the characters.
#[verifier::external_body]
fn urlencode(s: &str) -> (r: String)
    ensures
        vstd::string::is_ascii(s) ==> r@ == percent_encoded(s@),
{
    urlencoding::encode(s).into_owned()
}

impl LoginError {
    /// The one line each failure shows.
    pub open spec fn message_spec(self) -> Seq<char> {
        match self {
            LoginError::AuthError(_) => "Authentication failed"@,
            LoginError::UnexpectedError(_) => "Something went wrong"@,
        }
    }

    pub fn message(&self) -> (r: String)
        ensures
            r@ == self.message_spec(),
    {
        match self {
            LoginError::AuthError(_) => "Authentication failed".to_owned(),
            LoginError::UnexpectedError(_) => "Something went wrong".to_owned(),
        }
    }

    /// How a failed credential check is answered: bad credentials stay an
    /// authentication failure, anything else is reported as unexpected.
    pub fn from_auth_error(e: AuthError) -> (r: LoginError)
        ensures
            match e {
                AuthError::InvalidCredentials(m) => r == LoginError::AuthError(m),
                AuthError::UnexpectedError(m) => r == LoginError::UnexpectedError(m),
            },
    {
        match e {
            AuthError::InvalidCredentials(m) => LoginError::AuthError(m),
            AuthError::UnexpectedError(m) => LoginError::UnexpectedError(m),
        }
    }

    /// The HTTP status each failure answers with.
    pub fn status_code(&self) -> (r: u16)
        ensures
            r == (match *self {
                LoginError::AuthError(_) => 401u16,
                LoginError::UnexpectedError(_) => 500u16,
            }),
    {
        match self {
            LoginError::AuthError(_) => 401,
            LoginError::UnexpectedError(_) => 500,
        }
    }

    /// Where a failed login redirects: back to the login page, the message
    /// percent-encoded into its one query parameter.
    pub fn error_response_location(&self) -> (r: String)
        ensures
            r@ == "/login?error="@ + percent_encoded(self.message_spec()),
    {
        proof {
            reveal_strlit("Authentication failed");
            reveal_strlit("Something went wrong");
            assert(vstd::utf8::is_ascii_chars("Authentication failed"@));
            assert(vstd::utf8::is_ascii_chars("Something went wrong"@));
        }
        let msg = self.message();
        let encoded = urlencode(msg.as_str());
        let mut s = "/login?error=".to_owned();
        s.append(encoded.as_str());
        s
    }
}

} // verus!
