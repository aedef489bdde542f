//! A value object for a database connection: the pieces of a connection URL,
//! taken apart once and rendered back on demand.
//!
//! The general form of a connection URL is
//! `postgresql://[userspec@][hostspec][/dbname][?paramspec]`, where
//! `userspec` is `user[:password]` and `hostspec` is `[host][:port]`.

use vstd::prelude::*;

use crate::settings::DatabaseSettings;
use crate::text::{dec_rep, u16_to_string};

verus! {

/// TLS behaviour asked of the database connection.
#[derive(Clone, Copy, Debug, PartialEq, Eq, Structural)]
pub enum SslMode {
    Disable,
    Allow,
    Prefer,
    Require,
    VerifyCa,
    VerifyFull,
}

/// Whether `url::Url::parse` accepts the string.
pub uninterp spec fn url_parse_ok(s: Seq<char>) -> bool;

/// What `url::Url::username` returns on the value parsed from `s`.
pub uninterp spec fn url_username_of(s: Seq<char>) -> Seq<char>;

/// What `url::Url::password` returns on the value parsed from `s`.
pub uninterp spec fn url_password_of(s: Seq<char>) -> Option<Seq<char>>;

/// What `url::Url::host_str` returns on the value parsed from `s`.
pub uninterp spec fn url_host_of(s: Seq<char>) -> Option<Seq<char>>;

/// What `url::Url::port` returns on the value parsed from `s`.
pub uninterp spec fn url_port_of(s: Seq<char>) -> Option<u16>;

/// What `url::Url::path` returns on the value parsed from `s`.
pub uninterp spec fn url_path_of(s: Seq<char>) -> Seq<char>;

/// The pieces of a parsed URL, as plain values.
struct UrlParts {
    username: String,
    password: Option<String>,
    host: Option<String>,
    port: Option<u16>,
    path: String,
}

/// Relies on `url::Url::parse` and, on the parsed value, the accessors
/// `username`, `password`, `host_str`, `port` and `path`; each of them is a
/// function of the URL string alone.
#[verifier::external_body]
fn parse_url_parts(s: &str) -> (r: Option<UrlParts>)
    ensures
        r is Some <==> url_parse_ok(s@),
        r is Some ==> r->Some_0.username@ == url_username_of(s@),
        r is Some ==> (r->Some_0.password is Some <==> url_password_of(s@) is Some),
        r is Some && r->Some_0.password is Some ==> r->Some_0.password->0@ == url_password_of(
            s@,
        )->0,
        r is Some ==> (r->Some_0.host is Some <==> url_host_of(s@) is Some),
        r is Some && r->Some_0.host is Some ==> r->Some_0.host->0@ == url_host_of(s@)->0,
        r is Some ==> r->Some_0.port == url_port_of(s@),
        r is Some ==> r->Some_0.path@ == url_path_of(s@),
{
    match url::Url::parse(s) {
        Ok(u) => Some(UrlParts {
            username: u.username().to_owned(),
            password: u.password().map(|p| p.to_owned()),
            host: u.host_str().map(|h| h.to_owned()),
            port: u.port(),
            path: u.path().to_owned(),
        }),
        Err(_) => None,
    }
}

/// The database name a URL path selects: what follows a leading `/`, or
/// nothing when the path has no leading `/`.
pub open spec fn db_name_of_path(path: Seq<char>) -> Seq<char> {
    if path.len() > 0 && path[0] == '/' {
        path.skip(1)
    } else {
        Seq::<char>::empty()
    }
}

/// The pieces of a database connection URL.
#[derive(Clone, Debug)]
pub struct DB {
    pub name: String,
    pub username: String,
    pub password: String,
    pub host: String,
    pub port: u16,
    pub ssl_mode: SslMode,
}

impl DB {
    /// What each field of `from_url(s)` holds: the URL's piece where the URL
    /// gives one, the default where it does not.
    pub open spec fn is_parse_of(self, s: Seq<char>) -> bool {
        &&& self.username@ == url_username_of(s)
        &&& self.password@ == (match url_password_of(s) {
            Some(p) => p,
            None => Seq::<char>::empty(),
        })
        &&& self.host@ == (match url_host_of(s) {
            Some(h) => h,
            None => "localhost"@,
        })
        &&& self.port == (match url_port_of(s) {
            Some(p) => p,
            None => 5432u16,
        })
        &&& self.name@ == db_name_of_path(url_path_of(s))
    }

    /// Takes a connection URL apart; missing pieces fall back to the
    /// defaults. The URL must be one its parser accepts.
    pub fn from_url(database_uri: &str) -> (r: DB)
        requires
            url_parse_ok(database_uri@),
        ensures
            r.is_parse_of(database_uri@),
            r.ssl_mode == SslMode::Prefer,
    {
        let parts = match parse_url_parts(database_uri) {
            Some(parts) => parts,
            None => unreached(),
        };
        let name = if parts.path.as_str().unicode_len() > 0 && parts.path.as_str().get_char(0)
            == '/' {
            let len = parts.path.as_str().unicode_len();
            let tail = parts.path.as_str().substring_char(1, len).to_owned();
            proof {
                assert(tail@ =~= db_name_of_path(url_path_of(database_uri@)));
            }
            tail
        } else {
            String::new()
        };
        let password = match parts.password {
            Some(p) => p,
            None => String::new(),
        };
        let host = match parts.host {
            Some(h) => h,
            None => "localhost".to_owned(),
        };
        let port = match parts.port {
            Some(p) => p,
            None => 5432,
        };
        DB {
            name,
            username: parts.username,
            password,
            host,
            port,
            ssl_mode: SslMode::Prefer,
        }
    }

    /// The same pieces with another TLS mode.
    pub fn set_ssl_mode(self, ssl_mode: SslMode) -> (r: DB)
        ensures
            r == (DB { ssl_mode, ..self }),
    {
        DB { ssl_mode, ..self }
    }

    /// The connection URL, database name included.
    pub fn url(&self) -> (r: String)
        ensures
            r@ == "postgres://"@ + self.username@ + ":"@ + self.password@ + "@"@ + self.host@
                + ":"@ + dec_rep(self.port as nat) + "/"@ + self.name@,
    {
        let mut s = "postgres://".to_owned();
        s.append(self.username.as_str());
        s.append(":");
        s.append(self.password.as_str());
        s.append("@");
        s.append(self.host.as_str());
        s.append(":");
        let port = u16_to_string(self.port);
        s.append(port.as_str());
        s.append("/");
        s.append(self.name.as_str());
        s
    }

    /// The connection URL up to the host and port, without a database name.
    pub fn url_without_db(&self) -> (r: String)
        ensures
            r@ == "postgres://"@ + self.username@ + ":"@ + self.password@ + "@"@ + self.host@
                + ":"@ + dec_rep(self.port as nat),
    {
        let mut s = "postgres://".to_owned();
        s.append(self.username.as_str());
        s.append(":");
        s.append(self.password.as_str());
        s.append("@");
        s.append(self.host.as_str());
        s.append(":");
        let port = u16_to_string(self.port);
        s.append(port.as_str());
        s
    }

    /// Takes the settings' URL apart and picks the TLS mode the settings ask
    /// for. The URL must be one the parser accepts.
    pub fn from(database_settings: &DatabaseSettings) -> (r: DB)
        requires
            url_parse_ok(database_settings.url@),
        ensures
            r.is_parse_of(database_settings.url@),
            r.ssl_mode == (if database_settings.require_ssl {
                SslMode::Require
            } else {
                SslMode::Prefer
            }),
    {
        DB::from_url(database_settings.url.as_str()).set_ssl_mode(
            if database_settings.require_ssl {
                SslMode::Require
            } else {
                SslMode::Prefer
            },
        )
    }

    /// Takes the settings' URL apart when the parser accepts it, and says so
    /// when it does not.
    pub fn try_from_settings(database_settings: &DatabaseSettings) -> (r: Option<DB>)
        ensures
            r is Some <==> url_parse_ok(database_settings.url@),
            r is Some ==> r->0.is_parse_of(database_settings.url@),
            r is Some ==> r->0.ssl_mode == (if database_settings.require_ssl {
                SslMode::Require
            } else {
                SslMode::Prefer
            }),
    {
        if parse_url_parts(database_settings.url.as_str()).is_some() {
            Some(DB::from(database_settings))
        } else {
            None
        }
    }
}

impl Default for DB {
    /// An empty database name and password, the stock user, host and port,
    /// and the lenient TLS mode.
    fn default() -> (r: DB)
        ensures
            r.name@ == Seq::<char>::empty(),
            r.username@ == "postgres"@,
            r.password@ == Seq::<char>::empty(),
            r.host@ == "localhost"@,
            r.port == 5432,
            r.ssl_mode == SslMode::Prefer,
    {
        DB {
            name: String::new(),
            username: "postgres".to_owned(),
            password: String::new(),
            host: "localhost".to_owned(),
            port: 5432,
            ssl_mode: SslMode::Prefer,
        }
    }
}

} // verus!
