//! Application settings: the runtime environment and the groups of values
//! (application, database, outbound email) that the rest of the library reads.

use vstd::prelude::*;

use crate::domain::{valid_subscriber_email, SubscriberEmail};
use crate::text::{lower_of, lowercase, str_eq};

verus! {

/// The runtime environment the application was configured for.
#[derive(Clone, Copy, Debug, PartialEq, Eq, Structural)]
pub enum Env {
    Local,
    Production,
}

impl Env {
    /// The canonical lower-case name of the environment.
    pub open spec fn name(self) -> Seq<char> {
        match self {
            Env::Local => "local"@,
            Env::Production => "production"@,
        }
    }

    /// The environment a configuration string selects: `production` in any
    /// letter case picks `Production`, everything else falls back to `Local`.
    pub open spec fn of_str(s: Seq<char>) -> Env {
        if lower_of(s) == "production"@ {
            Env::Production
        } else {
            Env::Local
        }
    }

    pub fn as_str(&self) -> (r: &'static str)
        ensures
            r@ == self.name(),
    {
        match self {
            Env::Local => "local",
            Env::Production => "production",
        }
    }
}

impl From<&str> for Env {
    fn from(s: &str) -> (r: Env)
        ensures
            r == Env::of_str(s@),
    {
        let lowered = lowercase(s);
        if str_eq(lowered.as_str(), "production") {
            Env::Production
        } else {
            Env::Local
        }
    }
}

impl vstd::std_specs::convert::FromSpecImpl<&str> for Env {
    open spec fn obeys_from_spec() -> bool {
        true
    }

    open spec fn from_spec(s: &str) -> Env {
        Env::of_str(s@)
    }
}

impl From<String> for Env {
    fn from(s: String) -> (r: Env)
        ensures
            r == Env::of_str(s@),
    {
        Env::from(s.as_str())
    }
}

impl vstd::std_specs::convert::FromSpecImpl<String> for Env {
    open spec fn obeys_from_spec() -> bool {
        true
    }

    open spec fn from_spec(s: String) -> Env {
        Env::of_str(s@)
    }
}

/// Where the HTTP application listens and the base URL it hands out in links.
#[derive(Clone, Debug)]
pub struct ApplicationSettings {
    pub env: String,
    pub port: u16,
    pub host: String,
    pub base_url: String,
}

impl ApplicationSettings {
    /// The environment selected by the configured string.
    pub fn env(&self) -> (r: Env)
        ensures
            r == Env::of_str(self.env@),
    {
        self.env.as_str().into()
    }
}

/// How to reach the outbound email API.
#[derive(Clone, Debug)]
pub struct EmailClientSettings {
    pub base_url: String,
    pub sender_email: String,
    pub authorization_token: String,
    pub timeout_milliseconds: u64,
}

impl EmailClientSettings {
    /// The configured sender address, accepted exactly when it is a valid
    /// subscriber email.
    pub fn sender_email(&self) -> (r: Result<SubscriberEmail, String>)
        ensures
            r is Ok <==> valid_subscriber_email(self.sender_email@),
            r is Ok ==> r->Ok_0@ == self.sender_email@,
            r is Err ==> r->Err_0@ == self.sender_email@ + " is not a valid subscriber email."@,
    {
        SubscriberEmail::parse(self.sender_email.clone())
    }
}

/// How to reach the database.
#[derive(Clone, Debug)]
pub struct DatabaseSettings {
    pub url: String,
    pub require_ssl: bool,
}

/// Everything the application is configured with.
#[derive(Clone, Debug)]
pub struct Settings {
    pub application: ApplicationSettings,
    pub database: DatabaseSettings,
    pub email_client: EmailClientSettings,
}

} // verus!
