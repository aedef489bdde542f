//! The older configuration shape: a smaller settings record and an
//! environment name that is parsed strictly instead of defaulted.

use vstd::prelude::*;

use crate::text::{lower_of, lowercase, str_eq};

verus! {

/// The runtime environment, parsed strictly from a configuration string.
#[derive(Clone, Copy, Debug, PartialEq, Eq, Structural)]
pub enum AppEnv {
    Local,
    Production,
}

impl AppEnv {
    /// The canonical lower-case name of the environment.
    pub open spec fn name(self) -> Seq<char> {
        match self {
            AppEnv::Local => "local"@,
            AppEnv::Production => "production"@,
        }
    }

    pub fn as_str(&self) -> (r: &'static str)
        ensures
            r@ == self.name(),
    {
        match self {
            AppEnv::Local => "local",
            AppEnv::Production => "production",
        }
    }

    /// Accepts exactly `local` and `production`, in any letter case; any
    /// other string is rejected with a message naming its lower-case form.
    pub fn try_from(s: String) -> (r: Result<AppEnv, String>)
        ensures
            lower_of(s@) == "local"@ ==> r == Result::<AppEnv, String>::Ok(AppEnv::Local),
            lower_of(s@) == "production"@ ==> r == Result::<AppEnv, String>::Ok(
                AppEnv::Production,
            ),
            r is Err <==> lower_of(s@) != "local"@ && lower_of(s@) != "production"@,
            r is Err ==> r->Err_0@ == lower_of(s@)
                + " is not a supported environment. Use either `local` or `production`."@,
    {
        proof {
            reveal_strlit("local");
            reveal_strlit("production");
            assert("local"@.len() == 5);
            assert("production"@.len() == 10);
            assert("local"@ != "production"@);
        }
        let lowered = lowercase(s.as_str());
        if str_eq(lowered.as_str(), "local") {
            Ok(AppEnv::Local)
        } else if str_eq(lowered.as_str(), "production") {
            Ok(AppEnv::Production)
        } else {
            Err(lowered.concat(" is not a supported environment. Use either `local` or `production`."))
        }
    }
}

/// Where the HTTP application listens.
#[derive(Clone, Debug)]
pub struct ApplicationSettings {
    pub port: u16,
    pub host: String,
}

/// How to reach the database.
#[derive(Clone, Debug)]
pub struct DatabaseSettings {
    pub url: String,
}

/// Everything this configuration shape carries.
#[derive(Clone, Debug)]
pub struct Settings {
    pub application: ApplicationSettings,
    pub database: DatabaseSettings,
}

} // verus!
