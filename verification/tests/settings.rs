use zero2prod::configuration::AppEnv;
use zero2prod::settings::{ApplicationSettings, EmailClientSettings, Env};

#[test]
fn env_names_round_trip() {
    assert_eq!(Env::Local.as_str(), "local");
    assert_eq!(Env::Production.as_str(), "production");
    assert_eq!(Env::from("local"), Env::Local);
    assert_eq!(Env::from("production"), Env::Production);
}

#[test]
fn env_parsing_ignores_letter_case() {
    assert_eq!(Env::from("PRODUCTION"), Env::Production);
    assert_eq!(Env::from("Production"), Env::Production);
}

#[test]
fn every_unknown_env_string_falls_back_to_local() {
    assert_eq!(Env::from("staging"), Env::Local);
    assert_eq!(Env::from(""), Env::Local);
    assert_eq!(Env::from(String::from("whatever")), Env::Local);
}

#[test]
fn the_application_settings_pick_their_env() {
    let settings = ApplicationSettings {
        env: "Production".to_string(),
        port: 8000,
        host: "127.0.0.1".to_string(),
        base_url: "http://127.0.0.1".to_string(),
    };
    assert_eq!(settings.env(), Env::Production);
}

#[test]
fn app_env_names_round_trip() {
    assert_eq!(AppEnv::Local.as_str(), "local");
    assert_eq!(AppEnv::Production.as_str(), "production");
    assert_eq!(AppEnv::try_from("Local".to_string()).unwrap(), AppEnv::Local);
    assert_eq!(
        AppEnv::try_from("PRODUCTION".to_string()).unwrap(),
        AppEnv::Production
    );
}

#[test]
fn an_unknown_app_env_string_is_rejected_with_its_name() {
    let err = AppEnv::try_from("Staging".to_string()).unwrap_err();
    assert_eq!(
        err,
        "staging is not a supported environment. Use either `local` or `production`."
    );
}

#[test]
fn a_valid_sender_email_is_accepted() {
    let settings = EmailClientSettings {
        base_url: "https://api.example.com".to_string(),
        sender_email: "newsletter@example.com".to_string(),
        authorization_token: "mail-api-token".to_string(),
        timeout_milliseconds: 200,
    };
    let sender = settings.sender_email().unwrap();
    assert_eq!(sender.as_ref(), "newsletter@example.com");
}

#[test]
fn an_invalid_sender_email_is_rejected() {
    let settings = EmailClientSettings {
        base_url: "https://api.example.com".to_string(),
        sender_email: "not-an-email".to_string(),
        authorization_token: "mail-api-token".to_string(),
        timeout_milliseconds: 200,
    };
    let err = settings.sender_email().unwrap_err();
    assert_eq!(err, "not-an-email is not a valid subscriber email.");
}
