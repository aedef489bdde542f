use zero2prod::domain::{NewSubscriber, SubscriberEmail, SubscriberName};
use zero2prod::email_client::{EmailClient, MIMEType};
use zero2prod::routes::subscriptions::{
    confirmation_link, confirmation_email_request, error_chain_fmt, generate_subscription_token,
    StoreTokenError, SubscribeError,
};

fn email_client() -> EmailClient {
    EmailClient::new(
        "https://api.example.com".to_string(),
        SubscriberEmail::parse("newsletter@example.com".to_string()).unwrap(),
        "mail-api-token".to_string(),
        200,
    )
}

fn new_subscriber() -> NewSubscriber {
    NewSubscriber {
        email: SubscriberEmail::parse("ursula_le_guin@gmail.com".to_string()).unwrap(),
        name: SubscriberName::parse("le guin".to_string()).unwrap(),
    }
}

#[test]
fn a_subscription_token_has_25_alphanumeric_characters() {
    let token = generate_subscription_token();
    assert_eq!(token.chars().count(), 25);
    assert!(token.chars().all(|c| c.is_ascii_alphanumeric()));
}

#[test]
fn two_subscription_tokens_differ() {
    assert_ne!(generate_subscription_token(), generate_subscription_token());
}

#[test]
fn the_confirmation_link_carries_the_token() {
    assert_eq!(
        confirmation_link("https://newsletter.example.com", "abc123"),
        "https://newsletter.example.com/subscriptions/confirm?subscription_token=abc123"
    );
}

#[test]
fn the_confirmation_email_is_addressed_and_worded_exactly() {
    let client = email_client();
    let subscriber = new_subscriber();
    let request = confirmation_email_request(
        &client,
        &subscriber,
        "https://newsletter.example.com",
        "abc123",
    );
    assert_eq!(request.url, "https://api.example.com/mail/send");
    assert_eq!(request.authorization, "Bearer mail-api-token");
    assert_eq!(request.body.subject, "Welcome!");
    assert_eq!(request.body.from.email, "newsletter@example.com");
    assert_eq!(request.body.content.len(), 2);
    assert_eq!(request.body.content[0].type_, MIMEType::TextHTML);
    assert_eq!(
        request.body.content[0].value,
        "Welcome to our newsletter!<br />Click <a href=\"https://newsletter.example.com\
         /subscriptions/confirm?subscription_token=abc123\">here</a> to confirm your subscription."
    );
    assert_eq!(request.body.content[1].type_, MIMEType::TextPlain);
    assert_eq!(
        request.body.content[1].value,
        "Welcome to our newsletter!<br />Visit https://newsletter.example.com\
         /subscriptions/confirm?subscription_token=abc123 to confirm your subscription."
    );
    assert_eq!(request.body.personalizations.len(), 1);
    assert_eq!(request.body.personalizations[0].to.len(), 1);
    assert_eq!(
        request.body.personalizations[0].to[0].email,
        "ursula_le_guin@gmail.com"
    );
}

#[test]
fn an_error_chain_renders_each_cause_in_order() {
    let causes = vec![
        "could not reach the database".to_string(),
        "connection refused".to_string(),
    ];
    assert_eq!(
        error_chain_fmt("the subscription failed", &causes),
        "the subscription failed\n\nCaused by:\n\tcould not reach the database\nCaused \
         by:\n\tconnection refused\n"
    );
}

#[test]
fn an_error_chain_without_causes_is_the_error_and_a_blank_line() {
    assert_eq!(error_chain_fmt("boom", &Vec::new()), "boom\n\n");
}

#[test]
fn a_validation_error_answers_with_400_and_its_own_message() {
    let error = SubscribeError::ValidationError("bad form".to_string());
    assert_eq!(error.status_code(), 400);
    assert_eq!(error.message(), "bad form");
    assert!(error.source_message().is_none());
}

#[test]
fn every_other_subscribe_error_answers_with_500() {
    let cases = vec![
        SubscribeError::DatabaseError("db down".to_string()),
        SubscribeError::StoreTokenError(StoreTokenError("db down".to_string())),
        SubscribeError::SendEmailError("mail down".to_string()),
        SubscribeError::PoolError("pool dry".to_string()),
        SubscribeError::InsertSubscriberError("insert failed".to_string()),
        SubscribeError::TransactionCommitError("commit failed".to_string()),
    ];
    for error in cases {
        assert_eq!(error.status_code(), 500);
        assert!(error.source_message().is_some());
    }
}

#[test]
fn each_subscribe_error_shows_its_own_line() {
    assert_eq!(
        SubscribeError::PoolError("x".to_string()).message(),
        "Failed to acquire a Postgres connection from the pool"
    );
    assert_eq!(
        SubscribeError::InsertSubscriberError("x".to_string()).message(),
        "Failed to insert new subscriber in the database."
    );
    assert_eq!(
        SubscribeError::TransactionCommitError("x".to_string()).message(),
        "Failed to commit SQL transaction to store a new subscriber."
    );
    assert_eq!(
        SubscribeError::StoreTokenError(StoreTokenError("x".to_string())).message(),
        "Failed to store the confirmation token for a new subscriber."
    );
    assert_eq!(
        SubscribeError::SendEmailError("x".to_string()).message(),
        "Failed to send a confirmation email."
    );
}

#[test]
fn a_store_token_error_names_the_token_write() {
    let error = StoreTokenError("db down".to_string());
    assert_eq!(
        error.message(),
        "A database error was encountered while trying to store a subscription token."
    );
    let wrapped = SubscribeError::from(error);
    assert_eq!(wrapped.status_code(), 500);
}

#[test]
fn a_validation_message_wraps_into_a_subscribe_error() {
    let error = SubscribeError::from("nope".to_string());
    assert_eq!(error.status_code(), 400);
    assert_eq!(error.message(), "nope");
}
