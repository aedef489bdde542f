//! The subscription flow: validating the form, making the confirmation
//! token, building the confirmation email, and naming each way the flow can
//! fail.

use vstd::prelude::*;

use crate::domain::{
    valid_subscriber_email, valid_subscriber_name, NewSubscriber, SubscriberEmail, SubscriberName,
};
use crate::email_client::{EmailClient, SendEmailRequest};
use crate::text::push_char;
use rand::Rng;

verus! {

/// One line of an error chain: the cause, indented under its heading.
pub open spec fn cause_rep(cause: Seq<char>) -> Seq<char> {
    "Caused by:\n\t"@ + cause + "\n"@
}

/// The lines of a whole chain of causes, outermost first.
pub open spec fn chain_rep(causes: Seq<Seq<char>>) -> Seq<char>
    decreases causes.len(),
{
    if causes.len() == 0 {
        Seq::<char>::empty()
    } else {
        chain_rep(causes.drop_last()) + cause_rep(causes.last())
    }
}

/// Renders an error and every cause under it, one per line: the error, a
/// blank line, then each cause indented under a `Caused by:` heading.
pub fn error_chain_fmt(error: &str, causes: &Vec<String>) -> (r: String)
    ensures
        r@ == error@ + "\n\n"@ + chain_rep(causes.deep_view()),
{
    let mut s = error.to_owned();
    s.append("\n\n");
    let mut i: usize = 0;
    while i < causes.len()
        invariant
            0 <= i <= causes.len(),
            s@ == error@ + "\n\n"@ + chain_rep(causes.deep_view().take(i as int)),
        decreases causes.len() - i,
    {
        s.append("Caused by:\n\t");
        s.append(causes[i].as_str());
        s.append("\n");
        proof {
            assert(causes.deep_view().take(i + 1).drop_last() =~= causes.deep_view().take(
                i as int,
            ));
            assert(causes.deep_view().take(i + 1).last() == causes.deep_view()[i as int]);
        }
        i += 1;
    }
    proof {
        assert(causes.deep_view().take(causes.len() as int) =~= causes.deep_view());
    }
    s
}

/// A failure to write the confirmation token; carries the database's own
/// account of it.
#[derive(Clone, Debug)]
pub struct StoreTokenError(pub String);

impl StoreTokenError {
    /// The one line this failure shows.
    pub fn message(&self) -> (r: String)
        ensures
            r@
                == "A database error was encountered while trying to store a subscription token."@,
    {
        "A database error was encountered while trying to store a subscription token.".to_owned()
    }
}

/// Every way the subscription flow can fail.
#[derive(Clone, Debug)]
pub enum SubscribeError {
    ValidationError(String),
    DatabaseError(String),
    StoreTokenError(StoreTokenError),
    SendEmailError(String),
    PoolError(String),
    InsertSubscriberError(String),
    TransactionCommitError(String),
}

impl SubscribeError {
    /// The one line each failure shows.
    pub open spec fn message_spec(self) -> Seq<char> {
        match self {
            SubscribeError::ValidationError(e) => e@,
            SubscribeError::DatabaseError(_) => "???"@,
            SubscribeError::StoreTokenError(_) =>
                "Failed to store the confirmation token for a new subscriber."@,
            SubscribeError::SendEmailError(_) => "Failed to send a confirmation email."@,
            SubscribeError::PoolError(_) =>
                "Failed to acquire a Postgres connection from the pool"@,
            SubscribeError::InsertSubscriberError(_) =>
                "Failed to insert new subscriber in the database."@,
            SubscribeError::TransactionCommitError(_) =>
                "Failed to commit SQL transaction to store a new subscriber."@,
        }
    }

    pub fn message(&self) -> (r: String)
        ensures
            r@ == self.message_spec(),
    {
        match self {
            SubscribeError::ValidationError(e) => e.clone(),
            SubscribeError::DatabaseError(_) => "???".to_owned(),
            SubscribeError::StoreTokenError(
                _,
            ) => "Failed to store the confirmation token for a new subscriber.".to_owned(),
            SubscribeError::SendEmailError(_) => "Failed to send a confirmation email.".to_owned(),
            SubscribeError::PoolError(
                _,
            ) => "Failed to acquire a Postgres connection from the pool".to_owned(),
            SubscribeError::InsertSubscriberError(
                _,
            ) => "Failed to insert new subscriber in the database.".to_owned(),
            SubscribeError::TransactionCommitError(
                _,
            ) => "Failed to commit SQL transaction to store a new subscriber.".to_owned(),
        }
    }

    /// What caused the failure, where something deeper did: the carried
    /// account of the underlying error, and nothing for a rejected form.
    pub fn source_message(&self) -> (r: Option<String>)
        ensures
            self is ValidationError <==> r is None,
            match *self {
                SubscribeError::ValidationError(_) => r is None,
                SubscribeError::DatabaseError(e) => r is Some && r->0@ == e@,
                SubscribeError::StoreTokenError(e) => r is Some && r->0@ == e.0@,
                SubscribeError::SendEmailError(e) => r is Some && r->0@ == e@,
                SubscribeError::PoolError(e) => r is Some && r->0@ == e@,
                SubscribeError::InsertSubscriberError(e) => r is Some && r->0@ == e@,
                SubscribeError::TransactionCommitError(e) => r is Some && r->0@ == e@,
            },
    {
        match self {
            SubscribeError::ValidationError(_) => None,
            SubscribeError::DatabaseError(e) => Some(e.clone()),
            SubscribeError::StoreTokenError(e) => Some(e.0.clone()),
            SubscribeError::SendEmailError(e) => Some(e.clone()),
            SubscribeError::PoolError(e) => Some(e.clone()),
            SubscribeError::InsertSubscriberError(e) => Some(e.clone()),
            SubscribeError::TransactionCommitError(e) => Some(e.clone()),
        }
    }

    /// The HTTP status each failure answers with: a rejected form is the
    /// caller's fault, everything else the server's.
    pub fn status_code(&self) -> (r: u16)
        ensures
            r == (if self is ValidationError {
                400u16
            } else {
                500u16
            }),
    {
        match self {
            SubscribeError::ValidationError(_) => 400,
            SubscribeError::DatabaseError(_)
            | SubscribeError::StoreTokenError(_)
            | SubscribeError::SendEmailError(_)
            | SubscribeError::PoolError(_)
            | SubscribeError::InsertSubscriberError(_)
            | SubscribeError::TransactionCommitError(_) => 500,
        }
    }
}

impl From<String> for SubscribeError {
    fn from(e: String) -> (r: SubscribeError)
        ensures
            r == SubscribeError::ValidationError(e),
    {
        SubscribeError::ValidationError(e)
    }
}

impl vstd::std_specs::convert::FromSpecImpl<String> for SubscribeError {
    open spec fn obeys_from_spec() -> bool {
        true
    }

    open spec fn from_spec(e: String) -> SubscribeError {
        SubscribeError::ValidationError(e)
    }
}

impl From<StoreTokenError> for SubscribeError {
    fn from(e: StoreTokenError) -> (r: SubscribeError)
        ensures
            r == SubscribeError::StoreTokenError(e),
    {
        SubscribeError::StoreTokenError(e)
    }
}

impl vstd::std_specs::convert::FromSpecImpl<StoreTokenError> for SubscribeError {
    open spec fn obeys_from_spec() -> bool {
        true
    }

    open spec fn from_spec(e: StoreTokenError) -> SubscribeError {
        SubscribeError::StoreTokenError(e)
    }
}

/// What a subscription form carries.
#[derive(Clone, Debug)]
pub struct SubscriptionFormData {
    pub email: String,
    pub name: String,
}

impl NewSubscriber {
    /// Accepts a form exactly when both fields pass their validators; a bad
    /// name is reported before a bad address.
    pub fn try_from(value: SubscriptionFormData) -> (r: Result<NewSubscriber, String>)
        ensures
            r is Ok <==> valid_subscriber_name(value.name@) && valid_subscriber_email(
                value.email@,
            ),
            r is Ok ==> r->Ok_0.name@ == value.name@ && r->Ok_0.email@ == value.email@,
            !valid_subscriber_name(value.name@) ==> r is Err && r->Err_0@ == value.name@
                + " is not a valid subscriber name."@,
            valid_subscriber_name(value.name@) && !valid_subscriber_email(value.email@) ==> r
                is Err && r->Err_0@ == value.email@ + " is not a valid subscriber email."@,
    {
        let name = match SubscriberName::parse(value.name) {
            Ok(name) => name,
            Err(e) => {
                return Err(e);
            },
        };
        let email = match SubscriberEmail::parse(value.email) {
            Ok(email) => email,
            Err(e) => {
                return Err(e);
            },
        };
        Ok(NewSubscriber { email, name })
    }
}

/// ASCII letters and digits, the alphabet confirmation tokens are drawn from.
pub open spec fn is_alphanumeric_char(c: char) -> bool {
    ('a' <= c && c <= 'z') || ('A' <= c && c <= 'Z') || ('0' <= c && c <= '9')
}

/// Relies on rand's `Alphanumeric` distribution, sampled from `thread_rng`:
/// every sample is an ASCII letter or digit.
#[verifier::external_body]
fn sample_alphanumeric() -> (r: char)
    ensures
        is_alphanumeric_char(r),
{
    char::from(rand::thread_rng().sample(rand::distributions::Alphanumeric))
}

/// A fresh confirmation token: 25 characters, every one an ASCII letter or
/// digit.
pub fn generate_subscription_token() -> (r: String)
    ensures
        r@.len() == 25,
        forall|i: int| 0 <= i < r@.len() ==> is_alphanumeric_char(#[trigger] r@[i]),
{
    let mut s = String::new();
    let mut i: usize = 0;
    while i < 25
        invariant
            0 <= i <= 25,
            s@.len() == i,
            forall|j: int| 0 <= j < s@.len() ==> is_alphanumeric_char(#[trigger] s@[j]),
        decreases 25 - i,
    {
        let c = sample_alphanumeric();
        push_char(&mut s, c);
        i += 1;
    }
    s
}

/// The link a subscriber follows to confirm: the confirmation endpoint under
/// the application's base URL, with the token as its one query parameter.
pub fn confirmation_link(base_url: &str, subscription_token: &str) -> (r: String)
    ensures
        r@ == base_url@ + "/subscriptions/confirm?subscription_token="@ + subscription_token@,
{
    let mut s = base_url.to_owned();
    s.append("/subscriptions/confirm?subscription_token=");
    s.append(subscription_token);
    s
}

/// The HTML body of the confirmation email, around the given link.
pub open spec fn confirmation_html_rep(link: Seq<char>) -> Seq<char> {
    "Welcome to our newsletter!<br />Click <a href=\""@ + link
        + "\">here</a> to confirm your subscription."@
}

/// The plain body of the confirmation email, around the given link.
pub open spec fn confirmation_text_rep(link: Seq<char>) -> Seq<char> {
    "Welcome to our newsletter!<br />Visit "@ + link + " to confirm your subscription."@
}

/// The confirmation email a new subscriber is sent, ready to post: addressed
/// to them, titled `Welcome!`, each body built around the confirmation link.
pub fn confirmation_email_request(
    email_client: &EmailClient,
    new_subscriber: &NewSubscriber,
    base_url: &str,
    subscription_token: &str,
) -> (r: SendEmailRequest)
    ensures
        r.url@ == email_client.base_url@ + "/mail/send"@,
        r.authorization@ == "Bearer "@ + email_client.authorization_token@,
        r.body.subject@ == "Welcome!"@,
        r.body.from.email@ == email_client.sender@,
        r.body.content@.len() == 2,
        r.body.content@[0].value@ == confirmation_html_rep(
            base_url@ + "/subscriptions/confirm?subscription_token="@ + subscription_token@,
        ),
        r.body.content@[1].value@ == confirmation_text_rep(
            base_url@ + "/subscriptions/confirm?subscription_token="@ + subscription_token@,
        ),
        r.body.personalizations@.len() == 1,
        r.body.personalizations@[0].to@.len() == 1,
        r.body.personalizations@[0].to@[0].email@ == new_subscriber.email@,
{
    let link = confirmation_link(base_url, subscription_token);

    let mut html_body = "Welcome to our newsletter!<br />Click <a href=\"".to_owned();
    html_body.append(link.as_str());
    html_body.append("\">here</a> to confirm your subscription.");

    let mut plain_body = "Welcome to our newsletter!<br />Visit ".to_owned();
    plain_body.append(link.as_str());
    plain_body.append(" to confirm your subscription.");

    email_client.send_email_request(
        &new_subscriber.email,
        "Welcome!",
        html_body.as_str(),
        plain_body.as_str(),
    )
}

} // verus!
