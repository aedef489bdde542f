//! The outbound email API: the request a send turns into, built and pinned
//! down field by field. Carrying it over the wire is left to the caller.

use vstd::prelude::*;

use crate::domain::SubscriberEmail;

verus! {

/// The body format a piece of mail content is declared with.
#[derive(Clone, Copy, Debug, PartialEq, Eq, Structural)]
pub enum MIMEType {
    TextPlain,
    TextHTML,
}

/// One address in the request, with an optional display name.
#[derive(Clone, Debug)]
pub struct Recipient {
    pub email: String,
    pub name: String,
}

/// One body alternative: its format and its text.
#[derive(Clone, Debug)]
pub struct Content {
    pub type_: MIMEType,
    pub value: String,
}

/// The addressees one copy of the mail goes to.
#[derive(Clone, Debug)]
pub struct Personalization {
    pub to: Vec<Recipient>,
}

/// The request body of a send: sender, reply-to, subject, the two body
/// alternatives, and who receives it.
#[derive(Clone, Debug)]
pub struct SendEmailRequestBody {
    pub from: Recipient,
    pub reply_to: Recipient,
    pub subject: String,
    pub content: Vec<Content>,
    pub personalizations: Vec<Personalization>,
}

/// Everything one send amounts to: where to post, how to authorize, and the
/// body to carry.
#[derive(Clone, Debug)]
pub struct SendEmailRequest {
    pub url: String,
    pub authorization: String,
    pub body: SendEmailRequestBody,
}

/// The data a mail client is configured with.
#[derive(Clone, Debug)]
pub struct EmailClient {
    pub base_url: String,
    pub sender: SubscriberEmail,
    pub authorization_token: String,
    pub timeout_milliseconds: u64,
}

impl EmailClient {
    pub fn new(
        base_url: String,
        sender: SubscriberEmail,
        authorization_token: String,
        timeout_milliseconds: u64,
    ) -> (r: EmailClient)
        ensures
            r.base_url@ == base_url@,
            r.sender@ == sender@,
            r.authorization_token@ == authorization_token@,
            r.timeout_milliseconds == timeout_milliseconds,
    {
        EmailClient { base_url, sender, authorization_token, timeout_milliseconds }
    }

    /// The request one send turns into: posted to `/mail/send` under the base
    /// URL, authorized with the bearer token, carrying the HTML body first
    /// and the plain body second, addressed to the one recipient.
    pub fn send_email_request(
        &self,
        recipient: &SubscriberEmail,
        subject: &str,
        html_content: &str,
        text_content: &str,
    ) -> (r: SendEmailRequest)
        ensures
            r.url@ == self.base_url@ + "/mail/send"@,
            r.authorization@ == "Bearer "@ + self.authorization_token@,
            r.body.from.email@ == self.sender@,
            r.body.from.name@ == Seq::<char>::empty(),
            r.body.reply_to.email@ == self.sender@,
            r.body.reply_to.name@ == Seq::<char>::empty(),
            r.body.subject@ == subject@,
            r.body.content@.len() == 2,
            r.body.content@[0].type_ == MIMEType::TextHTML,
            r.body.content@[0].value@ == html_content@,
            r.body.content@[1].type_ == MIMEType::TextPlain,
            r.body.content@[1].value@ == text_content@,
            r.body.personalizations@.len() == 1,
            r.body.personalizations@[0].to@.len() == 1,
            r.body.personalizations@[0].to@[0].email@ == recipient@,
            r.body.personalizations@[0].to@[0].name@ == Seq::<char>::empty(),
    {
        let mut url = self.base_url.clone();
        url.append("/mail/send");

        let mut authorization = "Bearer ".to_owned();
        authorization.append(self.authorization_token.as_str());

        let from = Recipient { email: self.sender.as_ref().to_owned(), name: String::new() };
        let reply_to = Recipient { email: self.sender.as_ref().to_owned(), name: String::new() };
        let to = Recipient { email: recipient.as_ref().to_owned(), name: String::new() };

        let mut content: Vec<Content> = Vec::new();
        content.push(Content { type_: MIMEType::TextHTML, value: html_content.to_owned() });
        content.push(Content { type_: MIMEType::TextPlain, value: text_content.to_owned() });

        let mut to_list: Vec<Recipient> = Vec::new();
        to_list.push(to);
        let mut personalizations: Vec<Personalization> = Vec::new();
        personalizations.push(Personalization { to: to_list });

        SendEmailRequest {
            url,
            authorization,
            body: SendEmailRequestBody {
                from,
                reply_to,
                subject: subject.to_owned(),
                content,
                personalizations,
            },
        }
    }
}

} // verus!
