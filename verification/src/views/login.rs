//! The login page: its form, and the page around it.

use vstd::prelude::*;

use crate::text::{html_escape, html_escaped};
use crate::views::layout::{layout, layout_rep};

verus! {

/// The paragraph shown above the form when a login failed: the message
/// escaped, in red; nothing when there is no message.
pub open spec fn error_block_rep(errors: Option<Seq<char>>) -> Seq<char> {
    match errors {
        Some(e) => "<p><em style=\"color: red;\">"@ + html_escaped(e) + "</em></p>"@,
        None => Seq::<char>::empty(),
    }
}

/// The login form: the error paragraph, if any, then the username and
/// password fields and the submit button.
pub open spec fn form_rep(errors: Option<Seq<char>>) -> Seq<char> {
    "<form action=\"/login\" method=\"post\">"@ + error_block_rep(errors)
        + "<div style=\"display: flex; flex-direction: column; align-items: flex-start; gap: 1rem;\"><label>Username <input type=\"text\" placeholder=\"Enter Username\" name=\"username\"></label><label>Password <input type=\"password\" placeholder=\"Enter Password\" name=\"password\"></label><button type=\"submit\">Login</button></div></form>"@
}

/// Renders the login form, with the failure message shown when one is given.
pub fn form(errors: Option<String>) -> (r: String)
    ensures
        r@ == form_rep(errors.deep_view()),
{
    let mut s = "<form action=\"/login\" method=\"post\">".to_owned();
    match &errors {
        Some(e) => {
            s.append("<p><em style=\"color: red;\">");
            let escaped = html_escape(e.as_str());
            s.append(escaped.as_str());
            s.append("</em></p>");
        },
        None => {
        },
    }
    s.append(
        "<div style=\"display: flex; flex-direction: column; align-items: flex-start; gap: 1rem;\"><label>Username <input type=\"text\" placeholder=\"Enter Username\" name=\"username\"></label><label>Password <input type=\"password\" placeholder=\"Enter Password\" name=\"password\"></label><button type=\"submit\">Login</button></div></form>",
    );
    s
}

/// The whole login page: the form wrapped in the shell under `Login`.
pub fn get(errors: Option<String>) -> (r: String)
    ensures
        r@ == layout_rep("Login"@, form_rep(errors.deep_view())),
{
    let body = form(errors);
    layout("Login", body.as_str())
}

} // verus!
