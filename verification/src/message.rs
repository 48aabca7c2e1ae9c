//! The confirmation message and the link that it carries.

use crate::domain::subscriber_email::SubscriberEmail;
use crate::token::{is_token, ConfirmationToken};
use vstd::prelude::*;
use vstd::string::StringExecFns;

verus! {

/// The text of the link that confirms with `token` at `base_url`.
pub open spec fn link_text(base_url: Seq<char>, token: Seq<char>) -> Seq<char> {
    base_url + "/subscriptions/confirm?subscription_token="@ + token
}

/// The text of the HTML body that points to `link`.
pub open spec fn html_text(link: Seq<char>) -> Seq<char> {
    "Welcome to our newsletter!<br />Click <a href=\""@ + link
        + "\">here</a> to confirm your subscription."@
}

/// The text of the plain body that points to `link`.
pub open spec fn plain_text(link: Seq<char>) -> Seq<char> {
    "Welcome to our newsletter!\nVisit "@ + link + " to confirm your subscription."@
}

/// A message that the transport is asked to send.
pub struct ConfirmationEmail {
    pub to: SubscriberEmail,
    pub subject: String,
    pub html_body: String,
    pub text_body: String,
}

impl ConfirmationEmail {
    /// The message is the one that confirms with the token `token` at
    /// `base_url`, addressed to `to`.
    pub open spec fn confirms(self, to: Seq<char>, base_url: Seq<char>, token: Seq<char>) -> bool {
        &&& self.to@ == to
        &&& self.subject@ == "Welcome"@
        &&& self.html_body@ == html_text(link_text(base_url, token))
        &&& self.text_body@ == plain_text(link_text(base_url, token))
    }
}

/// The link that confirms with `token` at `base_url`.
pub fn confirmation_link(base_url: &str, token: &ConfirmationToken) -> (link: String)
    ensures
        link@ == link_text(base_url@, token@),
        is_token(token@),
{
    let mut link = String::from_str(base_url);
    link.append("/subscriptions/confirm?subscription_token=");
    link.append(token.as_ref());
    link
}

/// The message that asks `to` to confirm with `token` at `base_url`: both
/// bodies point to the confirmation link.
pub fn confirmation_email(to: SubscriberEmail, base_url: &str, token: &ConfirmationToken) -> (email:
    ConfirmationEmail)
    ensures
        email.confirms(to@, base_url@, token@),
        is_token(token@),
{
    let link = confirmation_link(base_url, token);
    let mut html_body = String::from_str("Welcome to our newsletter!<br />Click <a href=\"");
    html_body.append(link.as_str());
    html_body.append("\">here</a> to confirm your subscription.");
    let mut text_body = String::from_str("Welcome to our newsletter!\nVisit ");
    text_body.append(link.as_str());
    text_body.append(" to confirm your subscription.");
    ConfirmationEmail { to, subject: String::from_str("Welcome"), html_body, text_body }
}

} // verus!
