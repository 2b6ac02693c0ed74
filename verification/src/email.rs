//! The mail that relays a contact request.

use crate::contact::ContactMe;
use crate::Env;
use vstd::prelude::*;
use vstd::string::*;

verus! {

/// Whether `lettre` reads `text` as a mailbox, that is an address with an
/// optional display name before it.
pub uninterp spec fn mailbox_accepts(text: Seq<char>) -> bool;

/// Asks `lettre` to parse `text` as a `Mailbox` (its `FromStr`) and says
/// whether it did. The parser reads nothing but `text`.
#[verifier::external_body]
fn is_mailbox(text: &str) -> (accepted: bool)
    ensures
        accepted == mailbox_accepts(text@),
{
    text.parse::<lettre::message::Mailbox>().is_ok()
}

/// A mail before it is handed to the transport. Each of `from`, `reply_to`
/// and `to` is the text of a mailbox.
#[derive(Debug, Clone)]
pub struct Email {
    pub from: String,
    pub reply_to: String,
    pub to: String,
    pub subject: String,
    pub body: String,
}

/// What a mail holds, as plain values.
pub struct EmailView {
    pub from: Seq<char>,
    pub reply_to: Seq<char>,
    pub to: Seq<char>,
    pub subject: Seq<char>,
    pub body: Seq<char>,
}

impl View for Email {
    type V = EmailView;

    open spec fn view(&self) -> EmailView {
        EmailView {
            from: self.from@,
            reply_to: self.reply_to@,
            to: self.to@,
            subject: self.subject@,
            body: self.body@,
        }
    }
}

/// The mailbox of a mail that is no mailbox.
#[derive(Debug, Clone, Copy, PartialEq, Eq)]
pub enum ComposeError {
    InvalidSender,
    InvalidReplyTo,
    InvalidRecipient,
}

/// A display name and an address written as one mailbox.
pub open spec fn spec_mailbox(name: Seq<char>, address: Seq<char>) -> Seq<char> {
    name + " <"@ + address + ">"@
}

/// The mail for a contact request: from the service under the configured
/// contact address, with replies going to the submitter, to the owner, with
/// a fixed subject and the message as its body.
pub open spec fn spec_email(env: Env, message: ContactMe) -> EmailView {
    EmailView {
        from: spec_mailbox("noreply"@, env.contact_email@),
        reply_to: spec_mailbox(message.name@, message.from@),
        to: spec_mailbox("Sondre Nilsen"@, env.email@),
        subject: "New contact request"@,
        body: message.message@,
    }
}

/// The first mailbox that was not accepted, in the order sender, reply-to,
/// recipient.
pub open spec fn spec_first_rejected(from: bool, reply_to: bool, to: bool) -> Option<ComposeError> {
    if !from {
        Some(ComposeError::InvalidSender)
    } else if !reply_to {
        Some(ComposeError::InvalidReplyTo)
    } else if !to {
        Some(ComposeError::InvalidRecipient)
    } else {
        None
    }
}

/// Whether the mail for a contact request can be composed, and if not, why.
pub open spec fn spec_compose_error(env: Env, message: ContactMe) -> Option<ComposeError> {
    spec_first_rejected(
        mailbox_accepts(spec_email(env, message).from),
        mailbox_accepts(spec_email(env, message).reply_to),
        mailbox_accepts(spec_email(env, message).to),
    )
}

/// Writes a display name and an address as one mailbox.
pub fn mailbox(name: &str, address: &str) -> (text: String)
    ensures
        text@ == spec_mailbox(name@, address@),
{
    String::from_str(name).concat(" <").concat(address).concat(">")
}

/// Given which of the three mailboxes were accepted, names the first that
/// was not.
pub fn first_rejected(from: bool, reply_to: bool, to: bool) -> (rejected: Option<ComposeError>)
    ensures
        rejected == spec_first_rejected(from, reply_to, to),
{
    if !from {
        Some(ComposeError::InvalidSender)
    } else if !reply_to {
        Some(ComposeError::InvalidReplyTo)
    } else if !to {
        Some(ComposeError::InvalidRecipient)
    } else {
        None
    }
}

/// Composes the mail for a contact request, or names the first mailbox that
/// is none.
pub fn email_me(env: &Env, message: &ContactMe) -> (composed: Result<Email, ComposeError>)
    ensures
        match composed {
            Ok(email) => email@ == spec_email(*env, *message) && spec_compose_error(*env, *message)
                is None,
            Err(e) => spec_compose_error(*env, *message) == Some(e),
        },
{
    let from = mailbox("noreply", env.contact_email.as_str());
    let reply_to = mailbox(message.name.as_str(), message.from.as_str());
    let to = mailbox("Sondre Nilsen", env.email.as_str());
    let rejected = first_rejected(
        is_mailbox(from.as_str()),
        is_mailbox(reply_to.as_str()),
        is_mailbox(to.as_str()),
    );
    match rejected {
        Some(e) => Err(e),
        None => Ok(
            Email {
                from,
                reply_to,
                to,
                subject: String::from_str("New contact request"),
                body: message.message.clone(),
            },
        ),
    }
}

} // verus!
