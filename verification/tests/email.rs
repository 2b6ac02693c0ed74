use personal_api::contact::ContactMe;
use personal_api::email::{email_me, first_rejected, mailbox, ComposeError};
use personal_api::Env;

fn env(contact_email: &str, email: &str) -> Env {
    Env {
        login: String::new(),
        token: String::new(),
        whoami: "secret".to_string(),
        contact_email: contact_email.to_string(),
        email: email.to_string(),
        relay: String::new(),
        smtp_user: String::new(),
        smtp_pass: String::new(),
        database_url: String::new(),
    }
}

fn contact(name: &str, from: &str) -> ContactMe {
    ContactMe {
        name: name.to_string(),
        from: from.to_string(),
        message: "hello there".to_string(),
        whoami: "secret".to_string(),
    }
}

#[test]
fn mailbox_joins_name_and_address() {
    assert_eq!(mailbox("noreply", "contact@example.org"), "noreply <contact@example.org>");
    assert_eq!(mailbox("", ""), " <>");
}

#[test]
fn email_me_composes_the_mail() {
    let mail = email_me(&env("contact@example.org", "owner@example.org"), &contact("Ada", "ada@x.com"))
        .unwrap();
    assert_eq!(mail.from, "noreply <contact@example.org>");
    assert_eq!(mail.reply_to, "Ada <ada@x.com>");
    assert_eq!(mail.to, "Sondre Nilsen <owner@example.org>");
    assert_eq!(mail.subject, "New contact request");
    assert_eq!(mail.body, "hello there");
}

#[test]
fn email_me_refuses_a_sender_that_is_no_mailbox() {
    let composed = email_me(&env("nowhere", "owner@example.org"), &contact("Ada", "ada@x.com"));
    assert_eq!(composed.unwrap_err(), ComposeError::InvalidSender);
}

#[test]
fn email_me_refuses_a_reply_to_that_is_no_mailbox() {
    let composed = email_me(&env("contact@example.org", "owner@example.org"), &contact("Ada", "ada"));
    assert_eq!(composed.unwrap_err(), ComposeError::InvalidReplyTo);
}

#[test]
fn email_me_refuses_a_recipient_that_is_no_mailbox() {
    let composed = email_me(&env("contact@example.org", "@"), &contact("Ada", "ada@x.com"));
    assert_eq!(composed.unwrap_err(), ComposeError::InvalidRecipient);
}

#[test]
fn email_me_names_the_first_mailbox_that_is_none() {
    let composed = email_me(&env("nowhere", "nowhere"), &contact("Ada", "ada"));
    assert_eq!(composed.unwrap_err(), ComposeError::InvalidSender);
    let composed = email_me(&env("contact@example.org", "nowhere"), &contact("Ada", "ada"));
    assert_eq!(composed.unwrap_err(), ComposeError::InvalidReplyTo);
}

#[test]
fn first_rejected_goes_by_the_order_of_the_headers() {
    assert_eq!(first_rejected(true, true, true), None);
    assert_eq!(first_rejected(false, true, true), Some(ComposeError::InvalidSender));
    assert_eq!(first_rejected(false, false, false), Some(ComposeError::InvalidSender));
    assert_eq!(first_rejected(true, false, true), Some(ComposeError::InvalidReplyTo));
    assert_eq!(first_rejected(true, false, false), Some(ComposeError::InvalidReplyTo));
    assert_eq!(first_rejected(true, true, false), Some(ComposeError::InvalidRecipient));
}
