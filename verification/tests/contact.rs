use personal_api::contact::{
    contact_me, decide, same_secret, Action, ContactMe, ContactRow, Decision, Event, Handler, Stage,
    INSERT_CONTACT,
};
use personal_api::server::{BAD_REQUEST, INTERNAL_SERVER_ERROR, OK};
use personal_api::email::Email;
use personal_api::Env;

fn env() -> Env {
    Env {
        login: "sondr3".to_string(),
        token: "token".to_string(),
        whoami: "Open Sesame".to_string(),
        contact_email: "contact@example.org".to_string(),
        email: "owner@example.org".to_string(),
        relay: "smtp.example.org".to_string(),
        smtp_user: "user".to_string(),
        smtp_pass: "pass".to_string(),
        database_url: "postgres://localhost/api".to_string(),
    }
}

fn contact(whoami: &str) -> ContactMe {
    ContactMe {
        name: "A".to_string(),
        from: "a@x.com".to_string(),
        message: "hi".to_string(),
        whoami: whoami.to_string(),
    }
}

/// Plays the store and the transport: performs each action and hands back
/// what happened, until the request is answered.
fn serve(
    contact: ContactMe,
    deliver: bool,
    store_works: bool,
    transport_works: bool,
) -> (u16, Vec<ContactRow>, Vec<Email>) {
    let env = env();
    let mut rows = Vec::new();
    let mut mails = Vec::new();
    let mut handler = Handler::new(contact, deliver);
    let mut event = Event::Submitted;
    loop {
        match contact_me(&mut handler, &env, event) {
            Action::Insert(row) => {
                if store_works {
                    rows.push(row);
                    event = Event::Inserted;
                } else {
                    event = Event::InsertFailed;
                }
            }
            Action::Send(mail) => {
                mails.push(mail);
                event = if transport_works { Event::Sent } else { Event::SendFailed };
            }
            Action::Respond(status) => return (status, rows, mails),
            Action::Ignore => panic!("the handler ignored an event that it had asked for"),
        }
    }
}

#[test]
fn same_secret_ignores_case() {
    assert!(same_secret("secret", "secret"));
    assert!(same_secret("SECRET", "secret"));
    assert!(same_secret("SeCrEt", "sEcReT"));
    assert!(same_secret("", ""));
}

#[test]
fn same_secret_tells_secrets_apart() {
    assert!(!same_secret("wrong", "secret"));
    assert!(!same_secret("secret ", "secret"));
    assert!(!same_secret("", "secret"));
}

#[test]
fn contact_with_the_secret_is_stored_and_relayed() {
    let (status, rows, mails) = serve(contact("open sesame"), true, true, true);
    assert_eq!(status, 200);
    assert_eq!(rows.len(), 1);
    assert_eq!(rows[0].name, "A");
    assert_eq!(rows[0].sender, "a@x.com");
    assert_eq!(rows[0].message, "hi");
    assert_eq!(mails.len(), 1);
    assert_eq!(mails[0].body, "hi");
}

#[test]
fn contact_with_the_wrong_secret_is_refused() {
    let (status, rows, mails) = serve(contact("wrong"), true, true, true);
    assert_eq!(status, 400);
    assert!(rows.is_empty());
    assert!(mails.is_empty());
}

#[test]
fn contact_without_delivery_is_stored_only() {
    let (status, rows, mails) = serve(contact("OPEN SESAME"), false, true, true);
    assert_eq!(status, 200);
    assert_eq!(rows.len(), 1);
    assert!(mails.is_empty());
}

#[test]
fn contact_that_cannot_be_stored_is_not_relayed() {
    let (status, rows, mails) = serve(contact("Open Sesame"), true, false, true);
    assert_eq!(status, 500);
    assert!(rows.is_empty());
    assert!(mails.is_empty());
}

#[test]
fn contact_that_cannot_be_relayed_stays_stored() {
    let (status, rows, mails) = serve(contact("Open Sesame"), true, true, false);
    assert_eq!(status, 500);
    assert_eq!(rows.len(), 1);
    assert_eq!(mails.len(), 1);
}

#[test]
fn contact_with_an_address_that_is_none_stays_stored() {
    let mut request = contact("Open Sesame");
    request.from = "not an address".to_string();
    let (status, rows, mails) = serve(request, true, true, true);
    assert_eq!(status, 500);
    assert_eq!(rows.len(), 1);
    assert_eq!(rows[0].sender, "not an address");
    assert!(mails.is_empty());
}

#[test]
fn contact_submitted_twice_is_stored_twice() {
    let (_, mut rows, _) = serve(contact("Open Sesame"), true, true, true);
    let (_, again, _) = serve(contact("Open Sesame"), true, true, true);
    rows.extend(again);
    assert_eq!(rows.len(), 2);
}

#[test]
fn handler_ignores_events_that_it_does_not_await() {
    let env = env();
    let mut handler = Handler::new(contact("Open Sesame"), true);
    assert!(matches!(contact_me(&mut handler, &env, Event::Inserted), Action::Ignore));
    assert!(matches!(contact_me(&mut handler, &env, Event::Sent), Action::Ignore));
    assert_eq!(handler.stage(), Stage::Received);
    assert!(matches!(contact_me(&mut handler, &env, Event::Submitted), Action::Insert(_)));
    assert_eq!(handler.stage(), Stage::Inserting);
    assert!(matches!(contact_me(&mut handler, &env, Event::Submitted), Action::Ignore));
    assert!(matches!(contact_me(&mut handler, &env, Event::Inserted), Action::Send(_)));
    assert_eq!(handler.stage(), Stage::Sending);
    assert!(matches!(contact_me(&mut handler, &env, Event::Inserted), Action::Ignore));
    assert!(matches!(contact_me(&mut handler, &env, Event::Sent), Action::Respond(200)));
    assert_eq!(handler.stage(), Stage::Answered);
    assert!(matches!(contact_me(&mut handler, &env, Event::Submitted), Action::Ignore));
    assert!(matches!(contact_me(&mut handler, &env, Event::Sent), Action::Ignore));
    assert_eq!(handler.stage(), Stage::Answered);
}

#[test]
fn decide_follows_the_rule() {
    assert_eq!(
        decide(Stage::Received, Event::Submitted, true, true, true),
        (Stage::Inserting, Decision::Insert)
    );
    assert_eq!(
        decide(Stage::Received, Event::Submitted, false, true, true),
        (Stage::Answered, Decision::Respond(BAD_REQUEST))
    );
    assert_eq!(
        decide(Stage::Inserting, Event::Inserted, true, true, true),
        (Stage::Sending, Decision::Send)
    );
    assert_eq!(
        decide(Stage::Inserting, Event::Inserted, true, true, false),
        (Stage::Answered, Decision::Respond(OK))
    );
    assert_eq!(
        decide(Stage::Inserting, Event::Inserted, true, false, true),
        (Stage::Answered, Decision::Respond(INTERNAL_SERVER_ERROR))
    );
    assert_eq!(
        decide(Stage::Inserting, Event::InsertFailed, true, true, true),
        (Stage::Answered, Decision::Respond(INTERNAL_SERVER_ERROR))
    );
    assert_eq!(
        decide(Stage::Sending, Event::Sent, true, true, true),
        (Stage::Answered, Decision::Respond(OK))
    );
    assert_eq!(
        decide(Stage::Sending, Event::SendFailed, true, true, true),
        (Stage::Answered, Decision::Respond(INTERNAL_SERVER_ERROR))
    );
    assert_eq!(
        decide(Stage::Answered, Event::Submitted, true, true, true),
        (Stage::Answered, Decision::Ignore)
    );
    assert_eq!(
        decide(Stage::Received, Event::Sent, true, true, true),
        (Stage::Received, Decision::Ignore)
    );
}

#[test]
fn handler_keeps_the_request() {
    let handler = Handler::new(contact("x"), false);
    assert_eq!(handler.stage(), Stage::Received);
    assert_eq!(handler.contact().whoami, "x");
    assert_eq!(handler.contact().from, "a@x.com");
    assert!(!handler.deliver());
}

#[test]
fn insert_statement_names_the_columns_of_a_row() {
    assert_eq!(INSERT_CONTACT, "insert into contact (name, sender, message) values ($1, $2, $3)");
}
