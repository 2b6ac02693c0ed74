//! The contact form: the check of the shared secret and what the handler
//! does at each turn.

use crate::email::{email_me, spec_compose_error, spec_email, Email};
use crate::server::{BAD_REQUEST, INTERNAL_SERVER_ERROR, OK};
use crate::Env;
use vstd::prelude::*;
use vstd::string::*;

verus! {

/// A contact request as it is submitted.
#[derive(Debug, Clone)]
pub struct ContactMe {
    pub name: String,
    /// The submitter's address, which replies go to.
    pub from: String,
    pub message: String,
    /// What the submitter gave as the shared secret.
    pub whoami: String,
}

/// One row of the contact table.
#[derive(Debug, Clone)]
pub struct ContactRow {
    pub name: String,
    pub sender: String,
    pub message: String,
}

/// The statement that writes a row of the contact table. Its parameters are
/// the row's name, sender and message, in this order.
pub const INSERT_CONTACT: &'static str =
    "insert into contact (name, sender, message) values ($1, $2, $3)";

/// `text` in lower case, as `str::to_lowercase` gives it.
pub uninterp spec fn lowercase(text: Seq<char>) -> Seq<char>;

/// Calls `str::to_lowercase`, which returns the lower-case equivalent of
/// `text` as a new string.
#[verifier::external_body]
fn to_lowercase(text: &str) -> (lowered: String)
    ensures
        lowered@ == lowercase(text@),
{
    text.to_lowercase()
}

/// Whether two texts are the same secret: they are, where they differ in
/// case only.
pub open spec fn spec_same_secret(given: Seq<char>, secret: Seq<char>) -> bool {
    lowercase(given) == lowercase(secret)
}

/// Compares what was given with the secret, without regard to case.
pub fn same_secret(given: &str, secret: &str) -> (same: bool)
    ensures
        same == spec_same_secret(given@, secret@),
{
    to_lowercase(given) == to_lowercase(secret)
}

/// Where the handling of one request stands.
#[derive(Debug, Clone, Copy, PartialEq, Eq)]
pub enum Stage {
    /// Nothing was done yet.
    Received,
    /// The row was handed to the store.
    Inserting,
    /// The mail was handed to the transport.
    Sending,
    /// The request was answered.
    Answered,
}

/// What happened outside.
#[derive(Debug, Clone, Copy, PartialEq, Eq)]
pub enum Event {
    /// The request came in.
    Submitted,
    /// The store took the row.
    Inserted,
    /// The store refused the row or could not be reached.
    InsertFailed,
    /// The transport took the mail.
    Sent,
    /// The transport refused the mail or could not be reached.
    SendFailed,
}

/// What the handler does next, without what it does it with.
#[derive(Debug, Clone, Copy, PartialEq, Eq)]
pub enum Decision {
    /// Write the row.
    Insert,
    /// Send the mail.
    Send,
    /// Answer with this status.
    Respond(u16),
    /// The event is none that the stage awaits: do nothing.
    Ignore,
}

/// What the handler does next.
#[derive(Debug, Clone)]
pub enum Action {
    Insert(ContactRow),
    Send(Email),
    Respond(u16),
    Ignore,
}

/// The handler's rule. A request with the wrong secret is refused at once.
/// Another is stored first; only a stored request is relayed, and only
/// where mail is delivered at all; a failure of the store, of composing the
/// mail or of the transport is a server error.
pub open spec fn spec_decide(
    stage: Stage,
    event: Event,
    authorized: bool,
    composed: bool,
    deliver: bool,
) -> (Stage, Decision) {
    match (stage, event) {
        (Stage::Received, Event::Submitted) => if authorized {
            (Stage::Inserting, Decision::Insert)
        } else {
            (Stage::Answered, Decision::Respond(BAD_REQUEST))
        },
        (Stage::Inserting, Event::Inserted) => if !composed {
            (Stage::Answered, Decision::Respond(INTERNAL_SERVER_ERROR))
        } else if deliver {
            (Stage::Sending, Decision::Send)
        } else {
            (Stage::Answered, Decision::Respond(OK))
        },
        (Stage::Inserting, Event::InsertFailed) => (
            Stage::Answered,
            Decision::Respond(INTERNAL_SERVER_ERROR),
        ),
        (Stage::Sending, Event::Sent) => (Stage::Answered, Decision::Respond(OK)),
        (Stage::Sending, Event::SendFailed) => (
            Stage::Answered,
            Decision::Respond(INTERNAL_SERVER_ERROR),
        ),
        _ => (stage, Decision::Ignore),
    }
}

/// Applies the handler's rule to one event.
pub fn decide(stage: Stage, event: Event, authorized: bool, composed: bool, deliver: bool) -> (next:
    (Stage, Decision))
    ensures
        next == spec_decide(stage, event, authorized, composed, deliver),
{
    match (stage, event) {
        (Stage::Received, Event::Submitted) => if authorized {
            (Stage::Inserting, Decision::Insert)
        } else {
            (Stage::Answered, Decision::Respond(BAD_REQUEST))
        },
        (Stage::Inserting, Event::Inserted) => if !composed {
            (Stage::Answered, Decision::Respond(INTERNAL_SERVER_ERROR))
        } else if deliver {
            (Stage::Sending, Decision::Send)
        } else {
            (Stage::Answered, Decision::Respond(OK))
        },
        (Stage::Inserting, Event::InsertFailed) => (
            Stage::Answered,
            Decision::Respond(INTERNAL_SERVER_ERROR),
        ),
        (Stage::Sending, Event::Sent) => (Stage::Answered, Decision::Respond(OK)),
        (Stage::Sending, Event::SendFailed) => (
            Stage::Answered,
            Decision::Respond(INTERNAL_SERVER_ERROR),
        ),
        _ => (stage, Decision::Ignore),
    }
}

/// The handling of one contact request: the request, whether mail is
/// delivered at all, and the stage that the handling has reached.
#[derive(Debug)]
pub struct Handler {
    stage: Stage,
    contact: ContactMe,
    deliver: bool,
}

/// Whether a request gives the configured secret.
pub open spec fn spec_authorized(env: Env, contact: ContactMe) -> bool {
    spec_same_secret(contact.whoami@, env.whoami@)
}

/// What an action is, without what it holds.
pub open spec fn spec_kind(action: Action) -> Decision {
    match action {
        Action::Insert(_) => Decision::Insert,
        Action::Send(_) => Decision::Send,
        Action::Respond(status) => Decision::Respond(status),
        Action::Ignore => Decision::Ignore,
    }
}

/// Whether an action holds what it is to hold: the row of the request, or
/// the mail for it.
pub open spec fn spec_carries(action: Action, env: Env, contact: ContactMe) -> bool {
    match action {
        Action::Insert(row) => row.name@ == contact.name@ && row.sender@ == contact.from@
            && row.message@ == contact.message@,
        Action::Send(email) => email@ == spec_email(env, contact),
        _ => true,
    }
}

impl Handler {
    /// The stage that the handling has reached.
    pub closed spec fn spec_stage(&self) -> Stage {
        self.stage
    }

    /// The request.
    pub closed spec fn spec_contact(&self) -> ContactMe {
        self.contact
    }

    /// Whether mail is delivered at all.
    pub closed spec fn spec_deliver(&self) -> bool {
        self.deliver
    }

    /// The handling of a request that has just come in.
    pub fn new(contact: ContactMe, deliver: bool) -> (handler: Handler)
        ensures
            handler.spec_stage() == Stage::Received,
            handler.spec_contact() == contact,
            handler.spec_deliver() == deliver,
    {
        Handler { stage: Stage::Received, contact, deliver }
    }

    /// The stage that the handling has reached.
    pub fn stage(&self) -> (stage: Stage)
        ensures
            stage == self.spec_stage(),
    {
        self.stage
    }

    /// The request.
    pub fn contact(&self) -> (contact: &ContactMe)
        ensures
            *contact == self.spec_contact(),
    {
        &self.contact
    }

    /// Whether mail is delivered at all.
    pub fn deliver(&self) -> (deliver: bool)
        ensures
            deliver == self.spec_deliver(),
    {
        self.deliver
    }
}

/// Takes one event and says what to do next, by the handler's rule. The
/// secret is compared when the request comes in, and the mail is composed
/// when the store has taken the row.
pub fn contact_me(handler: &mut Handler, env: &Env, event: Event) -> (action: Action)
    ensures
        final(handler).spec_contact() == old(handler).spec_contact(),
        final(handler).spec_deliver() == old(handler).spec_deliver(),
        (final(handler).spec_stage(), spec_kind(action)) == spec_decide(
            old(handler).spec_stage(),
            event,
            spec_authorized(*env, old(handler).spec_contact()),
            spec_compose_error(*env, old(handler).spec_contact()) is None,
            old(handler).spec_deliver(),
        ),
        spec_carries(action, *env, old(handler).spec_contact()),
{
    let authorized = match (handler.stage, event) {
        (Stage::Received, Event::Submitted) => same_secret(
            handler.contact.whoami.as_str(),
            env.whoami.as_str(),
        ),
        _ => false,
    };
    let email = match (handler.stage, event) {
        (Stage::Inserting, Event::Inserted) => match email_me(env, &handler.contact) {
            Ok(email) => Some(email),
            Err(_) => None,
        },
        _ => None,
    };
    let (stage, decision) = decide(handler.stage, event, authorized, email.is_some(), handler.deliver);
    handler.stage = stage;
    match (decision, email) {
        (Decision::Insert, _) => Action::Insert(
            ContactRow {
                name: handler.contact.name.clone(),
                sender: handler.contact.from.clone(),
                message: handler.contact.message.clone(),
            },
        ),
        (Decision::Send, Some(email)) => Action::Send(email),
        (Decision::Respond(status), _) => Action::Respond(status),
        _ => Action::Ignore,
    }
}

/// The stage that the handling of a request has reached after `events`,
/// given whether the request gives the secret, whether its mail can be
/// composed and whether mail is delivered.
pub open spec fn spec_stage_after(
    events: Seq<Event>,
    authorized: bool,
    composed: bool,
    deliver: bool,
) -> Stage
    decreases events.len(),
{
    if events.len() == 0 {
        Stage::Received
    } else {
        spec_decide(
            spec_stage_after(events.drop_last(), authorized, composed, deliver),
            events.last(),
            authorized,
            composed,
            deliver,
        ).0
    }
}

/// What the handler decided at each of `events`, in their order.
pub open spec fn spec_decisions(
    events: Seq<Event>,
    authorized: bool,
    composed: bool,
    deliver: bool,
) -> Seq<Decision>
    decreases events.len(),
{
    if events.len() == 0 {
        Seq::empty()
    } else {
        spec_decisions(events.drop_last(), authorized, composed, deliver).push(
            spec_decide(
                spec_stage_after(events.drop_last(), authorized, composed, deliver),
                events.last(),
                authorized,
                composed,
                deliver,
            ).1,
        )
    }
}

/// How often `decision` was taken.
pub open spec fn spec_count(decisions: Seq<Decision>, decision: Decision) -> nat
    decreases decisions.len(),
{
    if decisions.len() == 0 {
        0
    } else {
        spec_count(decisions.drop_last(), decision) + if decisions.last() == decision {
            1nat
        } else {
            0nat
        }
    }
}

/// The status that a decision answers with, if it answers.
pub open spec fn spec_status(decision: Decision) -> Option<u16> {
    match decision {
        Decision::Respond(status) => Some(status),
        _ => None,
    }
}

/// The statuses that were answered, in their order.
pub open spec fn spec_answers(decisions: Seq<Decision>) -> Seq<u16> {
    decisions.filter_map(|decision: Decision| spec_status(decision))
}

/// What holds after any events, stage by stage.
proof fn lemma_handling(events: Seq<Event>, authorized: bool, composed: bool, deliver: bool)
    ensures
        ({
            let stage = spec_stage_after(events, authorized, composed, deliver);
            let decisions = spec_decisions(events, authorized, composed, deliver);
            let inserts = spec_count(decisions, Decision::Insert);
            let sends = spec_count(decisions, Decision::Send);
            let answers = spec_answers(decisions);
            match stage {
                Stage::Received => inserts == 0 && sends == 0 && answers.len() == 0,
                Stage::Inserting => authorized && inserts == 1 && sends == 0 && answers.len() == 0,
                Stage::Sending => authorized && composed && deliver && inserts == 1 && sends == 1
                    && answers.len() == 0 && events.contains(Event::Inserted),
                Stage::Answered => answers.len() == 1 && if !authorized {
                    inserts == 0 && sends == 0 && answers[0] == BAD_REQUEST
                } else {
                    inserts == 1 && sends <= 1 && (answers[0] == OK || answers[0]
                        == INTERNAL_SERVER_ERROR) && (answers[0] == OK ==> composed && (sends == 1
                        <==> deliver) && events.contains(Event::Inserted))
                },
            }
        }),
    decreases events.len(),
{
    let status = |decision: Decision| spec_status(decision);
    if events.len() == 0 {
        assert(Seq::<Decision>::empty().filter_map(status) =~= Seq::<u16>::empty());
    } else {
        let earlier = events.drop_last();
        lemma_handling(earlier, authorized, composed, deliver);
        let before = spec_decisions(earlier, authorized, composed, deliver);
        let decisions = spec_decisions(events, authorized, composed, deliver);
        let decision = decisions.last();
        assert(decisions.drop_last() =~= before);
        assert(events[events.len() - 1] == events.last());
        assert(earlier.contains(Event::Inserted) ==> events.contains(Event::Inserted)) by {
            if earlier.contains(Event::Inserted) {
                let at = choose|i: int| 0 <= i < earlier.len() && earlier[i] == Event::Inserted;
                assert(events[at] == Event::Inserted);
            }
        }
        assert(decisions.filter_map(status) =~= before.filter_map(status) + match status(decision) {
            Some(answered) => seq![answered],
            None => Seq::empty(),
        });
    }
}

/// Once a request was submitted, a request with the wrong secret is answered
/// and every other is past the first stage.
proof fn lemma_submitted_leaves_received(
    events: Seq<Event>,
    authorized: bool,
    composed: bool,
    deliver: bool,
)
    ensures
        events.len() > 0 && events[0] == Event::Submitted ==> spec_stage_after(
            events,
            authorized,
            composed,
            deliver,
        ) != Stage::Received && (!authorized ==> spec_stage_after(
            events,
            authorized,
            composed,
            deliver,
        ) == Stage::Answered),
    decreases events.len(),
{
    if events.len() > 1 {
        let earlier = events.drop_last();
        assert(earlier[0] == events[0]);
        lemma_submitted_leaves_received(earlier, authorized, composed, deliver);
        lemma_handling(earlier, authorized, composed, deliver);
    } else if events.len() == 1 {
        assert(events.drop_last().len() == 0);
        assert(spec_stage_after(events.drop_last(), authorized, composed, deliver)
            == Stage::Received);
    }
}

/// What the handler decides for a request at each of `events`, in their
/// order: the kinds of the actions that `contact_me` returns when it is
/// given the events one after the other, from a new handler on.
pub open spec fn spec_handled(env: Env, contact: ContactMe, deliver: bool, events: Seq<Event>) -> Seq<
    Decision,
> {
    spec_decisions(
        events,
        spec_authorized(env, contact),
        spec_compose_error(env, contact) is None,
        deliver,
    )
}

/// A request with the wrong secret is answered with the status for it, and
/// with nothing else: whatever happens outside, no row is written and no
/// mail is sent.
pub proof fn lemma_wrong_secret_does_nothing(
    env: Env,
    contact: ContactMe,
    deliver: bool,
    events: Seq<Event>,
)
    requires
        !spec_authorized(env, contact),
    ensures
        spec_count(spec_handled(env, contact, deliver, events), Decision::Insert) == 0,
        spec_count(spec_handled(env, contact, deliver, events), Decision::Send) == 0,
        spec_answers(spec_handled(env, contact, deliver, events)).len() <= 1,
        forall|i: int|
            0 <= i < spec_answers(spec_handled(env, contact, deliver, events)).len()
                ==> #[trigger] spec_answers(spec_handled(env, contact, deliver, events))[i]
                == BAD_REQUEST,
        events.len() > 0 && events[0] == Event::Submitted ==> spec_answers(
            spec_handled(env, contact, deliver, events),
        ) == seq![BAD_REQUEST],
{
    let composed = spec_compose_error(env, contact) is None;
    lemma_handling(events, false, composed, deliver);
    lemma_submitted_leaves_received(events, false, composed, deliver);
    let answers = spec_answers(spec_handled(env, contact, deliver, events));
    if events.len() > 0 && events[0] == Event::Submitted {
        assert(answers =~= seq![BAD_REQUEST]);
    }
}

/// Whatever happens outside, a request is answered at most once, at most one
/// row is written for it and at most one mail is sent. A request that is
/// answered with success gave the secret, had exactly one row written, which
/// the store took, and had one mail sent where mail is delivered and none
/// where it is not.
pub proof fn lemma_one_row_one_mail(env: Env, contact: ContactMe, deliver: bool, events: Seq<Event>)
    ensures
        spec_answers(spec_handled(env, contact, deliver, events)).len() <= 1,
        spec_count(spec_handled(env, contact, deliver, events), Decision::Insert) <= 1,
        spec_count(spec_handled(env, contact, deliver, events), Decision::Send) <= 1,
        spec_answers(spec_handled(env, contact, deliver, events)) == seq![OK] ==> {
            &&& spec_authorized(env, contact)
            &&& events.contains(Event::Inserted)
            &&& spec_count(spec_handled(env, contact, deliver, events), Decision::Insert) == 1
            &&& spec_count(spec_handled(env, contact, deliver, events), Decision::Send)
                == if deliver {
                1nat
            } else {
                0nat
            }
        },
{
    let authorized = spec_authorized(env, contact);
    let composed = spec_compose_error(env, contact) is None;
    lemma_handling(events, authorized, composed, deliver);
    let answers = spec_answers(spec_handled(env, contact, deliver, events));
    if answers == seq![OK] {
        assert(answers.len() == 1);
        assert(answers[0] == OK);
    }
}

} // verus!
