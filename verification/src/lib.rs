//! Verified core of a small personal backend: a contact form that checks a
//! shared secret, stores the message and relays it by mail, and a job that
//! flattens repository data fetched from a remote GraphQL API into rows of a
//! relational store.

use vstd::prelude::*;

pub mod contact;
pub mod email;
pub mod github;
pub mod server;

verus! {

/// The configuration of the process, read once at startup.
#[derive(Debug, Clone)]
pub struct Env {
    /// The login whose data the synchronisation job fetches.
    pub login: String,
    /// The bearer token for the remote API.
    pub token: String,
    /// The shared secret of the contact form.
    pub whoami: String,
    /// The address that mail is sent from.
    pub contact_email: String,
    /// The owner's address, which mail is sent to.
    pub email: String,
    /// The SMTP relay.
    pub relay: String,
    pub smtp_user: String,
    pub smtp_pass: String,
    pub database_url: String,
}

} // verus!
