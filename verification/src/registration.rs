//! Registering a user: the check that the email is free, the hashing of
//! the credential, then the insert.
//!
//! A state machine like the others: the caller carries out each
//! [`RegistrationAction`] and reports back with a [`RegistrationSignal`].

use vstd::prelude::*;
use crate::accounts::{InsertOutcome, Presence};
use crate::credential::{argon2_digest, is_salted_hash};
use crate::error::LedgerError;
use crate::identity::{fresh_id, is_fresh_id, now_rfc3339};
use crate::models::transaction::text_of;
use crate::models::user::{User, UserView};

verus! {

/// A request to register, as it arrives.
#[derive(Debug)]
pub struct RegistrationRequest {
    pub name: String,
    pub email: String,
    pub password: String,
}

pub struct RegistrationRequestView {
    pub name: Seq<char>,
    pub email: Seq<char>,
    pub password: Seq<char>,
}

impl View for RegistrationRequest {
    type V = RegistrationRequestView;

    open spec fn view(&self) -> RegistrationRequestView {
        RegistrationRequestView { name: self.name@, email: self.email@, password: self.password@ }
    }
}

/// What the caller reports.
#[derive(Debug, Clone, Copy, PartialEq, Eq, Structural)]
pub enum RegistrationSignal {
    Start,
    /// Whether a user with the request's email exists.
    EmailChecked(Presence),
    Stored(InsertOutcome),
}

/// A signal together with what the machine itself adds to it: the user's
/// identifier and creation time, and the hash of the credential (`None`
/// where hashing failed or was not tried).
#[derive(Debug)]
pub enum RegistrationEvent {
    Start,
    EmailChecked { presence: Presence, id: String, created_at: String, digest: Option<String> },
    Stored(InsertOutcome),
}

pub enum RegistrationEventView {
    Start,
    EmailChecked {
        presence: Presence,
        id: Seq<char>,
        created_at: Seq<char>,
        digest: Option<Seq<char>>,
    },
    Stored(InsertOutcome),
}

impl View for RegistrationEvent {
    type V = RegistrationEventView;

    open spec fn view(&self) -> RegistrationEventView {
        match self {
            RegistrationEvent::Start => RegistrationEventView::Start,
            RegistrationEvent::EmailChecked {
                presence,
                id,
                created_at,
                digest,
            } => RegistrationEventView::EmailChecked {
                presence: *presence,
                id: id@,
                created_at: created_at@,
                digest: text_of(*digest),
            },
            RegistrationEvent::Stored(outcome) => RegistrationEventView::Stored(*outcome),
        }
    }
}

/// What the caller is to do next against the store.
#[derive(Debug)]
pub enum RegistrationAction {
    /// Ask whether a user with this email exists.
    FindEmail { email: String },
    /// Insert the user.
    Insert { user: User },
    /// Nothing touches the store.
    Nothing,
}

pub enum RegistrationActionView {
    FindEmail { email: Seq<char> },
    Insert { user: UserView },
    Nothing,
}

impl View for RegistrationAction {
    type V = RegistrationActionView;

    open spec fn view(&self) -> RegistrationActionView {
        match self {
            RegistrationAction::FindEmail { email } => RegistrationActionView::FindEmail {
                email: email@,
            },
            RegistrationAction::Insert { user } => RegistrationActionView::Insert { user: user@ },
            RegistrationAction::Nothing => RegistrationActionView::Nothing,
        }
    }
}

/// Where a registration stands. `Registered` and `Aborted` are final.
#[derive(Debug)]
pub enum Registration {
    Received(RegistrationRequest),
    Checking(RegistrationRequest),
    Storing { user_id: String },
    Registered { user_id: String },
    Aborted(LedgerError),
}

pub enum RegistrationView {
    Received(RegistrationRequestView),
    Checking(RegistrationRequestView),
    Storing { user_id: Seq<char> },
    Registered { user_id: Seq<char> },
    Aborted(LedgerError),
}

impl View for Registration {
    type V = RegistrationView;

    open spec fn view(&self) -> RegistrationView {
        match self {
            Registration::Received(request) => RegistrationView::Received(request@),
            Registration::Checking(request) => RegistrationView::Checking(request@),
            Registration::Storing { user_id } => RegistrationView::Storing { user_id: user_id@ },
            Registration::Registered { user_id } => RegistrationView::Registered {
                user_id: user_id@,
            },
            Registration::Aborted(error) => RegistrationView::Aborted(*error),
        }
    }
}

/// The machine's rule: the state and the action that follow a state and an
/// event. An email that is taken is refused; a credential that could not
/// be hashed ends the registration; an event that the state does not wait
/// for changes nothing.
pub open spec fn registration_transition(state: RegistrationView, event: RegistrationEventView) -> (
    RegistrationView,
    RegistrationActionView,
) {
    match state {
        RegistrationView::Received(request) => match event {
            RegistrationEventView::Start => (
                RegistrationView::Checking(request),
                RegistrationActionView::FindEmail { email: request.email },
            ),
            _ => (state, RegistrationActionView::Nothing),
        },
        RegistrationView::Checking(request) => match event {
            RegistrationEventView::EmailChecked {
                presence,
                id,
                created_at,
                digest,
            } => match presence {
                Presence::Found => (
                    RegistrationView::Aborted(LedgerError::EmailAlreadyInUse),
                    RegistrationActionView::Nothing,
                ),
                Presence::Unavailable => (
                    RegistrationView::Aborted(LedgerError::Persistence),
                    RegistrationActionView::Nothing,
                ),
                Presence::Missing => match digest {
                    None => (
                        RegistrationView::Aborted(LedgerError::CredentialHashing),
                        RegistrationActionView::Nothing,
                    ),
                    Some(hash) => (
                        RegistrationView::Storing { user_id: id },
                        RegistrationActionView::Insert {
                            user: UserView {
                                id,
                                name: request.name,
                                email: request.email,
                                password: hash,
                                created_at,
                            },
                        },
                    ),
                },
            },
            _ => (state, RegistrationActionView::Nothing),
        },
        RegistrationView::Storing { user_id } => match event {
            RegistrationEventView::Stored(outcome) => match outcome {
                InsertOutcome::Inserted => (
                    RegistrationView::Registered { user_id },
                    RegistrationActionView::Nothing,
                ),
                _ => (
                    RegistrationView::Aborted(LedgerError::Persistence),
                    RegistrationActionView::Nothing,
                ),
            },
            _ => (state, RegistrationActionView::Nothing),
        },
        _ => (state, RegistrationActionView::Nothing),
    }
}

/// What the machine adds to a signal, whatever the random source and the
/// clock gave: to `EmailChecked`, where the email of a waiting request is
/// free, the hyphenated form of a random UUID, some creation time and the
/// Argon2 hash of the request's credential under some salt (`None` where
/// hashing failed).
pub open spec fn registration_informs(
    state: RegistrationView,
    signal: RegistrationSignal,
    event: RegistrationEventView,
) -> bool {
    match signal {
        RegistrationSignal::Start => event == RegistrationEventView::Start,
        RegistrationSignal::EmailChecked(presence) => match event {
            RegistrationEventView::EmailChecked {
                presence: seen,
                id,
                created_at,
                digest,
            } => seen == presence && (state is Checking && presence == Presence::Missing
                ==> is_fresh_id(id) && is_salted_hash(state->Checking_0.password, digest)),
            _ => false,
        },
        RegistrationSignal::Stored(outcome) => event == RegistrationEventView::Stored(outcome),
    }
}

impl Registration {
    /// Takes in a request.
    pub fn receive(request: RegistrationRequest) -> (state: Registration)
        ensures
            state@ == RegistrationView::Received(request@),
    {
        Registration::Received(request)
    }

    /// Whether the registration has reached its end.
    pub fn is_final(&self) -> (r: bool)
        ensures
            r == (self@ is Registered || self@ is Aborted),
    {
        match self {
            Registration::Registered { .. } => true,
            Registration::Aborted(_) => true,
            _ => false,
        }
    }
}

/// One move of the machine, on an event that carries all that the move
/// depends on.
pub fn advance_registration(state: Registration, event: RegistrationEvent) -> (r: (
    Registration,
    RegistrationAction,
))
    ensures
        (r.0@, r.1@) == registration_transition(state@, event@),
{
    match state {
        Registration::Received(request) => match event {
            RegistrationEvent::Start => {
                let email: String = request.email.clone();
                (Registration::Checking(request), RegistrationAction::FindEmail { email })
            },
            _ => (Registration::Received(request), RegistrationAction::Nothing),
        },
        Registration::Checking(request) => match event {
            RegistrationEvent::EmailChecked { presence, id, created_at, digest } => match presence {
                Presence::Found => (
                    Registration::Aborted(LedgerError::EmailAlreadyInUse),
                    RegistrationAction::Nothing,
                ),
                Presence::Unavailable => (
                    Registration::Aborted(LedgerError::Persistence),
                    RegistrationAction::Nothing,
                ),
                Presence::Missing => {
                    let user_id: String = id.clone();
                    match User::enrolled(id, created_at, request.name, request.email, digest) {
                        Ok(user) => (
                            Registration::Storing { user_id },
                            RegistrationAction::Insert { user },
                        ),
                        Err(_) => (
                            Registration::Aborted(LedgerError::CredentialHashing),
                            RegistrationAction::Nothing,
                        ),
                    }
                },
            },
            _ => (Registration::Checking(request), RegistrationAction::Nothing),
        },
        Registration::Storing { user_id } => match event {
            RegistrationEvent::Stored(outcome) => match outcome {
                InsertOutcome::Inserted => (
                    Registration::Registered { user_id },
                    RegistrationAction::Nothing,
                ),
                _ => (Registration::Aborted(LedgerError::Persistence), RegistrationAction::Nothing),
            },
            _ => (Registration::Storing { user_id }, RegistrationAction::Nothing),
        },
        Registration::Registered { user_id } => (
            Registration::Registered { user_id },
            RegistrationAction::Nothing,
        ),
        Registration::Aborted(error) => (Registration::Aborted(error), RegistrationAction::Nothing),
    }
}

/// One move of the machine on a signal from the caller. The machine draws
/// the user's identifier and creation time itself, and hashes the
/// credential once the email is known to be free; the move is the one that
/// `registration_transition` gives for the signal so completed.
pub fn step_registration(state: Registration, signal: RegistrationSignal) -> (r: (
    Registration,
    RegistrationAction,
))
    ensures
        exists|event: RegistrationEventView| #[trigger]
            registration_informs(state@, signal, event) && (r.0@, r.1@) == registration_transition(
                state@,
                event,
            ),
{
    let event = match signal {
        RegistrationSignal::Start => RegistrationEvent::Start,
        RegistrationSignal::EmailChecked(presence) => match (&state, presence) {
            (Registration::Checking(request), Presence::Missing) => {
                let id: String = fresh_id();
                let created_at: String = now_rfc3339();
                let digest: Option<String> = argon2_digest(request.password.as_str());
                RegistrationEvent::EmailChecked { presence, id, created_at, digest }
            },
            _ => RegistrationEvent::EmailChecked {
                presence,
                id: String::new(),
                created_at: String::new(),
                digest: None,
            },
        },
        RegistrationSignal::Stored(outcome) => RegistrationEvent::Stored(outcome),
    };
    assert(registration_informs(state@, signal, event@));
    advance_registration(state, event)
}

} // verus!
