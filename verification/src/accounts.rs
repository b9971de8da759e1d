//! Opening a bank account: validation first, then the check that the
//! owner exists, then the insert.
//!
//! Like the transaction engine this is a state machine: the caller carries
//! out each [`OpeningAction`] against the store and reports back with an
//! [`OpeningSignal`].

use vstd::prelude::*;
use crate::error::{ErrorKind, LedgerError};
use crate::identity::{fresh_uuid, is_random_uuid, now_rfc3339, parse_uuid, uuid_parsed};
use crate::models::bank_account::{AccountType, BankAccount, BankAccountView};
use crate::validator::parse_account_kind;

verus! {

/// A request to open an account, as it arrives.
#[derive(Debug)]
pub struct OpenAccountRequest {
    pub user_id: String,
    pub name: String,
    pub account_type: String,
    pub initial_balance: i64,
}

pub struct OpenAccountRequestView {
    pub user_id: Seq<char>,
    pub name: Seq<char>,
    pub account_type: Seq<char>,
    pub initial_balance: int,
}

impl View for OpenAccountRequest {
    type V = OpenAccountRequestView;

    open spec fn view(&self) -> OpenAccountRequestView {
        OpenAccountRequestView {
            user_id: self.user_id@,
            name: self.name@,
            account_type: self.account_type@,
            initial_balance: self.initial_balance as int,
        }
    }
}

/// A request to open an account that has passed validation.
#[derive(Debug)]
pub struct Application {
    pub owner: u128,
    pub name: String,
    pub kind: AccountType,
    pub balance: i64,
}

pub struct ApplicationView {
    pub owner: u128,
    pub name: Seq<char>,
    pub kind: AccountType,
    pub balance: int,
}

impl View for Application {
    type V = ApplicationView;

    open spec fn view(&self) -> ApplicationView {
        ApplicationView {
            owner: self.owner,
            name: self.name@,
            kind: self.kind,
            balance: self.balance as int,
        }
    }
}

/// What the store answered when asked whether a record exists.
#[derive(Debug, Clone, Copy, PartialEq, Eq, Structural)]
pub enum Presence {
    Found,
    Missing,
    Unavailable,
}

/// How an insert ended.
#[derive(Debug, Clone, Copy, PartialEq, Eq, Structural)]
pub enum InsertOutcome {
    Inserted,
    DuplicateId,
    Failed,
}

/// What the caller reports.
#[derive(Debug, Clone, Copy, PartialEq, Eq, Structural)]
pub enum OpeningSignal {
    Start,
    OwnerChecked(Presence),
    Stored(InsertOutcome),
}

/// A signal together with what the machine itself adds to it: the owner's
/// identifier as read from the request, and the identifier and creation
/// time of the account to be.
#[derive(Debug)]
pub enum OpeningEvent {
    Start { owner: Option<u128> },
    OwnerChecked { presence: Presence, id: u128, created_at: String },
    Stored(InsertOutcome),
}

pub enum OpeningEventView {
    Start { owner: Option<u128> },
    OwnerChecked { presence: Presence, id: u128, created_at: Seq<char> },
    Stored(InsertOutcome),
}

impl View for OpeningEvent {
    type V = OpeningEventView;

    open spec fn view(&self) -> OpeningEventView {
        match self {
            OpeningEvent::Start { owner } => OpeningEventView::Start { owner: *owner },
            OpeningEvent::OwnerChecked { presence, id, created_at } => OpeningEventView::OwnerChecked {
                presence: *presence,
                id: *id,
                created_at: created_at@,
            },
            OpeningEvent::Stored(outcome) => OpeningEventView::Stored(*outcome),
        }
    }
}

/// What the caller is to do next against the store.
#[derive(Debug)]
pub enum OpeningAction {
    /// Ask whether the user exists.
    FindUser { user: u128 },
    /// Insert the account.
    Insert { account: BankAccount },
    /// Nothing touches the store.
    Nothing,
}

pub enum OpeningActionView {
    FindUser { user: u128 },
    Insert { account: BankAccountView },
    Nothing,
}

impl View for OpeningAction {
    type V = OpeningActionView;

    open spec fn view(&self) -> OpeningActionView {
        match self {
            OpeningAction::FindUser { user } => OpeningActionView::FindUser { user: *user },
            OpeningAction::Insert { account } => OpeningActionView::Insert { account: account@ },
            OpeningAction::Nothing => OpeningActionView::Nothing,
        }
    }
}

/// Where a request to open an account stands. `Opened` and `Aborted` are
/// final.
#[derive(Debug)]
pub enum Opening {
    Received(OpenAccountRequest),
    Validated(Application),
    Creating { account: u128 },
    Opened { account: u128 },
    Aborted(LedgerError),
}

pub enum OpeningView {
    Received(OpenAccountRequestView),
    Validated(ApplicationView),
    Creating { account: u128 },
    Opened { account: u128 },
    Aborted(LedgerError),
}

impl View for Opening {
    type V = OpeningView;

    open spec fn view(&self) -> OpeningView {
        match self {
            Opening::Received(request) => OpeningView::Received(request@),
            Opening::Validated(application) => OpeningView::Validated(application@),
            Opening::Creating { account } => OpeningView::Creating { account: *account },
            Opening::Opened { account } => OpeningView::Opened { account: *account },
            Opening::Aborted(error) => OpeningView::Aborted(*error),
        }
    }
}

/// Validation: the kind must be the name of an account kind, the opening
/// balance must not be negative and the owner's identifier must be well
/// formed, checked in this order.
pub open spec fn validated_opening(request: OpenAccountRequestView, owner: Option<u128>) -> Result<
    ApplicationView,
    LedgerError,
> {
    match AccountType::named(request.account_type) {
        None => Err(LedgerError::InvalidAccountKind),
        Some(kind) => if request.initial_balance < 0 {
            Err(LedgerError::NegativeOpeningBalance)
        } else {
            match owner {
                None => Err(LedgerError::MalformedUserId),
                Some(user) => Ok(
                    ApplicationView {
                        owner: user,
                        name: request.name,
                        kind,
                        balance: request.initial_balance,
                    },
                ),
            }
        },
    }
}

/// The machine's rule: the state and the action that follow a state and an
/// event. An event that the state does not wait for changes nothing.
pub open spec fn opening_transition(state: OpeningView, event: OpeningEventView) -> (
    OpeningView,
    OpeningActionView,
) {
    match state {
        OpeningView::Received(request) => match event {
            OpeningEventView::Start { owner } => match validated_opening(request, owner) {
                Ok(application) => (
                    OpeningView::Validated(application),
                    OpeningActionView::FindUser { user: application.owner },
                ),
                Err(error) => (OpeningView::Aborted(error), OpeningActionView::Nothing),
            },
            _ => (state, OpeningActionView::Nothing),
        },
        OpeningView::Validated(application) => match event {
            OpeningEventView::OwnerChecked { presence, id, created_at } => match presence {
                Presence::Found => if application.balance < 0 {
                    (
                        OpeningView::Aborted(LedgerError::NegativeOpeningBalance),
                        OpeningActionView::Nothing,
                    )
                } else {
                    (
                        OpeningView::Creating { account: id },
                        OpeningActionView::Insert {
                            account: BankAccountView {
                                id,
                                name: application.name,
                                balance: application.balance,
                                account_type: application.kind,
                                user_id: application.owner,
                                created_at,
                            },
                        },
                    )
                },
                Presence::Missing => (
                    OpeningView::Aborted(LedgerError::UserNotFound),
                    OpeningActionView::Nothing,
                ),
                Presence::Unavailable => (
                    OpeningView::Aborted(LedgerError::Persistence),
                    OpeningActionView::Nothing,
                ),
            },
            _ => (state, OpeningActionView::Nothing),
        },
        OpeningView::Creating { account } => match event {
            OpeningEventView::Stored(outcome) => match outcome {
                InsertOutcome::Inserted => (OpeningView::Opened { account }, OpeningActionView::Nothing),
                _ => (OpeningView::Aborted(LedgerError::Persistence), OpeningActionView::Nothing),
            },
            _ => (state, OpeningActionView::Nothing),
        },
        _ => (state, OpeningActionView::Nothing),
    }
}

/// What the machine adds to a signal, whatever the random source and the
/// clock gave: to `Start`, the owner's identifier as `uuid` reads it from
/// the request; to `OwnerChecked`, where the owner of a valid application
/// was found, a random UUID and some creation time.
pub open spec fn opening_informs(
    state: OpeningView,
    signal: OpeningSignal,
    event: OpeningEventView,
) -> bool {
    match signal {
        OpeningSignal::Start => match event {
            OpeningEventView::Start { owner } => match state {
                OpeningView::Received(request) => owner == uuid_parsed(request.user_id),
                _ => owner is None,
            },
            _ => false,
        },
        OpeningSignal::OwnerChecked(presence) => match event {
            OpeningEventView::OwnerChecked { presence: seen, id, created_at } => seen == presence
                && (state is Validated && presence == Presence::Found ==> is_random_uuid(id)),
            _ => false,
        },
        OpeningSignal::Stored(outcome) => event == OpeningEventView::Stored(outcome),
    }
}

/// Validates a request whose owner identifier has been read already:
/// `owner` is `None` where it was malformed.
pub fn validate_opening(request: OpenAccountRequest, owner: Option<u128>) -> (r: Result<
    Application,
    LedgerError,
>)
    ensures
        match validated_opening(request@, owner) {
            Ok(application) => r is Ok && r->Ok_0@ == application,
            Err(error) => r == Err::<Application, LedgerError>(error),
        },
{
    let kind = parse_account_kind(request.account_type.as_str())?;
    if request.initial_balance < 0 {
        return Err(LedgerError::NegativeOpeningBalance);
    }
    match owner {
        None => Err(LedgerError::MalformedUserId),
        Some(user) => Ok(
            Application { owner: user, name: request.name, kind, balance: request.initial_balance },
        ),
    }
}

impl Opening {
    /// Takes in a request.
    pub fn receive(request: OpenAccountRequest) -> (state: Opening)
        ensures
            state@ == OpeningView::Received(request@),
    {
        Opening::Received(request)
    }

    /// Whether the request has reached its end.
    pub fn is_final(&self) -> (r: bool)
        ensures
            r == (self@ is Opened || self@ is Aborted),
    {
        match self {
            Opening::Opened { .. } => true,
            Opening::Aborted(_) => true,
            _ => false,
        }
    }
}

/// One move of the machine, on an event that carries all that the move
/// depends on.
pub fn advance_opening(state: Opening, event: OpeningEvent) -> (r: (Opening, OpeningAction))
    ensures
        (r.0@, r.1@) == opening_transition(state@, event@),
{
    match state {
        Opening::Received(request) => match event {
            OpeningEvent::Start { owner } => match validate_opening(request, owner) {
                Ok(application) => {
                    let user: u128 = application.owner;
                    (Opening::Validated(application), OpeningAction::FindUser { user })
                },
                Err(error) => (Opening::Aborted(error), OpeningAction::Nothing),
            },
            _ => (Opening::Received(request), OpeningAction::Nothing),
        },
        Opening::Validated(application) => match event {
            OpeningEvent::OwnerChecked { presence, id, created_at } => match presence {
                Presence::Found => if application.balance < 0 {
                    (Opening::Aborted(LedgerError::NegativeOpeningBalance), OpeningAction::Nothing)
                } else {
                    let opened = BankAccount::opened(
                        id,
                        created_at,
                        application.name,
                        application.balance,
                        application.kind,
                        Some(application.owner),
                    );
                    match opened {
                        Ok(account) => (
                            Opening::Creating { account: id },
                            OpeningAction::Insert { account },
                        ),
                        Err(_) => (
                            Opening::Aborted(LedgerError::MalformedUserId),
                            OpeningAction::Nothing,
                        ),
                    }
                },
                Presence::Missing => (
                    Opening::Aborted(LedgerError::UserNotFound),
                    OpeningAction::Nothing,
                ),
                Presence::Unavailable => (
                    Opening::Aborted(LedgerError::Persistence),
                    OpeningAction::Nothing,
                ),
            },
            _ => (Opening::Validated(application), OpeningAction::Nothing),
        },
        Opening::Creating { account } => match event {
            OpeningEvent::Stored(outcome) => match outcome {
                InsertOutcome::Inserted => (Opening::Opened { account }, OpeningAction::Nothing),
                _ => (Opening::Aborted(LedgerError::Persistence), OpeningAction::Nothing),
            },
            _ => (Opening::Creating { account }, OpeningAction::Nothing),
        },
        Opening::Opened { account } => (Opening::Opened { account }, OpeningAction::Nothing),
        Opening::Aborted(error) => (Opening::Aborted(error), OpeningAction::Nothing),
    }
}

/// One move of the machine on a signal from the caller. The machine reads
/// the owner's identifier and draws the account's identifier and creation
/// time itself; the move is the one that `opening_transition` gives for
/// the signal so completed.
pub fn step_opening(state: Opening, signal: OpeningSignal) -> (r: (Opening, OpeningAction))
    ensures
        exists|event: OpeningEventView| #[trigger]
            opening_informs(state@, signal, event) && (r.0@, r.1@) == opening_transition(
                state@,
                event,
            ),
{
    let event = match signal {
        OpeningSignal::Start => {
            let owner: Option<u128> = match &state {
                Opening::Received(request) => parse_uuid(request.user_id.as_str()),
                _ => None,
            };
            OpeningEvent::Start { owner }
        },
        OpeningSignal::OwnerChecked(presence) => match (&state, presence) {
            (Opening::Validated(_), Presence::Found) => {
                let id: u128 = fresh_uuid();
                let created_at: String = now_rfc3339();
                OpeningEvent::OwnerChecked { presence, id, created_at }
            },
            _ => OpeningEvent::OwnerChecked { presence, id: 0, created_at: String::new() },
        },
        OpeningSignal::Stored(outcome) => OpeningEvent::Stored(outcome),
    };
    assert(opening_informs(state@, signal, event@));
    advance_opening(state, event)
}

/// A request that fails validation asks nothing of the store: it ends at
/// once, as an invalid argument, and no action follows.
pub proof fn law_invalid_opening_touches_nothing(
    request: OpenAccountRequestView,
    owner: Option<u128>,
)
    requires
        validated_opening(request, owner) is Err,
    ensures
        opening_transition(OpeningView::Received(request), OpeningEventView::Start { owner }) == (
            OpeningView::Aborted(validated_opening(request, owner)->Err_0),
            OpeningActionView::Nothing,
        ),
        validated_opening(request, owner)->Err_0.kind_of() == ErrorKind::InvalidArgument,
{
}

/// The machine inserts only for an owner that the store has found, and the
/// account it inserts opens with the balance asked for, which is not
/// negative.
pub proof fn law_insert_follows_the_owner_check(state: OpeningView, event: OpeningEventView)
    requires
        opening_transition(state, event).1 is Insert,
    ensures
        state is Validated,
        event is OwnerChecked,
        event->presence == Presence::Found,
        opening_transition(state, event).0 == (OpeningView::Creating { account: event->id }),
        opening_transition(state, event).1->account.id == event->id,
        opening_transition(state, event).1->account.user_id == state->Validated_0.owner,
        opening_transition(state, event).1->account.balance == state->Validated_0.balance,
        opening_transition(state, event).1->account.balance >= 0,
{
}

} // verus!
