//! The ledger transaction engine: one request to move money, taken through
//! validation, the locked read of the account, the computation of the new
//! balance and the atomic write.
//!
//! The engine does no storage work itself. It is a state machine with the
//! states `Received`, `Validated`, `AccountLocked`, `Computed`, and the
//! final states `Persisted` and `Aborted`: the caller performs each
//! [`Action`] against the store, inside one unit of work, and reports what
//! happened as a [`Signal`].

use vstd::prelude::*;
use crate::error::{ErrorKind, LedgerError};
use crate::identity::{fresh_id, is_fresh_id, now_rfc3339, parse_uuid, uuid_parsed};
use crate::models::bank_account::{BankAccount, BankAccountView};
use crate::models::transaction::{text_of, Transaction, TransactionType, TransactionView};
use crate::validator::{check_amount, check_sufficiency, parse_transaction_kind, settled_balance};

verus! {

/// A request to execute a transaction, as it arrives.
#[derive(Debug)]
pub struct TransactionRequest {
    pub account_id: String,
    pub transaction_type: i32,
    pub amount: i64,
    pub description: Option<String>,
}

pub struct TransactionRequestView {
    pub account_id: Seq<char>,
    pub transaction_type: int,
    pub amount: int,
    pub description: Option<Seq<char>>,
}

impl View for TransactionRequest {
    type V = TransactionRequestView;

    open spec fn view(&self) -> TransactionRequestView {
        TransactionRequestView {
            account_id: self.account_id@,
            transaction_type: self.transaction_type as int,
            amount: self.amount as int,
            description: text_of(self.description),
        }
    }
}

/// A request that has passed validation.
#[derive(Debug)]
pub struct Order {
    pub account: u128,
    pub account_id: String,
    pub kind: TransactionType,
    pub amount: i64,
    pub description: Option<String>,
}

pub struct OrderView {
    pub account: u128,
    pub account_id: Seq<char>,
    pub kind: TransactionType,
    pub amount: int,
    pub description: Option<Seq<char>>,
}

impl View for Order {
    type V = OrderView;

    open spec fn view(&self) -> OrderView {
        OrderView {
            account: self.account,
            account_id: self.account_id@,
            kind: self.kind,
            amount: self.amount as int,
            description: text_of(self.description),
        }
    }
}

/// What the store answered to a locked read of an account.
#[derive(Debug)]
pub enum Lookup {
    Found(BankAccount),
    Missing,
    Unavailable,
}

pub enum LookupView {
    Found(BankAccountView),
    Missing,
    Unavailable,
}

impl View for Lookup {
    type V = LookupView;

    open spec fn view(&self) -> LookupView {
        match self {
            Lookup::Found(account) => LookupView::Found(account@),
            Lookup::Missing => LookupView::Missing,
            Lookup::Unavailable => LookupView::Unavailable,
        }
    }
}

/// How the unit of work ended.
#[derive(Debug, Clone, Copy, PartialEq, Eq, Structural)]
pub enum WriteOutcome {
    Committed,
    Conflict,
    Failed,
}

impl WriteOutcome {
    /// How a unit of work ended, from what the store reported: the rows
    /// that the journal gained, the rows whose balance was written (each
    /// `None` where the statement failed), and whether the commit went
    /// through. Exactly one row each, committed, is a success; a balance
    /// written to no row or to several is a conflict.
    pub open spec fn classified(appended: Option<u64>, updated: Option<u64>, committed: bool) -> WriteOutcome {
        if appended != Some(1u64) || updated is None {
            WriteOutcome::Failed
        } else if updated != Some(1u64) {
            WriteOutcome::Conflict
        } else if committed {
            WriteOutcome::Committed
        } else {
            WriteOutcome::Failed
        }
    }

    pub fn classify(appended: Option<u64>, updated: Option<u64>, committed: bool) -> (r: WriteOutcome)
        ensures
            r == Self::classified(appended, updated, committed),
    {
        match (appended, updated) {
            (Some(1), Some(1)) => if committed {
                WriteOutcome::Committed
            } else {
                WriteOutcome::Failed
            },
            (Some(1), Some(_)) => WriteOutcome::Conflict,
            _ => WriteOutcome::Failed,
        }
    }
}

/// What the caller reports to the engine.
#[derive(Debug)]
pub enum Signal {
    /// The request is to be taken up.
    Start,
    /// The store has answered the locked read.
    Fetched(Lookup),
    /// Nothing was asked of the store; the engine may go on.
    Proceed,
    /// The unit of work has ended.
    Settled(WriteOutcome),
}

pub enum SignalView {
    Start,
    Fetched(LookupView),
    Proceed,
    Settled(WriteOutcome),
}

impl View for Signal {
    type V = SignalView;

    open spec fn view(&self) -> SignalView {
        match self {
            Signal::Start => SignalView::Start,
            Signal::Fetched(lookup) => SignalView::Fetched(lookup@),
            Signal::Proceed => SignalView::Proceed,
            Signal::Settled(outcome) => SignalView::Settled(*outcome),
        }
    }
}

/// A signal together with what the engine itself adds to it: the account
/// identifier as read from the request, and the identifier and creation
/// time of the transaction to be journalled.
#[derive(Debug)]
pub enum Event {
    Start { account: Option<u128> },
    Fetched(Lookup),
    Proceed { id: String, created_at: String },
    Settled(WriteOutcome),
}

pub enum EventView {
    Start { account: Option<u128> },
    Fetched(LookupView),
    Proceed { id: Seq<char>, created_at: Seq<char> },
    Settled(WriteOutcome),
}

impl View for Event {
    type V = EventView;

    open spec fn view(&self) -> EventView {
        match self {
            Event::Start { account } => EventView::Start { account: *account },
            Event::Fetched(lookup) => EventView::Fetched(lookup@),
            Event::Proceed { id, created_at } => EventView::Proceed {
                id: id@,
                created_at: created_at@,
            },
            Event::Settled(outcome) => EventView::Settled(*outcome),
        }
    }
}

/// What the caller is to do next against the store.
#[derive(Debug)]
pub enum Action {
    /// Read the account and hold it for the rest of the unit of work.
    FetchForUpdate { account: u128 },
    /// Append the transaction to the journal and write the new balance,
    /// both or neither, then commit.
    Persist { transaction: Transaction, account: u128, new_balance: i64 },
    /// Roll back: release the hold without writing.
    Release,
    /// Nothing is asked of the store: report `Proceed`.
    Continue,
    /// Nothing touches the store, and the engine waits for nothing.
    Nothing,
}

pub enum ActionView {
    FetchForUpdate { account: u128 },
    Persist { transaction: TransactionView, account: u128, new_balance: int },
    Release,
    Continue,
    Nothing,
}

impl View for Action {
    type V = ActionView;

    open spec fn view(&self) -> ActionView {
        match self {
            Action::FetchForUpdate { account } => ActionView::FetchForUpdate { account: *account },
            Action::Persist { transaction, account, new_balance } => ActionView::Persist {
                transaction: transaction@,
                account: *account,
                new_balance: *new_balance as int,
            },
            Action::Release => ActionView::Release,
            Action::Continue => ActionView::Continue,
            Action::Nothing => ActionView::Nothing,
        }
    }
}

/// Where a request stands. `Persisted` and `Aborted` are final. The
/// account is held from the moment it was found until the `Persist` or
/// `Release` that follows is done.
#[derive(Debug)]
pub enum Execution {
    /// Taken in, not yet looked at.
    Received(TransactionRequest),
    /// Valid; waits for the locked read of its account.
    Validated(Order),
    /// The account is held and was read with this balance.
    AccountLocked { order: Order, balance: i64 },
    /// The transaction and the new balance are on their way to the store.
    Computed { transaction_id: String, account: u128 },
    /// Committed.
    Persisted { transaction_id: String },
    /// Ended without a change to the store.
    Aborted(LedgerError),
}

pub enum ExecutionView {
    Received(TransactionRequestView),
    Validated(OrderView),
    AccountLocked { order: OrderView, balance: int },
    Computed { transaction_id: Seq<char>, account: u128 },
    Persisted { transaction_id: Seq<char> },
    Aborted(LedgerError),
}

impl View for Execution {
    type V = ExecutionView;

    open spec fn view(&self) -> ExecutionView {
        match self {
            Execution::Received(request) => ExecutionView::Received(request@),
            Execution::Validated(order) => ExecutionView::Validated(order@),
            Execution::AccountLocked { order, balance } => ExecutionView::AccountLocked {
                order: order@,
                balance: *balance as int,
            },
            Execution::Computed { transaction_id, account } => ExecutionView::Computed {
                transaction_id: transaction_id@,
                account: *account,
            },
            Execution::Persisted { transaction_id } => ExecutionView::Persisted {
                transaction_id: transaction_id@,
            },
            Execution::Aborted(error) => ExecutionView::Aborted(*error),
        }
    }
}

/// Validation: the kind must be a known code, the amount greater than zero
/// and the account identifier well formed, checked in this order.
pub open spec fn validated(request: TransactionRequestView, account: Option<u128>) -> Result<
    OrderView,
    LedgerError,
> {
    match TransactionType::from_code(request.transaction_type) {
        None => Err(LedgerError::InvalidTransactionKind),
        Some(kind) => if request.amount <= 0 {
            Err(LedgerError::NonPositiveAmount)
        } else {
            match account {
                None => Err(LedgerError::MalformedAccountId),
                Some(id) => Ok(
                    OrderView {
                        account: id,
                        account_id: request.account_id,
                        kind,
                        amount: request.amount,
                        description: request.description,
                    },
                ),
            }
        },
    }
}

/// The account that an order holds once the store has answered the locked
/// read: the account asked for and no other. An account that is missing is
/// reported as such; a read that failed, or that brought another account,
/// is a failure of the store.
pub open spec fn locked(order: OrderView, lookup: LookupView) -> Result<BankAccountView, LedgerError> {
    match lookup {
        LookupView::Found(account) => if account.id != order.account {
            Err(LedgerError::Persistence)
        } else {
            Ok(account)
        },
        LookupView::Missing => Err(LedgerError::AccountNotFound),
        LookupView::Unavailable => Err(LedgerError::Persistence),
    }
}

/// The transaction to journal and the balance to write for an order
/// against the balance as it was read. A withdrawal beyond the balance is
/// refused, and so is a deposit that the balance cannot hold, and an order
/// whose amount is not greater than zero.
pub open spec fn computed(
    order: OrderView,
    balance: int,
    id: Seq<char>,
    created_at: Seq<char>,
) -> Result<(TransactionView, int), LedgerError> {
    if order.amount <= 0 {
        Err(LedgerError::NonPositiveAmount)
    } else {
        match settled_balance(balance, order.kind, order.amount) {
            None => Err(LedgerError::InsufficientFunds),
            Some(balance) => if balance > i64::MAX {
                Err(LedgerError::BalanceOutOfRange)
            } else {
                Ok(
                    (
                        TransactionView {
                            id,
                            amount: order.amount,
                            kind: order.kind,
                            origin_account_id: order.account_id,
                            description: order.description,
                            created_at,
                        },
                        balance,
                    ),
                )
            },
        }
    }
}

/// The engine's rule: the state and the action that follow a state and an
/// event. An event that the state does not wait for changes nothing.
pub open spec fn transition(state: ExecutionView, event: EventView) -> (ExecutionView, ActionView) {
    match state {
        ExecutionView::Received(request) => match event {
            EventView::Start { account } => match validated(request, account) {
                Ok(order) => (
                    ExecutionView::Validated(order),
                    ActionView::FetchForUpdate { account: order.account },
                ),
                Err(error) => (ExecutionView::Aborted(error), ActionView::Nothing),
            },
            _ => (state, ActionView::Nothing),
        },
        ExecutionView::Validated(order) => match event {
            EventView::Fetched(lookup) => match locked(order, lookup) {
                Ok(account) => (
                    ExecutionView::AccountLocked { order, balance: account.balance },
                    ActionView::Continue,
                ),
                Err(error) => (ExecutionView::Aborted(error), ActionView::Release),
            },
            _ => (state, ActionView::Nothing),
        },
        ExecutionView::AccountLocked { order, balance } => match event {
            EventView::Proceed { id, created_at } => match computed(order, balance, id, created_at) {
                Ok((transaction, new_balance)) => (
                    ExecutionView::Computed { transaction_id: id, account: order.account },
                    ActionView::Persist { transaction, account: order.account, new_balance },
                ),
                Err(error) => (ExecutionView::Aborted(error), ActionView::Release),
            },
            _ => (state, ActionView::Nothing),
        },
        ExecutionView::Computed { transaction_id, account } => match event {
            EventView::Settled(outcome) => match outcome {
                WriteOutcome::Committed => (
                    ExecutionView::Persisted { transaction_id },
                    ActionView::Nothing,
                ),
                _ => (ExecutionView::Aborted(LedgerError::Persistence), ActionView::Nothing),
            },
            _ => (state, ActionView::Nothing),
        },
        _ => (state, ActionView::Nothing),
    }
}

/// What the engine adds to a signal, whatever the random source and the
/// clock gave: to `Start`, the account identifier as `uuid` reads it from
/// the request; to `Proceed`, where an account is held, the hyphenated
/// form of a random UUID and some creation time.
pub open spec fn informs(state: ExecutionView, signal: SignalView, event: EventView) -> bool {
    match signal {
        SignalView::Start => match event {
            EventView::Start { account } => match state {
                ExecutionView::Received(request) => account == uuid_parsed(request.account_id),
                _ => account is None,
            },
            _ => false,
        },
        SignalView::Fetched(lookup) => event == EventView::Fetched(lookup),
        SignalView::Proceed => match event {
            EventView::Proceed { id, created_at } => state is AccountLocked ==> is_fresh_id(id),
            _ => false,
        },
        SignalView::Settled(outcome) => event == EventView::Settled(outcome),
    }
}

/// Validates a request whose account identifier has been read already:
/// `account` is `None` where it was malformed.
pub fn validate(request: TransactionRequest, account: Option<u128>) -> (r: Result<Order, LedgerError>)
    ensures
        match validated(request@, account) {
            Ok(order) => r is Ok && r->Ok_0@ == order,
            Err(error) => r == Err::<Order, LedgerError>(error),
        },
{
    let kind = parse_transaction_kind(request.transaction_type)?;
    check_amount(request.amount)?;
    match account {
        None => Err(LedgerError::MalformedAccountId),
        Some(id) => Ok(
            Order {
                account: id,
                account_id: request.account_id,
                kind,
                amount: request.amount,
                description: request.description,
            },
        ),
    }
}

/// Takes the store's answer to the locked read of an order's account.
pub fn lock(order: &Order, lookup: Lookup) -> (r: Result<BankAccount, LedgerError>)
    ensures
        match locked(order@, lookup@) {
            Ok(account) => r is Ok && r->Ok_0@ == account,
            Err(error) => r == Err::<BankAccount, LedgerError>(error),
        },
{
    match lookup {
        Lookup::Found(account) => if account.id != order.account {
            Err(LedgerError::Persistence)
        } else {
            Ok(account)
        },
        Lookup::Missing => Err(LedgerError::AccountNotFound),
        Lookup::Unavailable => Err(LedgerError::Persistence),
    }
}

/// Computes the transaction to journal and the balance to write.
pub fn compute(order: Order, balance: i64, id: String, created_at: String) -> (r: Result<
    (Transaction, i64),
    LedgerError,
>)
    ensures
        match computed(order@, balance as int, id@, created_at@) {
            Ok((transaction, new_balance)) => r is Ok && r->Ok_0.0@ == transaction && r->Ok_0.1
                == new_balance,
            Err(error) => r == Err::<(Transaction, i64), LedgerError>(error),
        },
{
    check_amount(order.amount)?;
    check_sufficiency(order.kind, order.amount, balance)?;
    let new_balance: i64 = match order.kind {
        TransactionType::OUTCOME => balance - order.amount,
        TransactionType::INCOME => {
            if balance > 0 && order.amount > i64::MAX - balance {
                return Err(LedgerError::BalanceOutOfRange);
            }
            balance + order.amount
        },
    };
    let transaction = Transaction::stamped(
        id,
        created_at,
        order.amount,
        order.kind,
        order.account_id,
        order.description,
    );
    Ok((transaction, new_balance))
}

impl Execution {
    /// Takes in a request.
    pub fn receive(request: TransactionRequest) -> (state: Execution)
        ensures
            state@ == ExecutionView::Received(request@),
    {
        Execution::Received(request)
    }

    /// Whether the request has reached its end.
    pub fn is_final(&self) -> (r: bool)
        ensures
            r == (self@ is Persisted || self@ is Aborted),
    {
        match self {
            Execution::Persisted { .. } => true,
            Execution::Aborted(_) => true,
            _ => false,
        }
    }
}

/// One move of the engine, on an event that carries all that the move
/// depends on.
pub fn advance(state: Execution, event: Event) -> (r: (Execution, Action))
    ensures
        (r.0@, r.1@) == transition(state@, event@),
{
    match state {
        Execution::Received(request) => match event {
            Event::Start { account } => match validate(request, account) {
                Ok(order) => {
                    let account: u128 = order.account;
                    (Execution::Validated(order), Action::FetchForUpdate { account })
                },
                Err(error) => (Execution::Aborted(error), Action::Nothing),
            },
            _ => (Execution::Received(request), Action::Nothing),
        },
        Execution::Validated(order) => match event {
            Event::Fetched(lookup) => match lock(&order, lookup) {
                Ok(found) => (
                    Execution::AccountLocked { order, balance: found.balance },
                    Action::Continue,
                ),
                Err(error) => (Execution::Aborted(error), Action::Release),
            },
            _ => (Execution::Validated(order), Action::Nothing),
        },
        Execution::AccountLocked { order, balance } => match event {
            Event::Proceed { id, created_at } => {
                let account: u128 = order.account;
                let transaction_id: String = id.clone();
                match compute(order, balance, id, created_at) {
                    Ok((transaction, new_balance)) => (
                        Execution::Computed { transaction_id, account },
                        Action::Persist { transaction, account, new_balance },
                    ),
                    Err(error) => (Execution::Aborted(error), Action::Release),
                }
            },
            _ => (Execution::AccountLocked { order, balance }, Action::Nothing),
        },
        Execution::Computed { transaction_id, account } => match event {
            Event::Settled(outcome) => match outcome {
                WriteOutcome::Committed => (Execution::Persisted { transaction_id }, Action::Nothing),
                _ => (Execution::Aborted(LedgerError::Persistence), Action::Nothing),
            },
            _ => (Execution::Computed { transaction_id, account }, Action::Nothing),
        },
        Execution::Persisted { transaction_id } => (
            Execution::Persisted { transaction_id },
            Action::Nothing,
        ),
        Execution::Aborted(error) => (Execution::Aborted(error), Action::Nothing),
    }
}

/// One move of the engine on a signal from the caller. The engine reads
/// the account identifier and draws the transaction's identifier and
/// creation time itself; the move is the one that `transition` gives for
/// the signal so completed.
pub fn step(state: Execution, signal: Signal) -> (r: (Execution, Action))
    ensures
        exists|event: EventView| #[trigger]
            informs(state@, signal@, event) && (r.0@, r.1@) == transition(state@, event),
{
    let event = match signal {
        Signal::Start => {
            let account: Option<u128> = match &state {
                Execution::Received(request) => parse_uuid(request.account_id.as_str()),
                _ => None,
            };
            Event::Start { account }
        },
        Signal::Fetched(lookup) => Event::Fetched(lookup),
        Signal::Proceed => match &state {
            Execution::AccountLocked { .. } => {
                let id: String = fresh_id();
                let created_at: String = now_rfc3339();
                Event::Proceed { id, created_at }
            },
            _ => Event::Proceed { id: String::new(), created_at: String::new() },
        },
        Signal::Settled(outcome) => Event::Settled(outcome),
    };
    assert(informs(state@, signal@, event@));
    advance(state, event)
}

/// A request that fails validation asks nothing of the store: it ends at
/// once, as an invalid argument, and no action follows.
pub proof fn law_invalid_request_touches_nothing(
    request: TransactionRequestView,
    account: Option<u128>,
)
    requires
        validated(request, account) is Err,
    ensures
        transition(ExecutionView::Received(request), EventView::Start { account }) == (
            ExecutionView::Aborted(validated(request, account)->Err_0),
            ActionView::Nothing,
        ),
        validated(request, account)->Err_0.kind_of() == ErrorKind::InvalidArgument,
{
}

/// A finished request stays finished: whatever is reported afterwards, the
/// state stays and nothing is asked of the store.
pub proof fn law_final_states_stay(state: ExecutionView, event: EventView)
    requires
        state is Persisted || state is Aborted,
    ensures
        transition(state, event) == (state, ActionView::Nothing),
{
}

/// The account is locked only on the store's word: the engine holds an
/// account only after the store has found the very account that the
/// validated order names, and it holds it with the balance read.
pub proof fn law_lock_follows_the_read(state: ExecutionView, event: EventView)
    requires
        !(state is AccountLocked),
        transition(state, event).0 is AccountLocked,
    ensures
        state is Validated,
        event is Fetched,
        event->Fetched_0 is Found,
        event->Fetched_0->Found_0.id == state->Validated_0.account,
        transition(state, event).0 == (ExecutionView::AccountLocked {
            order: state->Validated_0,
            balance: event->Fetched_0->Found_0.balance,
        }),
        transition(state, event).1 == ActionView::Continue,
{
}

/// The engine writes only while it holds the account: a `Persist` follows
/// only from `AccountLocked`. It names the order's account, journals the
/// order's amount and kind, and the balance it writes is the one that the
/// movement leaves behind, never negative where the balance read was not.
pub proof fn law_persist_follows_the_lock(state: ExecutionView, event: EventView)
    requires
        transition(state, event).1 is Persist,
    ensures
        state is AccountLocked,
        event is Proceed,
        transition(state, event).0 is Computed,
        ({
            let order = state->AccountLocked_order;
            let balance = state->AccountLocked_balance;
            let action = transition(state, event).1;
            &&& action->Persist_account == order.account
            &&& action->transaction.amount == order.amount
            &&& action->transaction.kind == order.kind
            &&& order.amount > 0
            &&& Some(action->new_balance) == settled_balance(balance, order.kind, order.amount)
            &&& action->new_balance <= i64::MAX
            &&& balance >= 0 ==> action->new_balance >= 0
        }),
{
}

} // verus!
