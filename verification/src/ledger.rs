//! The ledger as a mathematical object: the accounts and the journal that
//! a store holds, what the engine's actions do to them, and the laws that
//! follow.

use vstd::prelude::*;
use crate::accounts::{
    opening_transition, InsertOutcome, OpenAccountRequestView, OpeningActionView, OpeningEventView,
    OpeningView, Presence,
};
use crate::engine::{
    transition, validated, ActionView, EventView, ExecutionView, LookupView, TransactionRequestView,
    WriteOutcome,
};
use crate::error::{ErrorKind, LedgerError};
use crate::models::bank_account::{AccountType, BankAccountView};
use crate::models::transaction::{TransactionType, TransactionView};
use crate::validator::settled_balance;

verus! {

/// The committed state of a store: the identifiers of the users, the
/// accounts by identifier, and the journal of transactions in the order in
/// which they were appended.
pub struct Books {
    pub users: Set<u128>,
    pub accounts: Map<u128, BankAccountView>,
    pub journal: Seq<TransactionView>,
}

/// What a finished request answers: the transaction's identifier, or the
/// reason for which nothing was done.
pub open spec fn outcome(state: ExecutionView) -> Result<Seq<char>, LedgerError> {
    match state {
        ExecutionView::Persisted { transaction_id } => Ok(transaction_id),
        ExecutionView::Aborted(error) => Err(error),
        _ => Err(LedgerError::Persistence),
    }
}

impl Books {
    /// Every account is filed under its own identifier and holds a balance
    /// that is not negative and that a 64-bit column can keep.
    pub open spec fn wf(self) -> bool {
        forall|id: u128| #[trigger]
            self.accounts.contains_key(id) ==> self.accounts[id].id == id && 0
                <= self.accounts[id].balance <= i64::MAX
    }

    /// What a store that does not fail answers to a locked read.
    pub open spec fn lookup(self, account: u128) -> LookupView {
        if self.accounts.contains_key(account) {
            LookupView::Found(self.accounts[account])
        } else {
            LookupView::Missing
        }
    }

    /// The books after an action of the engine was carried out and
    /// committed. Only `Persist` writes: it appends to the journal and
    /// replaces one balance.
    pub open spec fn apply(self, action: ActionView) -> Books {
        match action {
            ActionView::Persist { transaction, account, new_balance } => Books {
                accounts: self.accounts.insert(
                    account,
                    BankAccountView { balance: new_balance, ..self.accounts[account] },
                ),
                journal: self.journal.push(transaction),
                ..self
            },
            _ => self,
        }
    }

    /// One request taken from start to end: the books afterwards and the
    /// answer. `account` is what the request's account identifier reads as,
    /// `id` and `created_at` are the transaction's identifier and creation
    /// time; `readable` says whether the store could be read, and `write`
    /// how the unit of work ended. What the unit of work wrote is in the
    /// books only if it was committed.
    pub open spec fn execute_under(
        self,
        request: TransactionRequestView,
        account: Option<u128>,
        id: Seq<char>,
        created_at: Seq<char>,
        readable: bool,
        write: WriteOutcome,
    ) -> (Books, Result<Seq<char>, LedgerError>) {
        let started = transition(
            ExecutionView::Received(request),
            EventView::Start { account },
        );
        match started.1 {
            ActionView::FetchForUpdate { account } => {
                let lookup = if readable {
                    self.lookup(account)
                } else {
                    LookupView::Unavailable
                };
                let fetched = transition(started.0, EventView::Fetched(lookup));
                match fetched.1 {
                    ActionView::Continue => {
                        let computed = transition(
                            fetched.0,
                            EventView::Proceed { id, created_at },
                        );
                        match computed.1 {
                            ActionView::Persist { .. } => {
                                let settled = transition(computed.0, EventView::Settled(write));
                                let books = if write == WriteOutcome::Committed {
                                    self.apply(computed.1)
                                } else {
                                    self
                                };
                                (books, outcome(settled.0))
                            },
                            _ => (self, outcome(computed.0)),
                        }
                    },
                    _ => (self, outcome(fetched.0)),
                }
            },
            _ => (self, outcome(started.0)),
        }
    }

    /// One request taken from start to end against a store that does not
    /// fail.
    pub open spec fn execute(
        self,
        request: TransactionRequestView,
        account: Option<u128>,
        id: Seq<char>,
        created_at: Seq<char>,
    ) -> (Books, Result<Seq<char>, LedgerError>) {
        self.execute_under(request, account, id, created_at, true, WriteOutcome::Committed)
    }
}

/// The record that a request leaves in the journal.
pub open spec fn journal_entry(
    request: TransactionRequestView,
    kind: TransactionType,
    id: Seq<char>,
    created_at: Seq<char>,
) -> TransactionView {
    TransactionView {
        id,
        amount: request.amount,
        kind,
        origin_account_id: request.account_id,
        description: request.description,
        created_at,
    }
}

/// A request either fails and leaves the books exactly as they were, or
/// succeeds, and then it moves the balance of the one account it names by
/// its amount, appends one record to the journal and touches nothing else.
/// Either way every balance stays non-negative.
pub proof fn law_execute(
    books: Books,
    request: TransactionRequestView,
    account: Option<u128>,
    id: Seq<char>,
    created_at: Seq<char>,
)
    requires
        books.wf(),
    ensures
        books.execute(request, account, id, created_at).0.wf(),
        books.execute(request, account, id, created_at).0.accounts.dom() == books.accounts.dom(),
        books.execute(request, account, id, created_at).1 is Err ==> books.execute(
            request,
            account,
            id,
            created_at,
        ).0 == books,
        books.execute(request, account, id, created_at).1 is Ok ==> {
            let after = books.execute(request, account, id, created_at).0;
            let order = validated(request, account);
            &&& books.execute(request, account, id, created_at).1 == Ok::<Seq<char>, LedgerError>(id)
            &&& order is Ok
            &&& books.accounts.contains_key(order->Ok_0.account)
            &&& Some(after.accounts[order->Ok_0.account].balance) == settled_balance(
                books.accounts[order->Ok_0.account].balance,
                order->Ok_0.kind,
                request.amount,
            )
            &&& after.journal == books.journal.push(
                journal_entry(request, order->Ok_0.kind, id, created_at),
            )
            &&& forall|other: u128|
                other != order->Ok_0.account && books.accounts.contains_key(other)
                    ==> #[trigger] after.accounts[other] == books.accounts[other]
        },
{
    let after = books.execute(request, account, id, created_at).0;
    let order = validated(request, account);
    if books.execute(request, account, id, created_at).1 is Ok {
        let account = order->Ok_0.account;
        assert(books.accounts.contains_key(account));
        assert(after.accounts.dom() =~= books.accounts.dom());
    }
}

/// All or nothing: however the store fails, a request that is answered
/// with an error has left accounts and journal exactly as they were, and a
/// request that is answered with success was read and committed, and has
/// done what it does against a store that does not fail. A store that
/// cannot be read, or a unit of work that does not commit, always gives an
/// error.
pub proof fn law_all_or_nothing(
    books: Books,
    request: TransactionRequestView,
    account: Option<u128>,
    id: Seq<char>,
    created_at: Seq<char>,
    readable: bool,
    write: WriteOutcome,
)
    ensures
        books.execute_under(request, account, id, created_at, readable, write).1 is Err
            ==> books.execute_under(request, account, id, created_at, readable, write).0 == books,
        books.execute_under(request, account, id, created_at, readable, write).1 is Ok ==> readable
            && write == WriteOutcome::Committed && books.execute_under(
            request,
            account,
            id,
            created_at,
            readable,
            write,
        ) == books.execute(request, account, id, created_at),
        !readable || write != WriteOutcome::Committed ==> books.execute_under(
            request,
            account,
            id,
            created_at,
            readable,
            write,
        ).1 is Err,
{
}

/// A withdrawal within the balance succeeds: the balance goes down by the
/// amount, and the journal gains a withdrawal of that amount.
pub proof fn law_withdrawal_within_balance(
    books: Books,
    request: TransactionRequestView,
    account: u128,
    id: Seq<char>,
    created_at: Seq<char>,
)
    requires
        books.wf(),
        books.accounts.contains_key(account),
        TransactionType::from_code(request.transaction_type) == Some(TransactionType::OUTCOME),
        0 < request.amount <= books.accounts[account].balance,
    ensures
        books.execute(request, Some(account), id, created_at).1 == Ok::<Seq<char>, LedgerError>(id),
        books.execute(request, Some(account), id, created_at).0.accounts[account].balance
            == books.accounts[account].balance - request.amount,
        books.execute(request, Some(account), id, created_at).0.journal == books.journal.push(
            journal_entry(request, TransactionType::OUTCOME, id, created_at),
        ),
{
    law_execute(books, request, Some(account), id, created_at);
}

/// A withdrawal beyond the balance fails for want of funds: the balance
/// and the journal stay exactly as they were.
pub proof fn law_withdrawal_beyond_balance(
    books: Books,
    request: TransactionRequestView,
    account: u128,
    id: Seq<char>,
    created_at: Seq<char>,
)
    requires
        books.wf(),
        books.accounts.contains_key(account),
        TransactionType::from_code(request.transaction_type) == Some(TransactionType::OUTCOME),
        request.amount > books.accounts[account].balance,
    ensures
        books.execute(request, Some(account), id, created_at).1 == Err::<Seq<char>, LedgerError>(
            LedgerError::InsufficientFunds,
        ),
        books.execute(request, Some(account), id, created_at).0 == books,
{
}

/// A deposit of an amount greater than zero succeeds, as long as the
/// balance stays within what the store can hold: the balance goes up by
/// the amount.
pub proof fn law_deposit(
    books: Books,
    request: TransactionRequestView,
    account: u128,
    id: Seq<char>,
    created_at: Seq<char>,
)
    requires
        books.wf(),
        books.accounts.contains_key(account),
        TransactionType::from_code(request.transaction_type) == Some(TransactionType::INCOME),
        0 < request.amount,
        books.accounts[account].balance + request.amount <= i64::MAX,
    ensures
        books.execute(request, Some(account), id, created_at).1 == Ok::<Seq<char>, LedgerError>(id),
        books.execute(request, Some(account), id, created_at).0.accounts[account].balance
            == books.accounts[account].balance + request.amount,
        books.execute(request, Some(account), id, created_at).0.journal == books.journal.push(
            journal_entry(request, TransactionType::INCOME, id, created_at),
        ),
{
    law_execute(books, request, Some(account), id, created_at);
}

/// A request as it reaches the store: the request, what its account
/// identifier reads as, and the transaction's identifier and creation time.
pub struct Submission {
    pub request: TransactionRequestView,
    pub account: Option<u128>,
    pub id: Seq<char>,
    pub created_at: Seq<char>,
}

/// What a request adds to the balance: its amount for a deposit, minus its
/// amount for a withdrawal.
pub open spec fn signed_amount(submission: Submission) -> int {
    match TransactionType::from_code(submission.request.transaction_type) {
        Some(TransactionType::INCOME) => submission.request.amount,
        Some(TransactionType::OUTCOME) => -submission.request.amount,
        None => 0,
    }
}

/// The sum of the deposits minus the sum of the withdrawals.
pub open spec fn net(submissions: Seq<Submission>) -> int
    decreases submissions.len(),
{
    if submissions.len() == 0 {
        0
    } else {
        net(submissions.drop_last()) + signed_amount(submissions.last())
    }
}

impl Books {
    /// The books after the requests were executed one after the other.
    pub open spec fn execute_all(self, submissions: Seq<Submission>) -> Books
        decreases submissions.len(),
    {
        if submissions.len() == 0 {
            self
        } else {
            let last = submissions.last();
            self.execute_all(submissions.drop_last()).execute(
                last.request,
                last.account,
                last.id,
                last.created_at,
            ).0
        }
    }

    /// Whether every one of the requests, executed one after the other,
    /// succeeds.
    pub open spec fn all_accepted(self, submissions: Seq<Submission>) -> bool
        decreases submissions.len(),
    {
        submissions.len() == 0 || {
            let last = submissions.last();
            &&& self.all_accepted(submissions.drop_last())
            &&& self.execute_all(submissions.drop_last()).execute(
                last.request,
                last.account,
                last.id,
                last.created_at,
            ).1 is Ok
        }
    }
}

/// Whatever requests are executed, every balance stays non-negative and no
/// account appears or disappears.
pub proof fn law_balances_stay_non_negative(books: Books, submissions: Seq<Submission>)
    requires
        books.wf(),
    ensures
        books.execute_all(submissions).wf(),
        books.execute_all(submissions).accounts.dom() == books.accounts.dom(),
    decreases submissions.len(),
{
    if submissions.len() > 0 {
        let last = submissions.last();
        law_balances_stay_non_negative(books, submissions.drop_last());
        law_execute(
            books.execute_all(submissions.drop_last()),
            last.request,
            last.account,
            last.id,
            last.created_at,
        );
    }
}

/// The journal is append-only: whatever requests are executed, the records
/// that it held stay where they were, and each request adds at most one.
pub proof fn law_journal_only_grows(books: Books, submissions: Seq<Submission>)
    requires
        books.wf(),
    ensures
        books.journal.len() <= books.execute_all(submissions).journal.len() <= books.journal.len()
            + submissions.len(),
        books.execute_all(submissions).journal.subrange(0, books.journal.len() as int)
            == books.journal,
    decreases submissions.len(),
{
    if submissions.len() > 0 {
        let last = submissions.last();
        let before = books.execute_all(submissions.drop_last());
        law_journal_only_grows(books, submissions.drop_last());
        law_balances_stay_non_negative(books, submissions.drop_last());
        law_execute(before, last.request, last.account, last.id, last.created_at);
        let after = books.execute_all(submissions);
        assert(after.journal.subrange(0, books.journal.len() as int) =~= before.journal.subrange(
            0,
            books.journal.len() as int,
        ));
    } else {
        assert(books.journal.subrange(0, books.journal.len() as int) =~= books.journal);
    }
}

/// No update is lost: where requests against one account are executed one
/// after the other and none is refused, the balance ends at the starting
/// balance plus the deposits minus the withdrawals, and the journal has
/// gained one record for each request.
pub proof fn law_no_lost_update(books: Books, submissions: Seq<Submission>, account: u128)
    requires
        books.wf(),
        books.accounts.contains_key(account),
        forall|i: int| 0 <= i < submissions.len() ==> (#[trigger] submissions[i]).account == Some(account),
        books.all_accepted(submissions),
    ensures
        books.execute_all(submissions).accounts[account].balance == books.accounts[account].balance
            + net(submissions),
        books.execute_all(submissions).journal.len() == books.journal.len() + submissions.len(),
    decreases submissions.len(),
{
    if submissions.len() > 0 {
        let last = submissions.last();
        let before = books.execute_all(submissions.drop_last());
        assert(last.account == Some(account));
        law_no_lost_update(books, submissions.drop_last(), account);
        law_balances_stay_non_negative(books, submissions.drop_last());
        law_execute(before, last.request, last.account, last.id, last.created_at);
    }
}

/// Taking one request out of a run takes its amount out of the sum.
proof fn lemma_net_remove(submissions: Seq<Submission>, i: int)
    requires
        0 <= i < submissions.len(),
    ensures
        net(submissions) == net(submissions.remove(i)) + signed_amount(submissions[i]),
    decreases submissions.len(),
{
    if i == submissions.len() - 1 {
        assert(submissions.remove(i) =~= submissions.drop_last());
    } else {
        lemma_net_remove(submissions.drop_last(), i);
        assert(submissions.remove(i).drop_last() =~= submissions.drop_last().remove(i));
        assert(submissions.remove(i).last() == submissions.last());
    }
}

/// The sum does not depend on the order of the requests.
pub proof fn law_net_ignores_order(first: Seq<Submission>, second: Seq<Submission>)
    requires
        first.to_multiset() == second.to_multiset(),
    ensures
        net(first) == net(second),
    decreases first.len(),
{
    first.to_multiset_ensures();
    second.to_multiset_ensures();
    if first.len() == 0 {
        assert(second.len() == 0);
    } else {
        let last = first.last();
        let rest = first.drop_last();
        rest.to_multiset_ensures();
        assert(first =~= rest.push(last));
        assert(first.to_multiset() =~= rest.to_multiset().insert(last));
        assert(second.to_multiset().count(last) > 0);
        assert(second.contains(last));
        let i = choose|i: int| 0 <= i < second.len() && second[i] == last;
        assert(second.remove(i).to_multiset() =~= second.to_multiset().remove(last));
        assert(rest.to_multiset() =~= second.remove(i).to_multiset());
        law_net_ignores_order(rest, second.remove(i));
        lemma_net_remove(second, i);
    }
}

/// Every order ends at the same balance: two orders of the same requests
/// against one account, in neither of which a request is refused, leave
/// the same balance.
pub proof fn law_every_order_agrees(
    books: Books,
    first: Seq<Submission>,
    second: Seq<Submission>,
    account: u128,
)
    requires
        books.wf(),
        books.accounts.contains_key(account),
        first.to_multiset() == second.to_multiset(),
        forall|i: int| 0 <= i < first.len() ==> (#[trigger] first[i]).account == Some(account),
        books.all_accepted(first),
        books.all_accepted(second),
    ensures
        books.execute_all(first).accounts[account].balance == books.execute_all(
            second,
        ).accounts[account].balance,
{
    first.to_multiset_ensures();
    second.to_multiset_ensures();
    assert forall|i: int| 0 <= i < second.len() implies (#[trigger] second[i]).account == Some(
        account,
    ) by {
        assert(second.contains(second[i]));
        assert(first.to_multiset().count(second[i]) > 0);
        assert(first.contains(second[i]));
    }
    law_no_lost_update(books, first, account);
    law_no_lost_update(books, second, account);
    law_net_ignores_order(first, second);
}

/// What a finished request to open an account answers: the account's
/// identifier, or the reason for which nothing was done.
pub open spec fn opening_outcome(state: OpeningView) -> Result<u128, LedgerError> {
    match state {
        OpeningView::Opened { account } => Ok(account),
        OpeningView::Aborted(error) => Err(error),
        _ => Err(LedgerError::Persistence),
    }
}

impl Books {
    /// What a store that does not fail answers when asked for a user.
    pub open spec fn presence_of(self, user: u128) -> Presence {
        if self.users.contains(user) {
            Presence::Found
        } else {
            Presence::Missing
        }
    }

    /// How a store that does not fail ends an insert: an identifier that is
    /// taken is refused.
    pub open spec fn insert_outcome(self, action: OpeningActionView) -> InsertOutcome {
        match action {
            OpeningActionView::Insert { account } => if self.accounts.contains_key(account.id) {
                InsertOutcome::DuplicateId
            } else {
                InsertOutcome::Inserted
            },
            _ => InsertOutcome::Failed,
        }
    }

    /// The books after an action of the account-opening machine was carried
    /// out. Only an `Insert` under an identifier that is free writes.
    pub open spec fn apply_opening(self, action: OpeningActionView) -> Books {
        match action {
            OpeningActionView::Insert { account } => if self.accounts.contains_key(account.id) {
                self
            } else {
                Books { accounts: self.accounts.insert(account.id, account), ..self }
            },
            _ => self,
        }
    }

    /// One request to open an account taken from start to end against a
    /// store that does not fail: the books afterwards and the answer.
    /// `owner` is what the request's user identifier reads as, `id` and
    /// `created_at` are the account's identifier and creation time.
    pub open spec fn open_account(
        self,
        request: OpenAccountRequestView,
        owner: Option<u128>,
        id: u128,
        created_at: Seq<char>,
    ) -> (Books, Result<u128, LedgerError>) {
        let started = opening_transition(
            OpeningView::Received(request),
            OpeningEventView::Start { owner },
        );
        match started.1 {
            OpeningActionView::FindUser { user } => {
                let checked = opening_transition(
                    started.0,
                    OpeningEventView::OwnerChecked { presence: self.presence_of(user), id, created_at },
                );
                match checked.1 {
                    OpeningActionView::Insert { .. } => {
                        let stored = opening_transition(
                            checked.0,
                            OpeningEventView::Stored(self.insert_outcome(checked.1)),
                        );
                        (self.apply_opening(checked.1), opening_outcome(stored.0))
                    },
                    _ => (self, opening_outcome(checked.0)),
                }
            },
            _ => (self, opening_outcome(started.0)),
        }
    }
}

/// A request to open an account either fails and leaves the books exactly
/// as they were, or succeeds, and then the books hold one more account:
/// the one asked for, under the new identifier, with the opening balance.
/// The journal is never touched, and every balance stays non-negative.
pub proof fn law_open_account(
    books: Books,
    request: OpenAccountRequestView,
    owner: Option<u128>,
    id: u128,
    created_at: Seq<char>,
)
    requires
        books.wf(),
        request.initial_balance <= i64::MAX,
    ensures
        books.open_account(request, owner, id, created_at).0.wf(),
        books.open_account(request, owner, id, created_at).0.journal == books.journal,
        books.open_account(request, owner, id, created_at).1 is Err ==> books.open_account(
            request,
            owner,
            id,
            created_at,
        ).0 == books,
        books.open_account(request, owner, id, created_at).1 is Ok ==> {
            let after = books.open_account(request, owner, id, created_at).0;
            &&& books.open_account(request, owner, id, created_at).1 == Ok::<u128, LedgerError>(id)
            &&& owner is Some
            &&& books.users.contains(owner->Some_0)
            &&& AccountType::named(request.account_type) is Some
            &&& !books.accounts.contains_key(id)
            &&& after.users == books.users
            &&& after.accounts == books.accounts.insert(
                id,
                BankAccountView {
                    id,
                    name: request.name,
                    balance: request.initial_balance,
                    account_type: AccountType::named(request.account_type)->Some_0,
                    user_id: owner->Some_0,
                    created_at,
                },
            )
        },
{
}

/// Rejection touches nothing: a request whose account kind is no kind's
/// name is refused as an invalid argument before the store is asked
/// anything, and accounts and journal are afterwards what they were before.
pub proof fn law_invalid_kind_touches_nothing(
    books: Books,
    request: OpenAccountRequestView,
    owner: Option<u128>,
    id: u128,
    created_at: Seq<char>,
)
    requires
        AccountType::named(request.account_type) is None,
    ensures
        opening_transition(OpeningView::Received(request), OpeningEventView::Start { owner }) == (
            OpeningView::Aborted(LedgerError::InvalidAccountKind),
            OpeningActionView::Nothing,
        ),
        books.open_account(request, owner, id, created_at) == (
            books,
            Err::<u128, LedgerError>(LedgerError::InvalidAccountKind),
        ),
        LedgerError::InvalidAccountKind.kind_of() == ErrorKind::InvalidArgument,
{
}

} // verus!
