//! Many requests at once. Each request is run by a worker of its own, and
//! the store lets the workers' steps interleave in any order; only the hold
//! that a locked read takes on an account makes a second worker wait. This
//! module models such runs and proves that no update is lost in any of
//! them.

use vstd::prelude::*;
use crate::engine::{
    transition, ActionView, EventView, ExecutionView, LookupView, OrderView, TransactionRequestView,
    WriteOutcome,
};
use crate::identity::uuid_parsed;
use crate::ledger::Books;
use crate::models::transaction::{TransactionType, TransactionView};

verus! {

/// One request on its way: the request, where it stands, what it has
/// asked of the store and not yet been answered, and the account that it
/// holds.
pub struct Worker {
    pub request: TransactionRequestView,
    pub state: ExecutionView,
    pub pending: ActionView,
    pub holding: Option<u128>,
}

/// The store and the requests that are under way against it.
pub struct World {
    pub books: Books,
    pub held: Set<u128>,
    pub workers: Seq<Worker>,
}

/// What is open in one step: which worker moves, and what the outside
/// gives to the move (the transaction's identifier and creation time,
/// whether the store can be read, how the unit of work ends).
pub struct Choice {
    pub worker: int,
    pub id: Seq<char>,
    pub created_at: Seq<char>,
    pub readable: bool,
    pub write: WriteOutcome,
}

/// A worker that has just taken in a request.
pub open spec fn fresh_worker(request: TransactionRequestView) -> Worker {
    Worker {
        request,
        state: ExecutionView::Received(request),
        pending: ActionView::Nothing,
        holding: None,
    }
}

/// The start of a run: nothing is held, and every worker has just taken in
/// its request.
pub open spec fn initial(world: World) -> bool {
    &&& world.books.wf()
    &&& world.held == Set::<u128>::empty()
    &&& forall|i: int|
        0 <= i < world.workers.len() ==> #[trigger] world.workers[i] == fresh_worker(
            world.workers[i].request,
        )
}

/// Whether the chosen worker can move. A worker that has not started can
/// start; a worker that is finished cannot move; a locked read of an
/// account that another worker holds waits, unless the read fails.
pub open spec fn enabled(world: World, choice: Choice) -> bool {
    &&& 0 <= choice.worker < world.workers.len()
    &&& match world.workers[choice.worker].pending {
        ActionView::Nothing => world.workers[choice.worker].state is Received,
        ActionView::FetchForUpdate { account } => !choice.readable || !world.held.contains(account),
        _ => true,
    }
}

/// The set of held accounts after a worker let go of what it held.
pub open spec fn released(held: Set<u128>, holding: Option<u128>) -> Set<u128> {
    match holding {
        Some(account) => held.remove(account),
        None => held,
    }
}

/// The chosen worker after its move.
pub open spec fn moved_worker(world: World, choice: Choice) -> Worker {
    let me = world.workers[choice.worker];
    match me.pending {
        ActionView::Nothing => {
            let account = match me.state {
                ExecutionView::Received(request) => uuid_parsed(request.account_id),
                _ => None,
            };
            let next = transition(me.state, EventView::Start { account });
            Worker { state: next.0, pending: next.1, holding: None, ..me }
        },
        ActionView::FetchForUpdate { account } => {
            let lookup = if choice.readable {
                world.books.lookup(account)
            } else {
                LookupView::Unavailable
            };
            let next = transition(me.state, EventView::Fetched(lookup));
            Worker {
                state: next.0,
                pending: next.1,
                holding: if lookup is Found {
                    Some(account)
                } else {
                    None
                },
                ..me
            }
        },
        ActionView::Continue => {
            let next = transition(
                me.state,
                EventView::Proceed { id: choice.id, created_at: choice.created_at },
            );
            Worker { state: next.0, pending: next.1, ..me }
        },
        ActionView::Persist { .. } => {
            let next = transition(me.state, EventView::Settled(choice.write));
            Worker { state: next.0, pending: next.1, holding: None, ..me }
        },
        ActionView::Release => Worker { pending: ActionView::Nothing, holding: None, ..me },
    }
}

/// The world after the chosen worker's move. A locked read that finds the
/// account takes the hold; a unit of work that commits writes what it
/// carries; the end of a unit of work, either way, gives the hold back.
pub open spec fn after(world: World, choice: Choice) -> World {
    let me = world.workers[choice.worker];
    let workers = world.workers.update(choice.worker, moved_worker(world, choice));
    match me.pending {
        ActionView::FetchForUpdate { account } => World {
            held: if moved_worker(world, choice).holding is Some {
                world.held.insert(account)
            } else {
                world.held
            },
            workers,
            ..world
        },
        ActionView::Persist { .. } => World {
            books: if choice.write == WriteOutcome::Committed {
                world.books.apply(me.pending)
            } else {
                world.books
            },
            held: released(world.held, me.holding),
            workers,
        },
        ActionView::Release => World { held: released(world.held, me.holding), workers, ..world },
        _ => World { workers, ..world },
    }
}

/// What a journalled transaction adds to the balance of its account.
pub open spec fn signed(transaction: TransactionView) -> int {
    match transaction.kind {
        TransactionType::INCOME => transaction.amount,
        TransactionType::OUTCOME => -transaction.amount,
    }
}

/// The deposits minus the withdrawals that the journal records for an
/// account: the records whose account identifier reads as that account.
pub open spec fn journalled(journal: Seq<TransactionView>, account: u128) -> int
    decreases journal.len(),
{
    if journal.len() == 0 {
        0
    } else {
        journalled(journal.drop_last(), account) + if uuid_parsed(journal.last().origin_account_id)
            == Some(account) {
            signed(journal.last())
        } else {
            0
        }
    }
}

/// What a request asks to add to the balance: its amount for a deposit,
/// minus its amount for a withdrawal.
pub open spec fn movement(request: TransactionRequestView) -> int {
    match TransactionType::from_code(request.transaction_type) {
        Some(TransactionType::INCOME) => request.amount,
        Some(TransactionType::OUTCOME) => -request.amount,
        None => 0,
    }
}

/// The deposits minus the withdrawals of the requests against an account
/// that were answered with success.
pub open spec fn accepted(workers: Seq<Worker>, account: u128) -> int
    decreases workers.len(),
{
    if workers.len() == 0 {
        0
    } else {
        accepted(workers.drop_last(), account) + if workers.last().state is Persisted
            && uuid_parsed(workers.last().request.account_id) == Some(account) {
            movement(workers.last().request)
        } else {
            0
        }
    }
}

/// The deposits minus the withdrawals of all the requests.
pub open spec fn requested(workers: Seq<Worker>) -> int
    decreases workers.len(),
{
    if workers.len() == 0 {
        0
    } else {
        requested(workers.drop_last()) + movement(workers.last().request)
    }
}

/// Whether an order is the one that validation makes of a request.
pub open spec fn order_of(request: TransactionRequestView, order: OrderView) -> bool {
    &&& TransactionType::from_code(request.transaction_type) == Some(order.kind)
    &&& order.amount == request.amount
    &&& order.account_id == request.account_id
    &&& uuid_parsed(request.account_id) == Some(order.account)
}

/// How many workers have had their transaction committed.
pub open spec fn persisted(workers: Seq<Worker>) -> int
    decreases workers.len(),
{
    if workers.len() == 0 {
        0
    } else {
        persisted(workers.drop_last()) + if workers.last().state is Persisted {
            1int
        } else {
            0int
        }
    }
}

/// What holds of one worker in every reachable world: what it waits for
/// fits where it stands, it holds an account exactly while it is between
/// the locked read and the end of its unit of work, the balance it has read
/// is still the balance in the books, and what it is about to write is
/// that balance moved by its amount.
pub open spec fn worker_fits(books: Books, held: Set<u128>, worker: Worker) -> bool {
    &&& match worker.holding {
        Some(account) => held.contains(account) && books.accounts.contains_key(account),
        None => true,
    }
    &&& match worker.pending {
        ActionView::Nothing => worker.holding is None && (worker.state
            == ExecutionView::Received(worker.request) || worker.state is Persisted
            || worker.state is Aborted),
        ActionView::FetchForUpdate { account } => {
            &&& worker.holding is None
            &&& worker.state is Validated
            &&& worker.state->Validated_0.account == account
            &&& order_of(worker.request, worker.state->Validated_0)
        },
        ActionView::Continue => {
            &&& worker.state is AccountLocked
            &&& worker.holding == Some(worker.state->AccountLocked_order.account)
            &&& order_of(worker.request, worker.state->AccountLocked_order)
            &&& worker.state->AccountLocked_balance
                == books.accounts[worker.state->AccountLocked_order.account].balance
        },
        ActionView::Persist { transaction, account, new_balance } => {
            &&& worker.state is Computed
            &&& worker.holding == Some(account)
            &&& uuid_parsed(worker.request.account_id) == Some(account)
            &&& transaction.origin_account_id == worker.request.account_id
            &&& signed(transaction) == movement(worker.request)
            &&& new_balance == books.accounts[account].balance + signed(transaction)
            &&& 0 <= new_balance <= i64::MAX
        },
        ActionView::Release => worker.state is Aborted,
    }
}

/// What holds of every world that a run reaches from `start`: every
/// balance is non-negative, no two workers hold the same account, and each
/// account's balance is its starting balance plus the deposits minus the
/// withdrawals of the requests against it that were answered with success,
/// which is also what the journal has gained for it since. The journal has
/// gained one record for each such request.
pub open spec fn consistent(start: World, world: World) -> bool {
    &&& world.books.wf()
    &&& world.books.accounts.dom() == start.books.accounts.dom()
    &&& world.workers.len() == start.workers.len()
    &&& forall|i: int|
        0 <= i < world.workers.len() ==> worker_fits(
            world.books,
            world.held,
            #[trigger] world.workers[i],
        )
    &&& forall|i: int, j: int|
        0 <= i < world.workers.len() && 0 <= j < world.workers.len() && i != j && (
        #[trigger] world.workers[i]).holding is Some ==> world.workers[i].holding != (
        #[trigger] world.workers[j]).holding
    &&& start.books.journal.len() <= world.books.journal.len()
    &&& world.books.journal.subrange(0, start.books.journal.len() as int) == start.books.journal
    &&& world.books.journal.len() == start.books.journal.len() + persisted(world.workers)
    &&& forall|i: int|
        0 <= i < world.workers.len() ==> (#[trigger] world.workers[i]).request
            == start.workers[i].request
    &&& forall|account: u128| #[trigger]
        world.books.accounts.contains_key(account) ==> world.books.accounts[account].balance
            == start.books.accounts[account].balance + accepted(world.workers, account)
    &&& forall|account: u128| #[trigger]
        world.books.accounts.contains_key(account) ==> world.books.accounts[account].balance
            == start.books.accounts[account].balance + journalled(
            world.books.journal.subrange(
                start.books.journal.len() as int,
                world.books.journal.len() as int,
            ),
            account,
        )
}

/// A run: worlds that follow one another by the moves of enabled workers,
/// from a start.
pub open spec fn is_run(worlds: Seq<World>, choices: Seq<Choice>) -> bool {
    &&& worlds.len() == choices.len() + 1
    &&& initial(worlds[0])
    &&& forall|k: int|
        0 <= k < choices.len() ==> enabled(worlds[k], #[trigger] choices[k]) && worlds[k + 1]
            == after(worlds[k], choices[k])
}

/// Replacing one worker changes the count of committed workers by that
/// worker alone.
proof fn lemma_persisted_update(workers: Seq<Worker>, i: int, worker: Worker)
    requires
        0 <= i < workers.len(),
    ensures
        persisted(workers.update(i, worker)) == persisted(workers) - (if workers[i].state
            is Persisted {
            1int
        } else {
            0int
        }) + (if worker.state is Persisted {
            1int
        } else {
            0int
        }),
    decreases workers.len(),
{
    let updated = workers.update(i, worker);
    if i == workers.len() - 1 {
        assert(updated.drop_last() =~= workers.drop_last());
    } else {
        lemma_persisted_update(workers.drop_last(), i, worker);
        assert(updated.drop_last() =~= workers.drop_last().update(i, worker));
    }
}

/// Replacing one worker changes the sum of the accepted movements by that
/// worker alone.
proof fn lemma_accepted_update(workers: Seq<Worker>, i: int, worker: Worker, account: u128)
    requires
        0 <= i < workers.len(),
    ensures
        accepted(workers.update(i, worker), account) == accepted(workers, account) - (
        if workers[i].state is Persisted && uuid_parsed(workers[i].request.account_id) == Some(
            account,
        ) {
            movement(workers[i].request)
        } else {
            0
        }) + (if worker.state is Persisted && uuid_parsed(worker.request.account_id) == Some(
            account,
        ) {
            movement(worker.request)
        } else {
            0
        }),
    decreases workers.len(),
{
    let updated = workers.update(i, worker);
    if i == workers.len() - 1 {
        assert(updated.drop_last() =~= workers.drop_last());
    } else {
        lemma_accepted_update(workers.drop_last(), i, worker, account);
        assert(updated.drop_last() =~= workers.drop_last().update(i, worker));
    }
}

/// No worker has been committed at the start.
proof fn lemma_none_persisted(workers: Seq<Worker>, account: u128)
    requires
        forall|i: int| 0 <= i < workers.len() ==> !((#[trigger] workers[i]).state is Persisted),
    ensures
        persisted(workers) == 0,
        accepted(workers, account) == 0,
    decreases workers.len(),
{
    if workers.len() > 0 {
        lemma_none_persisted(workers.drop_last(), account);
    }
}

/// The start of a run is consistent with itself.
pub proof fn law_start_is_consistent(start: World)
    requires
        initial(start),
    ensures
        consistent(start, start),
{
    lemma_none_persisted(start.workers, 0);
    assert forall|account: u128| accepted(start.workers, account) == 0 by {
        lemma_none_persisted(start.workers, account);
    }
    let len = start.books.journal.len() as int;
    assert(start.books.journal.subrange(0, len) =~= start.books.journal);
    assert(start.books.journal.subrange(len, len) =~= Seq::<TransactionView>::empty());
}

/// Every move keeps the world consistent: whichever worker moves, and
/// whatever the store does to it.
pub proof fn law_move_keeps_consistent(start: World, world: World, choice: Choice)
    requires
        consistent(start, world),
        enabled(world, choice),
    ensures
        consistent(start, after(world, choice)),
{
    let me = world.workers[choice.worker];
    let mine = moved_worker(world, choice);
    let next = after(world, choice);
    let len0 = start.books.journal.len() as int;
    let len = world.books.journal.len() as int;
    assert(worker_fits(world.books, world.held, me));
    lemma_persisted_update(world.workers, choice.worker, mine);
    assert forall|account: u128|
        accepted(next.workers, account) == accepted(world.workers, account) + (if mine.state
            is Persisted && uuid_parsed(me.request.account_id) == Some(account) {
            movement(me.request)
        } else {
            0
        }) by {
        lemma_accepted_update(world.workers, choice.worker, mine, account);
    }
    assert(next.workers.len() == world.workers.len());
    match me.pending {
        ActionView::Persist { transaction, account, new_balance } => {
            if choice.write == WriteOutcome::Committed {
                let journal = world.books.journal.push(transaction);
                assert(next.books.journal == journal);
                assert(next.books.accounts.dom() =~= world.books.accounts.dom());
                assert(journal.subrange(0, len0) =~= world.books.journal.subrange(0, len0));
                assert(journal.subrange(len0, len + 1) =~= world.books.journal.subrange(
                    len0,
                    len,
                ).push(transaction));
                assert(journal.subrange(len0, len + 1).drop_last() =~= world.books.journal.subrange(
                    len0,
                    len,
                ));
                assert forall|i: int| 0 <= i < next.workers.len() implies worker_fits(
                    next.books,
                    next.held,
                    #[trigger] next.workers[i],
                ) by {
                    if i != choice.worker {
                        assert(next.workers[i] == world.workers[i]);
                        assert(worker_fits(world.books, world.held, world.workers[i]));
                        assert(world.workers[i].holding != Some(account));
                    }
                }
            } else {
                assert forall|i: int| 0 <= i < next.workers.len() implies worker_fits(
                    next.books,
                    next.held,
                    #[trigger] next.workers[i],
                ) by {
                    if i != choice.worker {
                        assert(next.workers[i] == world.workers[i]);
                        assert(worker_fits(world.books, world.held, world.workers[i]));
                        assert(world.workers[i].holding != Some(account));
                    }
                }
            }
        },
        _ => {
            assert(next.books == world.books);
            assert forall|i: int| 0 <= i < next.workers.len() implies worker_fits(
                next.books,
                next.held,
                #[trigger] next.workers[i],
            ) by {
                if i != choice.worker {
                    assert(next.workers[i] == world.workers[i]);
                    assert(worker_fits(world.books, world.held, world.workers[i]));
                    assert(world.workers[i].holding is Some ==> world.workers[i].holding
                        != me.holding);
                }
            }
        },
    }
    assert forall|i: int, j: int|
        0 <= i < next.workers.len() && 0 <= j < next.workers.len() && i != j && (
        #[trigger] next.workers[i]).holding is Some implies next.workers[i].holding != (
        #[trigger] next.workers[j]).holding by {
        assert(worker_fits(world.books, world.held, world.workers[i]));
        assert(worker_fits(world.books, world.held, world.workers[j]));
        if i != choice.worker && j != choice.worker {
            assert(next.workers[i] == world.workers[i]);
            assert(next.workers[j] == world.workers[j]);
        }
    }
}

/// No update is lost, whatever the interleaving: in every world that a run
/// reaches, each account's balance is its starting balance plus the
/// deposits minus the withdrawals of the requests against it that were
/// answered with success, the journal has gained exactly one record for
/// each of them, every balance is non-negative, and no account is held by
/// two requests.
pub proof fn law_no_lost_update_in_any_run(worlds: Seq<World>, choices: Seq<Choice>)
    requires
        is_run(worlds, choices),
    ensures
        consistent(worlds[0], worlds.last()),
    decreases choices.len(),
{
    if choices.len() == 0 {
        law_start_is_consistent(worlds[0]);
    } else {
        let earlier = worlds.drop_last();
        let k = choices.len() - 1;
        assert forall|n: int| 0 <= n < choices.drop_last().len() implies enabled(
            earlier[n],
            #[trigger] choices.drop_last()[n],
        ) && earlier[n + 1] == after(earlier[n], choices.drop_last()[n]) by {
            assert(choices.drop_last()[n] == choices[n]);
        }
        law_no_lost_update_in_any_run(earlier, choices.drop_last());
        assert(earlier.last() == worlds[k]);
        assert(enabled(worlds[k], choices[k]) && worlds[k + 1] == after(worlds[k], choices[k]));
        law_move_keeps_consistent(worlds[0], worlds[k], choices[k]);
    }
}

/// Where every request was against one account and was answered with
/// success, what was accepted is what was requested.
proof fn lemma_all_accepted(workers: Seq<Worker>, start: Seq<Worker>, account: u128)
    requires
        workers.len() == start.len(),
        forall|i: int|
            0 <= i < workers.len() ==> (#[trigger] workers[i]).request == start[i].request
                && workers[i].state is Persisted && uuid_parsed(workers[i].request.account_id)
                == Some(account),
    ensures
        accepted(workers, account) == requested(start),
    decreases workers.len(),
{
    if workers.len() > 0 {
        assert(workers.last().request == start.last().request);
        lemma_all_accepted(workers.drop_last(), start.drop_last(), account);
    }
}

/// Concurrent requests against one account: where a run, in whatever
/// interleaving, has answered every one of them with success, the balance
/// is the starting balance plus the deposits minus the withdrawals.
pub proof fn law_final_balance_in_any_run(
    worlds: Seq<World>,
    choices: Seq<Choice>,
    account: u128,
)
    requires
        is_run(worlds, choices),
        worlds[0].books.accounts.contains_key(account),
        forall|i: int|
            0 <= i < worlds.last().workers.len() ==> (#[trigger] worlds.last().workers[i]).state
                is Persisted && uuid_parsed(worlds.last().workers[i].request.account_id) == Some(
                account,
            ),
    ensures
        worlds.last().books.accounts[account].balance == worlds[0].books.accounts[account].balance
            + requested(worlds[0].workers),
{
    law_no_lost_update_in_any_run(worlds, choices);
    lemma_all_accepted(worlds.last().workers, worlds[0].workers, account);
    assert(worlds.last().books.accounts.contains_key(account));
}

} // verus!
