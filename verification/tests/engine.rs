use finance_control::engine::{
    advance, compute, lock, step, validate, Action, Event, Execution, Lookup, Order, Signal,
    TransactionRequest, WriteOutcome,
};
use finance_control::error::{ErrorKind, LedgerError};
use finance_control::models::bank_account::{AccountType, BankAccount};
use finance_control::models::transaction::{Transaction, TransactionType};

const ACCOUNT: &str = "7c9e6679-7425-40de-944b-e07fc1f90ae7";
const ACCOUNT_VALUE: u128 = 0x7c9e6679_7425_40de_944b_e07fc1f90ae7;

fn request(kind: i32, amount: i64) -> TransactionRequest {
    TransactionRequest {
        account_id: ACCOUNT.to_string(),
        transaction_type: kind,
        amount,
        description: Some("note".to_string()),
    }
}

fn account(balance: i64) -> BankAccount {
    BankAccount::opened(
        ACCOUNT_VALUE,
        "2024-01-01T00:00:00+00:00".to_string(),
        "Main".to_string(),
        balance,
        AccountType::CHECKING,
        Some(1),
    )
    .unwrap()
}

/// A request that holds the account above, read with the given balance.
fn holding(balance: i64, kind: i32, amount: i64) -> Execution {
    let (state, _) = step(Execution::receive(request(kind, amount)), Signal::Start);
    let (state, action) = step(state, Signal::Fetched(Lookup::Found(account(balance))));
    assert!(matches!(action, Action::Continue));
    state
}

/// Plays the store for one request: an account with the given balance under
/// the identifier above, and a journal. Returns the answer.
fn run(balance: &mut i64, journal: &mut Vec<Transaction>, request: TransactionRequest) -> Result<String, LedgerError> {
    let (state, action) = step(Execution::receive(request), Signal::Start);
    let wanted = match action {
        Action::FetchForUpdate { account } => account,
        Action::Nothing => match state {
            Execution::Aborted(error) => return Err(error),
            other => panic!("no action in {:?}", other),
        },
        other => panic!("unexpected {:?}", other),
    };
    let lookup = if wanted == ACCOUNT_VALUE { Lookup::Found(account(*balance)) } else { Lookup::Missing };
    let (state, action) = step(state, Signal::Fetched(lookup));
    match action {
        Action::Continue => assert!(matches!(state, Execution::AccountLocked { .. })),
        Action::Release => match state {
            Execution::Aborted(error) => return Err(error),
            other => panic!("released in {:?}", other),
        },
        other => panic!("unexpected {:?}", other),
    }
    let (state, action) = step(state, Signal::Proceed);
    match action {
        Action::Persist { transaction, account, new_balance } => {
            assert_eq!(account, ACCOUNT_VALUE);
            journal.push(transaction);
            *balance = new_balance;
        }
        Action::Release => match state {
            Execution::Aborted(error) => return Err(error),
            other => panic!("released in {:?}", other),
        },
        other => panic!("unexpected {:?}", other),
    }
    let (state, action) = step(state, Signal::Settled(WriteOutcome::Committed));
    assert!(matches!(action, Action::Nothing));
    assert!(state.is_final());
    match state {
        Execution::Persisted { transaction_id } => Ok(transaction_id),
        other => panic!("not persisted: {:?}", other),
    }
}

#[test]
fn end_to_end_example() {
    let mut balance: i64 = 10000;
    let mut journal: Vec<Transaction> = Vec::new();

    let first = run(&mut balance, &mut journal, request(1, 3000)).unwrap();
    assert_eq!(balance, 7000);
    assert_eq!(journal.len(), 1);
    assert_eq!(journal[0].id, first);
    assert_eq!(journal[0].amount, 3000);
    assert_eq!(journal[0].transaction_type, TransactionType::OUTCOME);
    assert_eq!(journal[0].origin_account_id, ACCOUNT);
    assert_eq!(journal[0].description, Some("note".to_string()));

    let second = run(&mut balance, &mut journal, request(1, 8000));
    assert_eq!(second, Err(LedgerError::InsufficientFunds));
    assert_eq!(balance, 7000);
    assert_eq!(journal.len(), 1);

    let third = run(&mut balance, &mut journal, request(0, 2500)).unwrap();
    assert_eq!(balance, 9500);
    assert_eq!(journal.len(), 2);
    assert_eq!(journal[1].id, third);
    assert_eq!(journal[1].amount, 2500);
    assert_eq!(journal[1].transaction_type, TransactionType::INCOME);
    assert_ne!(first, third);
}

#[test]
fn every_order_of_accepted_requests_ends_at_the_same_balance() {
    let requests: [(i32, i64); 4] = [(0, 700), (1, 300), (0, 50), (1, 1000)];
    let orders: [[usize; 4]; 3] = [[0, 1, 2, 3], [3, 2, 1, 0], [2, 0, 3, 1]];
    for order in orders {
        let mut balance: i64 = 2000;
        let mut journal: Vec<Transaction> = Vec::new();
        for index in order {
            let (kind, amount) = requests[index];
            assert!(run(&mut balance, &mut journal, request(kind, amount)).is_ok());
        }
        assert_eq!(balance, 2000 + 700 + 50 - 300 - 1000);
        assert_eq!(journal.len(), 4);
    }
}

#[test]
fn transaction_identifier_is_a_random_uuid() {
    let mut balance: i64 = 10;
    let mut journal: Vec<Transaction> = Vec::new();
    let id = run(&mut balance, &mut journal, request(0, 5)).unwrap();
    let parsed = uuid::Uuid::try_parse(&id).unwrap();
    assert_eq!(parsed.get_version_num(), 4);
    assert_eq!(parsed.to_string(), id);
    assert!(chrono::DateTime::parse_from_rfc3339(&journal[0].created_at).is_ok());
}

#[test]
fn unknown_kind_is_refused_before_the_store_is_asked() {
    for code in [2, -1, 7] {
        let (state, action) = step(Execution::receive(request(code, 100)), Signal::Start);
        assert!(matches!(state, Execution::Aborted(LedgerError::InvalidTransactionKind)));
        assert!(matches!(action, Action::Nothing));
        assert!(state.is_final());
    }
}

#[test]
fn amount_must_be_greater_than_zero() {
    for amount in [0, -1, i64::MIN] {
        for code in [0, 1] {
            let (state, action) = step(Execution::receive(request(code, amount)), Signal::Start);
            assert!(matches!(state, Execution::Aborted(LedgerError::NonPositiveAmount)));
            assert!(matches!(action, Action::Nothing));
        }
    }
}

#[test]
fn kind_is_checked_before_amount_and_amount_before_identifier() {
    let mut bad = request(9, 0);
    bad.account_id = "nonsense".to_string();
    let (state, _) = step(Execution::receive(bad), Signal::Start);
    assert!(matches!(state, Execution::Aborted(LedgerError::InvalidTransactionKind)));
    let mut bad = request(1, 0);
    bad.account_id = "nonsense".to_string();
    let (state, _) = step(Execution::receive(bad), Signal::Start);
    assert!(matches!(state, Execution::Aborted(LedgerError::NonPositiveAmount)));
}

#[test]
fn malformed_account_identifier_is_refused() {
    let mut bad = request(1, 10);
    bad.account_id = "7c9e6679-7425-40de-944b".to_string();
    let (state, action) = step(Execution::receive(bad), Signal::Start);
    assert!(matches!(state, Execution::Aborted(LedgerError::MalformedAccountId)));
    assert!(matches!(action, Action::Nothing));
}

#[test]
fn valid_request_asks_for_the_account() {
    let mut upper = request(1, 10);
    upper.account_id = ACCOUNT.to_uppercase();
    let (state, action) = step(Execution::receive(upper), Signal::Start);
    assert!(!state.is_final());
    match action {
        Action::FetchForUpdate { account } => assert_eq!(account, ACCOUNT_VALUE),
        other => panic!("unexpected {:?}", other),
    }
    match state {
        Execution::Validated(order) => {
            assert_eq!(order.account, ACCOUNT_VALUE);
            assert_eq!(order.kind, TransactionType::OUTCOME);
            assert_eq!(order.amount, 10);
            assert_eq!(order.account_id, ACCOUNT.to_uppercase());
            assert_eq!(order.description, Some("note".to_string()));
        }
        other => panic!("unexpected {:?}", other),
    }
}

#[test]
fn missing_account_is_reported() {
    let (state, _) = step(Execution::receive(request(0, 10)), Signal::Start);
    let (state, action) = step(state, Signal::Fetched(Lookup::Missing));
    assert!(matches!(state, Execution::Aborted(LedgerError::AccountNotFound)));
    assert!(matches!(action, Action::Release));
}

#[test]
fn failing_read_is_a_persistence_error() {
    let (state, _) = step(Execution::receive(request(0, 10)), Signal::Start);
    let (state, action) = step(state, Signal::Fetched(Lookup::Unavailable));
    assert!(matches!(state, Execution::Aborted(LedgerError::Persistence)));
    assert!(matches!(action, Action::Release));
}

#[test]
fn another_account_than_the_one_asked_for_is_a_persistence_error() {
    let (state, _) = step(Execution::receive(request(0, 10)), Signal::Start);
    let mut stranger = account(100);
    stranger.id = ACCOUNT_VALUE + 1;
    let (state, action) = step(state, Signal::Fetched(Lookup::Found(stranger)));
    assert!(matches!(state, Execution::Aborted(LedgerError::Persistence)));
    assert!(matches!(action, Action::Release));
}

#[test]
fn deposit_beyond_the_range_is_refused() {
    let (state, action) = step(holding(i64::MAX, 0, 1), Signal::Proceed);
    assert!(matches!(state, Execution::Aborted(LedgerError::BalanceOutOfRange)));
    assert!(matches!(action, Action::Release));

    let (_, action) = step(holding(i64::MAX - 1, 0, 1), Signal::Proceed);
    match action {
        Action::Persist { new_balance, .. } => assert_eq!(new_balance, i64::MAX),
        other => panic!("unexpected {:?}", other),
    }
}

#[test]
fn withdrawal_of_the_whole_balance_is_accepted() {
    let (state, action) = step(holding(500, 1, 500), Signal::Proceed);
    assert!(matches!(state, Execution::Computed { account: ACCOUNT_VALUE, .. }));
    match action {
        Action::Persist { transaction, account, new_balance } => {
            assert_eq!(new_balance, 0);
            assert_eq!(account, ACCOUNT_VALUE);
            assert_eq!(transaction.amount, 500);
            assert_eq!(transaction.transaction_type, TransactionType::OUTCOME);
        }
        other => panic!("unexpected {:?}", other),
    }
}

#[test]
fn withdrawal_of_one_more_than_the_balance_is_refused() {
    let (state, action) = step(holding(500, 1, 501), Signal::Proceed);
    assert!(matches!(state, Execution::Aborted(LedgerError::InsufficientFunds)));
    assert!(matches!(action, Action::Release));
}

#[test]
fn failed_write_is_a_persistence_error() {
    for outcome in [WriteOutcome::Conflict, WriteOutcome::Failed] {
        let (state, action) = step(holding(0, 0, 10), Signal::Proceed);
        assert!(matches!(action, Action::Persist { .. }));
        let (state, action) = step(state, Signal::Settled(outcome));
        assert!(matches!(state, Execution::Aborted(LedgerError::Persistence)));
        assert!(matches!(action, Action::Nothing));
    }
}

#[test]
fn signal_out_of_turn_changes_nothing() {
    let (state, action) =
        step(Execution::receive(request(0, 10)), Signal::Settled(WriteOutcome::Committed));
    assert!(matches!(state, Execution::Received(_)));
    assert!(matches!(action, Action::Nothing));
    let (state, action) = step(state, Signal::Fetched(Lookup::Found(account(5))));
    assert!(matches!(state, Execution::Received(_)));
    assert!(matches!(action, Action::Nothing));
    let (state, _) = step(state, Signal::Start);
    let (state, action) = step(state, Signal::Start);
    assert!(matches!(state, Execution::Validated(_)));
    assert!(matches!(action, Action::Nothing));
    let (state, action) = step(state, Signal::Proceed);
    assert!(matches!(state, Execution::Validated(_)));
    assert!(matches!(action, Action::Nothing));
    let (state, action) = step(holding(5, 0, 1), Signal::Settled(WriteOutcome::Committed));
    assert!(matches!(state, Execution::AccountLocked { balance: 5, .. }));
    assert!(matches!(action, Action::Nothing));
    let (state, action) = step(Execution::Aborted(LedgerError::NonPositiveAmount), Signal::Start);
    assert!(matches!(state, Execution::Aborted(LedgerError::NonPositiveAmount)));
    assert!(matches!(action, Action::Nothing));
    let (state, action) =
        step(Execution::Persisted { transaction_id: "id".to_string() }, Signal::Start);
    assert!(matches!(action, Action::Nothing));
    match state {
        Execution::Persisted { transaction_id } => assert_eq!(transaction_id, "id"),
        other => panic!("unexpected {:?}", other),
    }
}

#[test]
fn advance_uses_the_identifier_and_time_it_is_given() {
    let state = Execution::receive(request(1, 40));
    let (state, _) = advance(state, Event::Start { account: Some(ACCOUNT_VALUE) });
    let (state, action) = advance(state, Event::Fetched(Lookup::Found(account(100))));
    assert!(matches!(action, Action::Continue));
    match &state {
        Execution::AccountLocked { order, balance } => {
            assert_eq!(*balance, 100);
            assert_eq!(order.amount, 40);
            assert_eq!(order.account, ACCOUNT_VALUE);
        }
        other => panic!("unexpected {:?}", other),
    }
    let (state, action) = advance(
        state,
        Event::Proceed { id: "the-id".to_string(), created_at: "the-time".to_string() },
    );
    match action {
        Action::Persist { transaction, account, new_balance } => {
            assert_eq!(transaction.id, "the-id");
            assert_eq!(transaction.created_at, "the-time");
            assert_eq!(transaction.amount, 40);
            assert_eq!(transaction.origin_account_id, ACCOUNT);
            assert_eq!(account, ACCOUNT_VALUE);
            assert_eq!(new_balance, 60);
        }
        other => panic!("unexpected {:?}", other),
    }
    let (state, _) = advance(state, Event::Settled(WriteOutcome::Committed));
    match state {
        Execution::Persisted { transaction_id } => assert_eq!(transaction_id, "the-id"),
        other => panic!("unexpected {:?}", other),
    }
}

#[test]
fn advance_takes_the_account_identifier_as_read() {
    let (state, action) = advance(Execution::receive(request(1, 40)), Event::Start { account: None });
    assert!(matches!(state, Execution::Aborted(LedgerError::MalformedAccountId)));
    assert!(matches!(action, Action::Nothing));
}

#[test]
fn validate_and_compute() {
    let order: Order = validate(request(0, 25), Some(3)).unwrap();
    assert_eq!(order.account, 3);
    assert_eq!(order.kind, TransactionType::INCOME);
    assert_eq!(order.amount, 25);
    let (transaction, balance) =
        compute(order, 75, "id".to_string(), "now".to_string()).unwrap();
    assert_eq!(balance, 100);
    assert_eq!(transaction.amount, 25);
    assert_eq!(transaction.transaction_type, TransactionType::INCOME);
    assert_eq!(transaction.id, "id");
    assert_eq!(transaction.created_at, "now");
    let zero: Order = Order {
        account: 3,
        account_id: "3".to_string(),
        kind: TransactionType::INCOME,
        amount: 0,
        description: None,
    };
    assert_eq!(
        compute(zero, 75, "id".to_string(), "now".to_string()).unwrap_err(),
        LedgerError::NonPositiveAmount
    );
    assert_eq!(validate(request(0, 25), None).unwrap_err(), LedgerError::MalformedAccountId);
    assert_eq!(validate(request(5, 25), Some(3)).unwrap_err(), LedgerError::InvalidTransactionKind);
    assert_eq!(validate(request(1, 0), Some(3)).unwrap_err(), LedgerError::NonPositiveAmount);
}

#[test]
fn errors_fall_into_their_classes() {
    let expected = [
        (LedgerError::InvalidTransactionKind, ErrorKind::InvalidArgument, "Invalid transaction type"),
        (LedgerError::NonPositiveAmount, ErrorKind::InvalidArgument, "The amount must be greater than zero"),
        (LedgerError::InvalidAccountKind, ErrorKind::InvalidArgument, "Invalid account type"),
        (LedgerError::MalformedAccountId, ErrorKind::InvalidArgument, "Failed to parse account id as a UUID"),
        (LedgerError::MalformedUserId, ErrorKind::InvalidArgument, "Failed to parse user id as a UUID"),
        (LedgerError::NegativeOpeningBalance, ErrorKind::InvalidArgument, "The initial balance must not be negative"),
        (LedgerError::BalanceOutOfRange, ErrorKind::InvalidArgument, "The amount is too large for the account"),
        (LedgerError::EmailAlreadyInUse, ErrorKind::InvalidArgument, "Email already in use"),
        (LedgerError::AccountNotFound, ErrorKind::NotFound, "Bank account not found"),
        (LedgerError::UserNotFound, ErrorKind::NotFound, "User not found"),
        (LedgerError::InsufficientFunds, ErrorKind::InsufficientFunds, "The account does not have enough funds for the transfer"),
        (LedgerError::Persistence, ErrorKind::Persistence, "Internal server error"),
        (LedgerError::CredentialHashing, ErrorKind::CredentialHashingFailure, "Error at hashing password"),
    ];
    for (error, kind, text) in expected {
        assert_eq!(error.kind(), kind);
        assert_eq!(error.message(), text);
        let internal = kind == ErrorKind::Persistence || kind == ErrorKind::CredentialHashingFailure;
        assert_eq!(error.recoverable(), !internal);
    }
}

#[test]
fn unit_of_work_is_classified_from_what_the_store_reported() {
    assert_eq!(WriteOutcome::classify(Some(1), Some(1), true), WriteOutcome::Committed);
    assert_eq!(WriteOutcome::classify(Some(1), Some(1), false), WriteOutcome::Failed);
    assert_eq!(WriteOutcome::classify(Some(1), Some(0), true), WriteOutcome::Conflict);
    assert_eq!(WriteOutcome::classify(Some(1), Some(2), true), WriteOutcome::Conflict);
    assert_eq!(WriteOutcome::classify(Some(1), Some(0), false), WriteOutcome::Conflict);
    assert_eq!(WriteOutcome::classify(Some(1), None, true), WriteOutcome::Failed);
    assert_eq!(WriteOutcome::classify(None, Some(1), true), WriteOutcome::Failed);
    assert_eq!(WriteOutcome::classify(Some(0), Some(1), true), WriteOutcome::Failed);
    assert_eq!(WriteOutcome::classify(Some(2), Some(1), true), WriteOutcome::Failed);
    assert_eq!(WriteOutcome::classify(None, None, false), WriteOutcome::Failed);
}

#[test]
fn lock_takes_the_account_asked_for_and_no_other() {
    let order: Order = validate(request(1, 5), Some(ACCOUNT_VALUE)).unwrap();
    let held = lock(&order, Lookup::Found(account(30))).unwrap();
    assert_eq!(held.id, ACCOUNT_VALUE);
    assert_eq!(held.balance, 30);
    let mut stranger = account(30);
    stranger.id = 1;
    assert_eq!(lock(&order, Lookup::Found(stranger)).unwrap_err(), LedgerError::Persistence);
    assert_eq!(lock(&order, Lookup::Missing).unwrap_err(), LedgerError::AccountNotFound);
    assert_eq!(lock(&order, Lookup::Unavailable).unwrap_err(), LedgerError::Persistence);
}
