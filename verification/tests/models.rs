use finance_control::models::bank_account::{
    AccountRow, AccountType, BankAccount, BankAccountError, BankAccountErrorType,
};
use finance_control::models::transaction::{Transaction, TransactionType};
use finance_control::models::user::{Password, User};

const OWNER: &str = "550e8400-e29b-41d4-a716-446655440000";
const OWNER_VALUE: u128 = 0x550e8400_e29b_41d4_a716_446655440000;

fn account_with(balance: i64) -> BankAccount {
    BankAccount::new("Main".to_string(), balance, AccountType::CHECKING, OWNER.to_string())
        .expect("a well-formed owner identifier")
}

fn movement(kind: TransactionType, amount: i64, account: &BankAccount) -> Transaction {
    let origin = uuid::Uuid::from_u128(account.id).to_string();
    Transaction::new(amount, kind, origin, None)
}

#[test]
fn account_kind_is_read_from_its_name() {
    assert_eq!(AccountType::from_raw_string("CHECKING"), Ok(AccountType::CHECKING));
    assert_eq!(AccountType::from_raw_string("INVESTMENT"), Ok(AccountType::INVESTMENT));
    assert_eq!(AccountType::from_raw_string("CASH"), Ok(AccountType::CASH));
}

#[test]
fn unknown_account_kind_is_refused() {
    for raw in ["SAVINGS", "checking", "", "CASH ", " CASH", "CHECKINGS"] {
        let refused = AccountType::from_raw_string(raw);
        assert_eq!(refused, Err(BankAccountError::account_type()));
        assert_eq!(refused.unwrap_err().action, BankAccountErrorType::InvalidAccountType);
    }
}

#[test]
fn account_kind_name_reads_back() {
    for kind in [AccountType::CHECKING, AccountType::INVESTMENT, AccountType::CASH] {
        assert_eq!(AccountType::from_raw_string(&kind.name()), Ok(kind));
    }
    assert_eq!(AccountType::CASH.name(), "CASH");
    assert_eq!(AccountType::CHECKING.name(), "CHECKING");
    assert_eq!(AccountType::INVESTMENT.name(), "INVESTMENT");
}

#[test]
fn account_error_messages() {
    assert_eq!(BankAccountError::account_type().message(), "Invalid account type");
    assert_eq!(BankAccountError::user_id_parse().message(), "Failed to parse user id as a UUID");
    assert_eq!(
        BankAccountError::not_enough_funds().message(),
        "The account don't have enough funds to complete the transaction"
    );
    assert_eq!(
        BankAccountError::new(BankAccountErrorType::NotEnoughFunds),
        BankAccountError::not_enough_funds()
    );
}

#[test]
fn transaction_kind_is_read_from_its_code() {
    assert_eq!(TransactionType::from_proto(&0), Ok(TransactionType::INCOME));
    assert_eq!(TransactionType::from_proto(&1), Ok(TransactionType::OUTCOME));
    for code in [2, -1, i32::MAX, i32::MIN] {
        assert_eq!(TransactionType::from_proto(&code), Err("Invalid transaction type".to_string()));
    }
    assert_eq!(TransactionType::INCOME.name(), "INCOME");
    assert_eq!(TransactionType::OUTCOME.name(), "OUTCOME");
}

#[test]
fn new_account_takes_its_fields_and_a_random_identifier() {
    let account = account_with(10000);
    assert_eq!(account.name, "Main");
    assert_eq!(account.balance, 10000);
    assert_eq!(account.account_type, AccountType::CHECKING);
    assert_eq!(account.user_id, OWNER_VALUE);
    assert_eq!(uuid::Uuid::from_u128(account.id).get_version_num(), 4);
    assert_eq!(account.id & 0xF000_C000_0000_0000_0000, 0x4000_8000_0000_0000_0000);
    assert!(chrono::DateTime::parse_from_rfc3339(&account.created_at).is_ok());
    let other = account_with(10000);
    assert_ne!(account.id, other.id);
}

#[test]
fn new_account_reads_every_form_of_owner_identifier() {
    for text in [
        "550e8400e29b41d4a716446655440000",
        "550E8400-E29B-41D4-A716-446655440000",
        "urn:uuid:550e8400-e29b-41d4-a716-446655440000",
        "{550e8400-e29b-41d4-a716-446655440000}",
    ] {
        let account =
            BankAccount::new("Main".to_string(), 0, AccountType::CASH, text.to_string()).unwrap();
        assert_eq!(account.user_id, OWNER_VALUE);
    }
}

#[test]
fn new_account_refuses_a_malformed_owner_identifier() {
    for text in ["", "not-a-uuid", "550e8400-e29b-41d4-a716-44665544000", "550e8400-e29b-41d4-a716-44665544000g"] {
        let refused =
            BankAccount::new("Main".to_string(), 5, AccountType::CASH, text.to_string());
        assert_eq!(refused.unwrap_err().action, BankAccountErrorType::UserIdParse);
    }
}

#[test]
fn opened_account_holds_what_it_was_given() {
    let account = BankAccount::opened(
        7,
        "2024-01-01T00:00:00+00:00".to_string(),
        "Rainy day".to_string(),
        250,
        AccountType::INVESTMENT,
        Some(9),
    )
    .unwrap();
    assert_eq!(account.id, 7);
    assert_eq!(account.created_at, "2024-01-01T00:00:00+00:00");
    assert_eq!(account.name, "Rainy day");
    assert_eq!(account.balance, 250);
    assert_eq!(account.account_type, AccountType::INVESTMENT);
    assert_eq!(account.user_id, 9);
    let refused = BankAccount::opened(7, String::new(), String::new(), 0, AccountType::CASH, None);
    assert_eq!(refused.unwrap_err(), BankAccountError::user_id_parse());
}

#[test]
fn withdrawal_within_balance_lowers_it() {
    let mut account = account_with(500);
    let withdrawal = movement(TransactionType::OUTCOME, 200, &account);
    assert_eq!(account.update_balance(&withdrawal), Ok(()));
    assert_eq!(account.balance, 300);
    let all = movement(TransactionType::OUTCOME, 300, &account);
    assert_eq!(account.update_balance(&all), Ok(()));
    assert_eq!(account.balance, 0);
}

#[test]
fn withdrawal_beyond_balance_is_refused() {
    let mut account = account_with(500);
    let id = account.id;
    let withdrawal = movement(TransactionType::OUTCOME, 501, &account);
    assert_eq!(account.update_balance(&withdrawal), Err(BankAccountError::not_enough_funds()));
    assert_eq!(account.balance, 500);
    assert_eq!(account.id, id);
    assert_eq!(account.name, "Main");
}

#[test]
fn deposit_raises_the_balance() {
    let mut account = account_with(0);
    let deposit = movement(TransactionType::INCOME, 1, &account);
    assert_eq!(account.update_balance(&deposit), Ok(()));
    assert_eq!(account.balance, 1);
    let large = movement(TransactionType::INCOME, i64::MAX - 1, &account);
    assert_eq!(account.update_balance(&large), Ok(()));
    assert_eq!(account.balance, i64::MAX);
}

#[test]
fn open_withdraw_overdraw_deposit() {
    let mut account = account_with(10000);
    let first = movement(TransactionType::OUTCOME, 3000, &account);
    assert_eq!(account.update_balance(&first), Ok(()));
    assert_eq!(account.balance, 7000);
    let second = movement(TransactionType::OUTCOME, 8000, &account);
    assert_eq!(account.update_balance(&second), Err(BankAccountError::not_enough_funds()));
    assert_eq!(account.balance, 7000);
    let third = movement(TransactionType::INCOME, 2500, &account);
    assert_eq!(account.update_balance(&third), Ok(()));
    assert_eq!(account.balance, 9500);
}

#[test]
fn the_order_of_movements_does_not_change_the_balance() {
    let amounts = [
        (TransactionType::INCOME, 700),
        (TransactionType::OUTCOME, 300),
        (TransactionType::INCOME, 50),
        (TransactionType::OUTCOME, 1000),
    ];
    let orders: [[usize; 4]; 3] = [[0, 1, 2, 3], [3, 2, 1, 0], [2, 0, 3, 1]];
    for order in orders {
        let mut account = account_with(2000);
        for index in order {
            let (kind, amount) = amounts[index];
            let step = movement(kind, amount, &account);
            assert_eq!(account.update_balance(&step), Ok(()));
        }
        assert_eq!(account.balance, 2000 + 700 + 50 - 300 - 1000);
    }
}

#[test]
fn stored_row_becomes_an_account() {
    let row = AccountRow {
        id: 11,
        name: "Wallet".to_string(),
        balance: 12345,
        kind: "CASH".to_string(),
        user_id: 22,
        created_at: "2023-05-06 07:08:09".to_string(),
    };
    let account = BankAccount::from_pg_row(row).unwrap();
    assert_eq!(account.id, 11);
    assert_eq!(account.name, "Wallet");
    assert_eq!(account.balance, 12345);
    assert_eq!(account.account_type, AccountType::CASH);
    assert_eq!(account.user_id, 22);
    assert_eq!(account.created_at, "2023-05-06 07:08:09");
}

#[test]
fn stored_row_of_unknown_kind_is_refused() {
    let row = AccountRow {
        id: 11,
        name: "Wallet".to_string(),
        balance: 12345,
        kind: "SAVINGS".to_string(),
        user_id: 22,
        created_at: String::new(),
    };
    assert_eq!(BankAccount::from_pg_row(row).unwrap_err(), BankAccountError::account_type());
}

#[test]
fn new_transaction_takes_its_fields_and_a_random_identifier() {
    let transaction = Transaction::new(
        3000,
        TransactionType::OUTCOME,
        OWNER.to_string(),
        Some("rent".to_string()),
    );
    assert_eq!(transaction.amount, 3000);
    assert_eq!(transaction.transaction_type, TransactionType::OUTCOME);
    assert_eq!(transaction.origin_account_id, OWNER);
    assert_eq!(transaction.description, Some("rent".to_string()));
    assert_eq!(transaction.id.len(), 36);
    let id = uuid::Uuid::try_parse(&transaction.id).unwrap();
    assert_eq!(id.get_version_num(), 4);
    assert_eq!(id.to_string(), transaction.id);
    assert!(chrono::DateTime::parse_from_rfc3339(&transaction.created_at).is_ok());
    let other = Transaction::new(3000, TransactionType::OUTCOME, OWNER.to_string(), None);
    assert_ne!(other.id, transaction.id);
    assert_eq!(other.description, None);
}

#[test]
fn stamped_transaction_holds_what_it_was_given() {
    let transaction = Transaction::stamped(
        "id".to_string(),
        "then".to_string(),
        1,
        TransactionType::INCOME,
        "account".to_string(),
        None,
    );
    assert_eq!(transaction.id, "id");
    assert_eq!(transaction.created_at, "then");
    assert_eq!(transaction.amount, 1);
    assert_eq!(transaction.transaction_type, TransactionType::INCOME);
    assert_eq!(transaction.origin_account_id, "account");
    assert_eq!(transaction.description, None);
}

#[test]
fn password_is_replaced_by_its_hash() {
    let mut password = Password::new("hunter2".to_string());
    assert_eq!(password.value, "hunter2");
    assert_eq!(password.get_hashed_value(), Ok(()));
    assert_ne!(password.value, "hunter2");
    assert!(password.value.starts_with("$argon2id$"));
    let mut again = Password::new("hunter2".to_string());
    assert_eq!(again.get_hashed_value(), Ok(()));
    assert_ne!(again.value, password.value);
}

#[test]
fn password_keeps_its_value_where_hashing_failed() {
    let mut password = Password::new("hunter2".to_string());
    assert_eq!(password.store_digest(None), Err("Error at hashing password".to_string()));
    assert_eq!(password.value, "hunter2");
    assert_eq!(password.store_digest(Some("digest".to_string())), Ok(()));
    assert_eq!(password.value, "digest");
}

#[test]
fn new_user_keeps_a_hashed_credential() {
    let user = User::new("Ann".to_string(), "ann@example.com".to_string(), "hunter2".to_string())
        .unwrap();
    assert_eq!(user.name, "Ann");
    assert_eq!(user.email, "ann@example.com");
    assert!(user.password.value.starts_with("$argon2id$"));
    let id = uuid::Uuid::try_parse(&user.id).unwrap();
    assert_eq!(id.get_version_num(), 4);
    assert_eq!(id.to_string(), user.id);
    assert!(chrono::DateTime::parse_from_rfc3339(&user.created_at).is_ok());
}

#[test]
fn enrolled_user_holds_what_it_was_given() {
    let user = User::enrolled(
        "id".to_string(),
        "then".to_string(),
        "Ann".to_string(),
        "ann@example.com".to_string(),
        Some("digest".to_string()),
    )
    .unwrap();
    assert_eq!(user.id, "id");
    assert_eq!(user.created_at, "then");
    assert_eq!(user.name, "Ann");
    assert_eq!(user.email, "ann@example.com");
    assert_eq!(user.password.value, "digest");
    let refused = User::enrolled(String::new(), String::new(), String::new(), String::new(), None);
    assert_eq!(refused.unwrap_err(), "Error at hashing password");
}

#[test]
fn stored_user_gets_a_hyphenated_identifier() {
    for text in [
        "550E8400-E29B-41D4-A716-446655440000",
        "550e8400e29b41d4a716446655440000",
        "{550e8400-e29b-41d4-a716-446655440000}",
        OWNER,
    ] {
        let user = User::from_db(
            text.to_string(),
            "Ann".to_string(),
            "ann@example.com".to_string(),
            "digest".to_string(),
            "2024-01-01".to_string(),
        )
        .unwrap();
        assert_eq!(user.id, OWNER);
        assert_eq!(user.name, "Ann");
        assert_eq!(user.email, "ann@example.com");
        assert_eq!(user.password.value, "digest");
        assert_eq!(user.created_at, "2024-01-01");
    }
}

#[test]
fn stored_user_with_a_malformed_identifier_is_refused() {
    let refused = User::from_db(
        "12345".to_string(),
        "Ann".to_string(),
        "ann@example.com".to_string(),
        "digest".to_string(),
        "2024-01-01".to_string(),
    );
    assert_eq!(refused.unwrap_err(), "Failed to parse user_id as UUID");
    let restored = User::restored(None, String::new(), String::new(), String::new(), String::new());
    assert_eq!(restored.unwrap_err(), "Failed to parse user_id as UUID");
    let kept = User::restored(
        Some("id".to_string()),
        "Ann".to_string(),
        "ann@example.com".to_string(),
        "digest".to_string(),
        "then".to_string(),
    )
    .unwrap();
    assert_eq!(kept.id, "id");
    assert_eq!(kept.password.value, "digest");
}

#[test]
fn hashed_password_is_the_argon2_hash_of_the_raw_text() {
    let mut password = Password::new("hunter2".to_string());
    assert_eq!(password.get_hashed_value(), Ok(()));
    let parsed = argon2::PasswordHash::new(&password.value).unwrap();
    assert_eq!(parsed.algorithm.as_str(), "argon2id");
    let hasher = argon2::Argon2::default();
    assert!(argon2::PasswordVerifier::verify_password(&hasher, b"hunter2", &parsed).is_ok());
    assert!(argon2::PasswordVerifier::verify_password(&hasher, b"hunter3", &parsed).is_err());
}

#[test]
fn new_user_credential_is_the_argon2_hash_of_the_raw_text() {
    let user = User::new("Ann".to_string(), "ann@example.com".to_string(), "s3cret".to_string())
        .unwrap();
    let parsed = argon2::PasswordHash::new(&user.password.value).unwrap();
    let hasher = argon2::Argon2::default();
    assert!(argon2::PasswordVerifier::verify_password(&hasher, b"s3cret", &parsed).is_ok());
    assert!(argon2::PasswordVerifier::verify_password(&hasher, b"", &parsed).is_err());
}
