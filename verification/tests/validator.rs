use finance_control::error::LedgerError;
use finance_control::identity::same_text;
use finance_control::layers::authorization::AuthorizationLayer;
use finance_control::models::bank_account::AccountType;
use finance_control::models::transaction::TransactionType;
use finance_control::validator::{
    check_amount, check_sufficiency, parse_account_kind, parse_transaction_kind,
};

#[test]
fn account_kind_parses_or_is_an_invalid_argument() {
    assert_eq!(parse_account_kind("CHECKING"), Ok(AccountType::CHECKING));
    assert_eq!(parse_account_kind("INVESTMENT"), Ok(AccountType::INVESTMENT));
    assert_eq!(parse_account_kind("CASH"), Ok(AccountType::CASH));
    assert_eq!(parse_account_kind("SAVINGS"), Err(LedgerError::InvalidAccountKind));
    assert_eq!(parse_account_kind("cash"), Err(LedgerError::InvalidAccountKind));
}

#[test]
fn transaction_kind_parses_or_is_an_invalid_argument() {
    assert_eq!(parse_transaction_kind(0), Ok(TransactionType::INCOME));
    assert_eq!(parse_transaction_kind(1), Ok(TransactionType::OUTCOME));
    assert_eq!(parse_transaction_kind(2), Err(LedgerError::InvalidTransactionKind));
    assert_eq!(parse_transaction_kind(-1), Err(LedgerError::InvalidTransactionKind));
}

#[test]
fn amount_is_checked_against_zero() {
    assert_eq!(check_amount(1), Ok(()));
    assert_eq!(check_amount(i64::MAX), Ok(()));
    assert_eq!(check_amount(0), Err(LedgerError::NonPositiveAmount));
    assert_eq!(check_amount(-1), Err(LedgerError::NonPositiveAmount));
    assert_eq!(check_amount(i64::MIN), Err(LedgerError::NonPositiveAmount));
}

#[test]
fn sufficiency_constrains_withdrawals_only() {
    assert_eq!(check_sufficiency(TransactionType::OUTCOME, 100, 100), Ok(()));
    assert_eq!(check_sufficiency(TransactionType::OUTCOME, 99, 100), Ok(()));
    assert_eq!(
        check_sufficiency(TransactionType::OUTCOME, 101, 100),
        Err(LedgerError::InsufficientFunds)
    );
    assert_eq!(check_sufficiency(TransactionType::OUTCOME, 1, 0), Err(LedgerError::InsufficientFunds));
    assert_eq!(check_sufficiency(TransactionType::INCOME, 101, 100), Ok(()));
    assert_eq!(check_sufficiency(TransactionType::INCOME, i64::MAX, 0), Ok(()));
}

#[test]
fn texts_are_compared_letter_for_letter() {
    assert!(same_text("CASH", "CASH"));
    assert!(same_text("", ""));
    assert!(!same_text("CASH", "cash"));
    assert!(!same_text("CASH", "CASH "));
}

#[test]
fn authorization_layer_wraps_and_lets_through() {
    let layer = AuthorizationLayer::default();
    let wrapped = layer.layer(41_u8);
    assert_eq!(wrapped.inner, 41);
    assert!(layer.permits());
}
