use ledger_engine::transaction::TransactionType;

#[test]
fn from_name_reads_the_five_names() {
    assert_eq!(TransactionType::from_name("deposit"), Some(TransactionType::Deposit));
    assert_eq!(TransactionType::from_name("withdrawal"), Some(TransactionType::Withdrawal));
    assert_eq!(TransactionType::from_name("dispute"), Some(TransactionType::Dispute));
    assert_eq!(TransactionType::from_name("resolve"), Some(TransactionType::Resolve));
    assert_eq!(TransactionType::from_name("chargeback"), Some(TransactionType::Chargeback));
}

#[test]
fn from_name_ignores_case() {
    assert_eq!(TransactionType::from_name("DEPOSIT"), Some(TransactionType::Deposit));
    assert_eq!(TransactionType::from_name("Withdrawal"), Some(TransactionType::Withdrawal));
    assert_eq!(TransactionType::from_name("dIsPuTe"), Some(TransactionType::Dispute));
    assert_eq!(TransactionType::from_name("ResolvE"), Some(TransactionType::Resolve));
    assert_eq!(TransactionType::from_name("CHARGEback"), Some(TransactionType::Chargeback));
}

#[test]
fn from_name_ignores_surrounding_whitespace() {
    assert_eq!(TransactionType::from_name("  deposit"), Some(TransactionType::Deposit));
    assert_eq!(TransactionType::from_name("withdrawal \t"), Some(TransactionType::Withdrawal));
    assert_eq!(TransactionType::from_name("\r\n Dispute \n"), Some(TransactionType::Dispute));
    assert_eq!(TransactionType::from_name("\x0cresolve\x0c"), Some(TransactionType::Resolve));
    assert_eq!(TransactionType::from_name(" \t CHARGEBACK \t "), Some(TransactionType::Chargeback));
}

#[test]
fn from_name_rejects_everything_else() {
    assert_eq!(TransactionType::from_name(""), None);
    assert_eq!(TransactionType::from_name("   "), None);
    assert_eq!(TransactionType::from_name("deposits"), None);
    assert_eq!(TransactionType::from_name("deposi"), None);
    assert_eq!(TransactionType::from_name("de posit"), None);
    assert_eq!(TransactionType::from_name("refund"), None);
    assert_eq!(TransactionType::from_name("withdraw"), None);
    assert_eq!(TransactionType::from_name("chargebacl"), None);
    assert_eq!(TransactionType::from_name("resolv\u{e9}"), None);
    assert_eq!(TransactionType::from_name("\u{a0}deposit"), None);
    assert_eq!(TransactionType::from_name("\x0bdeposit"), None);
    assert_eq!(TransactionType::from_name("D\u{45}posit"), Some(TransactionType::Deposit));
    assert_eq!(TransactionType::from_name("d`posit"), None);
    assert_eq!(TransactionType::from_name("[eposit"), None);
    assert_eq!(TransactionType::from_name("@eposit"), None);
}
