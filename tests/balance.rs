use personal_finance::balance::{
    is_credit, is_debit, split, to_balance, Balance, Credit, Debit, Transaction, TransactionMarker,
};

#[test]
fn tests_sum_trait_iter() {
    let vec = vec![
        Transaction::debit(50).unwrap(),
        Transaction::debit(20).unwrap(),
        Transaction::debit(30).unwrap(),
    ];

    let actual: Transaction<Debit> = Transaction::sum(&vec).unwrap();

    assert_eq!(actual.amount(), 100);
}

#[test]
fn tests_sum_trait_into_iter() {
    let vec = vec![
        Transaction::debit(50).unwrap(),
        Transaction::debit(20).unwrap(),
        Transaction::debit(30).unwrap(),
    ];

    let actual: Transaction<Debit> = Transaction::sum(vec.as_slice()).unwrap();

    assert_eq!(actual.amount(), 100);
}

#[test]
fn tests_split_transactions() {
    let vec = vec![
        Balance::debit(50).unwrap(),
        Balance::credit(20).unwrap(),
        Balance::debit(50).unwrap(),
    ];

    let (debits, credits) = split(vec);

    let debit_sum = Transaction::<Debit>::sum(&debits).unwrap();
    let credit_sum = Transaction::<Credit>::sum(&credits).unwrap();

    assert_eq!(debit_sum.amount(), 100);
    assert_eq!(credit_sum.amount(), 20);
}

#[test]
fn tests_to_balance_should_return_debit_balance_given_transaction_debit() {
    let debit = Transaction::debit(50).unwrap();
    let actual: Balance = debit.into();

    let expected = Balance::Debit(Transaction::debit(50).unwrap());
    assert_eq!(actual, expected);
}

#[test]
fn tests_to_balance_should_return_credit_balance_given_transaction_credit() {
    let credit = Transaction::credit(50).unwrap();
    let actual: Balance = credit.into();

    let expected = Balance::Credit(Transaction::credit(50).unwrap());
    assert_eq!(actual, expected);
}

#[test]
fn bookkeeping_tests_sum_trait_iter() {
    let vec = vec![
        Transaction::debit(50).unwrap(),
        Transaction::debit(20).unwrap(),
        Transaction::debit(30).unwrap(),
    ];

    let actual: Transaction<Debit> = Transaction::sum(&vec).unwrap();

    assert_eq!(actual.amount(), 100);
}

#[test]
fn bookkeeping_tests_sum_trait_into_iter() {
    let vec = vec![
        Transaction::debit(50).unwrap(),
        Transaction::debit(20).unwrap(),
        Transaction::debit(30).unwrap(),
    ];

    let actual: Transaction<Debit> = Transaction::sum(vec.as_slice()).unwrap();

    assert_eq!(actual.amount(), 100);
}

#[test]
fn bookkeeping_tests_split_transactions() {
    let vec = vec![
        to_balance(Transaction::debit(50).unwrap()),
        to_balance(Transaction::credit(20).unwrap()),
        to_balance(Transaction::debit(50).unwrap()),
    ];

    let (debits, credits) = split(vec);

    let debit_sum = Transaction::<Debit>::sum(&debits).unwrap();
    let credit_sum = Transaction::<Credit>::sum(&credits).unwrap();

    assert_eq!(debit_sum.amount(), 100);
    assert_eq!(credit_sum.amount(), 20);
}

#[test]
fn bookkeeping_tests_to_balance_should_return_debit_balance_given_transaction_debit() {
    let debit = Transaction::debit(50).unwrap();
    let actual = debit.into_balance();

    let expected = Balance::Debit(Transaction::debit(50).unwrap());
    assert_eq!(actual, expected);
}

#[test]
fn bookkeeping_tests_to_balance_should_return_credit_balance_given_transaction_credit() {
    let credit = Transaction::credit(50).unwrap();
    let actual = credit.into_balance();

    let expected = Balance::Credit(Transaction::credit(50).unwrap());
    assert_eq!(actual, expected);
}

#[test]
fn new_debit_test() {
    let actual = Transaction::debit(100).unwrap();
    assert_eq!(actual.amount(), 100);
    let actual = Transaction::debit(u32::MAX).unwrap();
    assert_eq!(actual.amount(), 4294967295);
    assert!(is_debit(&Balance::from(actual)));
}

#[test]
fn new_credit_test() {
    let actual = Transaction::credit(100).unwrap();
    assert_eq!(actual.amount(), 100);
    let actual = Transaction::credit(u32::MAX).unwrap();
    assert_eq!(actual.amount(), 4294967295);
    assert!(is_credit(&Balance::from(actual)));
}

#[test]
fn zero_amounts_are_refused() {
    assert_eq!(Transaction::debit(0), None);
    assert_eq!(Transaction::credit(0), None);
    assert_eq!(Balance::debit(0), None);
    assert_eq!(Balance::credit(0), None);
}

#[test]
fn transaction_debit_map() {
    let actual = Transaction::debit(50).unwrap().map(|x| x * 2);
    assert_eq!(actual.amount(), 100);
}

#[test]
fn transaction_credit_map() {
    let actual = Transaction::credit(50).unwrap().map(|x| x * 2);
    assert_eq!(actual.amount(), 100);
}

#[test]
fn sum_that_overflows_is_none() {
    let vec = vec![Transaction::debit(u32::MAX).unwrap(), Transaction::debit(1).unwrap()];
    assert_eq!(Transaction::sum(&vec), None);
    let empty: Vec<Transaction<Credit>> = Vec::new();
    assert_eq!(Transaction::sum(&empty).unwrap().amount(), 0);
}

#[test]
fn checked_add_adds_or_refuses() {
    let a = Transaction::credit(30).unwrap();
    let b = Transaction::credit(12).unwrap();
    assert_eq!(a.checked_add(b).unwrap().amount(), 42);
    let max = Transaction::credit(u32::MAX).unwrap();
    assert_eq!(max.checked_add(b), None);
}

#[test]
fn balance_amount_and_side() {
    let d = Balance::debit(7).unwrap();
    let c = Balance::credit(9).unwrap();
    assert_eq!(d.amount(), 7);
    assert_eq!(c.amount(), 9);
    assert!(is_debit(&d) && !is_credit(&d));
    assert!(is_credit(&c) && !is_debit(&c));
}
