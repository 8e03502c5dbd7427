use personal_finance::account::{Category, Name, Number};
use personal_finance::balance::{Balance, Transaction};
use personal_finance::date::Date;
use personal_finance::entry::{Account, Chart, DayBook, Journal};
use personal_finance::ledger::Ledger;

fn account(number: u32, name: &str, category: Category) -> Account {
    Account::new(Number::new(number).unwrap(), Name::new(name).unwrap(), category)
}

fn accounts() -> Vec<Account> {
    vec![
        account(101, "Bank account", Category::Asset),
        account(102, "Cash", Category::Asset),
        account(501, "Groceries", Category::Expenses),
    ]
}

#[test]
fn chart_insert_duplicate_gives_length_one() {
    let mut chart = Chart::new();

    chart.insert(account(101, "Test", Category::Expenses));
    chart.insert(account(101, "Duplicate number", Category::Asset));

    assert_eq!(chart.len(), 1);
}

#[test]
fn chart_insert_duplicate_returns_old() {
    let mut chart = Chart::new();

    chart.insert(account(101, "Test", Category::Expenses));
    let actual = chart.insert(account(101, "Duplicate number", Category::Asset));

    let expected = account(101, "Test", Category::Expenses);

    assert_eq!(actual, Some(expected));
}

#[test]
fn chart_insert_given_unique_account_returns_none() {
    let mut chart = Chart::new();

    let actual = chart.insert(account(101, "Test", Category::Income));

    assert_eq!(actual, None);
}

#[test]
fn chart_iter_empty() {
    let chart = Chart::new();

    let mut iter = chart.iter();

    assert_eq!(iter.next(), None);
}

#[test]
fn chart_iter_single() {
    let mut chart = Chart::new();

    let account = account(601, "Grocery", Category::Expenses);

    chart.insert(account.clone());

    let expected = vec![&account];

    let actual = chart.iter().collect::<Vec<_>>();

    assert_eq!(actual, expected);
}

#[test]
fn chart_iter_multiple() {
    let mut chart = Chart::new();

    let mut accounts = vec![
        account(201, "Credit Loan", Category::Liability),
        account(401, "Salary", Category::Income),
        account(502, "Phone", Category::Expenses),
        account(501, "Internet", Category::Expenses),
        account(202, "Bank Loan", Category::Liability),
        account(101, "Bank Account", Category::Asset),
    ];

    for account in &accounts {
        chart.insert(account.clone());
    }

    accounts.sort();
    let mut expected = Vec::new();
    for account in &accounts {
        expected.push(account);
    }

    let actual = chart.iter().collect::<Vec<_>>();

    assert_eq!(actual, expected);
}

#[test]
fn balanced_journal_should_be_valid() {
    let accounts = accounts();

    let mut journal = Journal::new(Date::from_ymd(2005, 4, 23).unwrap());

    journal.push(&accounts[1], Transaction::credit(50).unwrap());
    journal.push(&accounts[2], Transaction::debit(50).unwrap());

    let expected = journal.clone();

    let journal = journal.validate();

    assert!(journal.is_ok());
    let journal = journal.unwrap();
    assert_eq!(journal.as_slice(), expected.as_slice());
    assert_eq!(journal.date(), expected.date());
    assert_eq!(journal.description(), expected.description());
}

#[test]
fn balanced_journal_should_be_valid_given_split_transaction() {
    let accounts = accounts();

    let mut journal = Journal::new(Date::from_ymd(2005, 4, 23).unwrap());

    journal.push(&accounts[1], Transaction::credit(50).unwrap());
    journal.push(&accounts[2], Transaction::debit(10).unwrap());
    journal.push(&accounts[2], Transaction::debit(30).unwrap());
    journal.push(&accounts[2], Transaction::debit(10).unwrap());

    let expected = journal.clone();

    let journal = journal.validate();

    assert!(journal.is_ok());
    let journal = journal.unwrap();
    assert_eq!(journal.as_slice(), expected.as_slice());
    assert_eq!(journal.date(), expected.date());
}

#[test]
fn balanced_journal_should_be_invalid_given_non_zero_balance() {
    let accounts = accounts();

    let mut journal = Journal::new(Date::from_ymd(2005, 4, 23).unwrap());

    journal.push(&accounts[1], Transaction::credit(50).unwrap());
    journal.push(&accounts[2], Transaction::debit(52).unwrap());

    let journal = journal.validate();

    assert!(journal.is_err());
    let error = journal.unwrap_err();
    assert!(!error.is_overflow());
    assert_eq!(error.debit().amount(), 52);
    assert_eq!(error.credit().amount(), 50);
}

#[test]
fn journal_with_overflowing_totals_is_refused() {
    let accounts = accounts();
    let mut journal = Journal::new(Date::from_ymd(2005, 4, 23).unwrap());
    journal.push(&accounts[0], Transaction::debit(u32::MAX).unwrap());
    journal.push(&accounts[0], Transaction::debit(1).unwrap());
    journal.push(&accounts[1], Transaction::credit(u32::MAX).unwrap());
    journal.push(&accounts[1], Transaction::credit(1).unwrap());
    let error = journal.validate().unwrap_err();
    assert!(error.is_overflow());
    assert_eq!(error.debit().amount(), 0);
}

#[test]
fn journal_description_is_kept() {
    let accounts = accounts();
    let mut journal = Journal::new(Date::from_ymd(2005, 4, 23).unwrap());
    assert_eq!(journal.description(), None);
    journal.set_description(String::from("Weekly shopping"));
    journal.push(&accounts[0], Balance::credit(5).unwrap());
    journal.push(&accounts[2], Balance::debit(5).unwrap());
    let validated = journal.validate().unwrap();
    assert_eq!(validated.description(), Some(&String::from("Weekly shopping")));
    assert_eq!(validated.iter().count(), 2);
    assert_eq!(validated.as_slice()[0].account(), &accounts[0]);
    assert_eq!(validated.as_slice()[1].balance(), &Balance::debit(5).unwrap());
}

#[test]
fn day_book_keeps_journals_in_order() {
    let mut book = DayBook::new();
    book.push(Journal::new(Date::from_ymd(2020, 1, 1).unwrap()));
    book.push(Journal::new(Date::from_ymd(2020, 1, 2).unwrap()));
    assert_eq!(book.as_slice().len(), 2);
    assert_eq!(book.as_slice()[1].date().day(), 2);
}

#[test]
fn tests_ledger_iter() {
    let account = account(101, "test", Category::Asset);
    let other = self::account(301, "Equity", Category::Equity);
    let mut ledger = Ledger::new(&account);

    let transactions = vec![
        Balance::debit(150).unwrap(),
        Balance::debit(270).unwrap(),
        Balance::credit(50).unwrap(),
    ];
    let entries = vec![
        (Date::from_ymd(2021, 2, 10).unwrap(), transactions[0]),
        (Date::from_ymd(2021, 2, 15).unwrap(), transactions[1]),
        (Date::from_ymd(2021, 3, 5).unwrap(), transactions[2]),
    ];

    for (date, balance) in &entries {
        let mut journal = Journal::new(*date);
        journal.push(&account, *balance);
        let counter = match balance {
            Balance::Debit(t) => Balance::credit(t.amount()).unwrap(),
            Balance::Credit(t) => Balance::debit(t.amount()).unwrap(),
        };
        journal.push(&other, counter);
        let posted = ledger.push(&journal.validate().unwrap());
        assert_eq!(posted, 1);
    }

    let actual = ledger.iter().map(|e| (e.date(), e.transaction())).collect::<Vec<_>>();

    let expected = entries.iter().map(|(d, b)| (d, b)).collect::<Vec<_>>();

    assert_eq!(actual, expected);
}
