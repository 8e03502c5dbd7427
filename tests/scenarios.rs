use personal_finance::account::{Category, Name, Number};
use personal_finance::balance::Balance;
use personal_finance::behaviour;
use personal_finance::date::Date;
use personal_finance::error::{AccountError, JournalError, TransactionError};
use personal_finance::events::Event;
use personal_finance::handler::CommandHandler;
use personal_finance::store::{EventStorage, InMemoryStore};
use personal_finance::write::chart::Chart;
use personal_finance::write::journal::Journal;
use personal_finance::write::ledger::{Ledger, LedgerId};

fn main_ledger() -> LedgerId {
    LedgerId::new("main").unwrap()
}

fn date() -> Date {
    Date::from_ymd(2024, 3, 1).unwrap()
}

fn n(v: u32) -> Number {
    Number::new(v).unwrap()
}

/// The log of scenario A: two accounts and one entry.
fn scenario_a() -> InMemoryStore<Event> {
    let mut store = InMemoryStore::new();
    store
        .evolve(|e| behaviour::open_account(main_ledger(), n(101), Name::new("Bank").unwrap(), Category::Asset, e))
        .unwrap();
    store
        .evolve(|e| {
            behaviour::open_account(main_ledger(), n(501), Name::new("Groceries").unwrap(), Category::Expenses, e)
        })
        .unwrap();
    store
        .evolve(|e| {
            Journal::new(e).entry(
                String::from("Groceries"),
                &[(n(101), Balance::credit(50).unwrap()), (n(501), Balance::debit(50).unwrap())],
                date(),
            )
        })
        .unwrap();
    store
}

#[test]
fn scenario_a_entry_gets_id_one() {
    let store = scenario_a();
    let log = store.all();
    assert_eq!(log.len(), 5);
    assert_eq!(log.iter().filter(|e| matches!(e, Event::AccountOpened { .. })).count(), 2);
    assert_eq!(
        log[2],
        Event::Journal { id: 1, description: String::from("Groceries"), date: date() }
    );
    assert_eq!(log[3], Event::Leg { journal: 1, account: n(101), amount: Balance::credit(50).unwrap() });
    assert_eq!(log[4], Event::Leg { journal: 1, account: n(501), amount: Balance::debit(50).unwrap() });
}

#[test]
fn scenario_b_reopening_is_refused_and_log_unchanged() {
    let mut store = scenario_a();
    let result = store.evolve(|e| {
        behaviour::open_account(main_ledger(), n(101), Name::new("Bank again").unwrap(), Category::Liability, e)
    });
    assert_eq!(result, Err(AccountError::Opened(101)));
    assert_eq!(store.len(), 5);
}

#[test]
fn scenario_c_imbalanced_entry_appends_nothing() {
    let mut store = scenario_a();
    let result = store.evolve(|e| {
        Journal::new(e).entry(
            String::from("Groceries"),
            &[(n(101), Balance::credit(50).unwrap()), (n(501), Balance::debit(60).unwrap())],
            date(),
        )
    });
    assert_eq!(result, Err(JournalError::ImbalancedTranasactions));
    assert_eq!(store.len(), 5);
}

#[test]
fn scenario_d_unopened_account_appends_nothing() {
    let mut store = scenario_a();
    let result = store.evolve(|e| {
        Journal::new(e).entry(
            String::from("Groceries"),
            &[(n(101), Balance::credit(50).unwrap()), (n(999), Balance::debit(50).unwrap())],
            date(),
        )
    });
    assert_eq!(result, Err(JournalError::InvalidTransaction));
    assert_eq!(store.len(), 5);
}

#[test]
fn scenario_e_two_submissions_get_distinct_increasing_ids() {
    let mut h = CommandHandler::new(InMemoryStore::new());
    h.create_ledger(main_ledger()).unwrap();
    h.create_account(main_ledger(), n(101), Name::new("Bank").unwrap(), Category::Asset).unwrap();
    h.create_account(main_ledger(), n(501), Name::new("Groceries").unwrap(), Category::Expenses).unwrap();
    let legs = vec![(n(101), Balance::credit(50).unwrap()), (n(501), Balance::debit(50).unwrap())];
    let first = h.record_transaction(main_ledger(), String::from("one"), legs.clone(), date());
    let second = h.record_transaction(main_ledger(), String::from("two"), legs, date());
    assert_eq!(first, Ok(1));
    assert_eq!(second, Ok(2));
}

#[test]
fn second_open_fails_whatever_name_and_category() {
    let mut chart = Chart::new(main_ledger(), &[]);
    assert!(chart.open(n(7), Name::new("First").unwrap(), Category::Asset).is_ok());
    assert!(chart.open(n(8), Name::new("Other").unwrap(), Category::Income).is_ok());
    assert_eq!(
        chart.open(n(7), Name::new("Second").unwrap(), Category::Expenses),
        Err(AccountError::Opened(7))
    );
}

#[test]
fn replaying_a_log_twice_gives_the_same_state() {
    let mut store = scenario_a();
    store.append(Event::LedgerCreated { id: main_ledger() });
    let log = store.all();
    let a = Journal::new(log);
    let b = Journal::new(log);
    assert_eq!(a.next_id(), b.next_id());
    assert_eq!(a.next_id(), Some(2));
    let c1 = Chart::new(main_ledger(), log);
    let c2 = Chart::new(main_ledger(), log);
    for v in [101, 501, 999] {
        assert_eq!(c1.is_open(n(v)), c2.is_open(n(v)));
    }
    let l1 = Ledger::new(main_ledger(), log).unwrap();
    let l2 = Ledger::new(main_ledger(), log).unwrap();
    assert_eq!(l1.transaction_count(), l2.transaction_count());
}

#[test]
fn ledger_transaction_rules() {
    let mut store = InMemoryStore::new();
    store.append(Event::LedgerCreated { id: main_ledger() });
    store.append(Event::AccountOpened {
        ledger: main_ledger(),
        id: n(101),
        name: Name::new("Bank").unwrap(),
        category: Category::Asset,
    });
    let mut ledger = Ledger::new(main_ledger(), store.all()).unwrap();
    assert!(Ledger::new(LedgerId::new("absent").unwrap(), store.all()).is_none());
    assert_eq!(
        ledger.transaction(String::from("x"), &[], date()),
        Err(TransactionError::EmptyTransaction)
    );
    assert_eq!(
        ledger.transaction(String::from("x"), &[(n(101), Balance::debit(5).unwrap())], date()),
        Err(TransactionError::ImbalancedTranasactions)
    );
    let ok = ledger
        .transaction(
            String::from("move"),
            &[(n(101), Balance::debit(5).unwrap()), (n(101), Balance::credit(5).unwrap())],
            date(),
        )
        .unwrap();
    assert_eq!(ok.len(), 1);
    assert_eq!(ledger.transaction_count(), 1);
    assert_eq!(ledger.close_account(n(101)).unwrap().len(), 1);
    assert_eq!(ledger.close_account(n(101)), Err(AccountError::NotExist));
    assert!(ledger.open_account(n(101), Name::new("Bank").unwrap(), Category::Asset).is_ok());
}

#[test]
fn ledger_replays_only_from_its_creation() {
    let log = vec![
        Event::AccountOpened {
            ledger: main_ledger(),
            id: n(101),
            name: Name::new("Bank").unwrap(),
            category: Category::Asset,
        },
        Event::Transaction {
            ledger: main_ledger(),
            description: String::from("early"),
            date: date(),
            transactions: vec![(n(101), Balance::debit(1).unwrap()), (n(101), Balance::credit(1).unwrap())],
        },
        Event::LedgerCreated { id: main_ledger() },
    ];
    let mut ledger = Ledger::new(main_ledger(), &log).unwrap();
    assert_eq!(ledger.transaction_count(), 0);
    assert_eq!(ledger.close_account(n(101)), Err(AccountError::NotExist));
    assert!(ledger.open_account(n(101), Name::new("Bank").unwrap(), Category::Asset).is_ok());
}

#[test]
fn journal_reports_imbalance_before_closed_accounts() {
    let mut store = scenario_a();
    store.append(Event::AccountClosed { ledger: main_ledger(), account: n(501) });
    let result = store.evolve(|e| {
        Journal::new(e).entry(
            String::from("Groceries"),
            &[(n(101), Balance::credit(50).unwrap()), (n(501), Balance::debit(60).unwrap())],
            date(),
        )
    });
    assert_eq!(result, Err(JournalError::ImbalancedTranasactions));
}
