use personal_finance::account::{Category, Name, Number};
use personal_finance::behaviour;
use personal_finance::entry::{Account, Chart};
use personal_finance::error::AccountError;
use personal_finance::events::Event;
use personal_finance::projections::{ledger_ids, Projection};
use personal_finance::store::{EventStorage, InMemoryStore};
use personal_finance::write::chart;
use personal_finance::write::ledger::LedgerId;

fn main_ledger() -> LedgerId {
    LedgerId::new("main").unwrap()
}

fn opened(id: u32, name: &str, category: Category) -> Event {
    Event::AccountOpened {
        ledger: main_ledger(),
        id: Number::new(id).unwrap(),
        name: Name::new(name).unwrap(),
        category,
    }
}

#[test]
fn chart_projection() {
    let mut repository = InMemoryStore::new();
    repository.append(opened(101, "Cash Account", Category::Asset));
    repository.append(opened(102, "Savings Account", Category::Asset));
    repository.append(opened(501, "Groceries", Category::Expenses));

    let projection = Projection::new(Chart::new(), |mut state: Chart, event: &Event| {
        if let Event::AccountOpened { id, name, category, .. } = event {
            state.insert(Account::new(*id, name.clone(), *category));
        }

        state
    });

    let chart = projection.project(repository.all());
    let actual = chart.iter().cloned().collect::<Vec<_>>();

    let expected = vec![
        Account::new(Number::new(101).unwrap(), Name::new("Cash Account").unwrap(), Category::Asset),
        Account::new(Number::new(102).unwrap(), Name::new("Savings Account").unwrap(), Category::Asset),
        Account::new(Number::new(501).unwrap(), Name::new("Groceries").unwrap(), Category::Expenses),
    ];

    assert_eq!(actual, expected);
}

#[test]
fn create_new_account_in_empty_chart() {
    let add_event = |_events: &[Event]| Ok::<_, AccountError>(vec![opened(101, "Bank Account", Category::Asset)]);
    let mut repo = InMemoryStore::new();

    repo.evolve(add_event).unwrap();
    let current_events = repo.iter().cloned().collect::<Vec<_>>();

    let expected = vec![opened(101, "Bank Account", Category::Asset)];

    assert_eq!(current_events, expected);
}

#[test]
fn creating_account() {
    let mut repo = InMemoryStore::new();

    repo.evolve(|e| {
        behaviour::open_account(
            main_ledger(),
            Number::new(101).unwrap(),
            Name::new("Credit Account").unwrap(),
            Category::Asset,
            e,
        )
    })
    .unwrap();
    repo.evolve(|e| {
        behaviour::open_account(
            main_ledger(),
            Number::new(201).unwrap(),
            Name::new("Groceries").unwrap(),
            Category::Expenses,
            e,
        )
    })
    .unwrap();
    repo.evolve(|e| {
        behaviour::open_account(
            main_ledger(),
            Number::new(301).unwrap(),
            Name::new("Salary").unwrap(),
            Category::Income,
            e,
        )
    })
    .unwrap();

    let actual = repo.iter().cloned().collect::<Vec<_>>();

    let expected = vec![
        opened(101, "Credit Account", Category::Asset),
        opened(201, "Groceries", Category::Expenses),
        opened(301, "Salary", Category::Income),
    ];

    assert_eq!(actual, expected);
}

#[test]
fn creating_duplicate_should_give_error() {
    let mut repo = InMemoryStore::new();

    let mut write_model = chart::Chart::new(main_ledger(), &[]);
    let new_events = write_model
        .open(Number::new(101).unwrap(), Name::new("Credit Account").unwrap(), Category::Asset)
        .unwrap();
    repo.extend(new_events);

    let res = write_model.open(
        Number::new(101).unwrap(),
        Name::new("Bank Account").unwrap(),
        Category::Asset,
    );

    let actual = repo.all().to_vec();
    let expected = vec![opened(101, "Credit Account", Category::Asset)];

    assert_eq!(actual, expected);
    assert!(res.is_err());
    assert_eq!(res, Err(AccountError::Opened(101)));
}

#[test]
fn evolve_leaves_log_unchanged_on_error() {
    let mut repo = InMemoryStore::new();
    repo.append(opened(101, "Bank", Category::Asset));
    let result = repo.evolve(|e| {
        behaviour::open_account(main_ledger(), Number::new(101).unwrap(), Name::new("Again").unwrap(), Category::Asset, e)
    });
    assert_eq!(result, Err(AccountError::Opened(101)));
    assert_eq!(repo.len(), 1);
}

#[test]
fn chart_close_and_reopen() {
    let log = vec![opened(101, "Bank", Category::Asset)];
    let mut chart = chart::Chart::new(main_ledger(), &log);
    assert!(chart.is_open(Number::new(101).unwrap()));
    assert_eq!(chart.close(Number::new(102).unwrap()), Err(AccountError::Closed));
    let closed = chart.close(Number::new(101).unwrap()).unwrap();
    assert_eq!(
        closed,
        vec![Event::AccountClosed { ledger: main_ledger(), account: Number::new(101).unwrap() }]
    );
    assert_eq!(chart.close(Number::new(101).unwrap()), Err(AccountError::Closed));
    assert!(chart.open(Number::new(101).unwrap(), Name::new("Bank").unwrap(), Category::Asset).is_ok());
}

#[test]
fn chart_ignores_other_ledgers() {
    let log = vec![Event::AccountOpened {
        ledger: LedgerId::new("other").unwrap(),
        id: Number::new(101).unwrap(),
        name: Name::new("Bank").unwrap(),
        category: Category::Asset,
    }];
    let chart = chart::Chart::new(main_ledger(), &log);
    assert!(!chart.is_open(Number::new(101).unwrap()));
}

#[test]
fn ledger_ids_projection() {
    let mut repo = InMemoryStore::new();
    repo.append(Event::LedgerCreated { id: LedgerId::new("2014-q2").unwrap() });
    repo.append(opened(101, "Bank", Category::Asset));
    repo.append(Event::LedgerCreated { id: LedgerId::new("2014-q3").unwrap() });
    repo.append(Event::LedgerCreated { id: LedgerId::new("2014-q2").unwrap() });

    let projection = Projection::new(Vec::new(), ledger_ids);
    let ids = projection.project(repo.all());
    let texts: Vec<&str> = ids.iter().map(|l| l.as_str()).collect();
    assert_eq!(texts, vec!["2014-q2", "2014-q3"]);
}

#[test]
fn projecting_twice_gives_equal_results() {
    let mut repo = InMemoryStore::new();
    repo.append(opened(101, "Bank", Category::Asset));
    repo.append(opened(501, "Groceries", Category::Expenses));
    let count = Projection::new(0u32, |n: u32, e: &Event| match e {
        Event::AccountOpened { .. } => n + 1,
        _ => n,
    });
    let first = count.project(repo.all());
    let second = count.project(repo.all());
    assert_eq!(first, 2);
    assert_eq!(first, second);
    assert_eq!(count.project(&repo.all()[..1]), 1);
}
