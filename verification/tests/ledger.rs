use market_stimulator::market::{MarketLedger, Settlement, APPLE, WHEAT};

fn sorted(mut lines: Vec<(String, u32)>) -> Vec<(String, u32)> {
    lines.sort();
    lines
}

#[test]
fn a_new_ledger_lists_nothing() {
    let ledger = MarketLedger::new();
    assert!(ledger.entries().is_empty());
    assert!(!ledger.contains(WHEAT));
    assert_eq!(ledger.quantity(WHEAT), 0);
    assert_eq!(ledger.quantity("iron"), 0);
}

#[test]
fn credit_enters_a_good_and_adds_to_it() {
    let mut ledger = MarketLedger::new();
    ledger.credit(WHEAT, 7);
    assert!(ledger.contains(WHEAT));
    assert_eq!(ledger.quantity(WHEAT), 7);
    ledger.credit(WHEAT, 5);
    assert_eq!(ledger.quantity(WHEAT), 12);
    assert_eq!(ledger.entries(), vec![(String::from("wheat"), 12)]);
}

#[test]
fn credit_of_nothing_still_enters_the_good() {
    let mut ledger = MarketLedger::new();
    ledger.credit("iron", 0);
    assert!(ledger.contains("iron"));
    assert_eq!(ledger.entries(), vec![(String::from("iron"), 0)]);
}

#[test]
fn credit_touches_one_good_only() {
    let mut ledger = MarketLedger::new();
    ledger.credit(WHEAT, 3);
    ledger.credit(APPLE, 4);
    ledger.credit(WHEAT, 10);
    assert_eq!(ledger.quantity(WHEAT), 13);
    assert_eq!(ledger.quantity(APPLE), 4);
    assert_eq!(
        ledger.entries(),
        vec![(String::from("wheat"), 13), (String::from("apple"), 4)]
    );
}

#[test]
fn credit_stops_at_the_largest_quantity() {
    let mut ledger = MarketLedger::new();
    ledger.credit(WHEAT, u32::MAX - 1);
    ledger.credit(WHEAT, 1);
    assert_eq!(ledger.quantity(WHEAT), u32::MAX);
    ledger.credit(WHEAT, 1);
    assert_eq!(ledger.quantity(WHEAT), u32::MAX);
    ledger.credit(WHEAT, u32::MAX);
    assert_eq!(ledger.quantity(WHEAT), u32::MAX);
}

#[test]
fn debit_takes_what_is_asked_for() {
    let mut ledger = MarketLedger::new();
    ledger.credit(WHEAT, 10);
    assert_eq!(ledger.debit(WHEAT, 4), Settlement::Paid);
    assert_eq!(ledger.quantity(WHEAT), 6);
}

#[test]
fn debit_down_to_exactly_zero_is_paid() {
    let mut ledger = MarketLedger::new();
    ledger.credit(WHEAT, 10);
    assert_eq!(ledger.debit(WHEAT, 10), Settlement::Paid);
    assert_eq!(ledger.quantity(WHEAT), 0);
    assert!(ledger.contains(WHEAT));
}

#[test]
fn debit_beyond_the_supply_leaves_zero_and_says_so() {
    let mut ledger = MarketLedger::new();
    ledger.credit(WHEAT, 10);
    assert_eq!(ledger.debit(WHEAT, 11), Settlement::SupplyExhausted);
    assert_eq!(ledger.quantity(WHEAT), 0);
    assert_eq!(ledger.debit(WHEAT, u32::MAX), Settlement::SupplyExhausted);
    assert_eq!(ledger.quantity(WHEAT), 0);
}

#[test]
fn debit_of_a_good_never_entered() {
    let mut ledger = MarketLedger::new();
    assert_eq!(ledger.debit("iron", 0), Settlement::Paid);
    assert_eq!(ledger.entries(), vec![(String::from("iron"), 0)]);
    assert_eq!(ledger.debit("coal", 1), Settlement::SupplyExhausted);
    assert_eq!(ledger.quantity("coal"), 0);
    assert!(ledger.contains("coal"));
}

#[test]
fn debit_touches_one_good_only() {
    let mut ledger = MarketLedger::new();
    ledger.credit(WHEAT, 3);
    ledger.credit(APPLE, 4);
    assert_eq!(ledger.debit(APPLE, 9), Settlement::SupplyExhausted);
    assert_eq!(ledger.quantity(WHEAT), 3);
    assert_eq!(ledger.quantity(APPLE), 0);
}

#[test]
fn restart_leaves_exactly_the_starter_set() {
    let mut ledger = MarketLedger::new();
    ledger.credit("iron", 9);
    ledger.credit(APPLE, 2);
    ledger.credit(WHEAT, 77);
    ledger.restart();
    assert_eq!(
        sorted(ledger.entries()),
        vec![(String::from("apple"), 0), (String::from("wheat"), 0)]
    );
    assert!(!ledger.contains("iron"));
}

#[test]
fn restart_of_an_empty_ledger_lists_the_starter_set() {
    let mut ledger = MarketLedger::new();
    ledger.restart();
    assert_eq!(
        sorted(ledger.entries()),
        vec![(String::from("apple"), 0), (String::from("wheat"), 0)]
    );
    ledger.restart();
    assert_eq!(ledger.entries().len(), 2);
}

#[test]
fn entries_list_every_good_once() {
    let mut ledger = MarketLedger::new();
    ledger.credit("b", 1);
    ledger.credit("a", 2);
    ledger.credit("b", 3);
    ledger.debit("c", 4);
    ledger.credit("a", 5);
    assert_eq!(
        ledger.entries(),
        vec![
            (String::from("b"), 4),
            (String::from("a"), 7),
            (String::from("c"), 0)
        ]
    );
}

#[test]
fn names_are_told_apart_exactly() {
    let mut ledger = MarketLedger::new();
    ledger.credit("wheat", 1);
    ledger.credit("Wheat", 2);
    ledger.credit("wheat ", 4);
    ledger.credit("", 8);
    assert_eq!(ledger.quantity("wheat"), 1);
    assert_eq!(ledger.quantity("Wheat"), 2);
    assert_eq!(ledger.quantity("wheat "), 4);
    assert_eq!(ledger.quantity(""), 8);
    assert_eq!(ledger.entries().len(), 4);
}
