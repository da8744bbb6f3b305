use market_stimulator::lands::{Land, LandType};
use market_stimulator::market::{MarketLedger, Settlement, APPLE, WHEAT};
use market_stimulator::people::{Person, PersonType};
use market_stimulator::registry::EntityRegistry;

fn land(yield_rate: u32) -> Land {
    Land::new(1, LandType::Grassland, yield_rate)
}

fn person(capacity: u32) -> Person {
    Person::new(capacity, PersonType::Farmer)
}

#[test]
fn a_land_yields_its_rate() {
    let field = Land::new(10, LandType::Grassland, 5);
    assert_eq!(field.produce(), 5);
    assert_eq!(field.produce(), 5);
    assert_eq!(field.show_size(), 10);
    assert_eq!(Land::new(0, LandType::Grassland, u32::MAX).produce(), u32::MAX);
}

#[test]
fn the_standard_land() {
    assert_eq!(
        Land::grassland(),
        Land { size: 10, kind: LandType::Grassland, yield_rate: 5 }
    );
}

#[test]
fn a_person_eats_their_capacity() {
    let farmer = Person::new(3, PersonType::Farmer);
    assert_eq!(farmer.consume(), 3);
    assert_eq!(farmer.consume(), 3);
}

#[test]
fn the_standard_person() {
    assert_eq!(Person::farmer(), Person { capacity: 5, role: PersonType::Farmer });
}

#[test]
fn a_new_registry_is_empty() {
    let registry = EntityRegistry::new();
    assert_eq!(registry.land_count(), 0);
    assert_eq!(registry.person_count(), 0);
    assert!(registry.land_sizes().is_empty());
}

#[test]
fn lands_keep_the_order_in_which_they_came() {
    let mut registry = EntityRegistry::new();
    registry.add_land(Land::new(3, LandType::Grassland, 1));
    registry.add_land(Land::new(1, LandType::Grassland, 1));
    registry.add_person(person(1));
    registry.add_land(Land::new(2, LandType::Grassland, 1));
    assert_eq!(registry.land_sizes(), vec![3, 1, 2]);
    assert_eq!(registry.land_count(), 3);
    assert_eq!(registry.person_count(), 1);
}

#[test]
fn clear_removes_lands_and_people() {
    let mut registry = EntityRegistry::new();
    registry.add_land(land(1));
    registry.add_person(person(1));
    registry.add_person(person(2));
    registry.clear();
    assert_eq!(registry.land_count(), 0);
    assert_eq!(registry.person_count(), 0);
    let mut ledger = MarketLedger::new();
    ledger.credit(WHEAT, 9);
    assert_eq!(registry.step(&mut ledger), Settlement::Paid);
    assert_eq!(ledger.quantity(WHEAT), 9);
}

#[test]
fn a_step_of_nobody_touches_nothing() {
    let registry = EntityRegistry::new();
    let mut ledger = MarketLedger::new();
    assert_eq!(registry.step(&mut ledger), Settlement::Paid);
    assert!(ledger.entries().is_empty());
}

#[test]
fn production_is_credited_as_wheat() {
    let mut registry = EntityRegistry::new();
    registry.add_land(land(7));
    registry.add_land(land(0));
    registry.add_land(land(11));
    let mut ledger = MarketLedger::new();
    ledger.credit(APPLE, 2);
    assert_eq!(registry.step(&mut ledger), Settlement::Paid);
    assert_eq!(ledger.quantity(WHEAT), 18);
    assert_eq!(ledger.quantity(APPLE), 2);
}

#[test]
fn production_is_linear_in_the_frames() {
    let mut registry = EntityRegistry::new();
    registry.add_land(land(7));
    let mut ledger = MarketLedger::new();
    ledger.credit(WHEAT, 100);
    for frame in 1..=25u32 {
        registry.step(&mut ledger);
        assert_eq!(ledger.quantity(WHEAT), 100 + frame * 7);
    }
}

#[test]
fn without_lands_and_people_wheat_stays() {
    let registry = EntityRegistry::new();
    let mut ledger = MarketLedger::new();
    ledger.credit(WHEAT, 41);
    for _ in 0..10 {
        registry.step(&mut ledger);
        assert_eq!(ledger.quantity(WHEAT), 41);
    }
}

#[test]
fn without_lands_idle_people_leave_wheat_alone() {
    let mut registry = EntityRegistry::new();
    registry.add_person(person(0));
    let mut ledger = MarketLedger::new();
    ledger.credit(WHEAT, 41);
    for _ in 0..10 {
        assert_eq!(registry.step(&mut ledger), Settlement::Paid);
        assert_eq!(ledger.quantity(WHEAT), 41);
    }
}

#[test]
fn without_lands_wheat_only_shrinks() {
    let mut registry = EntityRegistry::new();
    registry.add_person(person(4));
    let mut ledger = MarketLedger::new();
    ledger.credit(WHEAT, 10);
    assert_eq!(registry.step(&mut ledger), Settlement::Paid);
    assert_eq!(ledger.quantity(WHEAT), 6);
    assert_eq!(registry.step(&mut ledger), Settlement::Paid);
    assert_eq!(ledger.quantity(WHEAT), 2);
    assert_eq!(registry.step(&mut ledger), Settlement::SupplyExhausted);
    assert_eq!(ledger.quantity(WHEAT), 0);
    assert_eq!(registry.step(&mut ledger), Settlement::SupplyExhausted);
    assert_eq!(ledger.quantity(WHEAT), 0);
}

#[test]
fn people_eat_what_was_grown_in_the_same_frame() {
    let mut registry = EntityRegistry::new();
    registry.add_person(person(3));
    registry.add_land(land(7));
    let mut ledger = MarketLedger::new();
    assert_eq!(registry.step(&mut ledger), Settlement::Paid);
    assert_eq!(ledger.quantity(WHEAT), 4);
}

#[test]
fn a_frame_that_grows_exactly_what_is_eaten() {
    let mut registry = EntityRegistry::new();
    registry.add_land(land(7));
    registry.add_person(person(7));
    let mut ledger = MarketLedger::new();
    assert_eq!(registry.step(&mut ledger), Settlement::Paid);
    assert_eq!(ledger.quantity(WHEAT), 0);
}

#[test]
fn a_person_who_asks_for_more_than_there_is() {
    let mut registry = EntityRegistry::new();
    registry.add_person(person(9));
    let mut ledger = MarketLedger::new();
    ledger.credit(WHEAT, 8);
    assert_eq!(registry.step(&mut ledger), Settlement::SupplyExhausted);
    assert_eq!(ledger.quantity(WHEAT), 0);
}

#[test]
fn one_short_person_is_enough_to_report() {
    let mut registry = EntityRegistry::new();
    registry.add_person(person(5));
    registry.add_person(person(6));
    registry.add_person(person(0));
    let mut ledger = MarketLedger::new();
    ledger.credit(WHEAT, 10);
    assert_eq!(registry.step(&mut ledger), Settlement::SupplyExhausted);
    assert_eq!(ledger.quantity(WHEAT), 0);
}

#[test]
fn production_stops_at_the_largest_quantity() {
    let mut registry = EntityRegistry::new();
    registry.add_land(land(u32::MAX));
    registry.add_land(land(u32::MAX));
    registry.add_person(person(10));
    let mut ledger = MarketLedger::new();
    ledger.credit(WHEAT, 1);
    assert_eq!(registry.step(&mut ledger), Settlement::Paid);
    assert_eq!(ledger.quantity(WHEAT), u32::MAX - 10);
}

#[test]
fn the_order_of_lands_and_people_does_not_change_the_total() {
    let mut one = EntityRegistry::new();
    one.add_land(land(2));
    one.add_land(land(30));
    one.add_person(person(4));
    one.add_person(person(50));
    let mut other = EntityRegistry::new();
    other.add_person(person(50));
    other.add_land(land(30));
    other.add_person(person(4));
    other.add_land(land(2));
    let mut first = MarketLedger::new();
    first.credit(WHEAT, 40);
    let mut second = MarketLedger::new();
    second.credit(WHEAT, 40);
    assert_eq!(one.step(&mut first), other.step(&mut second));
    assert_eq!(first.quantity(WHEAT), 18);
    assert_eq!(second.quantity(WHEAT), 18);
}
