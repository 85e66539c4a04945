use dynamic_canisters::app_state::{AppState, StateSlot};
use dynamic_canisters::chart::{update_chart, ChartTick};
use dynamic_canisters::identity::UnitIdentity;

fn own() -> UnitIdentity {
    UnitIdentity::from_slice(&[1, 2, 3, 4]).unwrap()
}

#[test]
fn a_new_slot_holds_the_empty_record() {
    let slot = StateSlot::new();
    assert_eq!(slot.get(), Ok(AppState::empty()));
    assert_eq!(slot.get(), Ok(AppState::default()));
    assert_eq!(slot.get_name(), Ok(String::new()));
    assert_eq!(AppState::empty(), AppState::new(String::new(), 0, String::new()));
}

#[test]
fn a_write_replaces_the_record_and_names_the_unit() {
    let mut slot = StateSlot::new();
    let user = AppState::new("Ann".to_string(), 41, "a@x".to_string());
    assert_eq!(slot.create(own(), user.clone()), Ok(own()));
    assert_eq!(slot.get(), Ok(user));
    assert_eq!(slot.get_name(), Ok("Ann".to_string()));
}

#[test]
fn the_last_write_wins() {
    let mut slot = StateSlot::new();
    let first = AppState::new("John".to_string(), 30, "john@example.org".to_string());
    let last = AppState::new("Ann".to_string(), 41, "a@x".to_string());
    slot.create(own(), first).unwrap();
    slot.create(own(), last.clone()).unwrap();
    assert_eq!(slot.get(), Ok(last));
}

#[test]
fn a_copy_of_a_record_is_the_same_record() {
    let user = AppState::new("Zoë".to_string(), u64::MAX, String::new());
    assert_eq!(user.duplicate(), user);
}

#[test]
fn a_tick_keeps_moment_and_amount() {
    let tick = ChartTick::new(1_700_000_000_000_000_000, 3_000_000_000_000);
    assert_eq!(tick.timestamp(), 1_700_000_000_000_000_000);
    assert_eq!(tick.cycles(), 3_000_000_000_000);
}

#[test]
fn samples_are_kept_in_the_order_taken() {
    let mut chart = Vec::new();
    update_chart(&mut chart, 10, 500);
    update_chart(&mut chart, 20, 400);
    update_chart(&mut chart, 20, 450);
    assert_eq!(chart, vec![ChartTick::new(10, 500), ChartTick::new(20, 400), ChartTick::new(20, 450)]);
}

#[test]
fn greeting_names_whom_it_greets() {
    assert_eq!(dynamic_canisters::greeting::greet("Ann"), "Hello, Ann!");
    assert_eq!(dynamic_canisters::greeting::greet(""), "Hello, !");
}
