use battery_notifier::{
    capacity_tier, display_percent, evaluate, push_decimal, status_notification,
    tier_notification, BatteryReading, CapacityTier, ChargeStatus, Icon, Phase, Step,
    TrackedState, Watcher,
};

fn reading(status: ChargeStatus, charge: u32) -> BatteryReading {
    BatteryReading { status, charge }
}

#[test]
fn tier_boundaries() {
    assert_eq!(capacity_tier(10000), CapacityTier::Full);
    assert_eq!(capacity_tier(12000), CapacityTier::Full);
    assert_eq!(capacity_tier(9999), CapacityTier::Normal);
    assert_eq!(capacity_tier(2501), CapacityTier::Normal);
    assert_eq!(capacity_tier(2500), CapacityTier::Low);
    assert_eq!(capacity_tier(1001), CapacityTier::Low);
    assert_eq!(capacity_tier(1000), CapacityTier::Critical);
    assert_eq!(capacity_tier(0), CapacityTier::Critical);
    assert_eq!(capacity_tier(5000), CapacityTier::Normal);
}

#[test]
fn percent_is_rounded_half_up() {
    assert_eq!(display_percent(5000), 50);
    assert_eq!(display_percent(849), 8);
    assert_eq!(display_percent(850), 9);
    assert_eq!(display_percent(10000), 100);
    assert_eq!(display_percent(0), 0);
    assert_eq!(display_percent(49), 0);
}

#[test]
fn decimal_digits() {
    let mut s = String::from("at ");
    push_decimal(&mut s, 0);
    assert_eq!(s, "at 0");
    let mut s = String::new();
    push_decimal(&mut s, 100);
    assert_eq!(s, "100");
    let mut s = String::new();
    push_decimal(&mut s, u32::MAX);
    assert_eq!(s, "4294967295");
}

#[test]
fn first_discharging_reading_announces_status_only() {
    let mut state = TrackedState::new();
    let out = evaluate(&reading(ChargeStatus::Discharging, 5000), &mut state);
    assert_eq!(out.len(), 1);
    assert_eq!(out[0].title, "Charger Disconnected");
    assert_eq!(out[0].body, "Battery (50%).");
    assert!(out[0].body.contains("50%"));
    assert_eq!(out[0].icon, Icon::Discharging);
    assert_eq!(state.last_status, Some(ChargeStatus::Discharging));
    assert_eq!(state.last_tier, Some(CapacityTier::Normal));
}

#[test]
fn same_reading_twice_is_quiet() {
    let mut state = TrackedState::new();
    let r = reading(ChargeStatus::Charging, 800);
    assert_eq!(evaluate(&r, &mut state).len(), 2);
    let after_first = state;
    assert!(evaluate(&r, &mut state).is_empty());
    assert_eq!(state, after_first);
}

#[test]
fn charger_connected_without_tier_change() {
    let mut state = TrackedState::new();
    evaluate(&reading(ChargeStatus::Discharging, 3000), &mut state);
    let out = evaluate(&reading(ChargeStatus::Charging, 3000), &mut state);
    assert_eq!(out.len(), 1);
    assert_eq!(out[0].title, "Charger Connected");
    assert_eq!(out[0].body, "Charging (30%).");
    assert_eq!(out[0].icon, Icon::Charging);
    assert_eq!(state.last_status, Some(ChargeStatus::Charging));
}

#[test]
fn critical_after_normal() {
    let mut state = TrackedState {
        last_status: Some(ChargeStatus::Discharging),
        last_tier: Some(CapacityTier::Normal),
    };
    let out = evaluate(&reading(ChargeStatus::Discharging, 800), &mut state);
    assert_eq!(out.len(), 1);
    assert_eq!(out[0].title, "Critical Battery");
    assert_eq!(out[0].body, "Battery level is at 8%. Plug in immediately!");
    assert_eq!(out[0].icon, Icon::Critical);
    assert_eq!(state.last_tier, Some(CapacityTier::Critical));
}

#[test]
fn low_after_normal() {
    let mut state = TrackedState {
        last_status: Some(ChargeStatus::Discharging),
        last_tier: Some(CapacityTier::Normal),
    };
    let out = evaluate(&reading(ChargeStatus::Discharging, 2000), &mut state);
    assert_eq!(out.len(), 1);
    assert_eq!(out[0].title, "Low Battery");
    assert_eq!(out[0].body, "Battery level is at 20%. Consider plugging in soon.");
    assert_eq!(out[0].icon, Icon::Low);
}

#[test]
fn full_status_suppresses_full_tier() {
    let mut state = TrackedState {
        last_status: Some(ChargeStatus::Charging),
        last_tier: Some(CapacityTier::Normal),
    };
    let out = evaluate(&reading(ChargeStatus::Full, 10000), &mut state);
    assert_eq!(out.len(), 1);
    assert_eq!(out[0].title, "Battery Full");
    assert_eq!(out[0].body, "Battery is fully charged.");
    assert_eq!(out[0].icon, Icon::Full);
    assert_eq!(state.last_tier, Some(CapacityTier::Full));
}

#[test]
fn full_tier_after_status_already_full() {
    let mut state = TrackedState {
        last_status: Some(ChargeStatus::Full),
        last_tier: Some(CapacityTier::Normal),
    };
    let out = evaluate(&reading(ChargeStatus::Full, 10000), &mut state);
    assert_eq!(out.len(), 1);
    assert_eq!(out[0].title, "Battery Full");
    assert_eq!(out[0].body, "Battery is at 100%.");
    assert_eq!(out[0].icon, Icon::Full);
    assert_eq!(state.last_status, Some(ChargeStatus::Full));
    assert_eq!(state.last_tier, Some(CapacityTier::Full));
}

#[test]
fn full_tier_while_charging() {
    let mut state = TrackedState {
        last_status: Some(ChargeStatus::Charging),
        last_tier: Some(CapacityTier::Normal),
    };
    let out = evaluate(&reading(ChargeStatus::Charging, 10000), &mut state);
    assert_eq!(out.len(), 1);
    assert_eq!(out[0].title, "Battery Full");
    assert_eq!(out[0].body, "Battery is at 100%.");
    assert_eq!(out[0].icon, Icon::Full);
}

#[test]
fn unknown_status_and_normal_tier_say_nothing() {
    let mut state = TrackedState::new();
    let out = evaluate(&reading(ChargeStatus::Unknown, 6000), &mut state);
    assert!(out.is_empty());
    assert_eq!(state.last_status, Some(ChargeStatus::Unknown));
    assert_eq!(state.last_tier, Some(CapacityTier::Normal));
}

#[test]
fn status_and_tier_fire_together() {
    let mut state = TrackedState::new();
    let out = evaluate(&reading(ChargeStatus::Charging, 500), &mut state);
    assert_eq!(out.len(), 2);
    assert_eq!(out[0].title, "Charger Connected");
    assert_eq!(out[0].body, "Charging (5%).");
    assert_eq!(out[1].title, "Critical Battery");
    assert_eq!(out[1].body, "Battery level is at 5%. Plug in immediately!");
}

#[test]
fn single_notifications() {
    assert!(status_notification(ChargeStatus::Unknown, 5000).is_none());
    let n = status_notification(ChargeStatus::Full, 10000).unwrap();
    assert_eq!(n.title, "Battery Full");
    assert!(tier_notification(CapacityTier::Normal, false, 5000).is_none());
    assert!(tier_notification(CapacityTier::Full, true, 10000).is_none());
    let n = tier_notification(CapacityTier::Full, false, 10000).unwrap();
    assert_eq!(n.body, "Battery is at 100%.");
}

#[test]
fn icon_paths() {
    assert_eq!(Icon::Critical.path(), "/usr/share/icons/critical.svg");
    assert_eq!(Icon::Low.path(), "/usr/share/icons/low-battery.svg");
    assert_eq!(Icon::Full.path(), "/usr/share/icons/full-battery.svg");
    assert_eq!(Icon::Charging.path(), "/usr/share/icons/charging.svg");
    assert_eq!(Icon::Discharging.path(), "/usr/share/icons/unplugged.svg");
}

#[test]
fn missing_reading_changes_nothing() {
    let mut w = Watcher::new();
    assert!(w.on_reading(None).is_empty());
    assert_eq!(w.seen, TrackedState::new());
    let out = w.on_reading(Some(reading(ChargeStatus::Discharging, 5000)));
    assert_eq!(out.len(), 1);
    assert!(w.on_reading(None).is_empty());
    assert_eq!(w.seen.last_status, Some(ChargeStatus::Discharging));
}

#[test]
fn cancellation_stops_polling_and_exits_once() {
    let mut w = Watcher::new();
    assert_eq!(w.next_step(false), Step::Poll);
    assert_eq!(w.next_step(false), Step::Poll);
    assert_eq!(w.phase, Phase::Running);
    assert_eq!(w.next_step(true), Step::Exit);
    assert_eq!(w.phase, Phase::Stopping);
    assert_eq!(w.next_step(true), Step::Halt);
    assert_eq!(w.next_step(false), Step::Halt);
    assert_eq!(w.phase, Phase::Stopped);
}
