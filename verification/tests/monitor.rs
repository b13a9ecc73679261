//! Tests of the decision state machine: when each notification fires over a
//! run of ticks, the hysteresis of the low-charge alert, and the
//! transparency of failed readings.

use battery_monitor::monitor::MonitorState;
use battery_monitor::snapshot::{BatterySnapshot, ChargingState, TickEvent};

fn snap(state: ChargingState, charge_permille: u32) -> BatterySnapshot {
    BatterySnapshot { state, time_to_full_secs: None, charge_permille }
}

#[test]
fn state_change_fires_exactly_on_differing_pairs() {
    let states = [
        ChargingState::Discharging,
        ChargingState::Discharging,
        ChargingState::Charging,
        ChargingState::Charging,
        ChargingState::Full,
    ];
    let mut st = MonitorState::init(snap(states[0], 500));
    let mut fired = Vec::new();
    for s in &states[1..] {
        let out = st.tick(TickEvent::Read(snap(*s, 500)));
        fired.push(out.state_change.is_some());
    }
    assert_eq!(fired, vec![false, true, false, true]);
}

#[test]
fn state_change_silent_when_state_is_equal() {
    let mut st = MonitorState::init(snap(ChargingState::Discharging, 500));
    for _ in 0..3 {
        let out = st.tick(TickEvent::Read(snap(ChargingState::Discharging, 500)));
        assert!(out.state_change.is_none());
    }
}

#[test]
fn low_charge_fires_once_per_crossing_and_rearms() {
    let mut st = MonitorState::init(snap(ChargingState::Discharging, 500));
    let charges = [100, 100, 200, 50];
    let mut fired = Vec::new();
    for c in charges {
        let out = st.tick(TickEvent::Read(snap(ChargingState::Discharging, c)));
        fired.push(out.low_charge.is_some());
    }
    // One firing at the crossing, silence while still low, a reading above
    // the threshold re-arms, and the second crossing fires again.
    assert_eq!(fired, vec![true, false, false, true]);
}

#[test]
fn low_charge_fires_once_across_consecutive_low_ticks() {
    let mut st = MonitorState::init(snap(ChargingState::Discharging, 500));
    let mut count = 0;
    for _ in 0..5 {
        let out = st.tick(TickEvent::Read(snap(ChargingState::Discharging, 100)));
        if out.low_charge.is_some() {
            count += 1;
        }
    }
    assert_eq!(count, 1);
}

#[test]
fn low_charge_threshold_boundary() {
    let mut st = MonitorState::init(snap(ChargingState::Discharging, 500));
    let out = st.tick(TickEvent::Read(snap(ChargingState::Discharging, 151)));
    assert!(out.low_charge.is_none());
    let out = st.tick(TickEvent::Read(snap(ChargingState::Discharging, 150)));
    assert!(out.low_charge.is_some());
}

#[test]
fn failed_read_is_transparent() {
    let mut st = MonitorState::init(snap(ChargingState::Discharging, 100));
    let t1 = st.tick(TickEvent::Read(snap(ChargingState::Discharging, 100)));
    assert!(t1.low_charge.is_some());
    let flag_before = st.low_notified;
    let last_before = st.last;
    // The failed reading emits nothing and changes nothing.
    let t2 = st.tick(TickEvent::ReadFailed);
    assert!(t2.state_change.is_none());
    assert!(t2.low_charge.is_none());
    assert_eq!(st.low_notified, flag_before);
    assert_eq!(st.last.state, last_before.state);
    assert_eq!(st.last.charge_permille, last_before.charge_permille);
    // The next successful tick still compares against the last successful
    // reading and the hysteresis flag is still set.
    let t3 = st.tick(TickEvent::Read(snap(ChargingState::Discharging, 100)));
    assert!(t3.state_change.is_none());
    assert!(t3.low_charge.is_none());
}

#[test]
fn init_leaves_alert_armed_even_when_starting_low() {
    // A device that starts below the threshold is not treated as already
    // notified: the first comparison-bearing tick fires.
    let mut st = MonitorState::init(snap(ChargingState::Discharging, 100));
    assert!(!st.low_notified);
    let out = st.tick(TickEvent::Read(snap(ChargingState::Discharging, 100)));
    assert!(out.low_charge.is_some());
}

#[test]
fn end_to_end_scenario() {
    let mut st = MonitorState::init(snap(ChargingState::Discharging, 500));

    let t1 = st.tick(TickEvent::Read(snap(ChargingState::Discharging, 100)));
    assert!(t1.state_change.is_none());
    let low = t1.low_charge.expect("low-charge notification due");
    assert_eq!(low.title, "Battery charge is critically low");
    assert_eq!(low.body.as_deref(), Some("charge - 10%"));
    assert!(st.low_notified);

    let t2 = st.tick(TickEvent::Read(snap(ChargingState::Charging, 200)));
    let change = t2.state_change.expect("state-change notification due");
    assert_eq!(change.title, "Battery state - Charging");
    assert!(t2.low_charge.is_none());
    assert!(!st.low_notified);

    let t3 = st.tick(TickEvent::ReadFailed);
    assert!(t3.state_change.is_none());
    assert!(t3.low_charge.is_none());
    assert_eq!(st.last.state, ChargingState::Charging);

    let t4 = st.tick(TickEvent::Read(snap(ChargingState::Charging, 50)));
    assert!(t4.state_change.is_none());
    let low = t4.low_charge.expect("low-charge notification due again");
    assert_eq!(low.body.as_deref(), Some("charge - 5%"));
}

#[test]
fn both_notifications_can_fire_in_one_tick() {
    let mut st = MonitorState::init(snap(ChargingState::Charging, 500));
    let out = st.tick(TickEvent::Read(snap(ChargingState::Discharging, 100)));
    assert!(out.state_change.is_some());
    assert!(out.low_charge.is_some());
}
