use energy_mgr::manager::{EngyConfSet, ManagerHandle, OverLimit, PowerEvent};
use energy_mgr::meter::{MeterDataSet, MeterTagSet};
use energy_mgr::EnergyError;

fn manager() -> ManagerHandle {
    // Hardware ceilings: 32 A cable, 22 kW backend, 245 V, three phases.
    ManagerHandle::new(32, 22_000, 245, 3)
}

fn snapshot(tag: MeterTagSet, total: i32, l1: i32, l2: i32, l3: i32) -> MeterDataSet {
    let mut d = MeterDataSet::default(tag);
    d.total = total;
    d.l1 = l1;
    d.l2 = l2;
    d.l3 = l3;
    d
}

#[test]
fn ceilings_are_scaled_to_milli_units() {
    let h = manager();
    let s = h.get_state();
    assert_eq!(s.imax, 32_000);
    assert_eq!(s.pmax, 22_000_000);
    assert_eq!(s.umax, 245_000);
    assert_eq!(s.subscription_max, 0);
    assert_eq!(s.tension, 0);
}

#[test]
fn cable_limit_in_range_is_granted() {
    let mut h = manager();
    h.set_imax_cable(10);
    assert_eq!(h.get_state().imax, 10_000);
    assert_eq!(h.get_config(), EngyConfSet { imax: 10, pmax: 22_000 });
}

#[test]
fn cable_limit_zero_resets_to_ceiling() {
    let mut h = manager();
    h.set_imax_cable(10);
    h.set_imax_cable(0);
    assert_eq!(h.get_config().imax, 32);
}

#[test]
fn cable_limit_negative_resets_to_ceiling() {
    let mut h = manager();
    h.set_imax_cable(-5);
    assert_eq!(h.get_config().imax, 32);
}

#[test]
fn cable_limit_at_or_above_ceiling_resets_to_ceiling() {
    let mut h = manager();
    h.set_imax_cable(32);
    assert_eq!(h.get_config().imax, 32);
    h.set_imax_cable(40);
    assert_eq!(h.get_config().imax, 32);
}

#[test]
fn backend_limit_resolves_like_the_cable_limit() {
    let mut h = manager();
    h.set_power_backend(9_000);
    assert_eq!(h.get_state().pmax, 9_000_000);
    assert_eq!(h.get_config().pmax, 9_000);
    h.set_power_backend(0);
    assert_eq!(h.get_config().pmax, 22_000);
    h.set_power_backend(30_000);
    assert_eq!(h.get_config().pmax, 22_000);
}

#[test]
fn config_round_trip_keeps_last_call_per_field() {
    let mut a = manager();
    a.set_imax_cable(10);
    a.set_power_backend(9_000);
    a.set_imax_cable(20);
    assert_eq!(a.get_config(), EngyConfSet { imax: 20, pmax: 9_000 });

    // The same calls with the fields interleaved the other way round.
    let mut b = manager();
    b.set_power_backend(9_000);
    b.set_imax_cable(10);
    b.set_imax_cable(20);
    assert_eq!(b.get_config(), a.get_config());
}

#[test]
fn subscription_is_recorded_in_milli_units() {
    let mut h = manager();
    h.set_power_subscription(9_000, 230);
    assert_eq!(h.get_state().subscription_max, 9_000_000);
    assert_eq!(h.get_state().tension, 230_000);
}

#[test]
fn snapshot_carries_the_given_timestamp() {
    let mut h = manager();
    h.set_imax_cable(10);
    let s = h.clone_state(42);
    assert_eq!(s.timestamp, 42);
    assert_eq!(s.imax, 10_000);
    assert_eq!(h.get_state().timestamp, 42);
}

#[test]
fn cable_scenario_emits_once_per_evaluation() {
    // Ceiling 32 A, effective cable limit 10 A, one phase reading 15 A.
    let mut h = manager();
    h.set_imax_cable(10);
    let d = snapshot(MeterTagSet::Current, 15_000, 15_000, 0, 0);
    let notice = h.check_over_subscription(&d);
    assert_eq!(
        notice,
        Some(OverLimit { tag: MeterTagSet::Current, value: 10_000 })
    );
    assert_eq!(h.get_state().current, 15_000);
}

#[test]
fn current_below_the_limit_is_silent() {
    let mut h = manager();
    h.set_imax_cable(10);
    let d = snapshot(MeterTagSet::Current, 9_000, 9_000, 0, 0);
    assert_eq!(h.check_over_subscription(&d), None);
    assert_eq!(h.get_state().current, 9_000);
}

#[test]
fn repeated_over_limit_input_emits_every_call() {
    let mut h = manager();
    h.set_imax_cable(10);
    let d = snapshot(MeterTagSet::Current, 15_000, 15_000, 0, 0);
    let first = h.check_over_subscription(&d);
    let second = h.check_over_subscription(&d);
    assert!(first.is_some());
    assert_eq!(second, first);
}

#[test]
fn voltage_above_ceiling_notifies() {
    let mut h = manager();
    let d = snapshot(MeterTagSet::Tension, 250_000, 230_000, 250_000, 230_000);
    assert_eq!(
        h.check_over_subscription(&d),
        Some(OverLimit { tag: MeterTagSet::Tension, value: 245_000 })
    );
    assert_eq!(h.get_state().tension, 250_000);
}

#[test]
fn power_above_subscription_notifies() {
    let mut h = manager();
    h.set_power_subscription(9_000, 230);
    let d = snapshot(MeterTagSet::Power, 9_500_000, 0, 0, 0);
    assert_eq!(
        h.check_over_subscription(&d),
        Some(OverLimit { tag: MeterTagSet::Power, value: 9_000_000 })
    );
    assert_eq!(h.get_state().power, 9_500_000);
    // Exactly at the subscription ceiling: no notification.
    let d2 = snapshot(MeterTagSet::Power, 9_000_000, 0, 0, 0);
    assert_eq!(h.check_over_subscription(&d2), None);
}

#[test]
fn energy_is_accounted_silently() {
    let mut h = manager();
    let d = snapshot(MeterTagSet::Energy, 1_234, 0, 0, 0);
    assert_eq!(h.check_over_subscription(&d), None);
    assert_eq!(h.get_state().session, 1_234);
}

#[test]
fn over_current_trip_always_notifies() {
    let mut h = manager();
    let before = *h.get_state();
    let tiny = snapshot(MeterTagSet::OverCurrent, 1, 0, 0, 0);
    let huge = snapshot(MeterTagSet::OverCurrent, 2_000_000_000, 0, 0, 0);
    assert_eq!(
        h.check_over_subscription(&tiny),
        Some(OverLimit { tag: MeterTagSet::OverCurrent, value: 0 })
    );
    assert_eq!(
        h.check_over_subscription(&huge),
        Some(OverLimit { tag: MeterTagSet::OverCurrent, value: 0 })
    );
    assert_eq!(*h.get_state(), before);
}

#[test]
fn unknown_category_is_ignored() {
    let mut h = manager();
    let before = *h.get_state();
    let d = snapshot(MeterTagSet::Unset, 5, 5, 5, 5);
    assert_eq!(h.check_over_subscription(&d), None);
    assert_eq!(*h.get_state(), before);
}

#[test]
fn available_current_single_phase_scenario() {
    // Backend limit 22 kW, 5 kW drawn, 230 V, single phase:
    // 0.8 * 22_000_000 - 5_000_000 = 12_600_000 mW; / 230_000 mV / 1 = 54 A.
    let mut h = manager();
    h.set_power_subscription(9_000, 230);
    let d = snapshot(MeterTagSet::Power, 5_000_000, 5_000_000, 0, 0);
    assert_eq!(h.check_available_current(&d), Ok((54, 32)));
}

#[test]
fn available_current_three_phase_divides_headroom() {
    let mut h = manager();
    h.set_power_subscription(9_000, 230);
    let d = snapshot(MeterTagSet::Power, 5_000_000, 2_000_000, 1_500_000, 1_500_000);
    assert_eq!(h.check_available_current(&d), Ok((18, 32)));
}

#[test]
fn available_current_without_line_voltage_fails() {
    let h = manager();
    let d = snapshot(MeterTagSet::Power, 5_000_000, 5_000_000, 0, 0);
    assert_eq!(
        h.check_available_current(&d),
        Err(EnergyError::InvalidTension)
    );
}

#[test]
fn available_current_out_of_fixed_point_range_fails() {
    let mut h = manager();
    // A degenerate millivolt of line voltage and a hugely negative draw
    // push the headroom past the fixed-point range.
    h.state.tension = 1;
    let d = snapshot(MeterTagSet::Power, -2_147_000_000, 0, 0, 0);
    assert_eq!(h.check_available_current(&d), Err(EnergyError::OutOfRange));
}

#[test]
fn ingest_evaluates_only_complete_frames() {
    let mut h = manager();
    h.set_imax_cable(10);
    let mut d = MeterDataSet::default(MeterTagSet::Current);
    // A frame whose aggregate passes the filter: evaluated, and over limit.
    let notice = h.ingest(&mut d, &vec![15_000, 15_000, 15_000, 15_000]);
    assert_eq!(
        notice,
        Ok(Some(OverLimit { tag: MeterTagSet::Current, value: 10_000 }))
    );
    assert_eq!(h.get_state().current, 15_000);
    // A regressing aggregate is dropped: no evaluation, state untouched.
    let silent = h.ingest(&mut d, &vec![9_000, 9_000, 9_000, 9_000]);
    assert_eq!(silent, Ok(None));
    assert_eq!(h.get_state().current, 15_000);
    assert_eq!(d.total, 15_000);
}

#[test]
fn ingest_rejects_oversized_frames() {
    let mut h = manager();
    let mut d = MeterDataSet::default(MeterTagSet::Current);
    assert_eq!(
        h.ingest(&mut d, &vec![1, 2, 3, 4, 5]),
        Err(EnergyError::InvalidPhase)
    );
}

#[test]
fn single_reading_evaluates_while_aggregate_holds() {
    let mut h = manager();
    h.set_imax_cable(10);
    let mut d = MeterDataSet::default(MeterTagSet::Current);
    // The aggregate arrives first and is over no per-phase limit yet.
    assert_eq!(h.ingest_reading(&mut d, 0, 15_000), Ok(None));
    assert!(d.updated);
    // A phase reading lands while the aggregate still holds: evaluated.
    assert_eq!(
        h.ingest_reading(&mut d, 1, 15_000),
        Ok(Some(OverLimit { tag: MeterTagSet::Current, value: 10_000 }))
    );
    assert_eq!(h.ingest_reading(&mut d, 9, 1), Err(EnergyError::InvalidPhase));
}

#[test]
fn available_event_fires_only_when_headroom_binds() {
    let mut h = manager();
    h.set_power_subscription(9_000, 230);
    let mut d = MeterDataSet::default(MeterTagSet::Power);
    // Headroom 54 A is not below the 32 A cable limit: no event.
    assert_eq!(
        h.ingest_available(&mut d, &vec![5_000_000, 5_000_000, 0, 0]),
        Ok(None)
    );
    // 21 kW drawn leaves 0.8 * 22 kW - 21 kW = -3.4 kW: the headroom of
    // -14 A (rounded toward zero) binds and must be broadcast.
    let mut d2 = MeterDataSet::default(MeterTagSet::Power);
    assert_eq!(
        h.ingest_available(&mut d2, &vec![21_000_000, 21_000_000, 0, 0]),
        Ok(Some(-14))
    );
}

#[test]
fn notifications_carry_tag_and_value() {
    let h = manager();
    let n = h.notify_over_power(MeterTagSet::Power, 9_000_000);
    assert_eq!(n, OverLimit { tag: MeterTagSet::Power, value: 9_000_000 });
}

#[test]
fn power_event_defaults_to_stop() {
    assert_eq!(PowerEvent::default(), PowerEvent::STOP);
    assert_ne!(PowerEvent::IMAX(16), PowerEvent::START);
}
