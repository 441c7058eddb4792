use floramood::policy::decide_actuator;
use floramood::policy::evaluate_flags;
use floramood::policy::ActuatorCommand;
use floramood::policy::PhysicalReading;

fn reading(temperature_milli_c: i64, soil_moisture_centi_pct: i64, light_level: u16) -> PhysicalReading {
    PhysicalReading { temperature_milli_c, soil_moisture_centi_pct, light_level }
}

#[test]
fn actuator_thresholds() {
    assert_eq!(decide_actuator(ActuatorCommand::Open, 800), ActuatorCommand::Closed);
    assert_eq!(decide_actuator(ActuatorCommand::Closed, 1200), ActuatorCommand::Open);
}

#[test]
fn actuator_sticky_sequence() {
    // Moisture readings of 12.00 %, 10.00 %, 8.00 %: the exact-threshold
    // reading must leave the command as the prior cycle set it.
    let mut cmd = ActuatorCommand::Open;
    let mut seen = Vec::new();
    for m in [1200i64, 1000, 800] {
        cmd = decide_actuator(cmd, m);
        seen.push(cmd);
    }
    assert_eq!(
        seen,
        vec![ActuatorCommand::Open, ActuatorCommand::Open, ActuatorCommand::Closed]
    );
}

#[test]
fn actuator_sticky_both_ways() {
    assert_eq!(decide_actuator(ActuatorCommand::Open, 1000), ActuatorCommand::Open);
    assert_eq!(decide_actuator(ActuatorCommand::Closed, 1000), ActuatorCommand::Closed);
}

#[test]
fn relay_line_levels() {
    assert!(ActuatorCommand::Open.line_is_high());
    assert!(!ActuatorCommand::Closed.line_is_high());
}

#[test]
fn alert_fires_only_when_all_three_out_of_band() {
    // moisture 3.00 %, light 100, temperature -5.0 degrees: all out of
    // band, so the alert fires.
    let all_out = reading(-5000, 300, 100);
    assert!(evaluate_flags(&all_out).alert);

    // Bringing any single axis back in band clears the alert.
    let temp_in = reading(20000, 300, 100);
    assert!(!evaluate_flags(&temp_in).alert);
    let moisture_in = reading(-5000, 2000, 100);
    assert!(!evaluate_flags(&moisture_in).alert);
    let light_in = reading(-5000, 300, 1000);
    assert!(!evaluate_flags(&light_in).alert);
}

#[test]
fn alert_band_boundaries_are_inclusive() {
    // Values exactly on a band edge are in band: no alert.
    assert!(!evaluate_flags(&reading(0, 300, 100)).alert);
    assert!(!evaluate_flags(&reading(40000, 300, 100)).alert);
    assert!(!evaluate_flags(&reading(-5000, 500, 100)).alert);
    assert!(!evaluate_flags(&reading(-5000, 7000, 100)).alert);
    assert!(!evaluate_flags(&reading(-5000, 300, 500)).alert);
    assert!(!evaluate_flags(&reading(-5000, 300, 2000)).alert);
}

#[test]
fn moisture_flags() {
    assert!(evaluate_flags(&reading(20000, 300, 1000)).dry);
    assert!(!evaluate_flags(&reading(20000, 300, 1000)).wet);
    assert!(evaluate_flags(&reading(20000, 14545, 1000)).wet);
    assert!(!evaluate_flags(&reading(20000, 14545, 1000)).dry);
    // At exactly 10.00 % neither text shows.
    let at_threshold = evaluate_flags(&reading(20000, 1000, 1000));
    assert!(!at_threshold.dry && !at_threshold.wet);
}

#[test]
fn light_flags() {
    assert!(evaluate_flags(&reading(20000, 2000, 499)).dark);
    assert!(evaluate_flags(&reading(20000, 2000, 2001)).bright);
    let mid = evaluate_flags(&reading(20000, 2000, 500));
    assert!(!mid.dark && !mid.bright);
    let mid_high = evaluate_flags(&reading(20000, 2000, 2000));
    assert!(!mid_high.dark && !mid_high.bright);
}

#[test]
fn temperature_flags() {
    assert!(evaluate_flags(&reading(-1, 2000, 1000)).frozen);
    assert!(evaluate_flags(&reading(40001, 2000, 1000)).hot);
    let zero = evaluate_flags(&reading(0, 2000, 1000));
    assert!(!zero.frozen && !zero.hot);
    let forty = evaluate_flags(&reading(40000, 2000, 1000));
    assert!(!forty.frozen && !forty.hot);
}

#[test]
fn flags_can_fire_together() {
    let f = evaluate_flags(&reading(-5000, 300, 100));
    assert!(f.dry && f.dark && f.frozen && f.alert);
    assert!(!f.wet && !f.bright && !f.hot);
}

#[test]
fn policy_tolerates_out_of_range_readings() {
    // An uncalibrated probe can read far outside 0..=100 %; the policy
    // must still answer.
    let f = evaluate_flags(&reading(i64::MAX, i64::MIN, u16::MAX));
    assert!(f.dry && f.hot && f.bright && f.alert);
    assert_eq!(
        decide_actuator(ActuatorCommand::Open, i64::MIN),
        ActuatorCommand::Closed
    );
}
