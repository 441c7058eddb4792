use floramood::control::Controller;
use floramood::control::IMAGE_COUNT;
use floramood::policy::ActuatorCommand;

#[test]
fn fresh_controller_state() {
    let c = Controller::new();
    assert_eq!(c.image_index, 0);
    assert_eq!(c.command, ActuatorCommand::Open);
}

#[test]
fn image_index_wraps_after_full_pass() {
    let mut c = Controller::new();
    for _ in 0..IMAGE_COUNT {
        c.advance_image();
        assert!(c.image_index < IMAGE_COUNT);
    }
    assert_eq!(c.image_index, 0);
}

#[test]
fn image_index_steps_by_one() {
    let mut c = Controller::new();
    c.advance_image();
    assert_eq!(c.image_index, 1);
    c.advance_image();
    assert_eq!(c.image_index, 2);
}

#[test]
fn image_index_wraps_through_cycles() {
    let mut c = Controller::new();
    let start: usize = c.image_index;
    for _ in 0..IMAGE_COUNT {
        let out = c.run_cycle(310, 620, 1500);
        assert!(out.frame.image_index < IMAGE_COUNT);
    }
    assert_eq!(c.image_index, start);
}

#[test]
fn end_to_end_cycle() {
    // Raw temperature code 310 reads one volt, so the displayed
    // temperature is 1.0 + 7.0 = 8.0 degrees: neither frozen nor hot.
    // Raw soil code 620 reads two volts, so moisture is
    // (10.0 - 2.0) / 5.5 * 100 = 145.45 %: out of 0..=100 but not an
    // error, and above the 10 % threshold, so the command is Open and
    // the wet text shows.
    let mut c = Controller::new();
    let out = c.run_cycle(310, 620, 1500);

    assert_eq!(out.reading.temperature_milli_c, 8000);
    assert_eq!(out.reading.soil_moisture_centi_pct, 14545);
    assert_eq!(out.reading.light_level, 1500);

    assert_eq!(out.command, ActuatorCommand::Open);
    assert!(out.frame.flags.wet);
    assert!(!out.frame.flags.dry);
    assert!(!out.frame.flags.frozen);
    assert!(!out.frame.flags.hot);
    assert!(!out.frame.flags.dark);
    assert!(!out.frame.flags.bright);
    assert!(!out.frame.flags.alert);

    assert_eq!(out.frame.image_index, 1);
    assert_eq!(c.command, ActuatorCommand::Open);
}

#[test]
fn command_persists_across_cycles() {
    let mut c = Controller::new();
    // A dry reading closes the relay: soil code 2931 reads 9454 mV,
    // giving moisture 9.92 %, just under the threshold...
    let dry = c.run_cycle(310, 2931, 1500);
    assert!(dry.reading.soil_moisture_centi_pct < 1000);
    assert_eq!(dry.command, ActuatorCommand::Closed);
    // ...and the command carries into the next cycle's state.
    assert_eq!(c.command, ActuatorCommand::Closed);
    let wet = c.run_cycle(310, 620, 1500);
    assert_eq!(wet.command, ActuatorCommand::Open);
}

#[test]
fn alert_cycle() {
    // Soil at full scale reads far above the dry calibration endpoint:
    // moisture is negative, out of band.  Light code 100 shifts up to
    // 4100, out of band.  Temperature code 65535 reads 211.4 V plus the
    // offset: hot and out of band.  All three out, so the alert fires.
    let mut c = Controller::new();
    let out = c.run_cycle(65535, 65535, 100);
    assert!(out.reading.soil_moisture_centi_pct < 500);
    assert!(out.reading.light_level > 2000);
    assert!(out.reading.temperature_milli_c > 40000);
    assert!(out.frame.flags.alert);
    assert!(out.frame.flags.dry && out.frame.flags.bright && out.frame.flags.hot);
}
