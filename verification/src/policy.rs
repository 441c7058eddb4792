//! Decision policy: stateless threshold predicates over the current
//! physical reading, producing the actuator command and the display
//! status flags.

use vstd::prelude::*;

verus! {

/// Position commanded for the binary actuator (the watering relay).
/// `Closed` drives the output line low, `Open` drives it high.
#[derive(Clone, Copy, Debug, PartialEq, Eq, Structural)]
pub enum ActuatorCommand {
    Closed,
    Open,
}

impl ActuatorCommand {
    /// Level the command puts on the digital output line: `Closed` is
    /// low, `Open` is high.
    pub fn line_is_high(self) -> (high: bool)
        ensures
            high == (self == ActuatorCommand::Open),
    {
        match self {
            ActuatorCommand::Closed => false,
            ActuatorCommand::Open => true,
        }
    }
}

/// One cycle's derived physical quantities, in fixed point: temperature
/// in thousandths of a degree Celsius, soil moisture in hundredths of a
/// percent, light as a re-centered raw code.  Moisture may lie outside
/// 0..=10000: the converters do not clamp, and every function here
/// tolerates out-of-range values.
#[derive(Clone, Copy, Debug, PartialEq, Eq, Structural)]
pub struct PhysicalReading {
    pub temperature_milli_c: i64,
    pub soil_moisture_centi_pct: i64,
    pub light_level: u16,
}

/// Soil-moisture threshold between the "dry" and "wet" regimes, in
/// centi-percent (10.00 %).  At exactly this value neither regime holds.
pub const MOISTURE_THRESHOLD_CENTI: i64 = 1000;

/// Below this moisture, in centi-percent (5.00 %), the reading counts as
/// out of band for the alert.
pub const MOISTURE_BAND_LOW_CENTI: i64 = 500;

/// Above this moisture, in centi-percent (70.00 %), the reading counts
/// as out of band for the alert.
pub const MOISTURE_BAND_HIGH_CENTI: i64 = 7000;

/// Light levels strictly below this are "dark"; together with the bright
/// threshold it bounds the in-band range for the alert.
pub const LIGHT_DARK_LEVEL: u16 = 500;

/// Light levels strictly above this are "bright".
pub const LIGHT_BRIGHT_LEVEL: u16 = 2000;

/// Temperatures strictly below this, in milli-degrees Celsius, are
/// "frozen".
pub const TEMPERATURE_FREEZING_MILLI_C: i64 = 0;

/// Temperatures strictly above this, in milli-degrees Celsius, are
/// "hot".
pub const TEMPERATURE_HOT_MILLI_C: i64 = 40000;

/// The moisture reading lies outside its alert band of 5.00..=70.00 %.
pub open spec fn moisture_out_of_band(m: int) -> bool {
    m < MOISTURE_BAND_LOW_CENTI || m > MOISTURE_BAND_HIGH_CENTI
}

/// The light level lies outside its alert band of 500..=2000.
pub open spec fn light_out_of_band(l: int) -> bool {
    l < LIGHT_DARK_LEVEL || l > LIGHT_BRIGHT_LEVEL
}

/// The temperature lies outside its alert band of 0..=40 degrees.
pub open spec fn temperature_out_of_band(t: int) -> bool {
    t < TEMPERATURE_FREEZING_MILLI_C || t > TEMPERATURE_HOT_MILLI_C
}

/// The emergency alert is conjunctive: it holds only when all three
/// monitored quantities are simultaneously out of band.
pub open spec fn alert_condition(r: PhysicalReading) -> bool {
    &&& moisture_out_of_band(r.soil_moisture_centi_pct as int)
    &&& light_out_of_band(r.light_level as int)
    &&& temperature_out_of_band(r.temperature_milli_c as int)
}

/// Informational display texts, each independently visible; several may
/// show in the same cycle.  `alert` replaces the brand label.
#[derive(Clone, Copy, Debug, PartialEq, Eq, Structural)]
pub struct StatusFlags {
    pub dry: bool,
    pub wet: bool,
    pub dark: bool,
    pub bright: bool,
    pub frozen: bool,
    pub hot: bool,
    pub alert: bool,
}

/// Status flags a physical reading gives rise to.  The dry/wet pair
/// mirrors the actuator thresholds but is evaluated separately: at
/// exactly the moisture threshold neither text shows, while the actuator
/// keeps its previous command.
pub open spec fn status_flags_of(r: PhysicalReading) -> StatusFlags {
    StatusFlags {
        dry: r.soil_moisture_centi_pct < MOISTURE_THRESHOLD_CENTI,
        wet: r.soil_moisture_centi_pct > MOISTURE_THRESHOLD_CENTI,
        dark: r.light_level < LIGHT_DARK_LEVEL,
        bright: r.light_level > LIGHT_BRIGHT_LEVEL,
        frozen: r.temperature_milli_c < TEMPERATURE_FREEZING_MILLI_C,
        hot: r.temperature_milli_c > TEMPERATURE_HOT_MILLI_C,
        alert: alert_condition(r),
    }
}

/// Evaluates every display predicate on the current reading.  Never
/// fails, whatever the reading holds.
pub fn evaluate_flags(r: &PhysicalReading) -> (f: StatusFlags)
    ensures
        f == status_flags_of(*r),
{
    StatusFlags {
        dry: r.soil_moisture_centi_pct < MOISTURE_THRESHOLD_CENTI,
        wet: r.soil_moisture_centi_pct > MOISTURE_THRESHOLD_CENTI,
        dark: r.light_level < LIGHT_DARK_LEVEL,
        bright: r.light_level > LIGHT_BRIGHT_LEVEL,
        frozen: r.temperature_milli_c < TEMPERATURE_FREEZING_MILLI_C,
        hot: r.temperature_milli_c > TEMPERATURE_HOT_MILLI_C,
        alert: (r.soil_moisture_centi_pct < MOISTURE_BAND_LOW_CENTI
            || r.soil_moisture_centi_pct > MOISTURE_BAND_HIGH_CENTI)
            && (r.light_level < LIGHT_DARK_LEVEL || r.light_level > LIGHT_BRIGHT_LEVEL)
            && (r.temperature_milli_c < TEMPERATURE_FREEZING_MILLI_C
                || r.temperature_milli_c > TEMPERATURE_HOT_MILLI_C),
    }
}

/// Command the actuator takes after a cycle with the given moisture
/// reading.  Below the threshold the relay closes, above it opens; at
/// exactly the threshold the previous command is kept (the command is
/// sticky under the ambiguous reading).
pub open spec fn next_command(prev: ActuatorCommand, m: int) -> ActuatorCommand {
    if m < MOISTURE_THRESHOLD_CENTI {
        ActuatorCommand::Closed
    } else if m > MOISTURE_THRESHOLD_CENTI {
        ActuatorCommand::Open
    } else {
        prev
    }
}

/// Decides the actuator command from the previous command and the
/// current soil-moisture reading.
pub fn decide_actuator(prev: ActuatorCommand, soil_moisture_centi_pct: i64) -> (cmd:
    ActuatorCommand)
    ensures
        cmd == next_command(prev, soil_moisture_centi_pct as int),
{
    if soil_moisture_centi_pct < MOISTURE_THRESHOLD_CENTI {
        ActuatorCommand::Closed
    } else if soil_moisture_centi_pct > MOISTURE_THRESHOLD_CENTI {
        ActuatorCommand::Open
    } else {
        prev
    }
}

/// A reading of exactly the moisture threshold never changes the
/// actuator command: whatever was decided before is decided again.
pub proof fn lemma_actuator_sticky(prev: ActuatorCommand)
    ensures
        next_command(prev, MOISTURE_THRESHOLD_CENTI as int) == prev,
{
}

/// Away from the exact threshold the decision forgets the previous
/// command: it depends on the moisture reading alone.
pub proof fn lemma_actuator_decisive(prev_a: ActuatorCommand, prev_b: ActuatorCommand, m: int)
    requires
        m != MOISTURE_THRESHOLD_CENTI,
    ensures
        next_command(prev_a, m) == next_command(prev_b, m),
{
}

/// The alert needs every axis: if any one of the three quantities is in
/// band, the alert does not fire; if all three are out of band, it does.
pub proof fn lemma_alert_conjunctive(r: PhysicalReading)
    ensures
        !moisture_out_of_band(r.soil_moisture_centi_pct as int) ==> !alert_condition(r),
        !light_out_of_band(r.light_level as int) ==> !alert_condition(r),
        !temperature_out_of_band(r.temperature_milli_c as int) ==> !alert_condition(r),
        moisture_out_of_band(r.soil_moisture_centi_pct as int) && light_out_of_band(
            r.light_level as int,
        ) && temperature_out_of_band(r.temperature_milli_c as int) ==> alert_condition(r),
{
}

} // verus!
