//! Unit converters: pure functions from raw ADC codes to fixed-point
//! physical quantities.

use vstd::prelude::*;

verus! {

/// Largest code the converter divides by: the ADC range is scaled as a
/// fraction of this full-scale value.
pub const ADC_FULL_SCALE: u32 = 1023;

/// Supply rail in millivolts; a full-scale code reads as this voltage.
pub const SUPPLY_MILLIVOLTS: u32 = 3300;

/// Voltage a raw code stands for, in millivolts (rounded down).
pub open spec fn millivolts_of(adc: int) -> int {
    adc * (SUPPLY_MILLIVOLTS as int) / (ADC_FULL_SCALE as int)
}

/// Linear scale of a raw code over the full-scale range onto 0..=3300 mV.
pub fn adc_to_millivolts(adc: u16) -> (mv: u32)
    ensures
        mv == millivolts_of(adc as int),
{
    (adc as u32 * SUPPLY_MILLIVOLTS) / ADC_FULL_SCALE
}

/// Calibration endpoint of the moisture probe: the voltage read as 0 %
/// moisture (fully dry), in millivolts.
pub const MOISTURE_DRY_MILLIVOLTS: u32 = 10000;

/// Span of the calibrated voltage range, in millivolts: the dry endpoint
/// minus the 100 % (fully wet) endpoint of 4500 mV.
pub const MOISTURE_SPAN_MILLIVOLTS: u32 = 5500;

/// Soil moisture a probe voltage stands for, in hundredths of a percent
/// (10.00 % is 1000).  The calibration is inverted: a higher voltage
/// means a drier probe.  The value is deliberately not clamped: voltages
/// outside the calibrated 4500..=10000 mV range yield readings outside
/// 0..=10000, and the decision policy tolerates them.  Rounding is
/// toward zero, as in machine division.
pub open spec fn soil_moisture_centi_of(mv: int) -> int {
    if mv <= MOISTURE_DRY_MILLIVOLTS {
        (MOISTURE_DRY_MILLIVOLTS - mv) * 10000 / (MOISTURE_SPAN_MILLIVOLTS as int)
    } else {
        -((mv - MOISTURE_DRY_MILLIVOLTS) * 10000 / (MOISTURE_SPAN_MILLIVOLTS as int))
    }
}

/// Affine map from probe voltage to soil moisture in centi-percent.
pub fn millivolts_to_soil_moisture(mv: u32) -> (centi_pct: i64)
    ensures
        centi_pct == soil_moisture_centi_of(mv as int),
{
    if mv <= MOISTURE_DRY_MILLIVOLTS {
        let scaled: u64 = (MOISTURE_DRY_MILLIVOLTS - mv) as u64 * 10000;
        (scaled / (MOISTURE_SPAN_MILLIVOLTS as u64)) as i64
    } else {
        let scaled: u64 = (mv - MOISTURE_DRY_MILLIVOLTS) as u64 * 10000;
        -((scaled / (MOISTURE_SPAN_MILLIVOLTS as u64)) as i64)
    }
}

/// Calibration offset added to the temperature channel's voltage reading,
/// in thousandths of a degree Celsius.
pub const TEMPERATURE_OFFSET_MILLI_C: i64 = 7000;

/// Temperature the raw code on the temperature channel stands for, in
/// thousandths of a degree Celsius: the channel voltage (numerically, one
/// millivolt per thousandth of a degree) plus a fixed calibration offset.
pub open spec fn temperature_milli_of(adc: int) -> int {
    millivolts_of(adc) + TEMPERATURE_OFFSET_MILLI_C
}

/// Converts the temperature channel's raw code, applying the calibration
/// offset after the voltage conversion.
pub fn adc_to_temperature_milli(adc: u16) -> (t: i64)
    ensures
        t == temperature_milli_of(adc as int),
{
    adc_to_millivolts(adc) as i64 + TEMPERATURE_OFFSET_MILLI_C
}

/// Raw light codes strictly above this threshold are shifted down.
pub const LIGHT_HIGH_CODE: u16 = 3000;

/// Raw light codes strictly below this threshold are shifted up.
pub const LIGHT_LOW_CODE: u16 = 1000;

/// Offset applied when a light code leaves the pass-through band.
pub const LIGHT_WRAP_OFFSET: u16 = 4000;

/// The light code wraps within the 16-bit code space.
pub const LIGHT_CODE_SPACE: u32 = 65536;

/// The raw light code falls in the band that is shifted down.
pub open spec fn shifts_down(code: int) -> bool {
    code > LIGHT_HIGH_CODE
}

/// The raw light code falls in the band that is shifted up.
pub open spec fn shifts_up(code: int) -> bool {
    code < LIGHT_LOW_CODE
}

/// The raw light code falls in the middle band and passes through.
pub open spec fn passes_through(code: int) -> bool {
    LIGHT_LOW_CODE <= code <= LIGHT_HIGH_CODE
}

/// Re-centered light level of a raw code.  The sensor's raw output wraps
/// around a boundary, so the code space is treated as wrapping modulo the
/// 16-bit range: codes above the high threshold are shifted down by the
/// fixed offset (wrapping), codes below the low threshold are shifted up
/// by the same offset, and codes in the middle band pass through.
pub open spec fn light_level_of(code: int) -> int {
    if shifts_down(code) {
        (code - LIGHT_WRAP_OFFSET + LIGHT_CODE_SPACE) % (LIGHT_CODE_SPACE as int)
    } else if shifts_up(code) {
        code + LIGHT_WRAP_OFFSET
    } else {
        code
    }
}

/// Re-centers a raw light code into a light level.
pub fn calculate_light(light_adc: u16) -> (level: u16)
    ensures
        level == light_level_of(light_adc as int),
{
    if light_adc > LIGHT_HIGH_CODE {
        if light_adc >= LIGHT_WRAP_OFFSET {
            light_adc - LIGHT_WRAP_OFFSET
        } else {
            // Shifting down from just above the high threshold leaves the
            // 16-bit code space at the bottom and wraps to its top.
            light_adc + 61536
        }
    } else if light_adc < LIGHT_LOW_CODE {
        light_adc + LIGHT_WRAP_OFFSET
    } else {
        light_adc
    }
}

/// Floor division of a possibly negative value by a positive divisor,
/// carried out with unsigned machine division.  This matches the rounding
/// of an arithmetic right shift when the divisor is a power of two.
fn floor_div(x: i32, d: u32) -> (q: i32)
    requires
        1 <= d <= 0x4000_0000,
        -0x4000_0000 <= x,
    ensures
        q == x as int / d as int,
{
    if x >= 0 {
        proof {
            vstd::arithmetic::div_mod::lemma_div_nonincreasing(x as int, d as int);
            vstd::arithmetic::div_mod::lemma_div_pos_is_pos(x as int, d as int);
        }
        let q: u32 = (x as u32) / d;
        q as i32
    } else {
        let neg: i64 = x as i64;
        let m: u32 = (-neg) as u32;
        let ghost qq: int = (m + (d - 1)) as int / d as int;
        let ghost rr: int = (m + (d - 1)) as int % d as int;
        let q: u32 = (m + (d - 1)) / d;
        proof {
            // m + d - 1 == d*qq + rr with 0 <= rr < d, so
            // -m == (-qq)*d + (d - 1 - rr) with the remainder again in
            // 0..d; by uniqueness of Euclidean division, (-m)/d == -qq.
            vstd::arithmetic::div_mod::lemma_fundamental_div_mod((m + (d - 1)) as int, d as int);
            vstd::arithmetic::div_mod::lemma_mod_bound((m + (d - 1)) as int, d as int);
            assert(-(m as int) == (-qq) * (d as int) + (d - 1 - rr) && 1 <= qq <= m as int)
                by (nonlinear_arith)
                requires
                    (m + (d - 1)) as int == (d as int) * qq + rr,
                    0 <= rr < d as int,
                    1 <= d as int,
                    1 <= m as int,
            ;
            vstd::arithmetic::div_mod::lemma_fundamental_div_mod_converse(
                -(m as int),
                d as int,
                -qq,
                d - 1 - rr,
            );
        }
        -(q as i32)
    }
}

/// Integer compensation polynomial for a raw code of a digital
/// temperature sensor, in hundredths of a degree Celsius.  Division here
/// rounds toward negative infinity, as the arithmetic right shifts in the
/// sensor vendor's fixed-point formula do.
pub open spec fn compensated_temperature(adc: int) -> int {
    let var1 = (adc / 8 - 55008) * 12;
    let diff = adc / 16 - 27504;
    let var2 = diff * (diff / 4096) * -1;
    ((var1 + var2) * 5 + 128) / 256
}

/// Evaluates the sensor's compensation polynomial on a raw temperature
/// code.  The raw code is at most 20 bits wide (the sensor's output
/// width); within that range every intermediate product fits in 32 bits.
pub fn calculate_temperature(temperature_adc: u32) -> (t: i32)
    requires
        temperature_adc < 0x10_0000,
    ensures
        t == compensated_temperature(temperature_adc as int),
{
    let var1: i32 = ((temperature_adc / 8) as i32 - 55008) * 12;
    let diff: i32 = (temperature_adc / 16) as i32 - 27504;
    let diff_scaled: i32 = floor_div(diff, 4096);
    proof {
        vstd::arithmetic::div_mod::lemma_fundamental_div_mod(diff as int, 4096);
        vstd::arithmetic::div_mod::lemma_mod_bound(diff as int, 4096);
        assert(-7 <= diff_scaled <= 9);
        assert(0 <= diff * diff_scaled <= 342279)
            by (nonlinear_arith)
            requires
                -27504 <= diff <= 38031,
                -7 <= diff_scaled <= 9,
                diff_scaled == diff as int / 4096,
        ;
    }
    let prod: i32 = diff * diff_scaled;
    let var2: i32 = -prod;
    floor_div((var1 + var2) * 5 + 128, 256)
}

/// Every raw light code falls in exactly one of the three bands, so the
/// re-centering is total and unambiguous over the whole code domain.
pub proof fn lemma_light_bands_partition(code: int)
    ensures
        shifts_down(code) || shifts_up(code) || passes_through(code),
        shifts_down(code) ==> !shifts_up(code) && !passes_through(code),
        shifts_up(code) ==> !shifts_down(code) && !passes_through(code),
        passes_through(code) ==> !shifts_down(code) && !shifts_up(code),
{
}

/// The soil-moisture conversion is pure: any two results that the
/// converter chain may return for the same raw code are equal.
pub proof fn lemma_soil_moisture_deterministic(adc: u16, r1: i64, r2: i64)
    requires
        r1 == soil_moisture_centi_of(millivolts_of(adc as int)),
        r2 == soil_moisture_centi_of(millivolts_of(adc as int)),
    ensures
        r1 == r2,
{
}

/// The light conversion is pure: any two results that the converter may
/// return for the same raw code are equal.
pub proof fn lemma_light_level_deterministic(adc: u16, r1: u16, r2: u16)
    requires
        r1 == light_level_of(adc as int),
        r2 == light_level_of(adc as int),
    ensures
        r1 == r2,
{
}

} // verus!
