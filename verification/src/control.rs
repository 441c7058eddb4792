//! Per-cycle controller: the one piece of state that outlives a cycle
//! (the sticky actuator command and the wrapping image index), and the
//! pure cycle step from three raw samples to that state's successor, the
//! display frame and the physical reading.

use vstd::prelude::*;

use crate::policy::ActuatorCommand;
use crate::policy::PhysicalReading;
use crate::policy::StatusFlags;
use crate::policy::evaluate_flags;
use crate::policy::decide_actuator;
use crate::policy::next_command;
use crate::policy::status_flags_of;
use crate::units::adc_to_millivolts;
use crate::units::adc_to_temperature_milli;
use crate::units::calculate_light;
use crate::units::light_level_of;
use crate::units::millivolts_of;
use crate::units::millivolts_to_soil_moisture;
use crate::units::soil_moisture_centi_of;
use crate::units::temperature_milli_of;

verus! {

/// Number of images in the fixed cyclic sequence the display steps
/// through, one per cycle.
pub const IMAGE_COUNT: usize = 60;

/// Everything drawn in one cycle: the image selected from the cyclic
/// sequence and the set of status texts to show.
#[derive(Clone, Copy, Debug, PartialEq, Eq, Structural)]
pub struct DisplayFrame {
    pub image_index: usize,
    pub flags: StatusFlags,
}

/// What one cycle hands back to its caller: the fresh physical reading
/// (also what gets logged), the frame to draw, and the command to apply
/// to the output line.
#[derive(Clone, Copy, Debug, PartialEq, Eq, Structural)]
pub struct CycleOutput {
    pub reading: PhysicalReading,
    pub frame: DisplayFrame,
    pub command: ActuatorCommand,
}

/// Physical reading derived from one cycle's three raw samples.
pub open spec fn reading_of(temperature_adc: int, soil_adc: int, light_adc: int)
    -> PhysicalReading {
    PhysicalReading {
        temperature_milli_c: temperature_milli_of(temperature_adc) as i64,
        soil_moisture_centi_pct: soil_moisture_centi_of(millivolts_of(soil_adc)) as i64,
        light_level: light_level_of(light_adc) as u16,
    }
}

/// Cross-cycle state of the control loop.  The actuator command is
/// sticky: a cycle whose moisture reading sits exactly on the threshold
/// leaves it as the previous cycle set it.
pub struct Controller {
    pub image_index: usize,
    pub command: ActuatorCommand,
}

impl Controller {
    /// The image index always stays inside the image sequence.
    pub open spec fn wf(self) -> bool {
        self.image_index < IMAGE_COUNT
    }

    /// Fresh controller: the image cycle starts at its first frame and
    /// the actuator is commanded open until a decisive reading arrives.
    pub fn new() -> (c: Controller)
        ensures
            c.wf(),
            c.image_index == 0,
            c.command == ActuatorCommand::Open,
    {
        Controller { image_index: 0, command: ActuatorCommand::Open }
    }

    /// Advances the image cycle by one frame, wrapping at the end of the
    /// sequence.  The actuator command is untouched.
    pub fn advance_image(&mut self)
        requires
            old(self).wf(),
        ensures
            final(self).wf(),
            final(self).image_index == (old(self).image_index + 1) % (IMAGE_COUNT as int),
            final(self).command == old(self).command,
    {
        self.image_index = (self.image_index + 1) % IMAGE_COUNT;
    }

    /// One full cycle of the control loop's computation: advance the
    /// image cycle, convert the three raw samples, decide the actuator
    /// command from the moisture reading (sticky at the threshold), and
    /// bundle the frame to draw.  The caller performs the sampling before
    /// and the drawing, line write and logging after.
    pub fn run_cycle(&mut self, temperature_adc: u16, soil_adc: u16, light_adc: u16) -> (out:
        CycleOutput)
        requires
            old(self).wf(),
        ensures
            final(self).wf(),
            final(self).image_index == (old(self).image_index + 1) % (IMAGE_COUNT as int),
            final(self).command == next_command(
                old(self).command,
                soil_moisture_centi_of(millivolts_of(soil_adc as int)),
            ),
            out.reading == reading_of(temperature_adc as int, soil_adc as int, light_adc as int),
            out.frame.image_index == final(self).image_index,
            out.frame.flags == status_flags_of(out.reading),
            out.command == final(self).command,
    {
        self.advance_image();
        let temperature_milli_c: i64 = adc_to_temperature_milli(temperature_adc);
        let soil_millivolts: u32 = adc_to_millivolts(soil_adc);
        let soil_moisture_centi_pct: i64 = millivolts_to_soil_moisture(soil_millivolts);
        let light_level: u16 = calculate_light(light_adc);
        let reading = PhysicalReading { temperature_milli_c, soil_moisture_centi_pct, light_level };
        let flags: StatusFlags = evaluate_flags(&reading);
        let command: ActuatorCommand = decide_actuator(self.command, soil_moisture_centi_pct);
        self.command = command;
        CycleOutput {
            reading,
            frame: DisplayFrame { image_index: self.image_index, flags },
            command,
        }
    }
}

/// Image index after a number of single-frame advances.
pub open spec fn advanced_index(start: int, steps: nat) -> int
    decreases steps,
{
    if steps == 0 {
        start
    } else {
        (advanced_index(start, (steps - 1) as nat) + 1) % (IMAGE_COUNT as int)
    }
}

/// A run of advances lands on the start plus the step count, modulo the
/// sequence length, and so never leaves the sequence.
pub proof fn lemma_advanced_index(start: int, steps: nat)
    requires
        0 <= start < IMAGE_COUNT,
    ensures
        advanced_index(start, steps) == (start + steps) % (IMAGE_COUNT as int),
        0 <= advanced_index(start, steps) < IMAGE_COUNT,
    decreases steps,
{
    let n: int = IMAGE_COUNT as int;
    if steps == 0 {
        vstd::arithmetic::div_mod::lemma_small_mod(start as nat, IMAGE_COUNT as nat);
    } else {
        lemma_advanced_index(start, (steps - 1) as nat);
        // The prior index is already (start + steps - 1) % n, and adding
        // one more step commutes with the modulus.
        vstd::arithmetic::div_mod::lemma_add_mod_noop(start + steps - 1, 1, n);
        vstd::arithmetic::div_mod::lemma_small_mod(1nat, IMAGE_COUNT as nat);
    }
    vstd::arithmetic::div_mod::lemma_mod_bound(start + steps, n);
}

/// Advancing the image cycle never produces an out-of-range index, and a
/// full pass of as many advances as there are images returns the index
/// to its starting value.
pub proof fn lemma_image_cycle_wraps(start: int)
    requires
        0 <= start < IMAGE_COUNT,
    ensures
        advanced_index(start, IMAGE_COUNT as nat) == start,
        forall|steps: nat| 0 <= #[trigger] advanced_index(start, steps) < IMAGE_COUNT,
{
    lemma_advanced_index(start, IMAGE_COUNT as nat);
    vstd::arithmetic::div_mod::lemma_mod_add_multiples_vanish(start, IMAGE_COUNT as int);
    vstd::arithmetic::div_mod::lemma_small_mod(start as nat, IMAGE_COUNT as nat);
    assert forall|steps: nat| 0 <= #[trigger] advanced_index(start, steps) < IMAGE_COUNT by {
        lemma_advanced_index(start, steps);
    }
}

} // verus!
