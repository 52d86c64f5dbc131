//! Scan step: one iteration of the steady-state loop. From the 16 fresh
//! distance samples it derives the debug-display text and the 16 PWM
//! writes, applying the vibration mapper element-wise — so the actuation
//! always reflects exactly the most recent, complete distance array.

use vstd::prelude::*;
use crate::channels::{MotorChannel, channel_of, channel_from};
use crate::grid::{grid_of, stringify_distances};
use crate::mapper::{strength_of, vibration_strength_from};
use crate::sampler::sample_all_from_readings;

verus! {

/// One write to the PWM controller: the addressed channel is switched on at
/// counter tick `on` and off at tick `off` within the fixed PWM period, so
/// with `on == 0` the `off` tick is the duty cycle.
#[derive(Clone, Copy, PartialEq, Eq, Structural, Debug)]
pub struct PwmCommand {
    /// The channel written.
    pub channel: MotorChannel,
    /// The counter tick at which the channel switches on.
    pub on: u16,
    /// The counter tick at which the channel switches off.
    pub off: u16,
}

/// The PWM write owed to motor index `i` of a distance array: its own
/// channel, on-tick zero, and the mapped vibration strength as off-tick.
pub open spec fn command_for(d: Seq<u16>, i: int) -> PwmCommand {
    PwmCommand { channel: channel_of(i as u8), on: 0u16, off: strength_of(d[i]) }
}

/// Derives the 16 PWM writes for a complete distance array: one write per
/// motor index, the mapper applied element-wise.
pub fn actuation_commands(distances: &Vec<u16>) -> (cmds: Vec<PwmCommand>)
    requires
        distances@.len() == 16,
    ensures
        cmds@.len() == 16,
        forall|i: int| 0 <= i < 16 ==> cmds@[i] == command_for(distances@, i),
{
    let mut cmds: Vec<PwmCommand> = Vec::new();
    let mut i: usize = 0;
    while i < 16
        invariant
            distances@.len() == 16,
            i <= 16,
            cmds@.len() == i as int,
            forall|j: int| 0 <= j < i as int ==> cmds@[j] == command_for(distances@, j),
        decreases 16 - i,
    {
        let channel = channel_from(i as u8);
        let strength = vibration_strength_from(distances[i]);
        cmds.push(PwmCommand { channel, on: 0, off: strength });
        i = i + 1;
    }
    cmds
}

/// Everything one scan iteration hands to the hardware: the text for the
/// debug display and the 16 PWM writes.
pub struct ScanOutput {
    /// The distance grid rendered as four lines of four numbers.
    pub display: String,
    /// The PWM writes, one per motor index.
    pub commands: Vec<PwmCommand>,
}

/// Computes one scan iteration's outputs from the 16 fresh distance
/// samples: the display text renders exactly this array, and the actuation
/// is exactly this array mapped element-wise — never stale, never partial.
pub fn scan_step(distances: &Vec<u16>) -> (out: ScanOutput)
    requires
        distances@.len() == 16,
    ensures
        out.display@ == grid_of(distances@),
        out.commands@.len() == 16,
        forall|i: int| 0 <= i < 16 ==> out.commands@[i] == command_for(distances@, i),
{
    let display = stringify_distances(distances);
    let commands = actuation_commands(distances);
    ScanOutput { display, commands }
}

/// A whole cycle against a simulated sensor that reports the given
/// readings: the sampler fills all 16 slots with its region's reading, and
/// the actuation derives from exactly those samples, so the duty cycle on
/// channel `i` is the mapped strength of `readings[i]`.
pub fn scan_cycle_from_readings(readings: &Vec<u16>) -> (out: ScanOutput)
    requires
        readings@.len() == 16,
    ensures
        out.display@ == grid_of(readings@),
        out.commands@.len() == 16,
        forall|i: int| 0 <= i < 16 ==> out.commands@[i] == command_for(readings@, i),
{
    let distances = sample_all_from_readings(readings);
    proof {
        assert(distances@ =~= readings@);
    }
    scan_step(&distances)
}

} // verus!
