//! Distance sampler: retargets the time-of-flight sensor's region of
//! interest (ROI) across 16 fixed spots, one per vibration motor, and polls
//! each measurement to completion, filling an index-aligned array of 16
//! distance samples.
//!
//! The sensor itself is reached over a hardware bus, so the sampler is a
//! state machine: [`Sampler::current_command`] says which sensor operation
//! to perform next, the caller performs it, and [`Sampler::step`] consumes
//! the outcome. A ghost trace of the commands acknowledged so far is kept,
//! so that the order of sensor operations — stop, retarget, start, poll
//! until a classifiable status, clear, read — is part of the machine's
//! verified contract, one completed round per motor index.

use vstd::prelude::*;
use vstd::pervasive::VecAdditionalExecFns;

verus! {

/// The classified outcome of one measurement attempt, as the sampler reads
/// it back from the sensor.
#[derive(Clone, Copy, PartialEq, Eq, Structural, Debug)]
pub enum RangeStatus {
    /// No classifiable result yet: keep polling.
    Pending,
    /// A valid range measurement.
    Valid,
    /// The return signal was too weak; the reported distance is degraded.
    SignalFailure,
    /// The target was below the minimum measurable range.
    MinRangeFailure,
    /// Any other failure: treated as not ready, keep polling.
    OtherFailure,
}

/// Whether a status ends the poll loop: the sampler accepts a valid reading
/// and also the signal and minimum-range failures, which still yield a
/// numeric distance; anything else means "not ready yet".
pub open spec fn accepts(s: RangeStatus) -> bool {
    s is Valid || s is SignalFailure || s is MinRangeFailure
}

/// Whether a status ends the poll loop; see [`accepts`].
pub fn status_accepted(s: RangeStatus) -> (r: bool)
    ensures
        r == accepts(s),
{
    match s {
        RangeStatus::Valid => true,
        RangeStatus::SignalFailure => true,
        RangeStatus::MinRangeFailure => true,
        _ => false,
    }
}

/// One sensor operation the sampler asks its caller to perform.
#[derive(Clone, Copy, PartialEq, Eq, Structural, Debug)]
pub enum SensorCommand {
    /// Halt any in-progress measurement.
    StopRanging,
    /// Program the active ROI center to the given SPAD index.
    SetRoiCenter(u8),
    /// Start a new measurement.
    StartRanging,
    /// Read the current range status.
    GetRangeStatus,
    /// Clear the sensor's interrupt/ready flag.
    ClearInterrupt,
    /// Read the measured distance in millimeters.
    GetDistance,
}

/// The outcome of one performed sensor operation, handed back to the
/// sampler. A bus failure has no event: the firmware treats it as fatal
/// and never reaches the next step.
#[derive(Clone, Copy, PartialEq, Eq, Structural, Debug)]
pub enum SensorEvent {
    /// The command completed; it returns no value.
    Acked,
    /// The status read by `GetRangeStatus`.
    Status(RangeStatus),
    /// The distance read by `GetDistance`, in millimeters.
    Distance(u16),
}

/// Where the sampler stands inside the round for the current motor index.
#[derive(Clone, Copy, PartialEq, Eq, Structural, Debug)]
pub enum SamplerPhase {
    /// About to halt the previous measurement.
    Stopping,
    /// About to retarget the ROI center.
    SettingRoi,
    /// About to start the new measurement.
    Starting,
    /// Polling the range status until it is classifiable.
    Polling,
    /// About to clear the interrupt/ready flag.
    Clearing,
    /// About to read the distance.
    Reading,
    /// All 16 slots have been filled.
    Done,
}

/// The SPAD index of the ROI center measured for a motor index: the fixed
/// 16-entry table, ordered row-major to match the 4-by-4 motor grid.
pub open spec fn tof_center(i: int) -> u8 {
    if i == 0 {
        10
    } else if i == 1 {
        42
    } else if i == 2 {
        74
    } else if i == 3 {
        106
    } else if i == 4 {
        14
    } else if i == 5 {
        46
    } else if i == 6 {
        78
    } else if i == 7 {
        110
    } else if i == 8 {
        245
    } else if i == 9 {
        213
    } else if i == 10 {
        181
    } else if i == 11 {
        149
    } else if i == 12 {
        241
    } else if i == 13 {
        209
    } else if i == 14 {
        177
    } else {
        145
    }
}

/// Looks up the ROI center for a motor index.
pub fn tof_center_at(i: usize) -> (c: u8)
    requires
        i < 16,
    ensures
        c == tof_center(i as int),
{
    match i {
        0 => 10,
        1 => 42,
        2 => 74,
        3 => 106,
        4 => 14,
        5 => 46,
        6 => 78,
        7 => 110,
        8 => 245,
        9 => 213,
        10 => 181,
        11 => 149,
        12 => 241,
        13 => 209,
        14 => 177,
        _ => 145,
    }
}

/// The shape of a completed round of sensor commands for motor index `i`:
/// stop, retarget to that index's ROI center, start, then one or more
/// status polls, then clear and read — in exactly that order.
pub open spec fn round_shape(t: Seq<SensorCommand>, i: int) -> bool {
    &&& t.len() >= 6
    &&& t[0] == SensorCommand::StopRanging
    &&& t[1] == SensorCommand::SetRoiCenter(tof_center(i))
    &&& t[2] == SensorCommand::StartRanging
    &&& (forall|j: int| 3 <= j < t.len() - 2 ==> t[j] == SensorCommand::GetRangeStatus)
    &&& t[t.len() - 2] == SensorCommand::ClearInterrupt
    &&& t[t.len() - 1] == SensorCommand::GetDistance
}

/// The shape of the current, incomplete round's command trace, given the
/// motor index being measured and the phase the sampler is in.
pub open spec fn partial_round_shape(t: Seq<SensorCommand>, i: int, phase: SamplerPhase) -> bool {
    match phase {
        SamplerPhase::Stopping => t.len() == 0,
        SamplerPhase::SettingRoi => {
            &&& t.len() == 1
            &&& t[0] == SensorCommand::StopRanging
        },
        SamplerPhase::Starting => {
            &&& t.len() == 2
            &&& t[0] == SensorCommand::StopRanging
            &&& t[1] == SensorCommand::SetRoiCenter(tof_center(i))
        },
        SamplerPhase::Polling => {
            &&& t.len() >= 3
            &&& t[0] == SensorCommand::StopRanging
            &&& t[1] == SensorCommand::SetRoiCenter(tof_center(i))
            &&& t[2] == SensorCommand::StartRanging
            &&& (forall|j: int| 3 <= j < t.len() ==> t[j] == SensorCommand::GetRangeStatus)
        },
        SamplerPhase::Clearing => {
            &&& t.len() >= 4
            &&& t[0] == SensorCommand::StopRanging
            &&& t[1] == SensorCommand::SetRoiCenter(tof_center(i))
            &&& t[2] == SensorCommand::StartRanging
            &&& (forall|j: int| 3 <= j < t.len() ==> t[j] == SensorCommand::GetRangeStatus)
        },
        SamplerPhase::Reading => {
            &&& t.len() >= 5
            &&& t[0] == SensorCommand::StopRanging
            &&& t[1] == SensorCommand::SetRoiCenter(tof_center(i))
            &&& t[2] == SensorCommand::StartRanging
            &&& (forall|j: int| 3 <= j < t.len() - 1 ==> t[j] == SensorCommand::GetRangeStatus)
            &&& t[t.len() - 1] == SensorCommand::ClearInterrupt
        },
        SamplerPhase::Done => t.len() == 0,
    }
}

/// The sampler state machine. One call of [`Sampler::new`] followed by
/// performing each [`Sampler::current_command`] and feeding its outcome to
/// [`Sampler::step`] until [`Sampler::is_done`] realizes the contract
/// `sample_all(sensor) -> [distance; 16]` of the firmware.
pub struct Sampler {
    /// The motor index currently being measured; 16 once done.
    pub idx: usize,
    /// Where the sampler stands inside the current round.
    pub phase: SamplerPhase,
    /// The 16 distance slots, index-aligned with the motor channels.
    pub distances: Vec<u16>,
    /// Command trace of each completed round, in motor-index order.
    pub rounds: Ghost<Seq<Seq<SensorCommand>>>,
    /// Command trace of the round in progress.
    pub cur: Ghost<Seq<SensorCommand>>,
}

impl Sampler {
    /// Well-formedness: 16 slots, one completed well-shaped round per
    /// finished index, and a current trace matching the phase.
    pub open spec fn wf(self) -> bool {
        &&& self.idx <= 16
        &&& self.distances@.len() == 16
        &&& (self.phase is Done <==> self.idx == 16)
        &&& self.rounds@.len() == self.idx as int
        &&& (forall|i: int|
            0 <= i < self.idx as int ==> round_shape(#[trigger] self.rounds@[i], i))
        &&& partial_round_shape(self.cur@, self.idx as int, self.phase)
    }

    /// The sensor command to perform next; `None` once all slots are filled.
    pub open spec fn command_spec(self) -> Option<SensorCommand> {
        match self.phase {
            SamplerPhase::Stopping => Some(SensorCommand::StopRanging),
            SamplerPhase::SettingRoi => Some(
                SensorCommand::SetRoiCenter(tof_center(self.idx as int)),
            ),
            SamplerPhase::Starting => Some(SensorCommand::StartRanging),
            SamplerPhase::Polling => Some(SensorCommand::GetRangeStatus),
            SamplerPhase::Clearing => Some(SensorCommand::ClearInterrupt),
            SamplerPhase::Reading => Some(SensorCommand::GetDistance),
            SamplerPhase::Done => None,
        }
    }

    /// How one step transforms the sampler: the phases advance in the fixed
    /// order stop, retarget, start, poll (repeating until an accepted
    /// status), clear, read; only the read writes a distance slot — the one
    /// at the current index — and moves on to the next index.
    pub open spec fn step_spec(pre: Sampler, event: SensorEvent, post: Sampler) -> bool {
        match pre.phase {
            SamplerPhase::Stopping => {
                &&& post.phase is SettingRoi
                &&& post.idx == pre.idx
                &&& post.distances@ == pre.distances@
                &&& post.rounds@ == pre.rounds@
                &&& post.cur@ == pre.cur@.push(SensorCommand::StopRanging)
            },
            SamplerPhase::SettingRoi => {
                &&& post.phase is Starting
                &&& post.idx == pre.idx
                &&& post.distances@ == pre.distances@
                &&& post.rounds@ == pre.rounds@
                &&& post.cur@ == pre.cur@.push(
                    SensorCommand::SetRoiCenter(tof_center(pre.idx as int)),
                )
            },
            SamplerPhase::Starting => {
                &&& post.phase is Polling
                &&& post.idx == pre.idx
                &&& post.distances@ == pre.distances@
                &&& post.rounds@ == pre.rounds@
                &&& post.cur@ == pre.cur@.push(SensorCommand::StartRanging)
            },
            SamplerPhase::Polling => match event {
                SensorEvent::Status(s) => {
                    &&& post.phase == (if accepts(s) {
                        SamplerPhase::Clearing
                    } else {
                        SamplerPhase::Polling
                    })
                    &&& post.idx == pre.idx
                    &&& post.distances@ == pre.distances@
                    &&& post.rounds@ == pre.rounds@
                    &&& post.cur@ == pre.cur@.push(SensorCommand::GetRangeStatus)
                },
                _ => false,
            },
            SamplerPhase::Clearing => {
                &&& post.phase is Reading
                &&& post.idx == pre.idx
                &&& post.distances@ == pre.distances@
                &&& post.rounds@ == pre.rounds@
                &&& post.cur@ == pre.cur@.push(SensorCommand::ClearInterrupt)
            },
            SamplerPhase::Reading => match event {
                SensorEvent::Distance(d) => {
                    &&& post.phase == (if pre.idx + 1 == 16 {
                        SamplerPhase::Done
                    } else {
                        SamplerPhase::Stopping
                    })
                    &&& post.idx == pre.idx + 1
                    &&& post.distances@ == pre.distances@.update(pre.idx as int, d)
                    &&& post.rounds@ == pre.rounds@.push(
                        pre.cur@.push(SensorCommand::GetDistance),
                    )
                    &&& post.cur@ == Seq::<SensorCommand>::empty()
                },
                _ => false,
            },
            SamplerPhase::Done => false,
        }
    }

    /// A fresh sampler, about to measure motor index 0, with all 16 slots
    /// holding zero until their first read.
    pub fn new() -> (s: Sampler)
        ensures
            s.wf(),
            s.idx == 0,
            s.phase is Stopping,
            s.rounds@ == Seq::<Seq<SensorCommand>>::empty(),
            s.cur@ == Seq::<SensorCommand>::empty(),
            s.distances@ == Seq::new(16, |i: int| 0u16),
    {
        let mut distances: Vec<u16> = Vec::new();
        let mut i: usize = 0;
        while i < 16
            invariant
                i <= 16,
                distances@ == Seq::new(i as nat, |j: int| 0u16),
            decreases 16 - i,
        {
            distances.push(0);
            proof {
                assert(distances@ =~= Seq::new(i as nat + 1, |j: int| 0u16));
            }
            i = i + 1;
        }
        Sampler {
            idx: 0,
            phase: SamplerPhase::Stopping,
            distances,
            rounds: Ghost(Seq::empty()),
            cur: Ghost(Seq::empty()),
        }
    }

    /// Whether all 16 slots have been filled.
    pub fn is_done(&self) -> (b: bool)
        ensures
            b == (self.phase is Done),
    {
        match self.phase {
            SamplerPhase::Done => true,
            _ => false,
        }
    }

    /// The motor index currently being measured.
    pub fn index(&self) -> (i: usize)
        ensures
            i == self.idx,
    {
        self.idx
    }

    /// The sensor command to perform next; `None` once done.
    pub fn current_command(&self) -> (c: Option<SensorCommand>)
        requires
            self.wf(),
        ensures
            c == self.command_spec(),
    {
        match self.phase {
            SamplerPhase::Stopping => Some(SensorCommand::StopRanging),
            SamplerPhase::SettingRoi => Some(SensorCommand::SetRoiCenter(tof_center_at(self.idx))),
            SamplerPhase::Starting => Some(SensorCommand::StartRanging),
            SamplerPhase::Polling => Some(SensorCommand::GetRangeStatus),
            SamplerPhase::Clearing => Some(SensorCommand::ClearInterrupt),
            SamplerPhase::Reading => Some(SensorCommand::GetDistance),
            SamplerPhase::Done => None,
        }
    }

    /// Consumes the outcome of the command just performed and advances the
    /// machine as [`Sampler::step_spec`] describes.
    pub fn step(&mut self, event: SensorEvent)
        requires
            old(self).wf(),
            !(old(self).phase is Done),
            (old(self).phase is Polling) ==> (event is Status),
            (old(self).phase is Reading) ==> (event is Distance),
        ensures
            final(self).wf(),
            Sampler::step_spec(*old(self), event, *final(self)),
    {
        match self.phase {
            SamplerPhase::Stopping => {
                self.cur = Ghost(self.cur@.push(SensorCommand::StopRanging));
                self.phase = SamplerPhase::SettingRoi;
            },
            SamplerPhase::SettingRoi => {
                self.cur = Ghost(
                    self.cur@.push(SensorCommand::SetRoiCenter(tof_center(self.idx as int))),
                );
                self.phase = SamplerPhase::Starting;
            },
            SamplerPhase::Starting => {
                self.cur = Ghost(self.cur@.push(SensorCommand::StartRanging));
                self.phase = SamplerPhase::Polling;
            },
            SamplerPhase::Polling => {
                self.cur = Ghost(self.cur@.push(SensorCommand::GetRangeStatus));
                match event {
                    SensorEvent::Status(s) => {
                        if status_accepted(s) {
                            self.phase = SamplerPhase::Clearing;
                        }
                    },
                    _ => {
                        proof {
                            assert(false);
                        }
                    },
                }
            },
            SamplerPhase::Clearing => {
                self.cur = Ghost(self.cur@.push(SensorCommand::ClearInterrupt));
                self.phase = SamplerPhase::Reading;
            },
            SamplerPhase::Reading => {
                match event {
                    SensorEvent::Distance(d) => {
                        let ghost finished = self.cur@.push(SensorCommand::GetDistance);
                        self.distances.set(self.idx, d);
                        self.rounds = Ghost(self.rounds@.push(finished));
                        self.cur = Ghost(Seq::empty());
                        self.idx = self.idx + 1;
                        if self.idx == 16 {
                            self.phase = SamplerPhase::Done;
                        } else {
                            self.phase = SamplerPhase::Stopping;
                        }
                    },
                    _ => {
                        proof {
                            assert(false);
                        }
                    },
                }
            },
            SamplerPhase::Done => {
                proof {
                    assert(false);
                }
            },
        }
    }

    /// Hands out the filled distance array once the scan of all 16 regions
    /// is complete.
    pub fn into_distances(self) -> (v: Vec<u16>)
        requires
            self.wf(),
            self.phase is Done,
        ensures
            v@ == self.distances@,
            v@.len() == 16,
    {
        self.distances
    }
}

/// After a completed scan, the sampler's trace is exactly one well-shaped
/// round per motor index, in index order 0 through 15: for each index the
/// sensor was stopped, retargeted to that index's ROI center, started,
/// polled at least once, cleared, and read — and nothing else was done.
pub proof fn lemma_sampler_trace_complete(s: Sampler)
    requires
        s.wf(),
        s.phase is Done,
    ensures
        s.rounds@.len() == 16,
        forall|i: int| 0 <= i < 16 ==> round_shape(#[trigger] s.rounds@[i], i),
{
}

/// How far along its round a phase is, for termination measures.
spec fn phase_rank(p: SamplerPhase) -> int {
    match p {
        SamplerPhase::Stopping => 0,
        SamplerPhase::SettingRoi => 1,
        SamplerPhase::Starting => 2,
        SamplerPhase::Polling => 3,
        SamplerPhase::Clearing => 4,
        SamplerPhase::Reading => 5,
        SamplerPhase::Done => 6,
    }
}

/// Runs a whole scan against a simulated sensor whose range status is
/// immediately valid and whose measured distance for motor index `i` is
/// `readings[i]`: every one of the 16 slots receives exactly the reading of
/// its own region.
pub fn sample_all_from_readings(readings: &Vec<u16>) -> (out: Vec<u16>)
    requires
        readings@.len() == 16,
    ensures
        out@.len() == 16,
        forall|i: int| 0 <= i < 16 ==> out@[i] == readings@[i],
{
    let mut s = Sampler::new();
    while !s.is_done()
        invariant
            s.wf(),
            readings@.len() == 16,
            forall|j: int| 0 <= j < s.idx as int ==> s.distances@[j] == readings@[j],
        decreases 16 - s.idx as int, 6 - phase_rank(s.phase),
    {
        let cmd = s.current_command();
        match cmd {
            Some(SensorCommand::GetRangeStatus) => {
                s.step(SensorEvent::Status(RangeStatus::Valid));
            },
            Some(SensorCommand::GetDistance) => {
                let d: u16 = readings[s.index()];
                s.step(SensorEvent::Distance(d));
            },
            Some(_) => {
                s.step(SensorEvent::Acked);
            },
            None => {
                proof {
                    assert(false);
                }
            },
        }
    }
    s.into_distances()
}

} // verus!
