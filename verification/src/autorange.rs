//! The auto-ranging gain search of the optical sensor.
//!
//! The sensor's illuminance formula degenerates when the gain does not suit
//! the scene: too weak a signal underflows to NaN, raw counts at the
//! saturation threshold refuse the computation, and the device can report
//! an overflow condition. The controller walks the gain lattice one step at
//! a time — up on underflow, down on saturation — until the computation
//! yields a finite value, a lattice boundary settles the scene (pitch-black
//! or unmeasurably bright), or a fixed attempt budget runs out.
//!
//! The floating-point computation itself happens outside the library; the
//! controller consumes its classification and the value's IEEE 754 bits.

use vstd::prelude::*;

use crate::gain::{
    decrement_gain, gain_predecessor, gain_successor, increment_gain, GainLevel,
};
use crate::telemetry::{models_of, Measurement, MeasurementModel};

verus! {

/// The most readings one measurement cycle may take before the search
/// fails soft, in case the device itself never yields a usable reading.
pub const MAX_ATTEMPTS: u8 = 10;

/// The classification of one illuminance computation at the current gain.
#[derive(Clone, Copy, Debug, PartialEq, Eq, Structural)]
pub enum LuxReading {
    /// The formula produced NaN: the signal underflowed the current gain.
    Underflow,
    /// The formula produced an infinity: the device reported an overflow
    /// condition, and the scene cannot be measured this cycle.
    Unmeasurable,
    /// The raw counts reached the sensor's saturation threshold, so the
    /// computation was refused: the gain is too strong.
    Saturated,
    /// A finite illuminance, carried as the IEEE 754 bits of its value.
    Finite(u32),
}

/// What the controller answers to one reading.
#[derive(Debug)]
pub enum SearchStep {
    /// Read again with the controller's adjusted gain.
    Continue,
    /// The search is over; these are the cycle's measurements.
    Finished(Vec<Measurement>),
}

/// The metric name under which illuminance is reported.
pub open spec fn lux_name() -> Seq<char> {
    "lux"@
}

/// A single illuminance measurement with the given bits. The all-zero bit
/// pattern is the value 0.0, reported for a pitch-black scene.
pub open spec fn lux_result(value_bits: u32) -> Seq<MeasurementModel> {
    seq![MeasurementModel { name: lux_name(), value_bits }]
}

/// One decision of the search: either a new gain to retry with, or the
/// finished cycle's measurements.
pub ghost enum StepModel {
    Retry(GainLevel),
    Finish(Seq<MeasurementModel>),
}

/// How one classified reading at one gain advances the search:
/// a finite value is the result; a device-reported overflow ends the cycle
/// without measurements; an underflow asks for the next stronger gain, or
/// reports pitch-black (`lux = 0.0`) when the gain is already `Max`; a
/// saturation asks for the next weaker gain, or ends the cycle without
/// measurements when the gain is already `Low`.
pub open spec fn step_model(gain: GainLevel, reading: LuxReading) -> StepModel {
    match reading {
        LuxReading::Finite(value_bits) => StepModel::Finish(lux_result(value_bits)),
        LuxReading::Unmeasurable => StepModel::Finish(Seq::empty()),
        LuxReading::Underflow => match gain_successor(gain) {
            Some(next) => StepModel::Retry(next),
            None => StepModel::Finish(lux_result(0)),
        },
        LuxReading::Saturated => match gain_predecessor(gain) {
            Some(prev) => StepModel::Retry(prev),
            None => StepModel::Finish(Seq::empty()),
        },
    }
}

/// The gain search of one measurement cycle. Each cycle starts afresh at
/// the neutral default gain; nothing persists across cycles.
pub struct AutoRangeController {
    gain: GainLevel,
    attempts: u8,
}

impl AutoRangeController {
    /// The gain the next reading should be taken at.
    pub closed spec fn gain_spec(self) -> GainLevel {
        self.gain
    }

    /// How many readings the controller has consumed this cycle.
    pub closed spec fn attempts_spec(self) -> nat {
        self.attempts as nat
    }

    /// The attempt counter never passes the budget.
    pub closed spec fn well_formed(self) -> bool {
        self.attempts <= MAX_ATTEMPTS
    }

    /// A fresh search, starting at the neutral default gain.
    pub fn new() -> (controller: AutoRangeController)
        ensures
            controller.well_formed(),
            controller.gain_spec() == GainLevel::Med,
            controller.attempts_spec() == 0,
    {
        AutoRangeController { gain: GainLevel::Med, attempts: 0 }
    }

    /// The gain to apply to the device for the next reading.
    pub fn current_gain(&self) -> (gain: GainLevel)
        ensures
            gain == self.gain_spec(),
    {
        self.gain
    }

    /// Whether the attempt budget is spent, so the next step finishes
    /// empty-handed and no further reading need be taken.
    pub fn exhausted(&self) -> (spent: bool)
        ensures
            spent == (self.attempts_spec() >= MAX_ATTEMPTS),
    {
        self.attempts >= MAX_ATTEMPTS
    }

    /// Consumes one classified reading and either finishes the cycle or
    /// adjusts the gain for another attempt. Once the budget is spent the
    /// search fails soft: it finishes with no measurements.
    pub fn step(&mut self, reading: LuxReading) -> (r: SearchStep)
        requires
            old(self).well_formed(),
        ensures
            final(self).well_formed(),
            old(self).attempts_spec() >= MAX_ATTEMPTS ==> (r matches SearchStep::Finished(ms)
                && models_of(ms@) == Seq::<MeasurementModel>::empty() && *final(self) == *old(
                self,
            )),
            old(self).attempts_spec() < MAX_ATTEMPTS ==> final(self).attempts_spec() == old(
                self,
            ).attempts_spec() + 1 && (match step_model(old(self).gain_spec(), reading) {
                StepModel::Retry(gain) => r is Continue && final(self).gain_spec() == gain,
                StepModel::Finish(ms) => r matches SearchStep::Finished(v) && models_of(v@) == ms
                    && final(self).gain_spec() == old(self).gain_spec(),
            }),
    {
        if self.attempts >= MAX_ATTEMPTS {
            return SearchStep::Finished(Vec::new());
        }
        self.attempts = self.attempts + 1;
        match reading {
            LuxReading::Finite(value_bits) => {
                let mut measurements: Vec<Measurement> = Vec::new();
                measurements.push(Measurement::from_parts("lux", value_bits));
                proof {
                    assert(models_of(measurements@) =~= lux_result(value_bits));
                }
                SearchStep::Finished(measurements)
            },
            LuxReading::Unmeasurable => {
                let measurements: Vec<Measurement> = Vec::new();
                proof {
                    assert(models_of(measurements@) =~= Seq::<MeasurementModel>::empty());
                }
                SearchStep::Finished(measurements)
            },
            LuxReading::Underflow => {
                match increment_gain(self.gain) {
                    Ok(next) => {
                        self.gain = next;
                        SearchStep::Continue
                    },
                    Err(_) => {
                        let mut measurements: Vec<Measurement> = Vec::new();
                        measurements.push(Measurement::from_parts("lux", 0));
                        proof {
                            assert(models_of(measurements@) =~= lux_result(0));
                        }
                        SearchStep::Finished(measurements)
                    },
                }
            },
            LuxReading::Saturated => {
                match decrement_gain(self.gain) {
                    Ok(prev) => {
                        self.gain = prev;
                        SearchStep::Continue
                    },
                    Err(_) => {
                        let measurements: Vec<Measurement> = Vec::new();
                        proof {
                            assert(models_of(measurements@) =~= Seq::<MeasurementModel>::empty());
                        }
                        SearchStep::Finished(measurements)
                    },
                }
            },
        }
    }
}

/// The whole search as a function of the readings the device would yield:
/// the cycle's measurements, or `None` if the readings ran out while the
/// search still had budget and wanted another one.
pub open spec fn search_model(
    gain: GainLevel,
    attempts: nat,
    readings: Seq<LuxReading>,
) -> Option<Seq<MeasurementModel>>
    decreases readings.len(),
{
    if attempts >= MAX_ATTEMPTS {
        Some(Seq::empty())
    } else if readings.len() == 0 {
        None
    } else {
        match step_model(gain, readings[0]) {
            StepModel::Finish(ms) => Some(ms),
            StepModel::Retry(next) => search_model(next, attempts + 1, readings.drop_first()),
        }
    }
}

/// Runs one whole search against a pre-classified sequence of readings,
/// consuming them in order: the loop a measurement cycle performs when the
/// device yields exactly these readings. Returns the cycle's measurements,
/// or `None` if the readings ran out while the search still wanted
/// another.
pub fn run_search(readings: &Vec<LuxReading>) -> (r: Option<Vec<Measurement>>)
    ensures
        r matches Some(ms) ==> search_model(GainLevel::Med, 0, readings@) == Some(models_of(ms@)),
        r is None ==> search_model(GainLevel::Med, 0, readings@) is None,
{
    let mut controller = AutoRangeController::new();
    let mut consumed: usize = 0;
    proof {
        assert(readings@.skip(0) =~= readings@);
    }
    loop
        invariant
            controller.well_formed(),
            consumed <= readings@.len(),
            search_model(GainLevel::Med, 0, readings@) == search_model(
                controller.gain_spec(),
                controller.attempts_spec(),
                readings@.skip(consumed as int),
            ),
        decreases MAX_ATTEMPTS as int - controller.attempts_spec(),
    {
        let ghost remaining = readings@.skip(consumed as int);
        if controller.exhausted() {
            let measurements: Vec<Measurement> = Vec::new();
            proof {
                assert(models_of(measurements@) =~= Seq::<MeasurementModel>::empty());
            }
            return Some(measurements);
        }
        if consumed >= readings.len() {
            proof {
                assert(remaining =~= Seq::<LuxReading>::empty());
            }
            return None;
        }
        let reading = readings[consumed];
        consumed = consumed + 1;
        proof {
            assert(remaining[0] == reading);
            assert(remaining.drop_first() =~= readings@.skip(consumed as int));
        }
        match controller.step(reading) {
            SearchStep::Continue => {
            },
            SearchStep::Finished(measurements) => {
                return Some(measurements);
            },
        }
    }
}

/// Gain-search termination: whatever the device yields, the search decides
/// within the attempt budget — it never asks for more readings than the
/// budget has left.
pub proof fn lemma_search_terminates(gain: GainLevel, attempts: nat, readings: Seq<LuxReading>)
    requires
        attempts + readings.len() >= MAX_ATTEMPTS,
    ensures
        search_model(gain, attempts, readings) is Some,
    decreases readings.len(),
{
    if attempts < MAX_ATTEMPTS {
        match step_model(gain, readings[0]) {
            StepModel::Finish(_) => {
            },
            StepModel::Retry(next) => {
                lemma_search_terminates(next, attempts + 1, readings.drop_first());
            },
        }
    }
}

/// The search ends one of exactly three ways: a single `lux` measurement
/// with the finite value read, the single pitch-black measurement
/// `lux = 0.0`, or no measurements at all.
pub proof fn lemma_search_result_shape(gain: GainLevel, attempts: nat, readings: Seq<LuxReading>)
    ensures
        search_model(gain, attempts, readings) matches Some(ms) ==> ms
            =~= Seq::<MeasurementModel>::empty() || exists|value_bits: u32|
            ms =~= lux_result(value_bits),
    decreases readings.len(),
{
    if attempts < MAX_ATTEMPTS && readings.len() > 0 {
        match step_model(gain, readings[0]) {
            StepModel::Finish(ms) => {
                match readings[0] {
                    LuxReading::Finite(value_bits) => {
                        assert(ms =~= lux_result(value_bits));
                    },
                    LuxReading::Underflow => {
                        if gain_successor(gain) is None {
                            assert(ms =~= lux_result(0));
                        }
                    },
                    _ => {
                    },
                }
            },
            StepModel::Retry(next) => {
                lemma_search_result_shape(next, attempts + 1, readings.drop_first());
            },
        }
    }
}

/// A uniformly dark scene needs at most three gain increases: if every
/// reading underflows, the search climbs `Med`, `High`, `Max` and then
/// reports pitch-black, within three readings.
pub proof fn lemma_all_underflow_reports_dark(readings: Seq<LuxReading>)
    requires
        readings.len() >= 3,
        forall|i: int| 0 <= i < readings.len() ==> readings[i] == LuxReading::Underflow,
    ensures
        search_model(GainLevel::Med, 0, readings) == Some(lux_result(0)),
{
    let after_one = readings.drop_first();
    let after_two = after_one.drop_first();
    assert(after_one[0] == readings[1]);
    assert(after_two[0] == readings[2]);
    assert(search_model(GainLevel::Max, 2, after_two) == Some(lux_result(0)));
    assert(search_model(GainLevel::High, 1, after_one) == Some(lux_result(0)));
}

/// A uniformly saturating scene needs at most one gain decrease: if every
/// reading saturates, the search steps `Med`, `Low` and then gives the
/// cycle up as unmeasurably bright, within two readings.
pub proof fn lemma_all_saturated_reports_empty(readings: Seq<LuxReading>)
    requires
        readings.len() >= 2,
        forall|i: int| 0 <= i < readings.len() ==> readings[i] == LuxReading::Saturated,
    ensures
        search_model(GainLevel::Med, 0, readings) == Some(Seq::<MeasurementModel>::empty()),
{
    let after_one = readings.drop_first();
    assert(after_one[0] == readings[1]);
    assert(search_model(GainLevel::Low, 1, after_one) == Some(Seq::<MeasurementModel>::empty()));
}

} // verus!
