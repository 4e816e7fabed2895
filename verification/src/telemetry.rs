//! Measurements and telemetry batches.
//!
//! A measurement is one named physical quantity read from one sensor at one
//! instant. Its numeric value is a 32-bit IEEE 754 number; the library
//! carries it as its bit pattern, so that contracts can speak of it exactly
//! while the floating-point interpretation stays with the callers.
//! A telemetry batch is the ordered group of measurements produced by one
//! polling cycle, stamped with the cycle's unix time.

use vstd::prelude::*;
use vstd::string::StringExecFns;

verus! {

/// One named physical quantity; `value_bits` is the IEEE 754 bit pattern of
/// its 32-bit value.
#[derive(Debug)]
pub struct Measurement {
    pub name: String,
    pub value_bits: u32,
}

/// Mathematical image of a [`Measurement`].
pub ghost struct MeasurementModel {
    pub name: Seq<char>,
    pub value_bits: u32,
}

impl View for Measurement {
    type V = MeasurementModel;

    open spec fn view(&self) -> MeasurementModel {
        MeasurementModel { name: self.name@, value_bits: self.value_bits }
    }
}

/// The images of a sequence of measurements.
pub open spec fn models_of(measurements: Seq<Measurement>) -> Seq<MeasurementModel> {
    measurements.map_values(|m: Measurement| m@)
}

/// The measurements of one polling cycle, stamped with the cycle's unix
/// time in seconds.
#[derive(Debug)]
pub struct TelemetryBatch {
    pub timestamp: u64,
    pub measurements: Vec<Measurement>,
}

/// Mathematical image of a [`TelemetryBatch`].
pub ghost struct BatchModel {
    pub timestamp: u64,
    pub measurements: Seq<MeasurementModel>,
}

impl View for TelemetryBatch {
    type V = BatchModel;

    open spec fn view(&self) -> BatchModel {
        BatchModel { timestamp: self.timestamp, measurements: models_of(self.measurements@) }
    }
}

impl Measurement {
    /// Builds a measurement from a static metric name and a value's bits.
    pub fn from_parts(name: &str, value_bits: u32) -> (m: Measurement)
        ensures
            m@.name == name@,
            m@.value_bits == value_bits,
    {
        Measurement { name: String::from_str(name), value_bits }
    }
}

/// The concatenation of the per-sensor measurement groups of one cycle.
pub open spec fn merged_models(parts: Seq<Seq<MeasurementModel>>) -> Seq<MeasurementModel>
    decreases parts.len(),
{
    if parts.len() == 0 {
        Seq::empty()
    } else {
        parts[0] + merged_models(parts.drop_first())
    }
}

/// Concatenates the measurement groups produced by the sensors of one
/// polling cycle, in polling order, into a single group.
pub fn merge_parts(parts: Vec<Vec<Measurement>>) -> (merged: Vec<Measurement>)
    ensures
        models_of(merged@) == merged_models(parts@.map_values(|p: Vec<Measurement>| models_of(p@))),
{
    let ghost all_parts: Seq<Seq<MeasurementModel>> = parts@.map_values(
        |p: Vec<Measurement>| models_of(p@),
    );
    let mut remaining = parts;
    let mut merged: Vec<Measurement> = Vec::new();
    while remaining.len() > 0
        invariant
            models_of(merged@) + merged_models(
                remaining@.map_values(|p: Vec<Measurement>| models_of(p@)),
            ) == merged_models(all_parts),
        decreases remaining.len(),
    {
        let ghost before = remaining@.map_values(|p: Vec<Measurement>| models_of(p@));
        let mut part = remaining.remove(0);
        proof {
            assert(remaining@.map_values(|p: Vec<Measurement>| models_of(p@)) =~= before
                .drop_first());
        }
        while part.len() > 0
            invariant
                models_of(merged@) + models_of(part@) + merged_models(
                    remaining@.map_values(|p: Vec<Measurement>| models_of(p@)),
                ) == merged_models(all_parts),
            decreases part.len(),
        {
            let ghost part_before = part@;
            let m = part.remove(0);
            merged.push(m);
            proof {
                assert(models_of(merged@) =~= models_of(merged@.drop_last()).push(m@));
                assert(models_of(part_before) =~= seq![m@] + models_of(part@));
            }
        }
    }
    proof {
        assert(remaining@.map_values(|p: Vec<Measurement>| models_of(p@)) =~= Seq::<
            Seq<MeasurementModel>,
        >::empty());
        assert(models_of(merged@) + Seq::<MeasurementModel>::empty() =~= models_of(merged@));
    }
    merged
}

/// Stamps the measurements of one cycle into a batch, or refuses to build
/// an empty batch when no sensor produced anything.
pub fn make_batch(measurements: Vec<Measurement>, timestamp: u64) -> (r: Option<TelemetryBatch>)
    ensures
        r is None <==> measurements@.len() == 0,
        r matches Some(batch) ==> batch@ == (BatchModel {
            timestamp,
            measurements: models_of(measurements@),
        }),
{
    if measurements.len() == 0 {
        None
    } else {
        Some(TelemetryBatch { timestamp, measurements })
    }
}

} // verus!
