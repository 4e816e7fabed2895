//! Mapping device samples to named measurements.
//!
//! Each physical sensor yields a device-specific sample once per polling
//! cycle; these functions turn one sample into the named measurements the
//! batch carries. Values arrive as the IEEE 754 bits of their 32-bit
//! numbers, already converted to the target units by the device layer.

use vstd::prelude::*;

use crate::telemetry::{models_of, Measurement, MeasurementModel};

verus! {

/// Zero or one measurement, depending on whether the channel produced a
/// value.
pub open spec fn optional_model(name: Seq<char>, value_bits: Option<u32>) -> Seq<
    MeasurementModel,
> {
    match value_bits {
        Some(bits) => seq![MeasurementModel { name, value_bits: bits }],
        None => Seq::empty(),
    }
}

/// The measurements owed for one sample of the climate device:
/// temperature, pressure and humidity in that order, each present exactly
/// when its channel produced a value.
pub open spec fn climate_models(
    temperature_bits: Option<u32>,
    pressure_bits: Option<u32>,
    humidity_bits: Option<u32>,
) -> Seq<MeasurementModel> {
    optional_model("temperature"@, temperature_bits) + optional_model("pressure"@, pressure_bits)
        + optional_model("humidity"@, humidity_bits)
}

/// Builds the measurements of one sample of the temperature / pressure /
/// humidity device. A disabled channel arrives as `None` and is skipped
/// without failing the cycle. The pressure value arrives already converted
/// from the device's native unit to the target unit.
pub fn climate_measurements(
    temperature_bits: Option<u32>,
    pressure_bits: Option<u32>,
    humidity_bits: Option<u32>,
) -> (measurements: Vec<Measurement>)
    ensures
        models_of(measurements@) == climate_models(
            temperature_bits,
            pressure_bits,
            humidity_bits,
        ),
{
    let mut measurements: Vec<Measurement> = Vec::new();
    if let Some(bits) = temperature_bits {
        measurements.push(Measurement::from_parts("temperature", bits));
    }
    proof {
        assert(models_of(measurements@) =~= optional_model("temperature"@, temperature_bits));
    }
    if let Some(bits) = pressure_bits {
        measurements.push(Measurement::from_parts("pressure", bits));
    }
    proof {
        assert(models_of(measurements@) =~= optional_model("temperature"@, temperature_bits)
            + optional_model("pressure"@, pressure_bits));
    }
    if let Some(bits) = humidity_bits {
        measurements.push(Measurement::from_parts("humidity", bits));
    }
    proof {
        assert(models_of(measurements@) =~= climate_models(
            temperature_bits,
            pressure_bits,
            humidity_bits,
        ));
    }
    measurements
}

/// The measurements owed for one sample of the gas device: carbon dioxide,
/// humidity and temperature in that order. The device reports the three
/// together, so all are present or the cycle produced nothing.
pub open spec fn gas_models(co2_bits: u32, humidity_bits: u32, temperature_bits: u32) -> Seq<
    MeasurementModel,
> {
    seq![
        MeasurementModel { name: "co2"@, value_bits: co2_bits },
        MeasurementModel { name: "humidity"@, value_bits: humidity_bits },
        MeasurementModel { name: "temperature"@, value_bits: temperature_bits },
    ]
}

/// Builds the measurements of one sample of the CO2 / humidity /
/// temperature device.
pub fn gas_measurements(co2_bits: u32, humidity_bits: u32, temperature_bits: u32) -> (measurements:
    Vec<Measurement>)
    ensures
        models_of(measurements@) == gas_models(co2_bits, humidity_bits, temperature_bits),
{
    let mut measurements: Vec<Measurement> = Vec::new();
    measurements.push(Measurement::from_parts("co2", co2_bits));
    measurements.push(Measurement::from_parts("humidity", humidity_bits));
    measurements.push(Measurement::from_parts("temperature", temperature_bits));
    proof {
        assert(models_of(measurements@) =~= gas_models(
            co2_bits,
            humidity_bits,
            temperature_bits,
        ));
    }
    measurements
}

} // verus!
