use sensor_telemetry::samples::{climate_measurements, gas_measurements};
use sensor_telemetry::telemetry::{make_batch, merge_parts, Measurement};

#[test]
fn climate_sample_with_all_channels() {
    // 10132.5 native pressure units scale by 0.0075 to about 75.99.
    let pressure = 10132.5f32 * 0.0075f32;
    let measurements = climate_measurements(
        Some(21.5f32.to_bits()),
        Some(pressure.to_bits()),
        Some(40.2f32.to_bits()),
    );
    assert_eq!(measurements.len(), 3);
    assert_eq!(measurements[0].name, "temperature");
    assert_eq!(f32::from_bits(measurements[0].value_bits), 21.5);
    assert_eq!(measurements[1].name, "pressure");
    assert!((f32::from_bits(measurements[1].value_bits) - 75.99).abs() < 0.01);
    assert_eq!(measurements[2].name, "humidity");
    assert_eq!(f32::from_bits(measurements[2].value_bits), 40.2);
}

#[test]
fn climate_sample_skips_disabled_channels() {
    let measurements = climate_measurements(Some(21.5f32.to_bits()), None, Some(40.2f32.to_bits()));
    assert_eq!(measurements.len(), 2);
    assert_eq!(measurements[0].name, "temperature");
    assert_eq!(measurements[1].name, "humidity");

    let none = climate_measurements(None, None, None);
    assert!(none.is_empty());
}

#[test]
fn gas_sample_names_its_three_channels() {
    let co2 = 417u16 as f32;
    let measurements = gas_measurements(
        co2.to_bits(),
        40.2f32.to_bits(),
        21.5f32.to_bits(),
    );
    assert_eq!(measurements.len(), 3);
    assert_eq!(measurements[0].name, "co2");
    assert_eq!(f32::from_bits(measurements[0].value_bits), 417.0);
    assert_eq!(measurements[1].name, "humidity");
    assert_eq!(f32::from_bits(measurements[1].value_bits), 40.2);
    assert_eq!(measurements[2].name, "temperature");
    assert_eq!(f32::from_bits(measurements[2].value_bits), 21.5);
}

#[test]
fn merge_concatenates_in_polling_order() {
    let parts = vec![
        vec![
            Measurement::from_parts("co2", 417.0f32.to_bits()),
            Measurement::from_parts("humidity", 40.2f32.to_bits()),
        ],
        vec![],
        vec![Measurement::from_parts("lux", 42.5f32.to_bits())],
    ];
    let merged = merge_parts(parts);
    assert_eq!(merged.len(), 3);
    assert_eq!(merged[0].name, "co2");
    assert_eq!(merged[1].name, "humidity");
    assert_eq!(merged[2].name, "lux");
}

#[test]
fn empty_cycle_builds_no_batch() {
    assert!(make_batch(Vec::new(), 1700000000).is_none());
}

#[test]
fn nonempty_cycle_builds_a_stamped_batch() {
    let measurements = vec![Measurement::from_parts("lux", 42.5f32.to_bits())];
    let batch = make_batch(measurements, 1700000000).unwrap();
    assert_eq!(batch.timestamp, 1700000000);
    assert_eq!(batch.measurements.len(), 1);
    assert_eq!(batch.measurements[0].name, "lux");
}
