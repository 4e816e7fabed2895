use sensor_telemetry::autorange::{run_search, AutoRangeController, LuxReading, SearchStep};
use sensor_telemetry::gain::{decrement_gain, increment_gain, GainError, GainLevel};

#[test]
fn increment_walks_up_the_lattice() {
    assert_eq!(increment_gain(GainLevel::Low), Ok(GainLevel::Med));
    assert_eq!(increment_gain(GainLevel::Med), Ok(GainLevel::High));
    assert_eq!(increment_gain(GainLevel::High), Ok(GainLevel::Max));
}

#[test]
fn increment_at_max_is_an_error() {
    assert_eq!(increment_gain(GainLevel::Max), Err(GainError::AlreadyAtMax));
}

#[test]
fn decrement_walks_down_the_lattice() {
    assert_eq!(decrement_gain(GainLevel::Max), Ok(GainLevel::High));
    assert_eq!(decrement_gain(GainLevel::High), Ok(GainLevel::Med));
    assert_eq!(decrement_gain(GainLevel::Med), Ok(GainLevel::Low));
}

#[test]
fn decrement_at_low_is_an_error() {
    assert_eq!(decrement_gain(GainLevel::Low), Err(GainError::AlreadyAtLow));
}

fn expect_finished(step: SearchStep) -> Vec<sensor_telemetry::telemetry::Measurement> {
    match step {
        SearchStep::Finished(measurements) => measurements,
        SearchStep::Continue => panic!("search should have finished"),
    }
}

#[test]
fn underflow_then_finite_value_reports_lux() {
    // NaN at the default gain, then 42.5 one gain step up.
    let mut controller = AutoRangeController::new();
    assert_eq!(controller.current_gain(), GainLevel::Med);

    match controller.step(LuxReading::Underflow) {
        SearchStep::Continue => {}
        SearchStep::Finished(_) => panic!("search should continue at a higher gain"),
    }
    assert_eq!(controller.current_gain(), GainLevel::High);

    let measurements = expect_finished(controller.step(LuxReading::Finite(42.5f32.to_bits())));
    assert_eq!(measurements.len(), 1);
    assert_eq!(measurements[0].name, "lux");
    assert_eq!(f32::from_bits(measurements[0].value_bits), 42.5);
}

#[test]
fn underflow_at_every_gain_reports_pitch_black() {
    // NaN at Med, High and Max: the scene is pitch-black, lux = 0.0.
    let mut controller = AutoRangeController::new();
    for _ in 0..2 {
        match controller.step(LuxReading::Underflow) {
            SearchStep::Continue => {}
            SearchStep::Finished(_) => panic!("search should climb the lattice first"),
        }
    }
    assert_eq!(controller.current_gain(), GainLevel::Max);
    let measurements = expect_finished(controller.step(LuxReading::Underflow));
    assert_eq!(measurements.len(), 1);
    assert_eq!(measurements[0].name, "lux");
    assert_eq!(f32::from_bits(measurements[0].value_bits), 0.0);
}

#[test]
fn device_overflow_is_unmeasurable() {
    let mut controller = AutoRangeController::new();
    let measurements = expect_finished(controller.step(LuxReading::Unmeasurable));
    assert!(measurements.is_empty());
}

#[test]
fn saturation_at_lowest_gain_gives_up() {
    let mut controller = AutoRangeController::new();
    match controller.step(LuxReading::Saturated) {
        SearchStep::Continue => {}
        SearchStep::Finished(_) => panic!("search should step down first"),
    }
    assert_eq!(controller.current_gain(), GainLevel::Low);
    let measurements = expect_finished(controller.step(LuxReading::Saturated));
    assert!(measurements.is_empty());
}

#[test]
fn oscillating_readings_exhaust_the_budget() {
    // Underflow and saturation alternating never settle; the fixed attempt
    // budget ends the search empty-handed instead of looping forever.
    let mut controller = AutoRangeController::new();
    let mut steps = 0u32;
    loop {
        let reading = if steps % 2 == 0 { LuxReading::Underflow } else { LuxReading::Saturated };
        if controller.exhausted() {
            let measurements = expect_finished(controller.step(reading));
            assert!(measurements.is_empty());
            break;
        }
        match controller.step(reading) {
            SearchStep::Continue => {}
            SearchStep::Finished(_) => panic!("oscillation should not finish inside the budget"),
        }
        steps += 1;
        assert!(steps <= 10, "the budget must stop the search by ten attempts");
    }
    assert_eq!(steps, 10);
}

#[test]
fn run_search_consumes_readings_in_order() {
    let readings = vec![LuxReading::Underflow, LuxReading::Finite(42.5f32.to_bits())];
    let measurements = run_search(&readings).expect("two readings settle this search");
    assert_eq!(measurements.len(), 1);
    assert_eq!(measurements[0].name, "lux");
    assert_eq!(f32::from_bits(measurements[0].value_bits), 42.5);

    // The same search starved of readings reports that it wanted more.
    assert!(run_search(&vec![LuxReading::Underflow]).is_none());

    // Ten underflowing readings end at Max long before the budget: the
    // third already reports pitch-black.
    let dark = run_search(&vec![LuxReading::Underflow; 3]).expect("three readings reach Max");
    assert_eq!(dark.len(), 1);
    assert_eq!(f32::from_bits(dark[0].value_bits), 0.0);

    // An oscillating scene spends the whole budget and returns nothing.
    let mut oscillating = Vec::new();
    for i in 0..10 {
        oscillating.push(if i % 2 == 0 { LuxReading::Underflow } else { LuxReading::Saturated });
    }
    let spent = run_search(&oscillating).expect("the budget settles the search");
    assert!(spent.is_empty());
}

#[test]
fn finite_reading_at_default_gain_finishes_at_once() {
    let mut controller = AutoRangeController::new();
    let measurements = expect_finished(controller.step(LuxReading::Finite(123.25f32.to_bits())));
    assert_eq!(measurements.len(), 1);
    assert_eq!(measurements[0].name, "lux");
    assert_eq!(f32::from_bits(measurements[0].value_bits), 123.25);
}
