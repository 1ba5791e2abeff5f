//! Tests of the staleness projector and the sensor failure taxonomy.

use thermal_core::sensors::{
    no_data_reason, project_temperature, NoDataReason, SensorReadError, BUS_CODE_NO_DEVICE,
};
use thermal_core::units::Temperature;

#[test]
fn projection_of_fresh_sample_is_raw_value() {
    let projected = project_temperature(Temperature(70_000), 5_000, 1_000, 5_000);
    assert_eq!(projected, 70_000);
}

#[test]
fn projection_follows_slew_rate() {
    // 70 degrees read at t=0, slewing at 1 degree per second, projected
    // at t=5000 ms: 75 degrees.
    let projected = project_temperature(Temperature(70_000), 0, 1_000, 5_000);
    assert_eq!(projected, 75_000);
}

#[test]
fn projection_is_monotonic_in_elapsed_time() {
    let mut previous = i64::MIN;
    for now in [0u64, 100, 1_000, 2_500, 60_000, 3_600_000] {
        let projected = project_temperature(Temperature(20_000), 0, 250, now);
        assert!(projected >= previous);
        previous = projected;
    }
}

#[test]
fn projection_with_zero_slew_is_constant() {
    let projected = project_temperature(Temperature(33_000), 0, 0, 1_000_000);
    assert_eq!(projected, 33_000);
}

#[test]
fn not_present_detection() {
    assert!(SensorReadError::BusError(BUS_CODE_NO_DEVICE).indicates_not_present());
    assert!(!SensorReadError::BusError(BUS_CODE_NO_DEVICE + 1).indicates_not_present());
    assert!(!SensorReadError::NoData.indicates_not_present());
    assert!(!SensorReadError::SensorFailure.indicates_not_present());
    assert!(!SensorReadError::ReservedValue.indicates_not_present());
    assert!(!SensorReadError::CorruptReply.indicates_not_present());
}

#[test]
fn no_data_reasons() {
    assert_eq!(
        no_data_reason(SensorReadError::BusError(BUS_CODE_NO_DEVICE)),
        NoDataReason::DeviceNotPresent
    );
    assert_eq!(no_data_reason(SensorReadError::BusError(77)), NoDataReason::DeviceError);
    assert_eq!(no_data_reason(SensorReadError::NoData), NoDataReason::DeviceError);
    assert_eq!(no_data_reason(SensorReadError::SensorFailure), NoDataReason::DeviceError);
    assert_eq!(no_data_reason(SensorReadError::ReservedValue), NoDataReason::DeviceError);
    assert_eq!(no_data_reason(SensorReadError::CorruptReply), NoDataReason::DeviceError);
}
