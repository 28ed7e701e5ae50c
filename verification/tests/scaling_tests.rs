//! Scaling-layer conversions, model tables, temperature conversions and the
//! protection-status bitfield.

use xypsu::register::{ProductModel, ProtectionStatus, Temperature};
use xypsu::scaling::ScalingFactors;

#[test]
fn test_voltage_scaling() {
    let scaling = ScalingFactors {
        voltage_divisor: 10,
        current_divisor: 10,
        power_divisor: 100,
        capacity_divisor: 10,
        energy_divisor: 10,
    };

    // Raw value 1234 centivolts = 12340 mV.
    assert_eq!(scaling.raw_to_voltage_mv(1234), 12340);
    // 12340 mV should convert back to 1234 raw.
    assert_eq!(scaling.voltage_mv_to_raw(12340), 1234);
}

#[test]
fn test_current_scaling() {
    let scaling = ScalingFactors {
        voltage_divisor: 10,
        current_divisor: 10,
        power_divisor: 100,
        capacity_divisor: 10,
        energy_divisor: 10,
    };

    // Raw value 500 (units of 10mA) = 5000 mA.
    assert_eq!(scaling.raw_to_current_ma(500), 5000);
    // 5000 mA should convert back to 500 raw.
    assert_eq!(scaling.current_ma_to_raw(5000), 500);
}

#[test]
fn test_power_scaling() {
    let scaling = ScalingFactors {
        voltage_divisor: 10,
        current_divisor: 10,
        power_divisor: 100,
        capacity_divisor: 10,
        energy_divisor: 10,
    };

    // Raw value 123 (units of 100mW = deciwatts) = 12300 mW.
    assert_eq!(scaling.raw_to_power_mw(123), 12300);
}

#[test]
fn test_known_models_have_scaling() {
    assert!(ProductModel::XY3607F.scaling_factors().is_some());
    assert!(ProductModel::XY7025.scaling_factors().is_some());
    assert!(ProductModel::XY12522.scaling_factors().is_some());
    assert!(ProductModel::XY6020L.scaling_factors().is_some());
}

#[test]
fn test_unknown_models_no_scaling() {
    assert!(ProductModel::XY6506.scaling_factors().is_none());
    assert!(ProductModel::XY6509.scaling_factors().is_none());
}

#[test]
fn test_phys_round_trip_on_exact_multiples() {
    // Scaling a physical value down and back up is the identity whenever
    // the value is an exact multiple of the divisor.
    let scaling = ScalingFactors::new(10, 10, 1000, 10, 100);
    assert_eq!(scaling.raw_to_voltage_mv(scaling.voltage_mv_to_raw(24000)), 24000);
    assert_eq!(scaling.raw_to_current_ma(scaling.current_ma_to_raw(5050)), 5050);
    assert_eq!(scaling.raw_to_power_mw(scaling.power_mw_to_raw(121000)), 121000);
    // A value that is not a multiple loses its remainder.
    assert_eq!(scaling.raw_to_voltage_mv(scaling.voltage_mv_to_raw(24005)), 24000);
}

#[test]
fn test_raw_round_trip() {
    // Scaling a raw register value up and back down is always the identity.
    let scaling = ScalingFactors::new(10, 1, 1000, 10, 100);
    assert_eq!(scaling.voltage_mv_to_raw(scaling.raw_to_voltage_mv(65535)), 65535);
    assert_eq!(scaling.current_ma_to_raw(scaling.raw_to_current_ma(1)), 1);
    assert_eq!(scaling.power_mw_to_raw(scaling.raw_to_power_mw(40000)), 40000);
}

#[test]
fn temperature_conversions() {
    let temp = Temperature::Celsius(10);
    assert_eq!(temp.as_celsius(), 10);
    assert_eq!(temp.as_fahrenheit(), 50);

    let temp = Temperature::Celsius(21);
    assert_eq!(temp.as_fahrenheit(), 70);

    let temp = Temperature::Fahrenheit(70);
    assert_eq!(temp.as_fahrenheit(), 70);
    assert_eq!(temp.as_celsius(), 21);
}

#[test]
fn temperature_from_centi_rounds_to_nearest() {
    let temp = Temperature::from_centi(294, xypsu::register::TemperatureUnit::Celsius);
    assert_eq!(temp.as_celsius(), 29);
    let temp = Temperature::from_centi(295, xypsu::register::TemperatureUnit::Celsius);
    assert_eq!(temp.as_celsius(), 30);
}

#[test]
fn protection_status_flags_decode_bit_by_bit() {
    let status = ProtectionStatus::from_bits(0b000_0000_0001);
    assert!(status.over_voltage());
    assert!(!status.over_current());

    let status = ProtectionStatus::from_bits(0b100_0000_0010);
    assert!(!status.over_voltage());
    assert!(status.over_current());
    assert!(status.over_temperature_external());
    assert!(!status.over_power());
    assert!(!status.under_voltage_input());
    assert!(!status.over_capacity());
    assert!(!status.over_time());
    assert!(!status.over_temperature_internal());
    assert!(!status.oep());
    assert!(!status.over_energy());
    assert!(!status.over_current_input());

    let status = ProtectionStatus::from_bits(0);
    assert!(!status.over_voltage());
    assert!(!status.over_temperature_external());
}

#[test]
fn product_model_codes_round_trip() {
    assert_eq!(ProductModel::try_from_code(3607), Some(ProductModel::XY3607F));
    assert_eq!(ProductModel::try_from_code(6020), Some(ProductModel::XY6020L));
    assert_eq!(ProductModel::try_from_code(7025), Some(ProductModel::XY7025));
    assert_eq!(ProductModel::try_from_code(12522), Some(ProductModel::XY12522));
    assert_eq!(ProductModel::try_from_code(9999), None);
}
