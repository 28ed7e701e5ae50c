//! Preset address arithmetic and block serialisation.

use xypsu::preset::{PresetGroup, XyPresetBuilder, XyPresetOffsets};
use xypsu::register::{State, TemperatureUnit};
use xypsu::scaling::ScalingFactors;

#[test]
fn preset_register_adress() {
    let register = XyPresetOffsets::VSet;

    let address = register.address_in_group(PresetGroup::Group0);
    assert_eq!(address, 0x50);

    let address = register.address_in_group(PresetGroup::Group3);
    assert_eq!(address, 0x80);

    let register = XyPresetOffsets::SOwhL;
    let address = register.address_in_group(PresetGroup::Group3);
    assert_eq!(address, 0x80 + 0x0A);
}

#[test]
fn preset_address_strictly_increasing_in_group() {
    // For a fixed register the address grows with the group index.
    let register = XyPresetOffsets::SOtp;
    let mut previous = register.address_in_group(PresetGroup::Group0);
    for group in [
        PresetGroup::Group1,
        PresetGroup::Group2,
        PresetGroup::Group3,
        PresetGroup::Group4,
        PresetGroup::Group5,
        PresetGroup::Group6,
        PresetGroup::Group7,
        PresetGroup::Group8,
        PresetGroup::Group9,
    ] {
        let address = register.address_in_group(group);
        assert!(address > previous);
        assert_eq!(address, 0x50 + group.index() * 0x10 + register.offset());
        previous = address;
    }
}

#[test]
fn preset_write_data_generation() {
    // Create a preset such that all registers should be non-zero.
    let preset = XyPresetBuilder::new(PresetGroup::Group3, 5000, 1000)
        .with_output(State::On)
        .with_uvp(1000)
        .with_ohp(10 * 3600 + 10 * 60)
        .build()
        .unwrap();

    // Generate the payload.
    let scaling = ScalingFactors::new(10, 1, 10, 1, 1);
    let (start_address, write_buffer) = preset
        .generate_write_data_and_offset(TemperatureUnit::Celsius, scaling)
        .unwrap();

    // Check the start address is as expected.
    assert_eq!(start_address, 0x80);

    // Check all values have been given a value.
    assert_eq!(write_buffer.len(), 15);
    for double in write_buffer {
        assert_ne!(double, 0);
    }
}

#[test]
fn preset_block_layout_is_exact() {
    let preset = XyPresetBuilder::new(PresetGroup::Group0, 12000, 5000)
        .with_output(State::On)
        .with_uvp(9000)
        .with_ovp(30000)
        .with_ocp(6000)
        .with_opp(120000)
        .with_ohp(2 * 3600 + 30 * 60)
        .with_oahp(655370)
        .with_owhp(200)
        .with_otp(xypsu::register::Temperature::Celsius(95))
        .build()
        .unwrap();

    let scaling = ScalingFactors::new(10, 10, 1000, 10, 100);
    let (start_address, regs) = preset
        .generate_write_data_and_offset(TemperatureUnit::Celsius, scaling)
        .unwrap();

    assert_eq!(start_address, 0x50);
    assert_eq!(
        regs,
        vec![
            1200, // voltage setpoint 12000 mV at 10 mV per count
            500,  // current limit 5000 mA at 10 mA per count
            900,  // under-voltage 9000 mV
            3000, // over-voltage 30000 mV
            600,  // over-current 6000 mA
            120,  // over-power 120000 mW at 1000 mW per count
            2,    // over-time hours
            30,   // over-time minutes
            1,    // over-capacity low half: 655370 mAh / 10 = 65537
            1,    // over-capacity high half
            2,    // over-energy low half: 200 mWh / 100 = 2
            0,    // over-energy high half
            95,   // over-temperature
            1,    // output enabled
            95,   // external over-temperature mirrors the primary
        ]
    );
}

#[test]
fn preset_value_too_large_is_invalid_range() {
    // 700000 mV with no scaling does not fit a 16-bit register.
    let preset = XyPresetBuilder::new(PresetGroup::Group0, 700000, 1000).build().unwrap();
    let scaling = ScalingFactors::new(1, 1, 1, 1, 1);
    let result = preset.generate_write_data_and_offset(TemperatureUnit::Celsius, scaling);
    assert_eq!(result, Err(xypsu::error::Error::InvalidRange));
}

#[test]
fn preset_builder_requires_a_group() {
    let builder: XyPresetBuilder = Default::default();
    let result = builder.build();
    assert!(matches!(
        result,
        Err(xypsu::preset::XyPresetBuilderError::InvalidGroupIndex)
    ));

    let result = XyPresetBuilder::default().for_group(PresetGroup::Group7).build();
    assert!(result.is_ok());
    assert_eq!(result.unwrap().group, PresetGroup::Group7);
}

#[test]
fn preset_group_decodes_exactly_zero_through_nine() {
    for value in 0u16..=9 {
        let group = PresetGroup::try_from_u16(value).unwrap();
        assert_eq!(group.index(), value);
    }
    assert!(PresetGroup::try_from_u16(10).is_err());
}
