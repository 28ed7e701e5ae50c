//! The device-resident preset groups: block address arithmetic and the
//! serialisation of a preset (setpoints, protections, enable flag) into the
//! ordered register payload the device expects.

use vstd::prelude::*;
use crate::error::Error;
use crate::register::{State, Temperature, TemperatureUnit};
use crate::scaling::{spec_phys_to_raw, ScalingFactors};

verus! {

/// The base address of the first preset register block. The block of group
/// `g` starts at this offset plus `g` times [`PRESET_STRIDE`].
pub const PRESET_OFFSET: u16 = 0x50;

/// The address stride between consecutive preset groups.
pub const PRESET_STRIDE: u16 = 0x10;

/// The number of registers in one preset block.
pub const PRESET_BLOCK_LEN: usize = 15;

/// The ten preset groups the device stores, M0 through M9.
#[derive(Debug, Clone, Copy, PartialEq, Eq, Structural)]
pub enum PresetGroup {
    Group0,
    Group1,
    Group2,
    Group3,
    Group4,
    Group5,
    Group6,
    Group7,
    Group8,
    Group9,
}

impl PresetGroup {
    /// The index of this group, 0 through 9.
    pub open spec fn spec_index(self) -> u16 {
        match self {
            PresetGroup::Group0 => 0,
            PresetGroup::Group1 => 1,
            PresetGroup::Group2 => 2,
            PresetGroup::Group3 => 3,
            PresetGroup::Group4 => 4,
            PresetGroup::Group5 => 5,
            PresetGroup::Group6 => 6,
            PresetGroup::Group7 => 7,
            PresetGroup::Group8 => 8,
            PresetGroup::Group9 => 9,
        }
    }

    /// Returns the index of this group.
    pub fn index(self) -> (r: u16)
        ensures
            r == self.spec_index(),
    {
        match self {
            PresetGroup::Group0 => 0,
            PresetGroup::Group1 => 1,
            PresetGroup::Group2 => 2,
            PresetGroup::Group3 => 3,
            PresetGroup::Group4 => 4,
            PresetGroup::Group5 => 5,
            PresetGroup::Group6 => 6,
            PresetGroup::Group7 => 7,
            PresetGroup::Group8 => 8,
            PresetGroup::Group9 => 9,
        }
    }

    /// Decodes a group index read from the device. Succeeds exactly on 0
    /// through 9.
    pub fn try_from_u16(value: u16) -> (r: Result<PresetGroup, Error>)
        ensures
            r is Ok <==> value <= 9,
            r matches Ok(g) ==> g.spec_index() == value,
            r matches Err(e) ==> e == Error::Other,
    {
        match value {
            0 => Ok(PresetGroup::Group0),
            1 => Ok(PresetGroup::Group1),
            2 => Ok(PresetGroup::Group2),
            3 => Ok(PresetGroup::Group3),
            4 => Ok(PresetGroup::Group4),
            5 => Ok(PresetGroup::Group5),
            6 => Ok(PresetGroup::Group6),
            7 => Ok(PresetGroup::Group7),
            8 => Ok(PresetGroup::Group8),
            9 => Ok(PresetGroup::Group9),
            _ => Err(Error::Other),
        }
    }
}

/// The registers of one preset block, as offsets from the block's base
/// address, in the order the device lays them out.
#[derive(Debug, Copy, Clone, PartialEq, Eq, Structural)]
pub enum XyPresetOffsets {
    /// R/W - Voltage setpoint.
    VSet,
    /// R/W - Current limit setpoint.
    ISet,
    /// R/W - Under-voltage protection level.
    SLvp,
    /// R/W - Over-voltage protection level.
    SOvp,
    /// R/W - Over-current protection level.
    SOcp,
    /// R/W - Over-power protection level.
    SOpp,
    /// R/W - Over-time protection, hours part.
    SOhpH,
    /// R/W - Over-time protection, minutes part.
    SoHpM,
    /// R/W - Over-capacity protection, low 16 bits.
    SOahL,
    /// R/W - Over-capacity protection, high 16 bits.
    SOahH,
    /// R/W - Over-energy protection, low 16 bits.
    SOwhL,
    /// R/W - Over-energy protection, high 16 bits.
    SOwhH,
    /// R/W - Over-temperature protection level.
    SOtp,
    /// R/W - Output enable switch applied when the preset loads.
    SIni,
    /// R/W - External over-temperature protection level.
    SEtp,
}

impl XyPresetOffsets {
    /// The offset of this register within its preset block.
    pub open spec fn spec_offset(self) -> u16 {
        match self {
            XyPresetOffsets::VSet => 0x00,
            XyPresetOffsets::ISet => 0x01,
            XyPresetOffsets::SLvp => 0x02,
            XyPresetOffsets::SOvp => 0x03,
            XyPresetOffsets::SOcp => 0x04,
            XyPresetOffsets::SOpp => 0x05,
            XyPresetOffsets::SOhpH => 0x06,
            XyPresetOffsets::SoHpM => 0x07,
            XyPresetOffsets::SOahL => 0x08,
            XyPresetOffsets::SOahH => 0x09,
            XyPresetOffsets::SOwhL => 0x0A,
            XyPresetOffsets::SOwhH => 0x0B,
            XyPresetOffsets::SOtp => 0x0C,
            XyPresetOffsets::SIni => 0x0D,
            XyPresetOffsets::SEtp => 0x0E,
        }
    }

    /// Returns the offset of this register within its preset block.
    pub fn offset(self) -> (r: u16)
        ensures
            r == self.spec_offset(),
    {
        match self {
            XyPresetOffsets::VSet => 0x00,
            XyPresetOffsets::ISet => 0x01,
            XyPresetOffsets::SLvp => 0x02,
            XyPresetOffsets::SOvp => 0x03,
            XyPresetOffsets::SOcp => 0x04,
            XyPresetOffsets::SOpp => 0x05,
            XyPresetOffsets::SOhpH => 0x06,
            XyPresetOffsets::SoHpM => 0x07,
            XyPresetOffsets::SOahL => 0x08,
            XyPresetOffsets::SOahH => 0x09,
            XyPresetOffsets::SOwhL => 0x0A,
            XyPresetOffsets::SOwhH => 0x0B,
            XyPresetOffsets::SOtp => 0x0C,
            XyPresetOffsets::SIni => 0x0D,
            XyPresetOffsets::SEtp => 0x0E,
        }
    }

    /// The absolute address of this register in the given preset group:
    /// block base plus group stride plus the register's offset.
    pub open spec fn spec_address_in_group(self, group: PresetGroup) -> u16 {
        (PRESET_OFFSET + group.spec_index() * PRESET_STRIDE + self.spec_offset()) as u16
    }

    /// Returns the absolute address of this register in the given group.
    pub fn address_in_group(&self, group: PresetGroup) -> (r: u16)
        ensures
            r == self.spec_address_in_group(group),
    {
        PRESET_OFFSET + group.index() * PRESET_STRIDE + self.offset()
    }
}

/// Law: for a fixed register, the address is strictly increasing in the
/// group index, and the blocks of distinct groups never alias.
pub proof fn lemma_address_strictly_increasing(
    reg: XyPresetOffsets,
    g1: PresetGroup,
    g2: PresetGroup,
)
    requires
        g1.spec_index() < g2.spec_index(),
    ensures
        reg.spec_address_in_group(g1) < reg.spec_address_in_group(g2),
{
}

/// Thresholds for the protection features, in physical units. Every field
/// is independent; the defaults leave each protection effectively disabled.
#[derive(Debug, Clone, Copy, PartialEq, Eq, Structural)]
pub struct ProtectionConfig {
    /// Under-voltage protection level in millivolts.
    pub under_voltage_mv: u32,
    /// Over-voltage protection level in millivolts.
    pub over_voltage_mv: u32,
    /// Over-current protection level in milliamps.
    pub over_current_ma: u32,
    /// Over-power protection level in milliwatts.
    pub over_power_mw: u32,
    /// Over-time protection duration in seconds.
    pub over_time_s: u32,
    /// Over-capacity protection level in milliamp-hours.
    pub over_capacity_mah: u32,
    /// Over-energy protection level in milliwatt-hours.
    pub over_energy_mwh: u32,
    /// Over-temperature protection level, in the unit configured.
    pub over_temperature: Temperature,
}

impl Default for ProtectionConfig {
    /// Defaults that leave every protection effectively disabled.
    fn default() -> (r: Self)
        ensures
            r == (ProtectionConfig {
                under_voltage_mv: 0u32,
                over_voltage_mv: 99999u32,
                over_current_ma: 9999u32,
                over_power_mw: 99999u32,
                over_time_s: (999u32 * 3600u32) as u32,
                over_capacity_mah: 99999u32,
                over_energy_mwh: 99999u32,
                over_temperature: Temperature::Celsius(100u16),
            }),
    {
        ProtectionConfig {
            under_voltage_mv: 0,
            over_voltage_mv: 99999,
            over_current_ma: 9999,
            over_power_mw: 99999,
            over_time_s: 999 * 3600,
            over_capacity_mah: 99999,
            over_energy_mwh: 99999,
            over_temperature: Temperature::Celsius(100),
        }
    }
}

/// One saved configuration: the group it belongs to, the output setpoints,
/// the protection thresholds and the output-enable flag. Built through
/// [`XyPresetBuilder`].
#[derive(Debug, Clone, Copy, PartialEq, Eq, Structural)]
pub struct XyPreset {
    /// The preset group this configuration is written to.
    pub group: PresetGroup,
    /// Output voltage setpoint in millivolts.
    pub voltage_setting_mv: u32,
    /// Output current limit in milliamps.
    pub current_setting_ma: u16,
    /// Protection threshold configuration.
    pub protection: ProtectionConfig,
    /// Whether the output switches on when the preset loads.
    pub output_enable: State,
}

impl XyPreset {
    /// Every scaled field of this preset fits its 16-bit register under the
    /// given scaling table, and the temperature is convertible.
    pub open spec fn spec_encodable(self, scaling: ScalingFactors) -> bool {
        &&& self.voltage_setting_mv / scaling.voltage_divisor <= 65535
        &&& self.current_setting_ma as u32 / scaling.current_divisor <= 65535
        &&& self.protection.under_voltage_mv / scaling.voltage_divisor <= 65535
        &&& self.protection.over_voltage_mv / scaling.voltage_divisor <= 65535
        &&& self.protection.over_current_ma / scaling.current_divisor <= 65535
        &&& self.protection.over_power_mw / scaling.power_divisor <= 65535
        &&& self.protection.over_time_s / 3600 <= 65535
        &&& self.protection.over_temperature.convertible()
    }

    /// The ordered register payload of this preset: setpoints, protection
    /// thresholds (time split into hours and minutes, 32-bit capacity and
    /// energy split into low and high halves), the temperature threshold in
    /// the configured unit, the enable flag, and the external temperature
    /// threshold mirroring the primary one.
    pub open spec fn spec_block(self, unit: TemperatureUnit, scaling: ScalingFactors) -> Seq<u16> {
        let temp = if unit is Celsius {
            self.protection.over_temperature.spec_as_celsius()
        } else {
            self.protection.over_temperature.spec_as_fahrenheit()
        };
        let capacity_raw = self.protection.over_capacity_mah / scaling.capacity_divisor;
        let energy_raw = self.protection.over_energy_mwh / scaling.energy_divisor;
        seq![
            spec_phys_to_raw(self.voltage_setting_mv, scaling.voltage_divisor),
            spec_phys_to_raw(self.current_setting_ma as u32, scaling.current_divisor),
            spec_phys_to_raw(self.protection.under_voltage_mv, scaling.voltage_divisor),
            spec_phys_to_raw(self.protection.over_voltage_mv, scaling.voltage_divisor),
            spec_phys_to_raw(self.protection.over_current_ma, scaling.current_divisor),
            spec_phys_to_raw(self.protection.over_power_mw, scaling.power_divisor),
            (self.protection.over_time_s / 3600) as u16,
            ((self.protection.over_time_s / 60) % 60) as u16,
            (capacity_raw % 0x10000) as u16,
            (capacity_raw / 0x10000) as u16,
            (energy_raw % 0x10000) as u16,
            (energy_raw / 0x10000) as u16,
            temp,
            if self.output_enable is On {
                1u16
            } else {
                0u16
            },
            temp,
        ]
    }

    /// Serialises this preset into the base address of its group's register
    /// block and the ordered block payload. Every physical value passes
    /// through the scaling layer; a value whose raw image does not fit a
    /// 16-bit register is an invalid-range error.
    pub fn generate_write_data_and_offset(
        &self,
        temperature_unit: TemperatureUnit,
        scaling: ScalingFactors,
    ) -> (r: Result<(u16, Vec<u16>), Error>)
        requires
            scaling.wf(),
        ensures
            r is Ok <==> self.spec_encodable(scaling),
            r matches Ok((addr, regs)) ==> addr == XyPresetOffsets::VSet.spec_address_in_group(
                self.group,
            ) && regs@ == self.spec_block(temperature_unit, scaling),
            r matches Err(e) ==> e == Error::InvalidRange,
    {
        let voltage_raw = self.voltage_setting_mv / scaling.voltage_divisor;
        let current_raw = (self.current_setting_ma as u32) / scaling.current_divisor;
        let uvp_raw = self.protection.under_voltage_mv / scaling.voltage_divisor;
        let ovp_raw = self.protection.over_voltage_mv / scaling.voltage_divisor;
        let ocp_raw = self.protection.over_current_ma / scaling.current_divisor;
        let opp_raw = self.protection.over_power_mw / scaling.power_divisor;
        let hours = self.protection.over_time_s / 3600;
        if voltage_raw > 65535 || current_raw > 65535 || uvp_raw > 65535 || ovp_raw > 65535
            || ocp_raw > 65535 || opp_raw > 65535 || hours > 65535
            || !self.protection.over_temperature.is_convertible() {
            return Err(Error::InvalidRange);
        }
        let minutes = (self.protection.over_time_s / 60) % 60;
        let capacity_raw = self.protection.over_capacity_mah / scaling.capacity_divisor;
        let energy_raw = self.protection.over_energy_mwh / scaling.energy_divisor;
        let temp: u16 = self.protection.over_temperature.as_unit(temperature_unit);
        let mut regs: Vec<u16> = Vec::new();
        regs.push((voltage_raw % 0x10000) as u16);
        regs.push((current_raw % 0x10000) as u16);
        regs.push((uvp_raw % 0x10000) as u16);
        regs.push((ovp_raw % 0x10000) as u16);
        regs.push((ocp_raw % 0x10000) as u16);
        regs.push((opp_raw % 0x10000) as u16);
        regs.push(hours as u16);
        regs.push(minutes as u16);
        regs.push((capacity_raw % 0x10000) as u16);
        regs.push((capacity_raw / 0x10000) as u16);
        regs.push((energy_raw % 0x10000) as u16);
        regs.push((energy_raw / 0x10000) as u16);
        regs.push(temp);
        regs.push(self.output_enable.as_u16());
        regs.push(temp);
        let start_address = XyPresetOffsets::VSet.address_in_group(self.group);
        proof {
            assert(regs@ =~= self.spec_block(temperature_unit, scaling));
        }
        Ok((start_address, regs))
    }
}

/// Step-by-step construction of an [`XyPreset`].
#[derive(Debug, Clone, Copy, PartialEq, Eq, Structural)]
pub struct XyPresetBuilder {
    /// The preset group, which must be chosen before building.
    pub group: Option<PresetGroup>,
    /// Output voltage setpoint in millivolts.
    pub voltage_setting_mv: u32,
    /// Output current limit in milliamps.
    pub current_setting_ma: u16,
    /// Protection threshold configuration.
    pub protection: ProtectionConfig,
    /// Whether the output switches on when the preset loads.
    pub output_enable: State,
}

impl Default for XyPresetBuilder {
    /// An unbuildable builder: no group chosen, zero setpoints, default
    /// protections, output off.
    fn default() -> (r: Self)
        ensures
            r.group is None,
            r.voltage_setting_mv == 0,
            r.current_setting_ma == 0,
            r.output_enable == State::Off,
    {
        XyPresetBuilder {
            group: None,
            voltage_setting_mv: 0,
            current_setting_ma: 0,
            protection: Default::default(),
            output_enable: State::Off,
        }
    }
}

/// Why a preset could not be built.
#[derive(Debug, Clone, Copy, PartialEq, Eq, Structural)]
pub enum XyPresetBuilderError {
    /// No preset group was chosen.
    InvalidGroupIndex,
}

impl XyPresetBuilder {
    /// Starts a builder for the given group with the given setpoints.
    pub fn new(group: PresetGroup, voltage_mv: u32, current_lim_ma: u16) -> (r: XyPresetBuilder)
        ensures
            r.group == Some(group),
            r.voltage_setting_mv == voltage_mv,
            r.current_setting_ma == current_lim_ma,
            r.output_enable == State::Off,
    {
        XyPresetBuilder {
            group: Some(group),
            voltage_setting_mv: voltage_mv,
            current_setting_ma: current_lim_ma,
            protection: Default::default(),
            output_enable: State::Off,
        }
    }

    /// Finishes the build. Succeeds exactly when a group was chosen, and
    /// carries every configured field over unchanged.
    pub fn build(self) -> (r: Result<XyPreset, XyPresetBuilderError>)
        ensures
            r is Ok <==> self.group is Some,
            r matches Ok(p) ==> Some(p.group) == self.group && p.voltage_setting_mv
                == self.voltage_setting_mv && p.current_setting_ma == self.current_setting_ma
                && p.protection == self.protection && p.output_enable == self.output_enable,
            r matches Err(e) ==> e == XyPresetBuilderError::InvalidGroupIndex,
    {
        if let Some(group_idx) = self.group {
            Ok(XyPreset {
                group: group_idx,
                voltage_setting_mv: self.voltage_setting_mv,
                current_setting_ma: self.current_setting_ma,
                protection: self.protection,
                output_enable: self.output_enable,
            })
        } else {
            Err(XyPresetBuilderError::InvalidGroupIndex)
        }
    }

    /// Chooses the preset group.
    pub fn for_group(self, group: PresetGroup) -> (r: Self)
        ensures
            r == (XyPresetBuilder { group: Some(group), ..self }),
    {
        XyPresetBuilder { group: Some(group), ..self }
    }

    /// Replaces all protection options at once.
    pub fn with_protections(self, protections: ProtectionConfig) -> (r: Self)
        ensures
            r == (XyPresetBuilder { protection: protections, ..self }),
    {
        XyPresetBuilder { protection: protections, ..self }
    }

    /// Sets the output voltage setpoint in millivolts.
    pub fn with_set_v(self, voltage_mv: u32) -> (r: Self)
        ensures
            r == (XyPresetBuilder { voltage_setting_mv: voltage_mv, ..self }),
    {
        XyPresetBuilder { voltage_setting_mv: voltage_mv, ..self }
    }

    /// Sets the output current limit in milliamps.
    pub fn with_set_i_lim(self, current_ma: u16) -> (r: Self)
        ensures
            r == (XyPresetBuilder { current_setting_ma: current_ma, ..self }),
    {
        XyPresetBuilder { current_setting_ma: current_ma, ..self }
    }

    /// Sets the output-enable state the preset applies when loaded.
    pub fn with_output(self, output_enable: State) -> (r: Self)
        ensures
            r == (XyPresetBuilder { output_enable, ..self }),
    {
        XyPresetBuilder { output_enable, ..self }
    }

    /// Sets the under-voltage protection level in millivolts.
    pub fn with_uvp(self, voltage_mv: u32) -> (r: Self)
        ensures
            r.protection.under_voltage_mv == voltage_mv,
            r == (XyPresetBuilder {
                protection: ProtectionConfig { under_voltage_mv: voltage_mv, ..self.protection },
                ..self
            }),
    {
        XyPresetBuilder {
            protection: ProtectionConfig { under_voltage_mv: voltage_mv, ..self.protection },
            ..self
        }
    }

    /// Sets the over-voltage protection level in millivolts.
    pub fn with_ovp(self, voltage_mv: u32) -> (r: Self)
        ensures
            r == (XyPresetBuilder {
                protection: ProtectionConfig { over_voltage_mv: voltage_mv, ..self.protection },
                ..self
            }),
    {
        XyPresetBuilder {
            protection: ProtectionConfig { over_voltage_mv: voltage_mv, ..self.protection },
            ..self
        }
    }

    /// Sets the over-current protection level in milliamps.
    pub fn with_ocp(self, current_ma: u32) -> (r: Self)
        ensures
            r == (XyPresetBuilder {
                protection: ProtectionConfig { over_current_ma: current_ma, ..self.protection },
                ..self
            }),
    {
        XyPresetBuilder {
            protection: ProtectionConfig { over_current_ma: current_ma, ..self.protection },
            ..self
        }
    }

    /// Sets the over-power protection level in milliwatts.
    pub fn with_opp(self, power_mw: u32) -> (r: Self)
        ensures
            r == (XyPresetBuilder {
                protection: ProtectionConfig { over_power_mw: power_mw, ..self.protection },
                ..self
            }),
    {
        XyPresetBuilder {
            protection: ProtectionConfig { over_power_mw: power_mw, ..self.protection },
            ..self
        }
    }

    /// Sets the over-time protection duration in seconds.
    pub fn with_ohp(self, over_time_s: u32) -> (r: Self)
        ensures
            r == (XyPresetBuilder {
                protection: ProtectionConfig { over_time_s, ..self.protection },
                ..self
            }),
    {
        XyPresetBuilder {
            protection: ProtectionConfig { over_time_s, ..self.protection },
            ..self
        }
    }

    /// Sets the over-capacity protection level in milliamp-hours.
    pub fn with_oahp(self, capacity_mah: u32) -> (r: Self)
        ensures
            r == (XyPresetBuilder {
                protection: ProtectionConfig { over_capacity_mah: capacity_mah, ..self.protection },
                ..self
            }),
    {
        XyPresetBuilder {
            protection: ProtectionConfig { over_capacity_mah: capacity_mah, ..self.protection },
            ..self
        }
    }

    /// Sets the over-energy protection level in milliwatt-hours.
    pub fn with_owhp(self, energy_mwh: u32) -> (r: Self)
        ensures
            r == (XyPresetBuilder {
                protection: ProtectionConfig { over_energy_mwh: energy_mwh, ..self.protection },
                ..self
            }),
    {
        XyPresetBuilder {
            protection: ProtectionConfig { over_energy_mwh: energy_mwh, ..self.protection },
            ..self
        }
    }

    /// Sets the over-temperature protection level.
    pub fn with_otp(self, temperature: Temperature) -> (r: Self)
        ensures
            r == (XyPresetBuilder {
                protection: ProtectionConfig { over_temperature: temperature, ..self.protection },
                ..self
            }),
    {
        XyPresetBuilder {
            protection: ProtectionConfig { over_temperature: temperature, ..self.protection },
            ..self
        }
    }
}

} // verus!
