//! Per-model scaling factors converting raw register values to and from
//! physical units (mV, mA, mW, mAh, mWh).

use vstd::prelude::*;
use crate::register::ProductModel;

verus! {

/// Raw register value scaled up to a physical unit: `raw * divisor`.
pub open spec fn spec_raw_to_phys(raw: u16, divisor: u32) -> u32
    recommends
        1 <= divisor <= 65536,
{
    (raw * divisor) as u32
}

/// Physical value scaled down to a raw register value: `physical / divisor`,
/// truncated to the low 16 bits as the register is 16 bits wide.
pub open spec fn spec_phys_to_raw(physical: u32, divisor: u32) -> u16
    recommends
        1 <= divisor,
{
    ((physical / divisor) % 0x10000) as u16
}

/// The divisors a scaling table may hold: at least one (so scaling down
/// never divides by zero) and at most 65536 (so scaling up any 16-bit raw
/// value stays within 32 bits).
pub open spec fn divisor_in_range(divisor: u32) -> bool {
    1 <= divisor <= 65536
}

/// Scaling factors for converting raw register values to standard units.
/// Each field is the integer multiplier taking a raw value to the physical
/// unit named, and the divisor taking a physical value back to raw.
#[derive(Debug, Clone, Copy, PartialEq, Eq, Structural)]
pub struct ScalingFactors {
    /// Multiplier for voltage values, raw to millivolts.
    pub voltage_divisor: u32,
    /// Multiplier for current values, raw to milliamps.
    pub current_divisor: u32,
    /// Multiplier for power values, raw to milliwatts.
    pub power_divisor: u32,
    /// Multiplier for capacity values, raw to milliamp-hours.
    pub capacity_divisor: u32,
    /// Multiplier for energy values, raw to milliwatt-hours.
    pub energy_divisor: u32,
}

impl ScalingFactors {
    /// All five divisors are in the range the conversions stay exact in.
    pub open spec fn wf(self) -> bool {
        &&& divisor_in_range(self.voltage_divisor)
        &&& divisor_in_range(self.current_divisor)
        &&& divisor_in_range(self.power_divisor)
        &&& divisor_in_range(self.capacity_divisor)
        &&& divisor_in_range(self.energy_divisor)
    }

    /// Builds a scaling table from the five divisor values.
    pub fn new(
        voltage_divisor: u32,
        current_divisor: u32,
        power_divisor: u32,
        capacity_divisor: u32,
        energy_divisor: u32,
    ) -> (r: ScalingFactors)
        ensures
            r == (ScalingFactors {
                voltage_divisor,
                current_divisor,
                power_divisor,
                capacity_divisor,
                energy_divisor,
            }),
    {
        ScalingFactors { voltage_divisor, current_divisor, power_divisor, capacity_divisor, energy_divisor }
    }

    /// Converts a raw voltage register value to millivolts.
    pub fn raw_to_voltage_mv(&self, raw: u16) -> (r: u32)
        requires
            divisor_in_range(self.voltage_divisor),
        ensures
            r == spec_raw_to_phys(raw, self.voltage_divisor),
    {
        proof {
            vstd::arithmetic::mul::lemma_mul_upper_bound(
                raw as int,
                65535,
                self.voltage_divisor as int,
                65536,
            );
        }
        (raw as u32) * self.voltage_divisor
    }

    /// Converts millivolts to a raw voltage register value.
    pub fn voltage_mv_to_raw(&self, voltage_mv: u32) -> (r: u16)
        requires
            1 <= self.voltage_divisor,
        ensures
            r == spec_phys_to_raw(voltage_mv, self.voltage_divisor),
    {
        ((voltage_mv / self.voltage_divisor) % 0x10000) as u16
    }

    /// Converts a raw current register value to milliamps.
    pub fn raw_to_current_ma(&self, raw: u16) -> (r: u32)
        requires
            divisor_in_range(self.current_divisor),
        ensures
            r == spec_raw_to_phys(raw, self.current_divisor),
    {
        proof {
            vstd::arithmetic::mul::lemma_mul_upper_bound(
                raw as int,
                65535,
                self.current_divisor as int,
                65536,
            );
        }
        (raw as u32) * self.current_divisor
    }

    /// Converts milliamps to a raw current register value.
    pub fn current_ma_to_raw(&self, current_ma: u32) -> (r: u16)
        requires
            1 <= self.current_divisor,
        ensures
            r == spec_phys_to_raw(current_ma, self.current_divisor),
    {
        ((current_ma / self.current_divisor) % 0x10000) as u16
    }

    /// Converts a raw power register value to milliwatts.
    pub fn raw_to_power_mw(&self, raw: u16) -> (r: u32)
        requires
            divisor_in_range(self.power_divisor),
        ensures
            r == spec_raw_to_phys(raw, self.power_divisor),
    {
        proof {
            vstd::arithmetic::mul::lemma_mul_upper_bound(
                raw as int,
                65535,
                self.power_divisor as int,
                65536,
            );
        }
        (raw as u32) * self.power_divisor
    }

    /// Converts milliwatts to a raw power register value.
    pub fn power_mw_to_raw(&self, power_mw: u32) -> (r: u16)
        requires
            1 <= self.power_divisor,
        ensures
            r == spec_phys_to_raw(power_mw, self.power_divisor),
    {
        ((power_mw / self.power_divisor) % 0x10000) as u16
    }
}

impl Default for ScalingFactors {
    /// The identity table: no scaling on any quantity.
    fn default() -> (r: Self)
        ensures
            r == (ScalingFactors {
                voltage_divisor: 1u32,
                current_divisor: 1u32,
                power_divisor: 1u32,
                capacity_divisor: 1u32,
                energy_divisor: 1u32,
            }),
    {
        ScalingFactors {
            voltage_divisor: 1,
            current_divisor: 1,
            power_divisor: 1,
            capacity_divisor: 1,
            energy_divisor: 1,
        }
    }
}

/// Law: scaling a physical value down to raw and back up returns the value,
/// whenever the value is an exact multiple of the divisor and its raw image
/// fits a 16-bit register.
pub proof fn lemma_phys_round_trip(physical: u32, divisor: u32)
    requires
        1 <= divisor <= 65536,
        physical % divisor == 0,
        physical / divisor <= 65535,
    ensures
        spec_raw_to_phys(spec_phys_to_raw(physical, divisor), divisor) == physical,
{
    let q = physical / divisor;
    assert(q % 0x10000 == q);
    vstd::arithmetic::div_mod::lemma_fundamental_div_mod(physical as int, divisor as int);
    assert(physical == divisor * q);
    assert(q * divisor == divisor * q) by (nonlinear_arith);
}

/// Law: scaling a raw register value up to a physical unit and back down
/// returns the raw value, for every raw value and in-range divisor.
pub proof fn lemma_raw_round_trip(raw: u16, divisor: u32)
    requires
        1 <= divisor <= 65536,
    ensures
        spec_phys_to_raw(spec_raw_to_phys(raw, divisor), divisor) == raw,
{
    let physical = spec_raw_to_phys(raw, divisor);
    vstd::arithmetic::mul::lemma_mul_upper_bound(raw as int, 65535, divisor as int, 65536);
    assert(physical == raw * divisor);
    assert(raw as int * divisor as int / divisor as int == raw as int) by (nonlinear_arith)
        requires
            1 <= divisor,
    ;
    assert(physical / divisor == raw);
    assert((raw as u32) % 0x10000 == raw);
}

impl ProductModel {
    /// The scaling factors of this model, where they have been confirmed:
    /// exactly the models XY3607F, XY6020L, XY7025 and XY12522 have a table,
    /// and every table returned is well formed.
    pub fn scaling_factors(&self) -> (r: Option<ScalingFactors>)
        ensures
            r is Some <==> self.spec_confirmed(),
            r matches Some(s) ==> s.wf(),
            *self == ProductModel::XY3607F ==> r == Some(ScalingFactors {
                voltage_divisor: 10u32,
                current_divisor: 1u32,
                power_divisor: 100u32,
                capacity_divisor: 1u32,
                energy_divisor: 10u32,
            }),
            *self == ProductModel::XY7025 || *self == ProductModel::XY12522 || *self
                == ProductModel::XY6020L ==> r == Some(ScalingFactors {
                voltage_divisor: 10u32,
                current_divisor: 10u32,
                power_divisor: 1000u32,
                capacity_divisor: 10u32,
                energy_divisor: 100u32,
            }),
    {
        match self {
            ProductModel::XY3607F => Some(ScalingFactors {
                voltage_divisor: 10,
                current_divisor: 1,
                power_divisor: 100,
                capacity_divisor: 1,
                energy_divisor: 10,
            }),
            ProductModel::XY7025 => Some(ScalingFactors {
                voltage_divisor: 10,
                current_divisor: 10,
                power_divisor: 1000,
                capacity_divisor: 10,
                energy_divisor: 100,
            }),
            ProductModel::XY12522 => Some(ScalingFactors {
                voltage_divisor: 10,
                current_divisor: 10,
                power_divisor: 1000,
                capacity_divisor: 10,
                energy_divisor: 100,
            }),
            ProductModel::XY6020L => Some(ScalingFactors {
                voltage_divisor: 10,
                current_divisor: 10,
                power_divisor: 1000,
                capacity_divisor: 10,
                energy_divisor: 100,
            }),
            _ => None,
        }
    }
}

} // verus!
