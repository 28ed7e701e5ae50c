//! The holding registers of the XY power supplies and the small domain types
//! their values decode into.

use vstd::prelude::*;

verus! {

/// Every named holding register of the device, with a fixed 16-bit address.
#[derive(Debug, Copy, Clone, PartialEq, Eq, Structural)]
pub enum XyRegister {
    /// R/W - Output voltage setpoint.
    VSet,
    /// R/W - Output current limit setpoint.
    ISet,
    /// R - Measured output voltage.
    VOut,
    /// R - Measured output current.
    IOut,
    /// R - Measured output power.
    Power,
    /// R - Measured supply input voltage.
    UIn,
    /// R - Output capacity, low 16 bits.
    AhLow,
    /// R - Output capacity, high 16 bits.
    AhHigh,
    /// R - Output energy, low 16 bits.
    WhLow,
    /// R - Output energy, high 16 bits.
    WhHigh,
    /// R - Output-enabled time, hours.
    OutH,
    /// R - Output-enabled time, minutes.
    OutM,
    /// R - Output-enabled time, seconds.
    OutS,
    /// R - Internal temperature.
    TIn,
    /// R - External temperature.
    TEx,
    /// R/W - Key lock: 0 unlocked, 1 locked.
    Lock,
    /// R/W - Protection status; writing 0 clears active protections.
    Protect,
    /// R - Regulation state: 0 constant voltage, 1 constant current.
    CvCc,
    /// R/W - Output switch: 0 off, 1 on.
    OnOff,
    /// R/W - Temperature unit selector.
    FC,
    /// R/W - Backlight brightness level, 0 to 5.
    BLed,
    /// R/W - Screen rest time.
    Sleep,
    /// R - Product model code.
    Model,
    /// R - Firmware version number.
    Version,
    /// R/W - Modbus slave address of the device.
    SlaveAdd,
    /// R/W - Configured baud rate selector.
    BaudRateL,
    /// R/W - Internal temperature correction.
    TInOffset,
    /// R/W - External temperature correction.
    TExOffset,
    /// R/W - Buzzer switch.
    Buzzer,
    /// R/W - Active preset group selector; writing 0-9 loads that group.
    ExtractM,
    /// R/W - Device wake state: 0 sleep, 1 awake.
    Device,
    /// R/W - MPPT switch.
    MpptSw,
    /// R/W - MPPT maximum-point coefficient.
    MpptK,
    /// R/W - Full charging current when in MPPT mode.
    BatFul,
    /// R/W - Constant power switch.
    CwSw,
    /// R/W - Constant power level.
    Cw,
}

impl XyRegister {
    /// The fixed holding-register address of this register.
    pub open spec fn spec_address(self) -> u16 {
        match self {
            XyRegister::VSet => 0x00,
            XyRegister::ISet => 0x01,
            XyRegister::VOut => 0x02,
            XyRegister::IOut => 0x03,
            XyRegister::Power => 0x04,
            XyRegister::UIn => 0x05,
            XyRegister::AhLow => 0x06,
            XyRegister::AhHigh => 0x07,
            XyRegister::WhLow => 0x08,
            XyRegister::WhHigh => 0x09,
            XyRegister::OutH => 0x0A,
            XyRegister::OutM => 0x0B,
            XyRegister::OutS => 0x0C,
            XyRegister::TIn => 0x0D,
            XyRegister::TEx => 0x0E,
            XyRegister::Lock => 0x0F,
            XyRegister::Protect => 0x10,
            XyRegister::CvCc => 0x11,
            XyRegister::OnOff => 0x12,
            XyRegister::FC => 0x13,
            XyRegister::BLed => 0x14,
            XyRegister::Sleep => 0x15,
            XyRegister::Model => 0x16,
            XyRegister::Version => 0x17,
            XyRegister::SlaveAdd => 0x18,
            XyRegister::BaudRateL => 0x19,
            XyRegister::TInOffset => 0x1A,
            XyRegister::TExOffset => 0x1B,
            XyRegister::Buzzer => 0x1C,
            XyRegister::ExtractM => 0x1D,
            XyRegister::Device => 0x1E,
            XyRegister::MpptSw => 0x1F,
            XyRegister::MpptK => 0x20,
            XyRegister::BatFul => 0x21,
            XyRegister::CwSw => 0x22,
            XyRegister::Cw => 0x23,
        }
    }

    /// Returns the register's address on the wire.
    pub fn address(self) -> (r: u16)
        ensures
            r == self.spec_address(),
    {
        match self {
            XyRegister::VSet => 0x00,
            XyRegister::ISet => 0x01,
            XyRegister::VOut => 0x02,
            XyRegister::IOut => 0x03,
            XyRegister::Power => 0x04,
            XyRegister::UIn => 0x05,
            XyRegister::AhLow => 0x06,
            XyRegister::AhHigh => 0x07,
            XyRegister::WhLow => 0x08,
            XyRegister::WhHigh => 0x09,
            XyRegister::OutH => 0x0A,
            XyRegister::OutM => 0x0B,
            XyRegister::OutS => 0x0C,
            XyRegister::TIn => 0x0D,
            XyRegister::TEx => 0x0E,
            XyRegister::Lock => 0x0F,
            XyRegister::Protect => 0x10,
            XyRegister::CvCc => 0x11,
            XyRegister::OnOff => 0x12,
            XyRegister::FC => 0x13,
            XyRegister::BLed => 0x14,
            XyRegister::Sleep => 0x15,
            XyRegister::Model => 0x16,
            XyRegister::Version => 0x17,
            XyRegister::SlaveAdd => 0x18,
            XyRegister::BaudRateL => 0x19,
            XyRegister::TInOffset => 0x1A,
            XyRegister::TExOffset => 0x1B,
            XyRegister::Buzzer => 0x1C,
            XyRegister::ExtractM => 0x1D,
            XyRegister::Device => 0x1E,
            XyRegister::MpptSw => 0x1F,
            XyRegister::MpptK => 0x20,
            XyRegister::BatFul => 0x21,
            XyRegister::CwSw => 0x22,
            XyRegister::Cw => 0x23,
        }
    }
}

/// The recognised product models; the device reports one as a raw 16-bit
/// code in the model register. Unrecognised codes are a hard error.
#[derive(Debug, Copy, Clone, PartialEq, Eq, Structural)]
pub enum ProductModel {
    /// This model's code has not been confirmed on hardware.
    XYSK60S,
    /// This model's code has not been confirmed on hardware.
    XYSK120S,
    /// This model's code has not been confirmed on hardware.
    XYSK150S,
    /// This model's code has not been confirmed on hardware.
    XY3606B,
    XY3607F,
    /// This model's code has not been confirmed on hardware.
    XY6506,
    /// This model's code has not been confirmed on hardware.
    XY6506S,
    /// This model's code has not been confirmed on hardware.
    XY6509,
    /// This model's code has not been confirmed on hardware.
    XY6509X,
    XY6020L,
    XY7025,
    XY12522,
}

impl ProductModel {
    /// The raw code this model reports in the model register.
    pub open spec fn spec_code(self) -> u16 {
        match self {
            ProductModel::XYSK60S => 0,
            ProductModel::XYSK120S => 1,
            ProductModel::XYSK150S => 2,
            ProductModel::XY3606B => 3,
            ProductModel::XY3607F => 3607,
            ProductModel::XY6506 => 3608,
            ProductModel::XY6506S => 3609,
            ProductModel::XY6509 => 3610,
            ProductModel::XY6509X => 3611,
            ProductModel::XY6020L => 6020,
            ProductModel::XY7025 => 7025,
            ProductModel::XY12522 => 12522,
        }
    }

    /// Returns the raw model code.
    pub fn code(self) -> (r: u16)
        ensures
            r == self.spec_code(),
    {
        match self {
            ProductModel::XYSK60S => 0,
            ProductModel::XYSK120S => 1,
            ProductModel::XYSK150S => 2,
            ProductModel::XY3606B => 3,
            ProductModel::XY3607F => 3607,
            ProductModel::XY6506 => 3608,
            ProductModel::XY6506S => 3609,
            ProductModel::XY6509 => 3610,
            ProductModel::XY6509X => 3611,
            ProductModel::XY6020L => 6020,
            ProductModel::XY7025 => 7025,
            ProductModel::XY12522 => 12522,
        }
    }

    /// The models whose codes have been observed on hardware; only these are
    /// recognised when interpreting the model register.
    pub open spec fn spec_confirmed(self) -> bool {
        self == ProductModel::XY3607F || self == ProductModel::XY6020L || self
            == ProductModel::XY7025 || self == ProductModel::XY12522
    }

    /// Interprets a raw model-register code. Succeeds exactly on the codes of
    /// the confirmed models.
    pub fn try_from_code(code: u16) -> (r: Option<ProductModel>)
        ensures
            r matches Some(m) ==> m.spec_code() == code && m.spec_confirmed(),
            r is None ==> forall|m: ProductModel| m.spec_confirmed() ==> m.spec_code() != code,
    {
        if code == 3607 {
            Some(ProductModel::XY3607F)
        } else if code == 6020 {
            Some(ProductModel::XY6020L)
        } else if code == 7025 {
            Some(ProductModel::XY7025)
        } else if code == 12522 {
            Some(ProductModel::XY12522)
        } else {
            None
        }
    }
}

/// The two regulation modes of the supply.
#[derive(Debug, Copy, Clone, PartialEq, Eq, Structural)]
pub enum ControlMode {
    /// Constant voltage regulation.
    Cv,
    /// Constant current regulation.
    Cc,
}

impl ControlMode {
    /// Decodes the regulation-state register: zero is constant voltage,
    /// anything else constant current.
    pub fn from_u16(value: u16) -> (r: ControlMode)
        ensures
            r == (if value != 0 {
                ControlMode::Cc
            } else {
                ControlMode::Cv
            }),
    {
        if value != 0 {
            ControlMode::Cc
        } else {
            ControlMode::Cv
        }
    }

    /// The wire value of this mode.
    pub fn as_u16(self) -> (r: u16)
        ensures
            r == (if self is Cc {
                1u16
            } else {
                0u16
            }),
    {
        match self {
            ControlMode::Cv => 0x00,
            ControlMode::Cc => 0x01,
        }
    }
}

/// The baud rates the supplies support, as wire selector values.
#[derive(Debug, Copy, Clone, PartialEq, Eq, Structural)]
pub enum BaudRate {
    _9600,
    _14400,
    _19200,
    _38400,
    _5600,
    _576000,
    /// The default baud rate of the device.
    _115200,
    /// Only supported by some models.
    _2400,
    /// Only supported by some models.
    _4800,
}

impl BaudRate {
    /// The selector value written to the baud-rate register.
    pub open spec fn spec_selector(self) -> u16 {
        match self {
            BaudRate::_9600 => 0,
            BaudRate::_14400 => 1,
            BaudRate::_19200 => 2,
            BaudRate::_38400 => 3,
            BaudRate::_5600 => 4,
            BaudRate::_576000 => 5,
            BaudRate::_115200 => 6,
            BaudRate::_2400 => 7,
            BaudRate::_4800 => 8,
        }
    }

    /// Returns the wire selector value of this baud rate.
    pub fn selector(self) -> (r: u16)
        ensures
            r == self.spec_selector(),
    {
        match self {
            BaudRate::_9600 => 0,
            BaudRate::_14400 => 1,
            BaudRate::_19200 => 2,
            BaudRate::_38400 => 3,
            BaudRate::_5600 => 4,
            BaudRate::_576000 => 5,
            BaudRate::_115200 => 6,
            BaudRate::_2400 => 7,
            BaudRate::_4800 => 8,
        }
    }

    /// Decodes a baud-rate selector. Succeeds exactly on values 0 through 8.
    pub fn try_from_u16(value: u16) -> (r: Result<BaudRate, crate::error::Error>)
        ensures
            r is Ok <==> value <= 8,
            r matches Ok(b) ==> b.spec_selector() == value,
            r matches Err(e) ==> e == crate::error::Error::Other,
    {
        match value {
            0 => Ok(BaudRate::_9600),
            1 => Ok(BaudRate::_14400),
            2 => Ok(BaudRate::_19200),
            3 => Ok(BaudRate::_38400),
            4 => Ok(BaudRate::_5600),
            5 => Ok(BaudRate::_576000),
            6 => Ok(BaudRate::_115200),
            7 => Ok(BaudRate::_2400),
            8 => Ok(BaudRate::_4800),
            _ => Err(crate::error::Error::Other),
        }
    }
}

/// Binary on/off, kept as a named type so inverted-polarity registers cannot
/// be confused with plain booleans.
#[derive(Debug, Copy, Clone, PartialEq, Eq, Structural)]
pub enum State {
    /// Disabled.
    Off,
    /// Enabled.
    On,
}

impl State {
    /// Decodes a register value: zero is off, anything else on.
    pub fn from_bool(value: bool) -> (r: State)
        ensures
            r == (if value {
                State::On
            } else {
                State::Off
            }),
    {
        if value {
            State::On
        } else {
            State::Off
        }
    }

    /// The wire value of this state.
    pub fn as_u16(self) -> (r: u16)
        ensures
            r == (if self is On {
                1u16
            } else {
                0u16
            }),
    {
        match self {
            State::Off => 0x00,
            State::On => 0x01,
        }
    }

    /// This state as a boolean.
    pub fn as_bool(self) -> (r: bool)
        ensures
            r == (self is On),
    {
        match self {
            State::Off => false,
            State::On => true,
        }
    }

    /// The opposite state, for registers with inverted polarity.
    pub fn inverted(self) -> (r: State)
        ensures
            r == (if self is On {
                State::Off
            } else {
                State::On
            }),
    {
        match self {
            State::Off => State::On,
            State::On => State::Off,
        }
    }
}

/// The unit a temperature register is expressed in.
#[derive(Debug, Copy, Clone, PartialEq, Eq, Structural)]
pub enum TemperatureUnit {
    Celsius,
    Fahrenheit,
}

impl TemperatureUnit {
    /// The wire value of this unit selector.
    pub fn as_u16(self) -> (r: u16)
        ensures
            r == (if self is Fahrenheit {
                1u16
            } else {
                0u16
            }),
    {
        match self {
            TemperatureUnit::Celsius => 0x00,
            TemperatureUnit::Fahrenheit => 0x01,
        }
    }

    /// Decodes the unit selector register. Succeeds exactly on 0 and 1.
    pub fn try_from_u16(value: u16) -> (r: Result<TemperatureUnit, crate::error::Error>)
        ensures
            r is Ok <==> value <= 1,
            r matches Ok(u) ==> (u is Fahrenheit <==> value == 1),
            r matches Err(e) ==> e == crate::error::Error::Other,
    {
        match value {
            0 => Ok(TemperatureUnit::Celsius),
            1 => Ok(TemperatureUnit::Fahrenheit),
            _ => Err(crate::error::Error::Other),
        }
    }
}

/// The supported backlight brightness levels, 0 (darkest) to 5 (brightest).
#[derive(Debug, Copy, Clone, PartialEq, Eq, Structural)]
pub enum BacklightBrightness {
    Level0,
    Level1,
    Level2,
    Level3,
    Level4,
    Level5,
}

impl BacklightBrightness {
    /// The wire value of this level.
    pub open spec fn spec_level(self) -> u16 {
        match self {
            BacklightBrightness::Level0 => 0,
            BacklightBrightness::Level1 => 1,
            BacklightBrightness::Level2 => 2,
            BacklightBrightness::Level3 => 3,
            BacklightBrightness::Level4 => 4,
            BacklightBrightness::Level5 => 5,
        }
    }

    /// Returns the wire value of this level.
    pub fn level(self) -> (r: u16)
        ensures
            r == self.spec_level(),
    {
        match self {
            BacklightBrightness::Level0 => 0,
            BacklightBrightness::Level1 => 1,
            BacklightBrightness::Level2 => 2,
            BacklightBrightness::Level3 => 3,
            BacklightBrightness::Level4 => 4,
            BacklightBrightness::Level5 => 5,
        }
    }

    /// Decodes a brightness register value. Succeeds exactly on 0 through 5.
    pub fn try_from_u16(value: u16) -> (r: Result<BacklightBrightness, crate::error::Error>)
        ensures
            r is Ok <==> value <= 5,
            r matches Ok(b) ==> b.spec_level() == value,
            r matches Err(e) ==> e == crate::error::Error::Other,
    {
        match value {
            0 => Ok(BacklightBrightness::Level0),
            1 => Ok(BacklightBrightness::Level1),
            2 => Ok(BacklightBrightness::Level2),
            3 => Ok(BacklightBrightness::Level3),
            4 => Ok(BacklightBrightness::Level4),
            5 => Ok(BacklightBrightness::Level5),
            _ => Err(crate::error::Error::Other),
        }
    }
}

/// Division by ten rounded to the nearest integer, the final step of the
/// fixed-point (one decimal place) temperature arithmetic.
pub open spec fn spec_div_10_and_round(value: u16) -> u16 {
    if value % 10 >= 5 {
        (value / 10 + 1) as u16
    } else {
        value / 10
    }
}

/// Celsius to Fahrenheit with one fixed decimal place, rounded to nearest.
pub open spec fn spec_c_to_f(temp_c: u16) -> u16
    recommends
        temp_c <= 728,
{
    spec_div_10_and_round(((temp_c * 90) / 5 + 320) as u16)
}

/// Fahrenheit to Celsius with one fixed decimal place, rounded to nearest.
pub open spec fn spec_f_to_c(temp_f: u16) -> u16
    recommends
        32 <= temp_f <= 1342,
{
    spec_div_10_and_round((((temp_f * 10 - 320) * 5) / 9) as u16)
}

/// A temperature tagged with its unit.
#[derive(Debug, Copy, Clone, PartialEq, Eq, Structural)]
pub enum Temperature {
    Fahrenheit(u16),
    Celsius(u16),
}

impl Temperature {
    /// The inputs on which the unit conversions stay inside 16-bit fixed
    /// point arithmetic: Celsius up to 728 degrees, Fahrenheit from 32 up to
    /// 1342 degrees.
    pub open spec fn convertible(self) -> bool {
        match self {
            Temperature::Celsius(c) => c <= 728,
            Temperature::Fahrenheit(f) => 32 <= f <= 1342,
        }
    }

    /// Whether this temperature lies in the convertible range.
    pub fn is_convertible(&self) -> (r: bool)
        ensures
            r == self.convertible(),
    {
        match *self {
            Temperature::Celsius(c) => c <= 728,
            Temperature::Fahrenheit(f) => 32 <= f && f <= 1342,
        }
    }

    /// This temperature expressed in Celsius.
    pub open spec fn spec_as_celsius(self) -> u16 {
        match self {
            Temperature::Celsius(c) => c,
            Temperature::Fahrenheit(f) => spec_f_to_c(f),
        }
    }

    /// This temperature expressed in Fahrenheit.
    pub open spec fn spec_as_fahrenheit(self) -> u16 {
        match self {
            Temperature::Celsius(c) => spec_c_to_f(c),
            Temperature::Fahrenheit(f) => f,
        }
    }

    /// Builds a temperature in the given unit from a whole-degree value.
    pub fn new(value: u16, unit: TemperatureUnit) -> (r: Temperature)
        ensures
            r == (if unit is Celsius {
                Temperature::Celsius(value)
            } else {
                Temperature::Fahrenheit(value)
            }),
    {
        match unit {
            TemperatureUnit::Celsius => Temperature::Celsius(value),
            TemperatureUnit::Fahrenheit => Temperature::Fahrenheit(value),
        }
    }

    /// Builds a temperature from a register value in centi-degrees, rounding
    /// to the nearest whole degree.
    pub fn from_centi(value: u16, unit: TemperatureUnit) -> (r: Temperature)
        ensures
            r == (if unit is Celsius {
                Temperature::Celsius(spec_div_10_and_round(value))
            } else {
                Temperature::Fahrenheit(spec_div_10_and_round(value))
            }),
    {
        let rounded = Self::div_10_and_round(value);
        Self::new(rounded, unit)
    }

    /// Converts this temperature to whole Celsius degrees.
    pub fn as_celsius(&self) -> (r: u16)
        requires
            self.convertible(),
        ensures
            r == self.spec_as_celsius(),
    {
        match *self {
            Temperature::Celsius(inner) => inner,
            Temperature::Fahrenheit(inner) => Self::f_to_c(inner),
        }
    }

    /// Converts this temperature to whole Fahrenheit degrees.
    pub fn as_fahrenheit(&self) -> (r: u16)
        requires
            self.convertible(),
        ensures
            r == self.spec_as_fahrenheit(),
    {
        match *self {
            Temperature::Celsius(inner) => Self::c_to_f(inner),
            Temperature::Fahrenheit(inner) => inner,
        }
    }

    /// Converts this temperature to whole degrees of the requested unit.
    pub fn as_unit(&self, unit: TemperatureUnit) -> (r: u16)
        requires
            self.convertible(),
        ensures
            unit is Celsius ==> r == self.spec_as_celsius(),
            unit is Fahrenheit ==> r == self.spec_as_fahrenheit(),
    {
        match unit {
            TemperatureUnit::Celsius => self.as_celsius(),
            TemperatureUnit::Fahrenheit => self.as_fahrenheit(),
        }
    }

    /// Fahrenheit to Celsius through tenths of a degree.
    fn f_to_c(temp_f: u16) -> (r: u16)
        requires
            32 <= temp_f <= 1342,
        ensures
            r == spec_f_to_c(temp_f),
    {
        let multiplied = ((temp_f * 10 - 320) * 5) / 9;
        Self::div_10_and_round(multiplied)
    }

    /// Celsius to Fahrenheit through tenths of a degree.
    fn c_to_f(temp_c: u16) -> (r: u16)
        requires
            temp_c <= 728,
        ensures
            r == spec_c_to_f(temp_c),
    {
        let multiplied = ((temp_c * 90) / 5) + 320;
        Self::div_10_and_round(multiplied)
    }

    /// Drops a fixed decimal digit, rounding to nearest.
    fn div_10_and_round(value: u16) -> (r: u16)
        ensures
            r == spec_div_10_and_round(value),
    {
        let centimal = value % 10;
        if centimal >= 5 {
            (value / 10) + 1
        } else {
            value / 10
        }
    }
}

/// The protection-status register decoded into one flag per protection kind,
/// least significant bit first; the top five bits are unused.
#[derive(Debug, Copy, Clone, PartialEq, Eq, Structural)]
pub struct ProtectionStatus {
    bits: u16,
}

impl ProtectionStatus {
    /// The raw register value behind the flags.
    pub closed spec fn spec_bits(self) -> u16 {
        self.bits
    }

    /// Whether bit `i` of the raw value is set.
    pub open spec fn spec_flag(self, i: u16) -> bool {
        self.spec_bits() >> i & 1 == 1
    }

    /// Decodes a raw protection-status register value.
    pub fn from_bits(bits: u16) -> (r: ProtectionStatus)
        ensures
            r.spec_bits() == bits,
    {
        ProtectionStatus { bits }
    }

    /// OVP, over-voltage protection tripped.
    pub fn over_voltage(&self) -> (r: bool)
        ensures
            r == self.spec_flag(0),
    {
        self.bits >> 0u16 & 1 == 1
    }

    /// OCP, over-current protection tripped.
    pub fn over_current(&self) -> (r: bool)
        ensures
            r == self.spec_flag(1),
    {
        self.bits >> 1u16 & 1 == 1
    }

    /// OPP, over-power protection tripped.
    pub fn over_power(&self) -> (r: bool)
        ensures
            r == self.spec_flag(2),
    {
        self.bits >> 2u16 & 1 == 1
    }

    /// LVP, input under-voltage protection tripped.
    pub fn under_voltage_input(&self) -> (r: bool)
        ensures
            r == self.spec_flag(3),
    {
        self.bits >> 3u16 & 1 == 1
    }

    /// OAH, maximum output capacity reached.
    pub fn over_capacity(&self) -> (r: bool)
        ensures
            r == self.spec_flag(4),
    {
        self.bits >> 4u16 & 1 == 1
    }

    /// OHP, maximum output time reached.
    pub fn over_time(&self) -> (r: bool)
        ensures
            r == self.spec_flag(5),
    {
        self.bits >> 5u16 & 1 == 1
    }

    /// OTP, internal over-temperature protection tripped.
    pub fn over_temperature_internal(&self) -> (r: bool)
        ensures
            r == self.spec_flag(6),
    {
        self.bits >> 6u16 & 1 == 1
    }

    /// OEP, no-output protection tripped.
    pub fn oep(&self) -> (r: bool)
        ensures
            r == self.spec_flag(7),
    {
        self.bits >> 7u16 & 1 == 1
    }

    /// OWH, maximum energy output reached.
    pub fn over_energy(&self) -> (r: bool)
        ensures
            r == self.spec_flag(8),
    {
        self.bits >> 8u16 & 1 == 1
    }

    /// ICP, maximum input current protection tripped.
    pub fn over_current_input(&self) -> (r: bool)
        ensures
            r == self.spec_flag(9),
    {
        self.bits >> 9u16 & 1 == 1
    }

    /// ETP, external over-temperature protection tripped.
    pub fn over_temperature_external(&self) -> (r: bool)
        ensures
            r == self.spec_flag(10),
    {
        self.bits >> 10u16 & 1 == 1
    }
}

} // verus!
