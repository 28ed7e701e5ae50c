//! The transaction engine and device facade: one request/response exchange
//! per operation, composed from the frame codec, the accumulation buffer,
//! the scaling layer and the preset encoder.

use vstd::prelude::*;
use vstd::slice::slice_subrange;
use crate::buffer::{frame_buffer_bytes, FrameBuffer};
use crate::codec;
use crate::error::Error;
use crate::preset::{PresetGroup, ProtectionConfig, XyPresetBuilder, XyPresetOffsets};
use crate::register::{
    BacklightBrightness, BaudRate, ControlMode, ProductModel, ProtectionStatus, State, Temperature,
    TemperatureUnit, XyRegister,
};
use crate::scaling::{spec_raw_to_phys, ScalingFactors};
use crate::transport::{Transport, TransportError};

verus! {

/// Writes all of `data` to the transport, retrying partial sends. Any
/// transport failure, or a send that accepts nothing, is fatal.
fn send_all<T: Transport>(t: &mut T, data: &[u8]) -> (r: Result<(), Error>)
    ensures
        r matches Err(e) ==> e == Error::SerialError,
{
    let mut off: usize = 0;
    while off < data.len()
        invariant
            off <= data@.len(),
        decreases data@.len() - off,
    {
        let chunk = slice_subrange(data, off, data.len());
        match t.send(chunk) {
            Ok(n) => {
                if n == 0 {
                    return Err(Error::SerialError);
                }
                off = off + n;
            },
            Err(_) => {
                return Err(Error::SerialError);
            },
        }
    }
    Ok(())
}

/// How many reads the engine is willing to make for one response before
/// giving the transport up as dead. The engine has no timer of its own;
/// a live transport either hands back bytes or reports no-data long before
/// this many polls.
pub const POLL_LIMIT: usize = 65536;

/// Accumulates a response into a fresh fixed-capacity buffer: bytes are
/// appended as they arrive, accumulation stops once `min_len` bytes are
/// held, or at a no-data signal once the buffer is non-empty (the bus went
/// idle, so the frame is over). Filling `capacity` before either is a
/// buffer-exhausted error, no-data on an empty buffer is a timeout, and any
/// other transport failure is fatal.
fn accumulate_response<T: Transport>(t: &mut T, capacity: usize, min_len: usize) -> (r: Result<
    FrameBuffer,
    Error,
>)
    requires
        capacity <= 256,
    ensures
        r matches Ok(b) ==> 1 <= frame_buffer_bytes(&b).len() <= capacity,
        r matches Err(e) ==> (e == Error::BufferError || e == Error::Timeout || e
            == Error::SerialError),
{
    let mut buf = FrameBuffer::new();
    let mut polls: usize = 0;
    while polls < POLL_LIMIT
        invariant
            capacity <= 256,
            frame_buffer_bytes(&buf).len() <= capacity,
        decreases POLL_LIMIT - polls,
    {
        polls = polls + 1;
        match t.recv(8) {
            Ok(chunk) => {
                if chunk.len() > 0 {
                    if buf.len() + chunk.len() > capacity {
                        return Err(Error::BufferError);
                    }
                    let appended = buf.extend_from_slice(chunk.as_slice());
                    if appended.is_err() {
                        return Err(Error::BufferError);
                    }
                    if buf.len() >= min_len {
                        return Ok(buf);
                    }
                }
            },
            Err(TransportError::NoData) => {
                if buf.len() > 0 {
                    return Ok(buf);
                }
                return Err(Error::Timeout);
            },
            Err(TransportError::Failed) => {
                return Err(Error::SerialError);
            },
        }
    }
    Err(Error::Timeout)
}

/// A session with one power-supply unit over an exclusive transport handle.
///
/// Method names follow the register map: "set"/"get" write and read back
/// configuration, "read" fetches a measured value. Scaled accessors resolve
/// the model's scaling factors lazily on first use and cache them for the
/// rest of the session.
pub struct XyPsu<T: Transport> {
    interface: T,
    /// Modbus unit id of the device; the factory default is 0x01.
    unit_id: u8,
    /// Scaling factors for this model, resolved lazily or set by the caller.
    scaling: Option<ScalingFactors>,
    /// Construction-time capacity of the response accumulation buffer.
    buffer_capacity: usize,
}

impl<T: Transport> XyPsu<T> {
    /// The session's fixed unit id.
    pub closed spec fn spec_unit_id(&self) -> u8 {
        self.unit_id
    }

    /// The session's cached scaling factors, if resolved.
    pub closed spec fn spec_scaling(&self) -> Option<ScalingFactors> {
        self.scaling
    }

    /// The session's accumulation-buffer capacity.
    pub closed spec fn spec_capacity(&self) -> usize {
        self.buffer_capacity
    }

    /// The session invariant: the buffer capacity fits the fixed storage
    /// and any cached scaling table is well formed. Constructors establish
    /// it and every method preserves it.
    pub open spec fn wf(&self) -> bool {
        &&& 1 <= self.spec_capacity() <= 256
        &&& self.spec_scaling() matches Some(s) ==> s.wf()
    }

    /// Everything a transaction leaves unchanged: the unit id, the cached
    /// scaling factors and the buffer capacity.
    pub open spec fn same_session(&self, other: &Self) -> bool {
        &&& self.spec_unit_id() == other.spec_unit_id()
        &&& self.spec_scaling() == other.spec_scaling()
        &&& self.spec_capacity() == other.spec_capacity()
    }

    /// Opens a session over the given transport with the default
    /// accumulation capacity of 128 bytes.
    pub fn new(interface: T, unit_id: u8) -> (r: XyPsu<T>)
        ensures
            r.wf(),
            r.spec_unit_id() == unit_id,
            r.spec_scaling() is None,
            r.spec_capacity() == 128,
    {
        XyPsu { interface, unit_id, scaling: None, buffer_capacity: 128 }
    }

    /// Opens a session with an explicit accumulation-buffer capacity, for
    /// constrained builds or for exercising the buffer-exhaustion path.
    pub fn with_capacity(interface: T, unit_id: u8, capacity: usize) -> (r: XyPsu<T>)
        requires
            1 <= capacity <= 256,
        ensures
            r.wf(),
            r.spec_unit_id() == unit_id,
            r.spec_scaling() is None,
            r.spec_capacity() == capacity,
    {
        XyPsu { interface, unit_id, scaling: None, buffer_capacity: capacity }
    }

    /// Releases the transport handle.
    pub fn into_inner(self) -> T {
        self.interface
    }

    /// Overrides scaling-factor detection with an explicit table, for
    /// models whose factors are unknown or wrong. Used for every scaled
    /// accessor from here on.
    pub fn set_scaling_factors(&mut self, scaling: ScalingFactors)
        requires
            old(self).wf(),
            scaling.wf(),
        ensures
            final(self).wf(),
            final(self).spec_scaling() == Some(scaling),
            final(self).spec_unit_id() == old(self).spec_unit_id(),
            final(self).spec_capacity() == old(self).spec_capacity(),
    {
        self.scaling = Some(scaling);
    }

    /// Writes one holding register and checks the half-duplex echo: the
    /// response must repeat the request byte for byte, anything else is an
    /// invalid-response error.
    pub fn write_modbus_single(&mut self, register: u16, data: u16) -> (r: Result<(), Error>)
        requires
            old(self).wf(),
        ensures
            final(self).wf(),
            old(self).same_session(final(self)),
            r matches Err(e) ==> (e == Error::SerialError || e == Error::Timeout || e
                == Error::BufferError || e == Error::InvalidResponse),
    {
        let request = codec::build_write_single_request(self.unit_id, register, data);
        send_all(&mut self.interface, request.as_slice())?;
        let buf = accumulate_response(&mut self.interface, self.buffer_capacity, 8)?;
        if codec::bytes_equal(request.as_slice(), buf.as_slice()) {
            Ok(())
        } else {
            Err(Error::InvalidResponse)
        }
    }

    /// Writes consecutive holding registers in one transaction. The device
    /// does not echo the payload, so only the response header (unit id,
    /// function, start address, count) is compared against the request.
    pub fn write_modbus_bulk(&mut self, start_register: u16, data: &Vec<u16>) -> (r: Result<
        (),
        Error,
    >)
        requires
            old(self).wf(),
            1 <= data@.len() <= 123,
        ensures
            final(self).wf(),
            old(self).same_session(final(self)),
            r matches Err(e) ==> (e == Error::SerialError || e == Error::Timeout || e
                == Error::BufferError || e == Error::InvalidResponse),
    {
        let request = codec::build_write_bulk_request(self.unit_id, start_register, data);
        send_all(&mut self.interface, request.as_slice())?;
        let buf = accumulate_response(&mut self.interface, self.buffer_capacity, 8)?;
        if buf.len() < 6 {
            return Err(Error::InvalidResponse);
        }
        let request_head = slice_subrange(request.as_slice(), 0, 6);
        let response_head = slice_subrange(buf.as_slice(), 0, 6);
        if codec::bytes_equal(request_head, response_head) {
            Ok(())
        } else {
            Err(Error::InvalidResponse)
        }
    }

    /// Reads one holding register and returns its raw value: the response
    /// must be a structurally valid, CRC-correct single-register frame.
    pub fn read_modbus_single(&mut self, register: u16) -> (r: Result<u16, Error>)
        requires
            old(self).wf(),
        ensures
            final(self).wf(),
            old(self).same_session(final(self)),
            r matches Err(e) ==> (e == Error::SerialError || e == Error::Timeout || e
                == Error::BufferError || e == Error::InvalidResponse),
    {
        let request = codec::build_read_request(self.unit_id, register, 1);
        send_all(&mut self.interface, request.as_slice())?;
        let buf = accumulate_response(&mut self.interface, self.buffer_capacity, 7)?;
        let values = codec::parse_read_response(buf.as_slice(), self.unit_id, 1)?;
        Ok(values[0])
    }

    /// Reads `count` consecutive holding registers and returns their raw
    /// values, exactly `count` of them on success.
    fn read_modbus_bulk(&mut self, start_register: u16, count: u16) -> (r: Result<Vec<u16>, Error>)
        requires
            old(self).wf(),
            1 <= count <= 125,
        ensures
            final(self).wf(),
            old(self).same_session(final(self)),
            r matches Ok(v) ==> v@.len() == count,
            r matches Err(e) ==> (e == Error::SerialError || e == Error::Timeout || e
                == Error::BufferError || e == Error::InvalidResponse),
    {
        let request = codec::build_read_request(self.unit_id, start_register, count);
        send_all(&mut self.interface, request.as_slice())?;
        let min_len: usize = 5 + 2 * (count as usize);
        let buf = accumulate_response(&mut self.interface, self.buffer_capacity, min_len)?;
        let values = codec::parse_read_response(buf.as_slice(), self.unit_id, count)?;
        Ok(values)
    }

    /// Resolves the scaling factors for this session: the cached table if
    /// one is set, otherwise the table of the detected model, cached for
    /// the rest of the session. A model without a confirmed table is a
    /// scaling-unavailable error, never a guess.
    pub fn ensure_scaling(&mut self) -> (r: Result<ScalingFactors, Error>)
        requires
            old(self).wf(),
        ensures
            final(self).wf(),
            final(self).spec_unit_id() == old(self).spec_unit_id(),
            final(self).spec_capacity() == old(self).spec_capacity(),
            r matches Ok(s) ==> s.wf() && final(self).spec_scaling() == Some(s),
            old(self).spec_scaling() matches Some(s) ==> r == Ok::<ScalingFactors, Error>(s),
            r is Err ==> final(self).spec_scaling() == old(self).spec_scaling(),
    {
        if let Some(scaling) = self.scaling {
            return Ok(scaling);
        }
        let raw = self.read_modbus_single(XyRegister::Model.address())?;
        let model = match ProductModel::try_from_code(raw) {
            Some(m) => m,
            None => {
                return Err(Error::ScalingNotAvailable);
            },
        };
        let scaling = match model.scaling_factors() {
            Some(s) => s,
            None => {
                return Err(Error::ScalingNotAvailable);
            },
        };
        self.scaling = Some(scaling);
        Ok(scaling)
    }

    /// The measured output voltage in millivolts: the raw register value
    /// scaled by the model's voltage multiplier.
    pub fn read_output_voltage_mv(&mut self) -> (r: Result<u32, Error>)
        requires
            old(self).wf(),
        ensures
            final(self).wf(),
            final(self).spec_unit_id() == old(self).spec_unit_id(),
            final(self).spec_capacity() == old(self).spec_capacity(),
            r matches Ok(v) ==> (final(self).spec_scaling() matches Some(s) && exists|raw: u16|
                v == spec_raw_to_phys(raw, s.voltage_divisor)),
    {
        let scaling = self.ensure_scaling()?;
        let raw = self.read_modbus_single(XyRegister::VOut.address())?;
        Ok(scaling.raw_to_voltage_mv(raw))
    }

    /// The measured supply input voltage in millivolts.
    pub fn read_input_voltage_mv(&mut self) -> (r: Result<u32, Error>)
        requires
            old(self).wf(),
        ensures
            final(self).wf(),
            final(self).spec_unit_id() == old(self).spec_unit_id(),
            final(self).spec_capacity() == old(self).spec_capacity(),
            r matches Ok(v) ==> (final(self).spec_scaling() matches Some(s) && exists|raw: u16|
                v == spec_raw_to_phys(raw, s.voltage_divisor)),
    {
        let scaling = self.ensure_scaling()?;
        let raw = self.read_modbus_single(XyRegister::UIn.address())?;
        Ok(scaling.raw_to_voltage_mv(raw))
    }

    /// The measured output current in milliamps.
    pub fn read_current_ma(&mut self) -> (r: Result<u32, Error>)
        requires
            old(self).wf(),
        ensures
            final(self).wf(),
            final(self).spec_unit_id() == old(self).spec_unit_id(),
            final(self).spec_capacity() == old(self).spec_capacity(),
            r matches Ok(v) ==> (final(self).spec_scaling() matches Some(s) && exists|raw: u16|
                v == spec_raw_to_phys(raw, s.current_divisor)),
    {
        let scaling = self.ensure_scaling()?;
        let raw = self.read_modbus_single(XyRegister::IOut.address())?;
        Ok(scaling.raw_to_current_ma(raw))
    }

    /// The measured output power in milliwatts.
    pub fn read_power_mw(&mut self) -> (r: Result<u32, Error>)
        requires
            old(self).wf(),
        ensures
            final(self).wf(),
            final(self).spec_unit_id() == old(self).spec_unit_id(),
            final(self).spec_capacity() == old(self).spec_capacity(),
            r matches Ok(v) ==> (final(self).spec_scaling() matches Some(s) && exists|raw: u16|
                v == spec_raw_to_phys(raw, s.power_divisor)),
    {
        let scaling = self.ensure_scaling()?;
        let raw = self.read_modbus_single(XyRegister::Power.address())?;
        Ok(scaling.raw_to_power_mw(raw))
    }

    /// The measured output energy in milliwatt-hours, combined from the low
    /// and high 16-bit halves.
    pub fn read_energy_mwh(&mut self) -> (r: Result<u32, Error>)
        requires
            old(self).wf(),
        ensures
            final(self).wf(),
            old(self).same_session(final(self)),
    {
        let lower = self.read_modbus_single(XyRegister::WhLow.address())?;
        let upper = self.read_modbus_single(XyRegister::WhHigh.address())?;
        Ok((lower as u32) + ((upper as u32) * 0x10000))
    }

    /// The measured output capacity in milliamp-hours, combined from the
    /// low and high 16-bit halves.
    pub fn read_capacity_mah(&mut self) -> (r: Result<u32, Error>)
        requires
            old(self).wf(),
        ensures
            final(self).wf(),
            old(self).same_session(final(self)),
    {
        let lower = self.read_modbus_single(XyRegister::AhLow.address())?;
        let upper = self.read_modbus_single(XyRegister::AhHigh.address())?;
        Ok((lower as u32) + ((upper as u32) * 0x10000))
    }

    /// How long the output has been enabled, in seconds, combined from the
    /// hour, minute and second registers.
    pub fn read_output_time(&mut self) -> (r: Result<u32, Error>)
        requires
            old(self).wf(),
        ensures
            final(self).wf(),
            old(self).same_session(final(self)),
    {
        let time_h = self.read_modbus_single(XyRegister::OutH.address())?;
        let time_m = self.read_modbus_single(XyRegister::OutM.address())?;
        let time_s = self.read_modbus_single(XyRegister::OutS.address())?;
        Ok((time_h as u32) * 3600 + (time_m as u32) * 60 + (time_s as u32))
    }

    /// The measured internal temperature, in the unit the device is
    /// configured to, rounded from the centi-degree register value.
    pub fn read_temperature_internal(&mut self) -> (r: Result<Temperature, Error>)
        requires
            old(self).wf(),
        ensures
            final(self).wf(),
            old(self).same_session(final(self)),
    {
        let unit = self.get_temperature_unit()?;
        let raw = self.read_modbus_single(XyRegister::TIn.address())?;
        Ok(Temperature::from_centi(raw, unit))
    }

    /// The measured external-sensor temperature, in the unit the device is
    /// configured to, rounded from the centi-degree register value.
    pub fn read_temperature_external(&mut self) -> (r: Result<Temperature, Error>)
        requires
            old(self).wf(),
        ensures
            final(self).wf(),
            old(self).same_session(final(self)),
    {
        let unit = self.get_temperature_unit()?;
        let raw = self.read_modbus_single(XyRegister::TEx.address())?;
        Ok(Temperature::from_centi(raw, unit))
    }

    /// Enables or disables the key lock.
    pub fn set_lock_state(&mut self, state: State) -> (r: Result<(), Error>)
        requires
            old(self).wf(),
        ensures
            final(self).wf(),
            old(self).same_session(final(self)),
    {
        self.write_modbus_single(XyRegister::Lock.address(), state.as_u16())
    }

    /// The current state of the key lock.
    pub fn get_lock_state(&mut self) -> (r: Result<State, Error>)
        requires
            old(self).wf(),
        ensures
            final(self).wf(),
            old(self).same_session(final(self)),
    {
        let value = self.read_modbus_single(XyRegister::Lock.address())?;
        Ok(State::from_bool(value != 0))
    }

    /// The active regulation mode, constant voltage or constant current.
    pub fn get_current_control_mode(&mut self) -> (r: Result<ControlMode, Error>)
        requires
            old(self).wf(),
        ensures
            final(self).wf(),
            old(self).same_session(final(self)),
    {
        let value = self.read_modbus_single(XyRegister::CvCc.address())?;
        Ok(ControlMode::from_u16(value))
    }

    /// Switches the output on or off.
    pub fn set_output_state(&mut self, state: State) -> (r: Result<(), Error>)
        requires
            old(self).wf(),
        ensures
            final(self).wf(),
            old(self).same_session(final(self)),
    {
        self.write_modbus_single(XyRegister::OnOff.address(), state.as_u16())
    }

    /// Whether the output is currently enabled.
    pub fn get_output_state(&mut self) -> (r: Result<State, Error>)
        requires
            old(self).wf(),
        ensures
            final(self).wf(),
            old(self).same_session(final(self)),
    {
        let value = self.read_modbus_single(XyRegister::OnOff.address())?;
        Ok(State::from_bool(value != 0))
    }

    /// The firmware version as reported: decimal 136 reads as v1.3.6.
    pub fn get_firmware_version(&mut self) -> (r: Result<u16, Error>)
        requires
            old(self).wf(),
        ensures
            final(self).wf(),
            old(self).same_session(final(self)),
    {
        self.read_modbus_single(XyRegister::Version.address())
    }

    /// Sets the Modbus unit id of the device; applied by the device after a
    /// power cycle. Only 1 through 247 address a single Modbus device.
    pub fn set_slave_address(&mut self, address: u8) -> (r: Result<(), Error>)
        requires
            old(self).wf(),
            address <= 247,
        ensures
            final(self).wf(),
            old(self).same_session(final(self)),
    {
        self.write_modbus_single(XyRegister::SlaveAdd.address(), address as u16)
    }

    /// The Modbus unit id the device currently reports. A register value
    /// that does not fit one byte is an error.
    pub fn get_slave_address(&mut self) -> (r: Result<u8, Error>)
        requires
            old(self).wf(),
        ensures
            final(self).wf(),
            old(self).same_session(final(self)),
    {
        let value = self.read_modbus_single(XyRegister::SlaveAdd.address())?;
        if value > 255 {
            return Err(Error::IntTooBig);
        }
        Ok(value as u8)
    }

    /// Configures the device's baud rate; applied after a power cycle.
    pub fn set_baudrate(&mut self, baud_rate: BaudRate) -> (r: Result<(), Error>)
        requires
            old(self).wf(),
        ensures
            final(self).wf(),
            old(self).same_session(final(self)),
    {
        self.write_modbus_single(XyRegister::BaudRateL.address(), baud_rate.selector())
    }

    /// Configures the device's baud rate; applied after a power cycle.
    pub fn set_baud_rate(&mut self, baud_rate: BaudRate) -> (r: Result<(), Error>)
        requires
            old(self).wf(),
        ensures
            final(self).wf(),
            old(self).same_session(final(self)),
    {
        self.write_modbus_single(XyRegister::BaudRateL.address(), baud_rate.selector())
    }

    /// The configured baud rate; an out-of-range selector is an error.
    pub fn get_baudrate(&mut self) -> (r: Result<BaudRate, Error>)
        requires
            old(self).wf(),
        ensures
            final(self).wf(),
            old(self).same_session(final(self)),
    {
        let value = self.read_modbus_single(XyRegister::BaudRateL.address())?;
        BaudRate::try_from_u16(value)
    }

    /// Selects the unit temperatures are reported in.
    pub fn set_temperature_unit(&mut self, unit: TemperatureUnit) -> (r: Result<(), Error>)
        requires
            old(self).wf(),
        ensures
            final(self).wf(),
            old(self).same_session(final(self)),
    {
        self.write_modbus_single(XyRegister::FC.address(), unit.as_u16())
    }

    /// The unit temperatures are currently reported in.
    pub fn get_temperature_unit(&mut self) -> (r: Result<TemperatureUnit, Error>)
        requires
            old(self).wf(),
        ensures
            final(self).wf(),
            old(self).same_session(final(self)),
    {
        let value = self.read_modbus_single(XyRegister::FC.address())?;
        TemperatureUnit::try_from_u16(value)
    }

    /// Sets the output voltage setpoint, in millivolts, scaled to the raw
    /// register value by the model's voltage multiplier.
    pub fn set_output_voltage_mv(&mut self, voltage_mv: u32) -> (r: Result<(), Error>)
        requires
            old(self).wf(),
        ensures
            final(self).wf(),
            final(self).spec_unit_id() == old(self).spec_unit_id(),
            final(self).spec_capacity() == old(self).spec_capacity(),
    {
        let scaling = self.ensure_scaling()?;
        let raw = scaling.voltage_mv_to_raw(voltage_mv);
        self.write_modbus_single(XyRegister::VSet.address(), raw)
    }

    /// The output voltage setpoint in millivolts.
    pub fn get_output_voltage_mv(&mut self) -> (r: Result<u32, Error>)
        requires
            old(self).wf(),
        ensures
            final(self).wf(),
            final(self).spec_unit_id() == old(self).spec_unit_id(),
            final(self).spec_capacity() == old(self).spec_capacity(),
            r matches Ok(v) ==> (final(self).spec_scaling() matches Some(s) && exists|raw: u16|
                v == spec_raw_to_phys(raw, s.voltage_divisor)),
    {
        let scaling = self.ensure_scaling()?;
        let raw = self.read_modbus_single(XyRegister::VSet.address())?;
        Ok(scaling.raw_to_voltage_mv(raw))
    }

    /// Sets the output current limit, in milliamps, scaled to the raw
    /// register value by the model's current multiplier.
    pub fn set_current_limit_ma(&mut self, current_ma: u32) -> (r: Result<(), Error>)
        requires
            old(self).wf(),
        ensures
            final(self).wf(),
            final(self).spec_unit_id() == old(self).spec_unit_id(),
            final(self).spec_capacity() == old(self).spec_capacity(),
    {
        let scaling = self.ensure_scaling()?;
        let raw = scaling.current_ma_to_raw(current_ma);
        self.write_modbus_single(XyRegister::ISet.address(), raw)
    }

    /// The output current limit in milliamps.
    pub fn get_current_limit_ma(&mut self) -> (r: Result<u32, Error>)
        requires
            old(self).wf(),
        ensures
            final(self).wf(),
            final(self).spec_unit_id() == old(self).spec_unit_id(),
            final(self).spec_capacity() == old(self).spec_capacity(),
            r matches Ok(v) ==> (final(self).spec_scaling() matches Some(s) && exists|raw: u16|
                v == spec_raw_to_phys(raw, s.current_divisor)),
    {
        let scaling = self.ensure_scaling()?;
        let raw = self.read_modbus_single(XyRegister::ISet.address())?;
        Ok(scaling.raw_to_current_ma(raw))
    }

    /// The raw value of the model register.
    pub fn get_product_model_raw(&mut self) -> (r: Result<u16, Error>)
        requires
            old(self).wf(),
        ensures
            final(self).wf(),
            old(self).same_session(final(self)),
    {
        self.read_modbus_single(XyRegister::Model.address())
    }

    /// The interpreted product model. Only models whose codes have been
    /// observed on hardware are recognised; any other code is an error,
    /// never a default.
    pub fn get_product_model(&mut self) -> (r: Result<ProductModel, Error>)
        requires
            old(self).wf(),
        ensures
            final(self).wf(),
            old(self).same_session(final(self)),
            r matches Ok(m) ==> m.spec_confirmed(),
    {
        let raw = self.get_product_model_raw()?;
        match ProductModel::try_from_code(raw) {
            Some(m) => Ok(m),
            None => Err(Error::Other),
        }
    }

    /// The protection flags currently tripped, decoded from the protection
    /// status register.
    pub fn get_protection_status(&mut self) -> (r: Result<ProtectionStatus, Error>)
        requires
            old(self).wf(),
        ensures
            final(self).wf(),
            old(self).same_session(final(self)),
    {
        let raw = self.read_modbus_single(XyRegister::Protect.address())?;
        Ok(ProtectionStatus::from_bits(raw))
    }

    /// Clears any active protection flags (and stops the device beeping).
    pub fn clear_protections(&mut self) -> (r: Result<(), Error>)
        requires
            old(self).wf(),
        ensures
            final(self).wf(),
            old(self).same_session(final(self)),
    {
        self.write_modbus_single(XyRegister::Protect.address(), 0x00u16)
    }

    /// Sets the backlight brightness level.
    pub fn set_backlight(&mut self, level: BacklightBrightness) -> (r: Result<(), Error>)
        requires
            old(self).wf(),
        ensures
            final(self).wf(),
            old(self).same_session(final(self)),
    {
        self.write_modbus_single(XyRegister::BLed.address(), level.level())
    }

    /// The current backlight brightness level; out-of-range values are an
    /// error.
    pub fn get_backlight(&mut self) -> (r: Result<BacklightBrightness, Error>)
        requires
            old(self).wf(),
        ensures
            final(self).wf(),
            old(self).same_session(final(self)),
    {
        let value = self.read_modbus_single(XyRegister::BLed.address())?;
        BacklightBrightness::try_from_u16(value)
    }

    /// Enables or disables the buzzer.
    pub fn set_buzzer_enabled(&mut self, state: State) -> (r: Result<(), Error>)
        requires
            old(self).wf(),
        ensures
            final(self).wf(),
            old(self).same_session(final(self)),
    {
        self.write_modbus_single(XyRegister::Buzzer.address(), state.as_u16())
    }

    /// Whether the buzzer is enabled.
    pub fn get_buzzer_enabled(&mut self) -> (r: Result<State, Error>)
        requires
            old(self).wf(),
        ensures
            final(self).wf(),
            old(self).same_session(final(self)),
    {
        let value = self.read_modbus_single(XyRegister::Buzzer.address())?;
        Ok(State::from_bool(value != 0))
    }

    /// Activates a preset group: the device loads that group's block.
    pub fn set_active_preset(&mut self, group: PresetGroup) -> (r: Result<(), Error>)
        requires
            old(self).wf(),
        ensures
            final(self).wf(),
            old(self).same_session(final(self)),
    {
        self.write_modbus_single(XyRegister::ExtractM.address(), group.index())
    }

    /// The preset group currently active on the device.
    pub fn get_active_preset(&mut self) -> (r: Result<PresetGroup, Error>)
        requires
            old(self).wf(),
        ensures
            final(self).wf(),
            old(self).same_session(final(self)),
    {
        let value = self.read_modbus_single(XyRegister::ExtractM.address())?;
        PresetGroup::try_from_u16(value)
    }

    /// Enters or leaves sleep mode. The wake-state register has inverted
    /// polarity, so the requested state is inverted before writing.
    pub fn set_sleep_state(&mut self, activate_sleep: State) -> (r: Result<(), Error>)
        requires
            old(self).wf(),
        ensures
            final(self).wf(),
            old(self).same_session(final(self)),
    {
        self.write_modbus_single(XyRegister::Device.address(), activate_sleep.inverted().as_u16())
    }

    /// Whether the device is awake (the raw wake state, not inverted).
    pub fn get_sleep_state(&mut self) -> (r: Result<State, Error>)
        requires
            old(self).wf(),
        ensures
            final(self).wf(),
            old(self).same_session(final(self)),
    {
        let value = self.read_modbus_single(XyRegister::Device.address())?;
        Ok(State::from_bool(value != 0))
    }

    /// Enables or disables maximum-power-point tracking.
    pub fn set_mppt_enabled(&mut self, state: State) -> (r: Result<(), Error>)
        requires
            old(self).wf(),
        ensures
            final(self).wf(),
            old(self).same_session(final(self)),
    {
        self.write_modbus_single(XyRegister::MpptSw.address(), state.as_u16())
    }

    /// Whether maximum-power-point tracking is enabled.
    pub fn get_mppt_enabled(&mut self) -> (r: Result<State, Error>)
        requires
            old(self).wf(),
        ensures
            final(self).wf(),
            old(self).same_session(final(self)),
    {
        let value = self.read_modbus_single(XyRegister::MpptSw.address())?;
        Ok(State::from_bool(value != 0))
    }

    /// Sets the MPPT coefficient, ten times the value shown on screen.
    pub fn set_mppt_k_value(&mut self, mppt_k: u16) -> (r: Result<(), Error>)
        requires
            old(self).wf(),
        ensures
            final(self).wf(),
            old(self).same_session(final(self)),
    {
        self.write_modbus_single(XyRegister::MpptK.address(), mppt_k)
    }

    /// The MPPT coefficient, ten times the value shown on screen.
    pub fn get_mppt_k_value(&mut self) -> (r: Result<u16, Error>)
        requires
            old(self).wf(),
        ensures
            final(self).wf(),
            old(self).same_session(final(self)),
    {
        self.read_modbus_single(XyRegister::MpptK.address())
    }

    /// Enables or disables constant power mode.
    pub fn set_constant_power_enabled(&mut self, state: State) -> (r: Result<(), Error>)
        requires
            old(self).wf(),
        ensures
            final(self).wf(),
            old(self).same_session(final(self)),
    {
        self.write_modbus_single(XyRegister::CwSw.address(), state.as_u16())
    }

    /// Whether constant power mode is enabled.
    pub fn get_constant_power_enabled(&mut self) -> (r: Result<State, Error>)
        requires
            old(self).wf(),
        ensures
            final(self).wf(),
            old(self).same_session(final(self)),
    {
        let value = self.read_modbus_single(XyRegister::CwSw.address())?;
        Ok(State::from_bool(value != 0))
    }

    /// Sets the constant power level, in watts; independent of whether
    /// constant power mode is enabled.
    pub fn set_constant_power_level(&mut self, power_w: u16) -> (r: Result<(), Error>)
        requires
            old(self).wf(),
        ensures
            final(self).wf(),
            old(self).same_session(final(self)),
    {
        self.write_modbus_single(XyRegister::Cw.address(), power_w)
    }

    /// The constant power level, in watts.
    pub fn get_constant_power_level(&mut self) -> (r: Result<u16, Error>)
        requires
            old(self).wf(),
        ensures
            final(self).wf(),
            old(self).same_session(final(self)),
    {
        self.read_modbus_single(XyRegister::Cw.address())
    }

    /// The protection configuration of the currently active preset group,
    /// read as one bulk transaction and decoded through the scaling layer
    /// by [`decode_protection_block`].
    pub fn get_protections(&mut self) -> (r: Result<ProtectionConfig, Error>)
        requires
            old(self).wf(),
        ensures
            final(self).wf(),
            final(self).spec_unit_id() == old(self).spec_unit_id(),
            final(self).spec_capacity() == old(self).spec_capacity(),
    {
        let scaling = self.ensure_scaling()?;
        let group = self.get_active_preset()?;
        let start_address = XyPresetOffsets::SLvp.address_in_group(group);
        let registers = self.read_modbus_bulk(start_address, 13)?;
        let temp_unit = self.get_temperature_unit()?;
        decode_protection_block(&registers, temp_unit, scaling)
    }

    /// Replaces the protection thresholds of the currently active preset
    /// group: reads the group's voltage, current and output-enable so they
    /// are preserved, merges in the new thresholds, and writes the whole
    /// block back in one bulk transaction. A torn write surfaces as an
    /// error from the bulk transaction, never as assumed-applied.
    pub fn set_protections(&mut self, protection_settings: ProtectionConfig) -> (r: Result<
        (),
        Error,
    >)
        requires
            old(self).wf(),
        ensures
            final(self).wf(),
            final(self).spec_unit_id() == old(self).spec_unit_id(),
            final(self).spec_capacity() == old(self).spec_capacity(),
    {
        let scaling = self.ensure_scaling()?;
        let group = self.get_active_preset()?;
        let set_voltage_raw = self.read_modbus_single(XyRegister::VSet.address())?;
        let set_current_raw = self.read_modbus_single(XyRegister::ISet.address())?;
        let set_voltage = scaling.raw_to_voltage_mv(set_voltage_raw);
        let set_current = scaling.raw_to_current_ma(set_current_raw);
        if set_current > 65535 {
            return Err(Error::IntTooBig);
        }
        let set_output_state = self.read_modbus_single(XyRegister::OnOff.address())?;
        let builder = XyPresetBuilder::new(group, set_voltage, set_current as u16).with_protections(
            protection_settings,
        ).with_output(State::from_bool(set_output_state != 0));
        let preset = match builder.build() {
            Ok(p) => p,
            Err(_) => {
                return Err(Error::Other);
            },
        };
        let temp_unit = self.get_temperature_unit()?;
        let (start_address, write_buffer) = preset.generate_write_data_and_offset(
            temp_unit,
            scaling,
        )?;
        self.write_modbus_bulk(start_address, &write_buffer)
    }
}

impl crate::preset::XyPreset {
    /// Writes this preset to the device as one bulk transaction spanning
    /// its group's whole register block. The temperature unit is read first
    /// so the thresholds land in the unit the device displays.
    pub fn write<T: Transport>(&self, interface: &mut XyPsu<T>) -> (r: Result<(), Error>)
        requires
            old(interface).wf(),
        ensures
            final(interface).wf(),
            final(interface).spec_unit_id() == old(interface).spec_unit_id(),
            final(interface).spec_capacity() == old(interface).spec_capacity(),
    {
        let unit = interface.get_temperature_unit()?;
        let scaling = interface.ensure_scaling()?;
        let (start_address, write_buffer) = self.generate_write_data_and_offset(unit, scaling)?;
        interface.write_modbus_bulk(start_address, &write_buffer)
    }
}

/// Decodes the thirteen protection registers of a preset block (the block
/// from the under-voltage register onwards) into physical units: voltages,
/// current and power scaled up by the model's multipliers, the time split
/// recombined into seconds, the 32-bit capacity and energy halves
/// recombined and scaled, and the temperature tagged with the configured
/// unit. A capacity or energy product that does not fit 32 bits is an
/// invalid-range error.
pub fn decode_protection_block(
    registers: &Vec<u16>,
    temp_unit: TemperatureUnit,
    scaling: ScalingFactors,
) -> (r: Result<ProtectionConfig, Error>)
    requires
        registers@.len() == 13,
        scaling.wf(),
    ensures
        r is Ok <==> ((registers@[6] + registers@[7] * 0x10000) * scaling.capacity_divisor
            <= u32::MAX && (registers@[8] + registers@[9] * 0x10000) * scaling.energy_divisor
            <= u32::MAX),
        r matches Ok(c) ==> c == (ProtectionConfig {
            under_voltage_mv: spec_raw_to_phys(registers@[0], scaling.voltage_divisor),
            over_voltage_mv: spec_raw_to_phys(registers@[1], scaling.voltage_divisor),
            over_current_ma: spec_raw_to_phys(registers@[2], scaling.current_divisor),
            over_power_mw: spec_raw_to_phys(registers@[3], scaling.power_divisor),
            over_time_s: (registers@[4] * 3600 + registers@[5] * 60) as u32,
            over_capacity_mah: ((registers@[6] + registers@[7] * 0x10000)
                * scaling.capacity_divisor) as u32,
            over_energy_mwh: ((registers@[8] + registers@[9] * 0x10000)
                * scaling.energy_divisor) as u32,
            over_temperature: if temp_unit is Celsius {
                Temperature::Celsius(registers@[10])
            } else {
                Temperature::Fahrenheit(registers@[10])
            },
        }),
        r matches Err(e) ==> e == Error::InvalidRange,
{
    let under_voltage_mv = scaling.raw_to_voltage_mv(registers[0]);
    let over_voltage_mv = scaling.raw_to_voltage_mv(registers[1]);
    let over_current_ma = scaling.raw_to_current_ma(registers[2]);
    let over_power_mw = scaling.raw_to_power_mw(registers[3]);
    let over_time_s = (registers[4] as u32) * 3600 + (registers[5] as u32) * 60;
    let capacity_raw = (registers[6] as u32) + (registers[7] as u32) * 0x10000;
    let energy_raw = (registers[8] as u32) + (registers[9] as u32) * 0x10000;
    let over_capacity_mah = match capacity_raw.checked_mul(scaling.capacity_divisor) {
        Some(v) => v,
        None => {
            return Err(Error::InvalidRange);
        },
    };
    let over_energy_mwh = match energy_raw.checked_mul(scaling.energy_divisor) {
        Some(v) => v,
        None => {
            return Err(Error::InvalidRange);
        },
    };
    let over_temperature = Temperature::new(registers[10], temp_unit);
    Ok(ProtectionConfig {
        under_voltage_mv,
        over_voltage_mv,
        over_current_ma,
        over_power_mw,
        over_time_s,
        over_capacity_mah,
        over_energy_mwh,
        over_temperature,
    })
}

} // verus!
