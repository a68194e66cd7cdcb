//! Configuration logic of the DS3231, DS3232 and DS3234 real-time clocks.
//!
//! The driver keeps a shadow of the control and status registers and works
//! out which register has to be written with which value. The bus transfer
//! itself is left to the caller: every operation returns the transfer to make.

use vstd::prelude::*;

verus! {

/// All possible errors of the clock device.
#[derive(Debug, Clone, Copy, PartialEq, Eq, Structural)]
pub enum Error {
    /// I2C/SPI bus error
    Comm,
    /// Pin setting error
    Pin,
    /// Invalid input data provided
    InvalidInputData,
    /// Internal device state is invalid: no valid date or time could be read.
    /// The device is probably missing initialization.
    InvalidDeviceState,
}

/// Square-wave output frequency
#[derive(Debug, Clone, Copy, PartialEq, Eq, Structural)]
pub enum SqWFreq {
    /// 1 Hz (default)
    _1Hz,
    /// 1.024 Hz
    _1_024Hz,
    /// 4.096 Hz
    _4_096Hz,
    /// 8.192 Hz
    _8_192Hz,
}

/// Temperature conversion rate
///
/// This is only available on the DS3232 and DS3234 devices.
#[derive(Debug, Clone, Copy, PartialEq, Eq, Structural)]
pub enum TempConvRate {
    /// Once every 64 seconds (default)
    _64s,
    /// Once every 128 seconds
    _128s,
    /// Once every 256 seconds
    _256s,
    /// Once every 512 seconds
    _512s,
}

/// DS3231 IC marker
pub struct DS3231;

/// DS3232 IC marker
pub struct DS3232;

/// DS3234 IC marker
pub struct DS3234;

/// Marks the supported ICs.
pub trait Sealed {
}

impl Sealed for DS3231 {
}

impl Sealed for DS3232 {
}

impl Sealed for DS3234 {
}

/// Bus address of the device.
pub const DEVICE_ADDRESS: u8 = 0b110_1000;

/// Value of the control register after power-on.
pub const CONTROL_POR_VALUE: u8 = 0b0001_1100;

/// Value of the status register of a DS3231 after power-on.
pub const STATUS_POR_VALUE: u8 = 0b1000_1000;

/// Address of the control register.
pub const REGISTER_CONTROL: u8 = 0x0E;

/// Address of the status register.
pub const REGISTER_STATUS: u8 = 0x0F;

/// Address of the aging-offset register.
pub const REGISTER_AGING_OFFSET: u8 = 0x10;

/// Control bit: oscillator disabled.
pub const EOSC: u8 = 0b1000_0000;

/// Control bit: battery-backed square wave.
pub const BBSQW: u8 = 0b0100_0000;

/// Control bit: temperature conversion requested.
pub const TEMP_CONV: u8 = 0b0010_0000;

/// Control bit: rate select 2.
pub const RS2: u8 = 0b0001_0000;

/// Control bit: rate select 1.
pub const RS1: u8 = 0b0000_1000;

/// Control bit: the output pin signals interrupts.
pub const INTCN: u8 = 0b0000_0100;

/// Control bit: alarm 2 interrupt enabled.
pub const ALARM2_INT_EN: u8 = 0b0000_0010;

/// Control bit: alarm 1 interrupt enabled.
pub const ALARM1_INT_EN: u8 = 0b0000_0001;

/// Status bit: 32 kHz output enabled.
pub const EN32KHZ: u8 = 0b0000_1000;

/// Status bit: alarm 2 has matched.
pub const ALARM2F: u8 = 0b0000_0010;

/// Status bit: alarm 1 has matched.
pub const ALARM1F: u8 = 0b0000_0001;

/// One register write on the bus: the caller sends `[register, data]` to `address`.
#[derive(Debug, Clone, Copy, PartialEq, Eq, Structural)]
pub struct RegisterWrite {
    /// Bus address of the device.
    pub address: u8,
    /// Register to write.
    pub register: u8,
    /// Value to write.
    pub data: u8,
}

/// One read on the bus: the caller sends `[register]` to `address` and reads
/// `length` bytes back.
#[derive(Debug, Clone, Copy, PartialEq, Eq, Structural)]
pub struct RegisterRead {
    /// Bus address of the device.
    pub address: u8,
    /// First register to read.
    pub register: u8,
    /// Number of bytes to read.
    pub length: usize,
}

/// The write of `data` to `register` of the device.
pub open spec fn write_of(register: u8, data: u8) -> RegisterWrite {
    RegisterWrite { address: DEVICE_ADDRESS, register, data }
}

/// A byte read as a two's-complement number.
pub open spec fn signed_of(raw: u8) -> int {
    if raw < 128 { raw as int } else { raw - 256 }
}

/// The control value for a square-wave frequency: `_1Hz` clears both rate
/// bits, `_1_024Hz` clears RS2 and sets RS1, `_4_096Hz` sets RS2 and leaves
/// RS1 as it is, `_8_192Hz` sets both.
pub open spec fn control_for_frequency(control: u8, freq: SqWFreq) -> u8 {
    match freq {
        SqWFreq::_1Hz => control & !RS2 & !RS1,
        SqWFreq::_1_024Hz => control & !RS2 | RS1,
        SqWFreq::_4_096Hz => control | RS2,
        SqWFreq::_8_192Hz => control | RS2 | RS1,
    }
}

/// Shadow of the registers of the device.
pub struct DeviceModel {
    /// Last value written to the control register.
    pub control: u8,
    /// Last value meant for the status register, alarm flags apart.
    pub status: u8,
}

/// DS3231, DS3232 and DS3234 RTC driver
#[derive(Debug, Clone, Copy)]
pub struct Ds323x {
    control: u8,
    status: u8,
}

impl View for Ds323x {
    type V = DeviceModel;

    closed spec fn view(&self) -> DeviceModel {
        DeviceModel { control: self.control, status: self.status }
    }
}

impl Ds323x {
    /// Create a new instance of the DS3231 device, with the register shadow at
    /// the power-on values.
    pub fn new_ds3231() -> (device: Self)
        ensures
            device@ == (DeviceModel { control: CONTROL_POR_VALUE, status: STATUS_POR_VALUE }),
    {
        Ds323x { control: CONTROL_POR_VALUE, status: STATUS_POR_VALUE }
    }

    /// The shadow of the control register.
    pub fn control(&self) -> (control: u8)
        ensures
            control == self@.control,
    {
        self.control
    }

    /// The shadow of the status register.
    pub fn status(&self) -> (status: u8)
        ensures
            status == self@.status,
    {
        self.status
    }

    /// The transfer that writes `data` to `register`.
    pub fn write_register(&self, register: u8, data: u8) -> (write: RegisterWrite)
        ensures
            write == write_of(register, data),
    {
        RegisterWrite { address: DEVICE_ADDRESS, register, data }
    }

    /// The transfer that reads one byte from `register`.
    pub fn read_register(&self, register: u8) -> (read: RegisterRead)
        ensures
            read == (RegisterRead { address: DEVICE_ADDRESS, register, length: 1 }),
    {
        RegisterRead { address: DEVICE_ADDRESS, register, length: 1 }
    }

    /// The transfer that fills `payload[1..]` from the registers that start at
    /// `payload[0]`.
    pub fn read_data(&self, payload: &[u8]) -> (read: RegisterRead)
        requires
            payload@.len() >= 1,
        ensures
            read == (RegisterRead {
                address: DEVICE_ADDRESS,
                register: payload@[0],
                length: (payload@.len() - 1) as usize,
            }),
    {
        RegisterRead { address: DEVICE_ADDRESS, register: payload[0], length: payload.len() - 1 }
    }

    fn write_control(&mut self, control: u8) -> (write: RegisterWrite)
        ensures
            write == write_of(REGISTER_CONTROL, control),
            final(self)@ == (DeviceModel { control, status: old(self)@.status }),
    {
        self.control = control;
        RegisterWrite { address: DEVICE_ADDRESS, register: REGISTER_CONTROL, data: control }
    }

    /// Sets the status shadow to `status` and returns the write of it with
    /// both alarm flags set, so that the write clears neither alarm.
    pub fn write_status_without_clearing_alarm(&mut self, status: u8) -> (write: RegisterWrite)
        ensures
            write == write_of(REGISTER_STATUS, status | ALARM2F | ALARM1F),
            final(self)@ == (DeviceModel { control: old(self)@.control, status }),
    {
        let new_status: u8 = status | ALARM2F | ALARM1F;
        self.status = status;
        RegisterWrite { address: DEVICE_ADDRESS, register: REGISTER_STATUS, data: new_status }
    }

    /// Enable the oscillator (set the clock running) (default).
    pub fn enable(&mut self) -> (write: RegisterWrite)
        ensures
            write == write_of(REGISTER_CONTROL, old(self)@.control & !EOSC),
            final(self)@ == (DeviceModel {
                control: old(self)@.control & !EOSC,
                status: old(self)@.status,
            }),
    {
        let control: u8 = self.control;
        self.write_control(control & !EOSC)
    }

    /// Disable the oscillator (stops the clock).
    pub fn disable(&mut self) -> (write: RegisterWrite)
        ensures
            write == write_of(REGISTER_CONTROL, old(self)@.control | EOSC),
            final(self)@ == (DeviceModel {
                control: old(self)@.control | EOSC,
                status: old(self)@.status,
            }),
    {
        let control: u8 = self.control;
        self.write_control(control | EOSC)
    }

    /// Force a temperature conversion and time compensation. `control` is the
    /// control register as just read from the device. A conversion in
    /// progress is not disturbed: then nothing is to be written.
    pub fn convert_temperature(&self, control: u8) -> (write: Option<RegisterWrite>)
        ensures
            control & TEMP_CONV == 0 ==> write == Some(
                write_of(REGISTER_CONTROL, control | TEMP_CONV),
            ),
            control & TEMP_CONV != 0 ==> write.is_none(),
    {
        if (control & TEMP_CONV) == 0 {
            Some(self.write_register(REGISTER_CONTROL, control | TEMP_CONV))
        } else {
            None
        }
    }

    /// Enable the 32kHz output. (enabled per default)
    pub fn enable_32khz_output(&mut self) -> (write: RegisterWrite)
        ensures
            write == write_of(REGISTER_STATUS, old(self)@.status | EN32KHZ | ALARM2F | ALARM1F),
            final(self)@ == (DeviceModel {
                control: old(self)@.control,
                status: old(self)@.status | EN32KHZ,
            }),
    {
        let status: u8 = self.status | EN32KHZ;
        self.write_status_without_clearing_alarm(status)
    }

    /// Disable the 32kHz output.
    pub fn disable_32khz_output(&mut self) -> (write: RegisterWrite)
        ensures
            write == write_of(REGISTER_STATUS, old(self)@.status & !EN32KHZ | ALARM2F | ALARM1F),
            final(self)@ == (DeviceModel {
                control: old(self)@.control,
                status: old(self)@.status & !EN32KHZ,
            }),
    {
        let status: u8 = self.status & !EN32KHZ;
        self.write_status_without_clearing_alarm(status)
    }

    /// Set the aging offset: the write of its two's-complement byte.
    pub fn set_aging_offset(&self, offset: i8) -> (write: RegisterWrite)
        ensures
            write.address == DEVICE_ADDRESS,
            write.register == REGISTER_AGING_OFFSET,
            signed_of(write.data) == offset,
    {
        let data: u8 = if offset >= 0 { offset as u8 } else { (offset as i16 + 256) as u8 };
        self.write_register(REGISTER_AGING_OFFSET, data)
    }

    /// The aging offset held by the byte `raw` read from the aging-offset register.
    pub fn aging_offset(&self, raw: u8) -> (offset: i8)
        ensures
            offset == signed_of(raw),
    {
        if raw < 128 {
            raw as i8
        } else {
            (raw as i16 - 256) as i8
        }
    }

    /// Set the interrupt/square-wave output to be used as interrupt output.
    pub fn use_int_sqw_output_as_interrupt(&mut self) -> (write: RegisterWrite)
        ensures
            write == write_of(REGISTER_CONTROL, old(self)@.control | INTCN),
            final(self)@ == (DeviceModel {
                control: old(self)@.control | INTCN,
                status: old(self)@.status,
            }),
    {
        let control: u8 = self.control;
        self.write_control(control | INTCN)
    }

    /// Set the interrupt/square-wave output to be used as square-wave output. (default)
    pub fn use_int_sqw_output_as_square_wave(&mut self) -> (write: RegisterWrite)
        ensures
            write == write_of(REGISTER_CONTROL, old(self)@.control & !INTCN),
            final(self)@ == (DeviceModel {
                control: old(self)@.control & !INTCN,
                status: old(self)@.status,
            }),
    {
        let control: u8 = self.control;
        self.write_control(control & !INTCN)
    }

    /// Enable battery-backed square wave generation.
    pub fn enable_square_wave(&mut self) -> (write: RegisterWrite)
        ensures
            write == write_of(REGISTER_CONTROL, old(self)@.control | BBSQW),
            final(self)@ == (DeviceModel {
                control: old(self)@.control | BBSQW,
                status: old(self)@.status,
            }),
    {
        let control: u8 = self.control;
        self.write_control(control | BBSQW)
    }

    /// Disable battery-backed square wave generation.
    pub fn disable_square_wave(&mut self) -> (write: RegisterWrite)
        ensures
            write == write_of(REGISTER_CONTROL, old(self)@.control & !BBSQW),
            final(self)@ == (DeviceModel {
                control: old(self)@.control & !BBSQW,
                status: old(self)@.status,
            }),
    {
        let control: u8 = self.control;
        self.write_control(control & !BBSQW)
    }

    /// Set the square-wave output frequency.
    pub fn set_square_wave_frequency(&mut self, freq: SqWFreq) -> (write: RegisterWrite)
        ensures
            write == write_of(REGISTER_CONTROL, control_for_frequency(old(self)@.control, freq)),
            final(self)@ == (DeviceModel {
                control: control_for_frequency(old(self)@.control, freq),
                status: old(self)@.status,
            }),
    {
        let new_control: u8 = match freq {
            SqWFreq::_1Hz => self.control & !RS2 & !RS1,
            SqWFreq::_1_024Hz => self.control & !RS2 | RS1,
            SqWFreq::_4_096Hz => self.control | RS2,
            SqWFreq::_8_192Hz => self.control | RS2 | RS1,
        };
        self.write_control(new_control)
    }

    /// Enable Alarm1 interrupts.
    pub fn enable_alarm1_interrupts(&mut self) -> (write: RegisterWrite)
        ensures
            write == write_of(REGISTER_CONTROL, old(self)@.control | ALARM1_INT_EN),
            final(self)@ == (DeviceModel {
                control: old(self)@.control | ALARM1_INT_EN,
                status: old(self)@.status,
            }),
    {
        let control: u8 = self.control;
        self.write_control(control | ALARM1_INT_EN)
    }

    /// Disable Alarm1 interrupts.
    pub fn disable_alarm1_interrupts(&mut self) -> (write: RegisterWrite)
        ensures
            write == write_of(REGISTER_CONTROL, old(self)@.control & !ALARM1_INT_EN),
            final(self)@ == (DeviceModel {
                control: old(self)@.control & !ALARM1_INT_EN,
                status: old(self)@.status,
            }),
    {
        let control: u8 = self.control;
        self.write_control(control & !ALARM1_INT_EN)
    }

    /// Enable Alarm2 interrupts.
    pub fn enable_alarm2_interrupts(&mut self) -> (write: RegisterWrite)
        ensures
            write == write_of(REGISTER_CONTROL, old(self)@.control | ALARM2_INT_EN),
            final(self)@ == (DeviceModel {
                control: old(self)@.control | ALARM2_INT_EN,
                status: old(self)@.status,
            }),
    {
        let control: u8 = self.control;
        self.write_control(control | ALARM2_INT_EN)
    }

    /// Disable Alarm2 interrupts.
    pub fn disable_alarm2_interrupts(&mut self) -> (write: RegisterWrite)
        ensures
            write == write_of(REGISTER_CONTROL, old(self)@.control & !ALARM2_INT_EN),
            final(self)@ == (DeviceModel {
                control: old(self)@.control & !ALARM2_INT_EN,
                status: old(self)@.status,
            }),
    {
        let control: u8 = self.control;
        self.write_control(control & !ALARM2_INT_EN)
    }
}

/// Setting a bit of a register value and clearing it again touch that bit
/// alone: the bit reads as set, then as clear, and every other bit is as before.
pub proof fn lemma_bit_set_and_clear(value: u8, bit: u8)
    requires
        bit == 1 || bit == 2 || bit == 4 || bit == 8 || bit == 16 || bit == 32 || bit == 64 || bit
            == 128,
    ensures
        (value | bit) & bit == bit,
        (value & !bit) & bit == 0,
        (value | bit) & !bit == value & !bit,
        (value & !bit) | (value & bit) == value,
{
    assert((value | bit) & bit == bit) by (bit_vector);
    assert((value & !bit) & bit == 0) by (bit_vector);
    assert((value | bit) & !bit == value & !bit) by (bit_vector);
    assert((value & !bit) | (value & bit) == value) by (bit_vector);
}

} // verus!
