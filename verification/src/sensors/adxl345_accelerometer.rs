//! The Analog Devices ADXL345: a three-axis accelerometer.
use crate::bytes::{le_read_i16, signed16, word_of};
use crate::device::{
    register_writes, write_read_allowed, write_read_step, write_registers, writes_allowed,
    writes_step, I2CDevice,
};
use vstd::prelude::*;

verus! {

pub const SLAVE_ADDR_PRIMARY: u16 = 0x1D;

pub const SLAVE_ADDR_ALT: u16 = 0x53;

pub const REGISTER_DEVID: u8 = 0x00;

pub const REGSITER_THRESH_TAP: u8 = 0x1D;

pub const REGISTER_OFSX: u8 = 0x1E;

pub const REGISTER_OFSY: u8 = 0x1F;

pub const REGISTER_OFSZ: u8 = 0x20;

pub const REGISTER_DUR: u8 = 0x21;

pub const REGISTER_LATENT: u8 = 0x22;

pub const REGISTER_WINDOW: u8 = 0x23;

pub const REGISTER_THRESH_ACT: u8 = 0x24;

pub const REGISTER_THRESH_INACT: u8 = 0x25;

pub const REGISTER_TIME_INACT: u8 = 0x26;

pub const REGISTER_ACT_INACT_CTL: u8 = 0x27;

pub const REGISTER_THRESH_FF: u8 = 0x28;

pub const REGISTER_TIME_FF: u8 = 0x29;

pub const REGISTER_TAP_AXES: u8 = 0x2A;

pub const REGISTER_ACT_TAP_STATUS: u8 = 0x2B;

pub const REGISTER_BW_RATE: u8 = 0x2C;

pub const REGISTER_POWER_CTL: u8 = 0x2D;

pub const REGISTER_INT_ENABLE: u8 = 0x2E;

pub const REGISTER_INT_MAP: u8 = 0x2F;

pub const REGISTER_INT_SOURCE: u8 = 0x30;

pub const REGISTER_DATA_FORMAT: u8 = 0x31;

pub const REGISTER_X0: u8 = 0x32;

pub const REGISTER_X1: u8 = 0x33;

pub const REGISTER_Y0: u8 = 0x34;

pub const REGISTER_Y1: u8 = 0x35;

pub const REGISTER_Z0: u8 = 0x36;

pub const REGISTER_Z1: u8 = 0x37;

pub const REGISTER_FIFO_CTL: u8 = 0x38;

pub const REGISTER_FIFO_STATUS: u8 = 0x39;

/// Resolution of a sample in bits.
pub const ACCEL_BITS: u8 = 10;

/// How often the sensor puts out a sample.
#[derive(Clone, Copy, PartialEq, Eq, Structural, Debug)]
pub enum ADXL345DataRate {
    RATE_3200HZ,
    RATE_1600HZ,
    RATE_800HZ,
    RATE_400HZ,
    RATE_200HZ,
    RATE_100HZ,
    RATE_50HZ,
    RATE_25HZ,
    RATE_12HZ5,
    RATE_6HZ25,
}

impl ADXL345DataRate {
    /// The rate as the sensor's rate register takes it.
    pub open spec fn code(self) -> u8 {
        match self {
            ADXL345DataRate::RATE_3200HZ => 0x0F,
            ADXL345DataRate::RATE_1600HZ => 0x0E,
            ADXL345DataRate::RATE_800HZ => 0x0D,
            ADXL345DataRate::RATE_400HZ => 0x0C,
            ADXL345DataRate::RATE_200HZ => 0x0B,
            ADXL345DataRate::RATE_100HZ => 0x0A,
            ADXL345DataRate::RATE_50HZ => 0x09,
            ADXL345DataRate::RATE_25HZ => 0x08,
            ADXL345DataRate::RATE_12HZ5 => 0x07,
            ADXL345DataRate::RATE_6HZ25 => 0x06,
        }
    }

    /// The rate as the sensor's rate register takes it.
    pub fn value(self) -> (v: u8)
        ensures
            v == self.code(),
    {
        match self {
            ADXL345DataRate::RATE_3200HZ => 0x0F,
            ADXL345DataRate::RATE_1600HZ => 0x0E,
            ADXL345DataRate::RATE_800HZ => 0x0D,
            ADXL345DataRate::RATE_400HZ => 0x0C,
            ADXL345DataRate::RATE_200HZ => 0x0B,
            ADXL345DataRate::RATE_100HZ => 0x0A,
            ADXL345DataRate::RATE_50HZ => 0x09,
            ADXL345DataRate::RATE_25HZ => 0x08,
            ADXL345DataRate::RATE_12HZ5 => 0x07,
            ADXL345DataRate::RATE_6HZ25 => 0x06,
        }
    }
}

/// The settings that a new handle gives the sensor, in their order: standby,
/// 1600 samples a second, full resolution, the three offsets, and last of
/// all measurement mode.
pub open spec fn startup_settings() -> Seq<(u8, u8)> {
    seq![
        (REGISTER_POWER_CTL, 0x00u8),
        (REGISTER_BW_RATE, 0x0Eu8),
        (REGISTER_DATA_FORMAT, 0x08u8),
        (REGISTER_OFSX, 0xFDu8),
        (REGISTER_OFSY, 0x03u8),
        (REGISTER_OFSZ, 0xFEu8),
        (REGISTER_POWER_CTL, 0x08u8),
    ]
}

/// One sample as the sensor gives it: counts on each axis.
#[derive(Clone, Copy, PartialEq, Eq, Structural, Debug)]
pub struct ADXL345RawSample {
    pub x: i16,
    pub y: i16,
    pub z: i16,
}

/// The signed number in the two bytes of `registers` from `at` on, low byte
/// first.
pub open spec fn count_at(registers: Seq<u8>, at: int) -> int {
    signed16(word_of(registers[at], registers[at + 1]))
}

impl ADXL345RawSample {
    /// The sample that the six data registers hold: x, y and z, each a
    /// signed number of two bytes, low byte first.
    pub fn from_registers(registers: &[u8; 6]) -> (sample: ADXL345RawSample)
        ensures
            sample.x == count_at(registers@, 0),
            sample.y == count_at(registers@, 2),
            sample.z == count_at(registers@, 4),
    {
        let x = [registers[0], registers[1]];
        let y = [registers[2], registers[3]];
        let z = [registers[4], registers[5]];
        ADXL345RawSample {
            x: le_read_i16(x.as_slice()),
            y: le_read_i16(y.as_slice()),
            z: le_read_i16(z.as_slice()),
        }
    }
}

/// An ADXL345 behind an I2C device.
pub struct ADXL345Accelerometer<T: I2CDevice> {
    pub i2cdev: T,
}

impl<T: I2CDevice> ADXL345Accelerometer<T> {
    /// Takes the device and gives the sensor its
    /// [`startup_settings`], each by a plain write of register and value.
    /// The first write that fails ends it.
    pub fn new(i2cdev: T) -> (r: Result<ADXL345Accelerometer<T>, T::Error>)
        requires
            writes_allowed(i2cdev, register_writes(startup_settings())),
        ensures
            match r {
                Ok(sensor) => writes_step(
                    i2cdev,
                    register_writes(startup_settings()),
                    None,
                    sensor.i2cdev,
                ),
                Err(e) => exists|end: T| #[trigger]
                    writes_step(i2cdev, register_writes(startup_settings()), Some(e), end),
            },
    {
        let mut dev = i2cdev;
        let settings = [
            (REGISTER_POWER_CTL, 0x00),
            (REGISTER_BW_RATE, ADXL345DataRate::RATE_1600HZ.value()),
            (REGISTER_DATA_FORMAT, 0x08),
            (REGISTER_OFSX, 0xFD),
            (REGISTER_OFSY, 0x03),
            (REGISTER_OFSZ, 0xFE),
            (REGISTER_POWER_CTL, 0x08),
        ];
        assert(settings@ =~= startup_settings());
        match write_registers(&mut dev, settings.as_slice()) {
            Ok(_) => Ok(ADXL345Accelerometer { i2cdev: dev }),
            Err(e) => {
                assert(writes_step(i2cdev, register_writes(startup_settings()), Some(e), dev));
                let r: Result<ADXL345Accelerometer<T>, T::Error> = Err(e);
                assert(r->Err_0 == e);
                r
            },
        }
    }

    /// Reads the device id: what
    /// [`smbus_read_byte_data`](I2CDevice::smbus_read_byte_data) gives for
    /// the id register.
    pub fn device_id(&mut self) -> (r: Result<u8, T::Error>)
        requires
            write_read_allowed(old(self).i2cdev, seq![REGISTER_DEVID], 1),
        ensures
            write_read_step(
                old(self).i2cdev,
                seq![REGISTER_DEVID],
                1,
                crate::device::byte_read(r),
                final(self).i2cdev,
            ),
    {
        self.i2cdev.smbus_read_byte_data(REGISTER_DEVID)
    }

    /// Reads one sample in counts: a plain write of the number of the first
    /// data register, then a plain read of all six, so that the three axes
    /// belong to the same sample.
    pub fn raw_sample(&mut self) -> (r: Result<ADXL345RawSample, T::Error>)
        requires
            write_read_allowed(old(self).i2cdev, seq![REGISTER_X0], 6),
        ensures
            match r {
                Ok(sample) => exists|registers: Seq<u8>|
                    registers.len() == 6 && #[trigger] write_read_step(
                        old(self).i2cdev,
                        seq![REGISTER_X0],
                        6,
                        Ok(registers),
                        final(self).i2cdev,
                    ) && sample.x == count_at(registers, 0) && sample.y == count_at(registers, 2)
                        && sample.z == count_at(registers, 4),
                Err(e) => write_read_step(
                    old(self).i2cdev,
                    seq![REGISTER_X0],
                    6,
                    Err(e),
                    final(self).i2cdev,
                ),
            },
    {
        let mut buf: [u8; 6] = [0u8;6];
        let reg = [REGISTER_X0];
        assert(reg@ =~= seq![REGISTER_X0]);
        match self.i2cdev.write(&reg) {
            Ok(_) => {
                let ghost mid = self.i2cdev;
                match self.i2cdev.read(&mut buf) {
                    Ok(_) => {
                        let sample = ADXL345RawSample::from_registers(&buf);
                        assert(old(self).i2cdev.write_step(reg@, None, &mid) && mid.read_step(
                            6,
                            Ok(buf@),
                            &self.i2cdev,
                        ));
                        assert(write_read_step(
                            old(self).i2cdev,
                            reg@,
                            6,
                            Ok(buf@),
                            self.i2cdev,
                        ));
                        Ok(sample)
                    },
                    Err(e) => {
                        assert(old(self).i2cdev.write_step(reg@, None, &mid) && mid.read_step(
                            6,
                            Err(e),
                            &self.i2cdev,
                        ));
                        let r: Result<ADXL345RawSample, T::Error> = Err(e);
                        assert(r->Err_0 == e);
                        r
                    },
                }
            },
            Err(e) => {
                let r: Result<ADXL345RawSample, T::Error> = Err(e);
                assert(r->Err_0 == e);
                r
            },
        }
    }
}

} // verus!
