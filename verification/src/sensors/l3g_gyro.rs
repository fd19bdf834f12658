//! The ST L3G family of three-axis gyroscopes.
use crate::bytes::{signed16, word_of};
use crate::device::{register_writes, writes_allowed, writes_step, write_registers, I2CDevice};
use vstd::prelude::*;

verus! {

pub const L3G_WHO_AM_I: u8 = 0x0F;

pub const L3G_CTRL_REG1: u8 = 0x20;

pub const L3G_CTRL_REG2: u8 = 0x21;

pub const L3G_CTRL_REG3: u8 = 0x22;

pub const L3G_CTRL_REG4: u8 = 0x23;

pub const L3G_CTRL_REG5: u8 = 0x24;

pub const L3G_REFERENCE: u8 = 0x25;

#[allow(non_upper_case_globals)]
pub const L3G_OUTd_TEMP: u8 = 0x26;

pub const L3G_STATUS_REG: u8 = 0x27;

pub const L3G_OUT_X_L: u8 = 0x28;

pub const L3G_OUT_X_H: u8 = 0x29;

pub const L3G_OUT_Y_L: u8 = 0x2A;

pub const L3G_OUT_Y_H: u8 = 0x2B;

pub const L3G_OUT_Z_L: u8 = 0x2C;

pub const L3G_OUT_Z_H: u8 = 0x2D;

/// The slave address of the gyroscope.
pub const GYRO_ADDRESS: u16 = 0x6B;

/// Milliseconds the gyroscope needs after its settings before it can be read.
pub const L3G_STARTUP_DELAY_MS: u64 = 200;

/// The register to read a sample from: the first data register, with the
/// bit set that makes the gyroscope step through the registers that follow.
pub const L3G_SAMPLE_REGISTER: u8 = 0xA8;

/// Number of bytes of a sample.
pub const L3G_SAMPLE_LEN: u8 = 6;

/// The settings that a new handle gives the gyroscope, in their order: all
/// three axes on at the normal rate, and a range of 2000 degrees a second.
pub open spec fn startup_settings() -> Seq<(u8, u8)> {
    seq![(L3G_CTRL_REG1, 0b00001111u8), (L3G_CTRL_REG4, 0b00110000u8)]
}

/// One sample as the gyroscope gives it: counts on each axis.
#[derive(Clone, Copy, PartialEq, Eq, Structural, Debug)]
pub struct L3gRawSample {
    pub x: i16,
    pub y: i16,
    pub z: i16,
}

/// The signed number in the two bytes of `registers` from `at` on, low byte
/// first.
pub open spec fn count_at(registers: Seq<u8>, at: int) -> int {
    signed16(word_of(registers[at], registers[at + 1]))
}

/// The signed number that the bits of the unsigned sixteen-bit `bits` are.
fn signed(bits: u16) -> (n: i16)
    ensures
        n == signed16(bits as int),
{
    assert(bits as i16 == if bits < 0x8000 {
        bits as int
    } else {
        bits - 0x1_0000
    }) by (bit_vector);
    #[verifier::truncate]
    (bits as i16)
}

/// The unsigned sixteen-bit number with low byte `low` and high byte `high`.
fn word(low: u8, high: u8) -> (n: u16)
    ensures
        n == word_of(low, high),
{
    assert((((high as u16) << 8) | (low as u16)) == low + 256 * high) by (bit_vector);
    ((high as u16) << 8) | (low as u16)
}

impl L3gRawSample {
    /// The sample in the first six bytes of a block read from
    /// [`L3G_SAMPLE_REGISTER`]: x, y and z, each a signed number of two
    /// bytes, low byte first. A block of fewer than six bytes holds none.
    pub fn from_block(results: &[u8]) -> (sample: Option<L3gRawSample>)
        ensures
            results@.len() < 6 <==> sample is None,
            sample matches Some(sample) ==> sample.x == count_at(results@, 0) && sample.y
                == count_at(results@, 2) && sample.z == count_at(results@, 4),
    {
        if results.len() < 6 {
            None
        } else {
            Some(
                L3gRawSample {
                    x: signed(word(results[0], results[1])),
                    y: signed(word(results[2], results[3])),
                    z: signed(word(results[4], results[5])),
                },
            )
        }
    }
}

/// An L3G gyroscope behind an I2C device.
pub struct L3gGyroscope<T: I2CDevice> {
    pub i2cdev: T,
}

impl<T: I2CDevice> L3gGyroscope<T> {
    /// Takes the device and gives the gyroscope its [`startup_settings`],
    /// each by a plain write of register and value. The first write that
    /// fails ends it. The gyroscope can be read
    /// [`L3G_STARTUP_DELAY_MS`] later.
    pub fn new(i2cdev: T) -> (r: Result<L3gGyroscope<T>, T::Error>)
        requires
            writes_allowed(i2cdev, register_writes(startup_settings())),
        ensures
            match r {
                Ok(sensor) => writes_step(
                    i2cdev,
                    register_writes(startup_settings()),
                    None,
                    sensor.i2cdev,
                ),
                Err(e) => exists|end: T| #[trigger]
                    writes_step(i2cdev, register_writes(startup_settings()), Some(e), end),
            },
    {
        let mut dev = i2cdev;
        let settings = [(L3G_CTRL_REG1, 0b00001111), (L3G_CTRL_REG4, 0b00110000)];
        assert(settings@ =~= startup_settings());
        match write_registers(&mut dev, settings.as_slice()) {
            Ok(_) => Ok(L3gGyroscope { i2cdev: dev }),
            Err(e) => {
                assert(writes_step(i2cdev, register_writes(startup_settings()), Some(e), dev));
                let r: Result<L3gGyroscope<T>, T::Error> = Err(e);
                assert(r->Err_0 == e);
                r
            },
        }
    }

    /// Reads the device id: what
    /// [`smbus_read_byte_data`](I2CDevice::smbus_read_byte_data) gives for
    /// the id register.
    pub fn device_id(&mut self) -> (r: Result<u8, T::Error>)
        requires
            crate::device::write_read_allowed(old(self).i2cdev, seq![L3G_WHO_AM_I], 1),
        ensures
            crate::device::write_read_step(
                old(self).i2cdev,
                seq![L3G_WHO_AM_I],
                1,
                crate::device::byte_read(r),
                final(self).i2cdev,
            ),
    {
        self.i2cdev.smbus_read_byte_data(L3G_WHO_AM_I)
    }
}

} // verus!
