//! The Wii Nunchuck: a joystick, a three-axis accelerometer and two buttons
//! behind one six-byte report.
use crate::device::{
    failure, register_writes, write_registers, writes_allowed, writes_step, I2CDevice,
};
use vstd::prelude::*;

verus! {

/// The slave address of every Nunchuck.
pub const NUNCHUCK_SLAVE_ADDR: u16 = 0x52;

/// Milliseconds the Nunchuck needs between being asked for a sample and
/// having it ready to be read.
pub const NUNCHUCK_SAMPLE_DELAY_MS: u64 = 10;

/// The two settings that make a Nunchuck send its data in the clear, in
/// their order.
pub open spec fn init_settings() -> Seq<(u8, u8)> {
    seq![(0xF0u8, 0x55u8), (0xFBu8, 0x00u8)]
}

/// What can go wrong when a sample is read.
#[derive(Debug)]
pub enum NunchuckError<E> {
    /// The device behind the Nunchuck failed.
    Error(E),
    /// The report was too short to be one.
    ParseError,
}

/// One sample of a Nunchuck.
#[derive(Debug)]
pub struct NunchuckReading {
    pub joystick_x: u8,
    pub joystick_y: u8,
    /// Ten bits.
    pub accel_x: u16,
    /// Ten bits.
    pub accel_y: u16,
    /// Ten bits.
    pub accel_z: u16,
    pub c_button_pressed: bool,
    pub z_button_pressed: bool,
}

/// A ten-bit acceleration: `high` gives the upper eight bits, and the two
/// bits of `packed` from bit `shift` on give the lower two.
pub open spec fn ten_bits(high: u8, packed: u8, shift: u16) -> u16 {
    (high as u16) << 2 | (((packed as u16) >> shift) & 0b11)
}

/// The sample that a report of at least six bytes holds. The buttons read
/// as pressed when their bit is clear.
pub open spec fn reading_of(data: Seq<u8>) -> NunchuckReading {
    NunchuckReading {
        joystick_x: data[0],
        joystick_y: data[1],
        accel_x: ten_bits(data[2], data[5], 6),
        accel_y: ten_bits(data[3], data[5], 4),
        accel_z: ten_bits(data[4], data[5], 2),
        c_button_pressed: data[5] & 0b10 == 0,
        z_button_pressed: data[5] & 0b01 == 0,
    }
}

/// A ten-bit acceleration is four times its upper byte plus its two lower
/// bits, and so is less than 1024.
pub proof fn lemma_ten_bits(high: u8, packed: u8)
    ensures
        ten_bits(high, packed, 6) == high * 4 + packed / 64,
        ten_bits(high, packed, 4) == high * 4 + (packed / 16) % 4,
        ten_bits(high, packed, 2) == high * 4 + (packed / 4) % 4,
        ten_bits(high, packed, 6) < 1024,
        ten_bits(high, packed, 4) < 1024,
        ten_bits(high, packed, 2) < 1024,
{
    assert((high as u16) << 2 | (((packed as u16) >> 6u16) & 0b11) == high * 4 + packed / 64)
        by (bit_vector);
    assert((high as u16) << 2 | (((packed as u16) >> 4u16) & 0b11) == high * 4 + (packed / 16) % 4)
        by (bit_vector);
    assert((high as u16) << 2 | (((packed as u16) >> 2u16) & 0b11) == high * 4 + (packed / 4) % 4)
        by (bit_vector);
}

impl NunchuckReading {
    /// Reads a sample out of a report. A report has at least six bytes;
    /// anything shorter is none.
    pub fn from_data(data: &[u8]) -> (reading: Option<NunchuckReading>)
        ensures
            data@.len() < 6 <==> reading is None,
            data@.len() >= 6 ==> reading == Some(reading_of(data@)),
    {
        if data.len() < 6 {
            None
        } else {
            Some(
                NunchuckReading {
                    joystick_x: data[0],
                    joystick_y: data[1],
                    accel_x: (data[2] as u16) << 2 | ((data[5] as u16 >> 6) & 0b11),
                    accel_y: (data[3] as u16) << 2 | ((data[5] as u16 >> 4) & 0b11),
                    accel_z: (data[4] as u16) << 2 | ((data[5] as u16 >> 2) & 0b11),
                    c_button_pressed: (data[5] & 0b10) == 0,
                    z_button_pressed: (data[5] & 0b01) == 0,
                },
            )
        }
    }
}

/// A Nunchuck behind an I2C device.
pub struct Nunchuck<T: I2CDevice> {
    pub i2cdev: T,
}

impl<T: I2CDevice> Nunchuck<T> {
    /// Takes the device and sends the Nunchuck the settings of
    /// [`init`](Self::init). If one of them fails, so does this.
    pub fn new(i2cdev: T) -> (r: Result<Nunchuck<T>, T::Error>)
        requires
            writes_allowed(i2cdev, register_writes(init_settings())),
        ensures
            match r {
                Ok(nunchuck) => writes_step(
                    i2cdev,
                    register_writes(init_settings()),
                    None,
                    nunchuck.i2cdev,
                ),
                Err(e) => exists|end: T| #[trigger]
                    writes_step(i2cdev, register_writes(init_settings()), Some(e), end),
            },
    {
        let mut nunchuck = Nunchuck { i2cdev };
        match nunchuck.init() {
            Ok(_) => Ok(nunchuck),
            Err(e) => {
                assert(writes_step(
                    i2cdev,
                    register_writes(init_settings()),
                    Some(e),
                    nunchuck.i2cdev,
                ));
                let r: Result<Nunchuck<T>, T::Error> = Err(e);
                assert(r->Err_0 == e);
                r
            },
        }
    }

    /// The device behind the Nunchuck.
    pub fn get_i2cdev(&mut self) -> (i2cdev: &mut T)
        ensures
            *i2cdev == old(self).i2cdev,
            final(self).i2cdev == *final(i2cdev),
    {
        &mut self.i2cdev
    }

    /// Sends the two settings that make the Nunchuck send its data in the
    /// clear: `0x55` to register `0xF0`, then `0x00` to register `0xFB`,
    /// each by a plain write of register and value. The second is not tried
    /// if the first fails.
    pub fn init(&mut self) -> (r: Result<(), T::Error>)
        requires
            writes_allowed(old(self).i2cdev, register_writes(init_settings())),
        ensures
            writes_step(
                old(self).i2cdev,
                register_writes(init_settings()),
                failure(r),
                final(self).i2cdev,
            ),
    {
        let settings = [(0xF0, 0x55), (0xFB, 0x00)];
        assert(settings@ =~= init_settings());
        write_registers(&mut self.i2cdev, settings.as_slice())
    }

    /// Asks the Nunchuck to prepare a sample: a plain write of one zero
    /// byte. The sample can be read [`NUNCHUCK_SAMPLE_DELAY_MS`] later.
    pub fn start_read(&mut self) -> (r: Result<(), NunchuckError<T::Error>>)
        requires
            old(self).i2cdev.write_allowed(seq![0x00u8]),
        ensures
            old(self).i2cdev.write_step(
                seq![0x00u8],
                match r {
                    Ok(_) => None,
                    Err(e) => Some(e->Error_0),
                },
                &final(self).i2cdev,
            ),
            r matches Err(e) ==> e is Error,
    {
        match self.i2cdev.smbus_write_byte(0x00) {
            Ok(_) => Ok(()),
            Err(e) => Err(NunchuckError::Error(e)),
        }
    }

    /// Reads the sample that the Nunchuck has prepared: a plain read of six
    /// bytes, taken as a report.
    pub fn finish_read(&mut self) -> (r: Result<NunchuckReading, NunchuckError<T::Error>>)
        requires
            old(self).i2cdev.read_allowed(6),
        ensures
            match r {
                Ok(reading) => exists|report: Seq<u8>|
                    report.len() == 6 && #[trigger] old(self).i2cdev.read_step(
                        6,
                        Ok(report),
                        &final(self).i2cdev,
                    ) && reading == reading_of(report),
                Err(NunchuckError::Error(e)) => old(self).i2cdev.read_step(
                    6,
                    Err(e),
                    &final(self).i2cdev,
                ),
                Err(NunchuckError::ParseError) => false,
            },
    {
        let mut buf: [u8; 6] = [0;6];
        match self.i2cdev.read(&mut buf) {
            Ok(_) => {
                match NunchuckReading::from_data(buf.as_slice()) {
                    Some(reading) => {
                        assert(old(self).i2cdev.read_step(6, Ok(buf@), &self.i2cdev));
                        Ok(reading)
                    },
                    None => Err(NunchuckError::ParseError),
                }
            },
            Err(e) => Err(NunchuckError::Error(e)),
        }
    }
}

} // verus!
