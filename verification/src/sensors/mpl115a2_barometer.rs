//! The Freescale MPL115A2: a barometer with a thermometer. Its raw readings
//! are two ten-bit numbers; the pressure comes out of them and of four
//! coefficients by arithmetic on fractions, which is not done here.
use crate::bytes::{be_read_i16, be_read_u16, signed16, word_of};
use crate::device::{failure, write_read_allowed, write_read_step, I2CDevice};
use vstd::prelude::*;

verus! {

/// The slave address of every MPL115A2.
pub const MPL115A2_I2C_ADDR: u16 = 0x60;

pub const REGISTER_ADDR_PADC: u8 = 0x00;

pub const REGISTER_ADDR_TADC: u8 = 0x02;

/// The first of the eight coefficient registers.
pub const REGISTER_ADDR_A0: u8 = 0x04;

pub const REGISTER_ADDR_START_CONVERSION: u8 = 0x12;

/// Milliseconds the sensor needs at most for a conversion.
pub const MPL115A2_CONVERSION_DELAY_MS: u64 = 3;

/// What the sensor's converters gave, before any compensation.
#[derive(Debug)]
pub struct MPL115A2RawReading {
    /// Raw pressure, ten bits.
    pub padc: u16,
    /// Raw temperature, ten bits.
    pub tadc: u16,
}

/// The ten-bit number in the two bytes of `registers` from `at` on: the
/// upper ten of their sixteen bits, high byte first.
pub open spec fn ten_bits_at(registers: Seq<u8>, at: int) -> int {
    word_of(registers[at + 1], registers[at]) / 64
}

/// The write that starts a conversion.
pub open spec fn conversion_command() -> Seq<u8> {
    seq![REGISTER_ADDR_START_CONVERSION, 0x00u8]
}

/// The signed sixteen-bit number that a coefficient's two registers hold,
/// before it is scaled: `msb` is its high byte and `lsb` its low byte.
pub open spec fn raw_coefficient_of(msb: u8, lsb: u8) -> int {
    signed16(word_of(lsb, msb))
}

/// The signed sixteen-bit number that a coefficient's two registers hold,
/// before it is scaled.
pub fn raw_coefficient(msb: u8, lsb: u8) -> (raw: i16)
    ensures
        raw == raw_coefficient_of(msb, lsb),
{
    let buf = [msb, lsb];
    be_read_i16(buf.as_slice())
}

/// Reads the eight coefficient registers: a plain write of the number of the
/// first one, then a plain read of eight bytes.
pub fn read_coefficient_registers<T: I2CDevice>(i2cdev: &mut T) -> (r: Result<[u8; 8], T::Error>)
    requires
        write_read_allowed(*old(i2cdev), seq![REGISTER_ADDR_A0], 8),
    ensures
        write_read_step(
            *old(i2cdev),
            seq![REGISTER_ADDR_A0],
            8,
            match r {
                Ok(registers) => Ok(registers@),
                Err(e) => Err(e),
            },
            *final(i2cdev),
        ),
{
    let mut buf: [u8; 8] = [0;8];
    let reg = [REGISTER_ADDR_A0];
    assert(reg@ =~= seq![REGISTER_ADDR_A0]);
    match i2cdev.write(&reg) {
        Ok(_) => {
            let ghost mid = *i2cdev;
            match i2cdev.read(&mut buf) {
                Ok(_) => {
                    assert(old(i2cdev).write_step(reg@, None, &mid) && mid.read_step(
                        8,
                        Ok(buf@),
                        i2cdev,
                    ));
                    Ok(buf)
                },
                Err(e) => {
                    assert(old(i2cdev).write_step(reg@, None, &mid) && mid.read_step(
                        8,
                        Err(e),
                        i2cdev,
                    ));
                    let r: Result<[u8; 8], T::Error> = Err(e);
                    assert(r->Err_0 == e);
                    r
                },
            }
        },
        Err(e) => {
            let r: Result<[u8; 8], T::Error> = Err(e);
            assert(r->Err_0 == e);
            r
        },
    }
}

impl MPL115A2RawReading {
    /// The reading that the four result registers hold: the raw pressure in
    /// the first two and the raw temperature in the last two, each in the
    /// upper ten bits, high byte first.
    pub fn from_registers(registers: &[u8; 4]) -> (reading: MPL115A2RawReading)
        ensures
            reading.padc == ten_bits_at(registers@, 0),
            reading.tadc == ten_bits_at(registers@, 2),
    {
        let buf = registers.as_slice();
        let high = be_read_u16(buf);
        let low = be_read_u16(vstd::slice::slice_subrange(buf, 2, 4));
        assert(high >> 6 == high / 64 && low >> 6 == low / 64) by (bit_vector);
        MPL115A2RawReading { padc: high >> 6, tadc: low >> 6 }
    }

    /// First half of a reading: tells the sensor to convert. The result can
    /// be had [`MPL115A2_CONVERSION_DELAY_MS`] later, by
    /// [`finish`](Self::finish).
    pub fn start<T: I2CDevice>(i2cdev: &mut T) -> (r: Result<(), T::Error>)
        requires
            old(i2cdev).write_allowed(conversion_command()),
        ensures
            old(i2cdev).write_step(conversion_command(), failure(r), final(i2cdev)),
    {
        i2cdev.smbus_write_byte_data(REGISTER_ADDR_START_CONVERSION, 0x00)
    }

    /// Second half of a reading: reads the four result registers (a plain
    /// write of the number of the first one, then a plain read of four
    /// bytes) and takes the reading out of them.
    pub fn finish<T: I2CDevice>(i2cdev: &mut T) -> (r: Result<MPL115A2RawReading, T::Error>)
        requires
            write_read_allowed(*old(i2cdev), seq![REGISTER_ADDR_PADC], 4),
        ensures
            match r {
                Ok(reading) => exists|registers: Seq<u8>|
                    registers.len() == 4 && #[trigger] write_read_step(
                        *old(i2cdev),
                        seq![REGISTER_ADDR_PADC],
                        4,
                        Ok(registers),
                        *final(i2cdev),
                    ) && reading.padc == ten_bits_at(registers, 0) && reading.tadc == ten_bits_at(
                        registers,
                        2,
                    ),
                Err(e) => write_read_step(
                    *old(i2cdev),
                    seq![REGISTER_ADDR_PADC],
                    4,
                    Err(e),
                    *final(i2cdev),
                ),
            },
    {
        let mut buf = [0_u8;4];
        let reg = [REGISTER_ADDR_PADC];
        assert(reg@ =~= seq![REGISTER_ADDR_PADC]);
        match i2cdev.write(&reg) {
            Ok(_) => {
                let ghost mid = *i2cdev;
                match i2cdev.read(&mut buf) {
                    Ok(_) => {
                        let reading = MPL115A2RawReading::from_registers(&buf);
                        assert(old(i2cdev).write_step(reg@, None, &mid) && mid.read_step(
                            4,
                            Ok(buf@),
                            i2cdev,
                        ));
                        assert(write_read_step(*old(i2cdev), reg@, 4, Ok(buf@), *i2cdev));
                        Ok(reading)
                    },
                    Err(e) => {
                        assert(old(i2cdev).write_step(reg@, None, &mid) && mid.read_step(
                            4,
                            Err(e),
                            i2cdev,
                        ));
                        let r: Result<MPL115A2RawReading, T::Error> = Err(e);
                        assert(r->Err_0 == e);
                        r
                    },
                }
            },
            Err(e) => {
                let r: Result<MPL115A2RawReading, T::Error> = Err(e);
                assert(r->Err_0 == e);
                r
            },
        }
    }
}

} // verus!
