//! The Bosch BMP180: a barometer with a thermometer. The sensor gives raw
//! readings and eleven calibration coefficients; temperature and pressure
//! come out of the two by the integer arithmetic of its datasheet.
use crate::bytes::{be_read_i16, be_read_u16, signed16, word_of};
use crate::device::{failure, write_read_allowed, write_read_step, I2CDevice};
use vstd::prelude::*;

verus! {

pub const BMP180_I2C_ADDR: u16 = 0x77;

pub const BMP180_REGISTER_CTL: u8 = 0xF4;

pub const BMP180_CMD_TEMP: u8 = 0x2E;

pub const BMP180_REGISTER_TEMP_MSB: u8 = 0xF6;

pub const BMP180_CMD_PRESSURE: u8 = 0x34;

pub const BMP180_REGISTER_PRESSURE_MSB: u8 = 0xF6;

pub const BMP180_REGISTER_AC1MSB: u8 = 0xaa;

/// Milliseconds the sensor needs to convert a temperature.
pub const BMP180_TEMP_DELAY_MS: u64 = 5;

/// How often the sensor samples the pressure for one reading.
#[derive(Copy, Clone, PartialEq, Eq, Structural, Debug)]
pub enum BMP180PressureMode {
    BMP180UltraLowPower,
    BMP180Standard,
    BMP180HighResolution,
    BMP180UltraHighResolution,
}

impl BMP180PressureMode {
    /// The oversampling setting as the sensor's control register takes it.
    pub open spec fn mode_value(self) -> u8 {
        match self {
            BMP180PressureMode::BMP180UltraLowPower => 0,
            BMP180PressureMode::BMP180Standard => 1,
            BMP180PressureMode::BMP180HighResolution => 2,
            BMP180PressureMode::BMP180UltraHighResolution => 3,
        }
    }

    /// Milliseconds the sensor needs to convert a pressure in this mode.
    pub open spec fn delay_millis(self) -> u64 {
        match self {
            BMP180PressureMode::BMP180UltraLowPower => 5,
            BMP180PressureMode::BMP180Standard => 8,
            BMP180PressureMode::BMP180HighResolution => 14,
            BMP180PressureMode::BMP180UltraHighResolution => 26,
        }
    }

    /// The oversampling setting as the sensor's control register takes it.
    pub fn get_mode_value(self) -> (value: u8)
        ensures
            value == self.mode_value(),
    {
        match self {
            BMP180PressureMode::BMP180UltraLowPower => 0,
            BMP180PressureMode::BMP180Standard => 1,
            BMP180PressureMode::BMP180HighResolution => 2,
            BMP180PressureMode::BMP180UltraHighResolution => 3,
        }
    }

    /// Milliseconds the sensor needs to convert a pressure in this mode.
    pub fn mode_delay(self) -> (millis: u64)
        ensures
            millis == self.delay_millis(),
    {
        match self {
            BMP180PressureMode::BMP180UltraLowPower => 5,
            BMP180PressureMode::BMP180Standard => 8,
            BMP180PressureMode::BMP180HighResolution => 14,
            BMP180PressureMode::BMP180UltraHighResolution => 26,
        }
    }
}

/// The calibration coefficients that every BMP180 carries in its registers.
#[derive(Copy, Clone, PartialEq, Eq, Structural, Debug)]
pub struct BMP180CalibrationCoefficients {
    pub ac1: i16,
    pub ac2: i16,
    pub ac3: i16,
    pub ac4: u16,
    pub ac5: u16,
    pub ac6: u16,
    pub b1: i16,
    pub b2: i16,
    pub mb: i16,
    pub mc: i16,
    pub md: i16,
}

/// The unsigned number in the two bytes of `registers` from `at` on, high
/// byte first.
pub open spec fn unsigned_at(registers: Seq<u8>, at: int) -> int {
    word_of(registers[at + 1], registers[at])
}

/// The signed number in the two bytes of `registers` from `at` on, high byte
/// first.
pub open spec fn signed_at(registers: Seq<u8>, at: int) -> int {
    signed16(unsigned_at(registers, at))
}

/// The coefficients that the 22 calibration registers hold.
pub open spec fn coefficients_of(registers: Seq<u8>) -> BMP180CalibrationCoefficients {
    BMP180CalibrationCoefficients {
        ac1: signed_at(registers, 0) as i16,
        ac2: signed_at(registers, 2) as i16,
        ac3: signed_at(registers, 4) as i16,
        ac4: unsigned_at(registers, 6) as u16,
        ac5: unsigned_at(registers, 8) as u16,
        ac6: unsigned_at(registers, 10) as u16,
        b1: signed_at(registers, 12) as i16,
        b2: signed_at(registers, 14) as i16,
        mb: signed_at(registers, 16) as i16,
        mc: signed_at(registers, 18) as i16,
        md: signed_at(registers, 20) as i16,
    }
}

/// The quotient of `a` by `b`, rounded towards zero.
pub open spec fn quotient(a: int, b: int) -> int {
    if a >= 0 {
        a / b
    } else {
        -((-a) / b)
    }
}

/// A quotient rounded towards zero is no further from zero than what was divided.
pub proof fn lemma_quotient_bound(a: int, b: int)
    requires
        b != 0,
    ensures
        a >= 0 ==> -a <= quotient(a, b) <= a,
        a <= 0 ==> a <= quotient(a, b) <= -a,
{
    let n = if a >= 0 {
        a
    } else {
        -a
    };
    assert(-n <= n / b <= n) by (nonlinear_arith)
        requires
            n >= 0,
            b != 0,
    ;
}

impl BMP180CalibrationCoefficients {
    /// The coefficients that the 22 calibration registers hold: eleven
    /// numbers of two bytes each, high byte first, the fourth to sixth
    /// unsigned and the others signed.
    pub fn from_registers(registers: &[u8; 22]) -> (coeff: BMP180CalibrationCoefficients)
        ensures
            coeff == coefficients_of(registers@),
    {
        let buf = registers.as_slice();
        BMP180CalibrationCoefficients {
            ac1: be_read_i16(vstd::slice::slice_subrange(buf, 0, 2)),
            ac2: be_read_i16(vstd::slice::slice_subrange(buf, 2, 4)),
            ac3: be_read_i16(vstd::slice::slice_subrange(buf, 4, 6)),
            ac4: be_read_u16(vstd::slice::slice_subrange(buf, 6, 8)),
            ac5: be_read_u16(vstd::slice::slice_subrange(buf, 8, 10)),
            ac6: be_read_u16(vstd::slice::slice_subrange(buf, 10, 12)),
            b1: be_read_i16(vstd::slice::slice_subrange(buf, 12, 14)),
            b2: be_read_i16(vstd::slice::slice_subrange(buf, 14, 16)),
            mb: be_read_i16(vstd::slice::slice_subrange(buf, 16, 18)),
            mc: be_read_i16(vstd::slice::slice_subrange(buf, 18, 20)),
            md: be_read_i16(vstd::slice::slice_subrange(buf, 20, 22)),
        }
    }

    /// Reads the coefficients from the sensor: a plain write of the number
    /// of the first calibration register, then a plain read of the 22
    /// registers.
    pub fn new<T: I2CDevice>(i2cdev: &mut T) -> (r: Result<BMP180CalibrationCoefficients, T::Error>)
        requires
            write_read_allowed(*old(i2cdev), seq![BMP180_REGISTER_AC1MSB], 22),
        ensures
            match r {
                Ok(coeff) => exists|registers: Seq<u8>|
                    registers.len() == 22 && #[trigger] write_read_step(
                        *old(i2cdev),
                        seq![BMP180_REGISTER_AC1MSB],
                        22,
                        Ok(registers),
                        *final(i2cdev),
                    ) && coeff == coefficients_of(registers),
                Err(e) => write_read_step(
                    *old(i2cdev),
                    seq![BMP180_REGISTER_AC1MSB],
                    22,
                    Err(e),
                    *final(i2cdev),
                ),
            },
    {
        let mut buf: [u8; 22] = [0;22];
        let reg = [BMP180_REGISTER_AC1MSB];
        assert(reg@ =~= seq![BMP180_REGISTER_AC1MSB]);
        match i2cdev.write(&reg) {
            Ok(_) => {
                let ghost mid = *i2cdev;
                match i2cdev.read(&mut buf) {
                    Ok(_) => {
                        let coeff = BMP180CalibrationCoefficients::from_registers(&buf);
                        assert(old(i2cdev).write_step(reg@, None, &mid) && mid.read_step(
                            22,
                            Ok(buf@),
                            i2cdev,
                        ));
                        assert(write_read_step(*old(i2cdev), reg@, 22, Ok(buf@), *i2cdev));
                        Ok(coeff)
                    },
                    Err(e) => {
                        assert(old(i2cdev).write_step(reg@, None, &mid) && mid.read_step(
                            22,
                            Err(e),
                            i2cdev,
                        ));
                        let r: Result<BMP180CalibrationCoefficients, T::Error> = Err(e);
                        assert(r->Err_0 == e);
                        r
                    },
                }
            },
            Err(e) => {
                let r: Result<BMP180CalibrationCoefficients, T::Error> = Err(e);
                assert(r->Err_0 == e);
                r
            },
        }
    }

    /// The first intermediate of the datasheet's temperature formula.
    pub open spec fn b5_x1(self, raw_temp: i16) -> int {
        ((raw_temp - self.ac6) * self.ac5) / 32768
    }

    /// Whether the datasheet's temperature formula can be worked out on
    /// `raw_temp` in 32-bit arithmetic: the product fits, and nothing is
    /// divided by zero.
    pub open spec fn b5_defined(self, raw_temp: i16) -> bool {
        &&& i32::MIN <= (raw_temp - self.ac6) * self.ac5 <= i32::MAX
        &&& self.b5_x1(raw_temp) + self.md != 0
    }

    /// The datasheet's `B5`, the compensated temperature from which both the
    /// temperature and the pressure are worked out:
    /// `X1 = (UT - AC6) * AC5 / 2^15`, `X2 = MC * 2^11 / (X1 + MD)`,
    /// `B5 = X1 + X2`, the first quotient rounded down and the second
    /// towards zero.
    pub open spec fn b5(self, raw_temp: i16) -> int {
        self.b5_x1(raw_temp) + quotient(self.mc * 2048, self.b5_x1(raw_temp) + self.md)
    }

    /// The datasheet's `B5` for the raw temperature `raw_temp`, where the
    /// formula can be worked out in 32-bit arithmetic, and nothing where it
    /// cannot.
    pub fn checked_b5(self, raw_temp: i16) -> (b5: Option<i32>)
        ensures
            match b5 {
                Some(b5) => self.b5_defined(raw_temp) && b5 == self.b5(raw_temp),
                None => !self.b5_defined(raw_temp),
            },
    {
        let difference: i64 = (raw_temp as i64) - (self.ac6 as i64);
        proof {
            lemma_product_bound(difference as int, self.ac5 as int, 0x2_0000, 0x1_0000);
        }
        let product: i64 = difference * (self.ac5 as i64);
        if !is_i32(product) {
            return None;
        }
        let x1: i64 = floor_quotient(product, 32768);
        if x1 + (self.md as i64) == 0 {
            return None;
        }
        Some(self.calculate_b5(raw_temp))
    }

    /// The datasheet's `B5` for the raw temperature `raw_temp`.
    pub fn calculate_b5(self, raw_temp: i16) -> (b5: i32)
        requires
            self.b5_defined(raw_temp),
        ensures
            b5 == self.b5(raw_temp),
    {
        let product: i32 = ((raw_temp as i32) - (self.ac6 as i32)) * (self.ac5 as i32);
        let x1 = product >> 15;
        assert(product >> 15 == product / 32768) by (bit_vector);
        let mc = self.mc as i32;
        let scaled = mc << 11;
        assert(mc << 11 == mc * 2048) by (bit_vector)
            requires
                -32768 <= mc <= 32767,
        ;
        proof {
            lemma_quotient_bound(scaled as int, x1 + self.md);
        }
        let x2 = scaled / (x1 + (self.md as i32));
        x1 + x2
    }
}

/// What the sensor's converters gave, before any compensation.
#[derive(Debug)]
pub struct BMP180RawReading {
    /// Raw pressure, 16 to 19 bits depending on the mode.
    pub padc: i32,
    /// Raw temperature.
    pub tadc: i16,
}

/// The write that starts the conversion of a temperature.
pub open spec fn temperature_command() -> Seq<u8> {
    seq![BMP180_REGISTER_CTL, BMP180_CMD_TEMP]
}

/// The write that starts the conversion of a pressure in `mode`: the
/// oversampling setting goes into the two upper bits of the command.
pub open spec fn pressure_command(mode: BMP180PressureMode) -> Seq<u8> {
    seq![BMP180_REGISTER_CTL, (BMP180_CMD_PRESSURE + 64 * mode.mode_value()) as u8]
}

/// The raw temperature in the two result registers: a signed number, high
/// byte first.
pub open spec fn raw_temperature_of(registers: Seq<u8>) -> i16 {
    signed_at(registers, 0) as i16
}

/// The raw pressure in the three result registers: the 24 bits they hold,
/// high byte first, without the `8 - oss` lowest.
pub open spec fn raw_pressure_of(registers: Seq<u8>, mode: BMP180PressureMode) -> i32 {
    ((registers[0] * 65536 + registers[1] * 256 + registers[2]) / (if mode.mode_value() == 0 {
        256int
    } else if mode.mode_value() == 1 {
        128int
    } else if mode.mode_value() == 2 {
        64int
    } else {
        32int
    })) as i32
}

impl BMP180RawReading {
    /// The raw temperature in the two result registers.
    pub fn raw_temperature(registers: &[u8; 2]) -> (tadc: i16)
        ensures
            tadc == raw_temperature_of(registers@),
    {
        be_read_i16(registers.as_slice())
    }

    /// The raw pressure in the three result registers, read in `mode`.
    pub fn raw_pressure(registers: &[u8; 3], mode: BMP180PressureMode) -> (padc: i32)
        ensures
            padc == raw_pressure_of(registers@, mode),
    {
        let offset = mode.get_mode_value();
        let b0 = registers[0] as i32;
        let b1 = registers[1] as i32;
        let b2 = registers[2] as i32;
        let shift: i32 = 8 - (offset as i32);
        assert((b0 << 16) == b0 * 65536 && (b1 << 8) == b1 * 256) by (bit_vector)
            requires
                0 <= b0 < 256,
                0 <= b1 < 256,
        ;
        let all: i32 = (b0 << 16) + (b1 << 8) + b2;
        assert(all >> 8 == all / 256 && all >> 7 == all / 128 && all >> 6 == all / 64 && all >> 5
            == all / 32) by (bit_vector);
        all >> shift
    }

    /// First third of a reading: tells the sensor to convert a temperature.
    /// The result can be had [`BMP180_TEMP_DELAY_MS`] later, by
    /// [`continue_with_pressure`](Self::continue_with_pressure).
    pub fn start<T: I2CDevice>(i2cdev: &mut T) -> (r: Result<(), T::Error>)
        requires
            old(i2cdev).write_allowed(temperature_command()),
        ensures
            old(i2cdev).write_step(temperature_command(), failure(r), final(i2cdev)),
    {
        i2cdev.smbus_write_byte_data(BMP180_REGISTER_CTL, BMP180_CMD_TEMP)
    }

    /// Second third of a reading: reads the raw temperature (a plain write
    /// of the number of the result register, then a plain read of two
    /// bytes) and tells the sensor to convert a pressure in `mode`. The
    /// pressure can be had [`mode_delay`](BMP180PressureMode::mode_delay)
    /// later, by [`finish`](Self::finish).
    pub fn continue_with_pressure<T: I2CDevice>(i2cdev: &mut T, mode: BMP180PressureMode) -> (r:
        Result<i16, T::Error>)
        requires
            write_read_allowed(*old(i2cdev), seq![BMP180_REGISTER_TEMP_MSB], 2),
            forall|registers: Seq<u8>, mid: T| #[trigger]
                write_read_step(
                    *old(i2cdev),
                    seq![BMP180_REGISTER_TEMP_MSB],
                    2,
                    Ok(registers),
                    mid,
                ) ==> mid.write_allowed(pressure_command(mode)),
        ensures
            match r {
                Ok(tadc) => exists|registers: Seq<u8>, mid: T|
                    registers.len() == 2 && #[trigger] write_read_step(
                        *old(i2cdev),
                        seq![BMP180_REGISTER_TEMP_MSB],
                        2,
                        Ok(registers),
                        mid,
                    ) && tadc == raw_temperature_of(registers) && mid.write_step(
                        pressure_command(mode),
                        None,
                        final(i2cdev),
                    ),
                Err(e) => write_read_step(
                    *old(i2cdev),
                    seq![BMP180_REGISTER_TEMP_MSB],
                    2,
                    Err(e),
                    *final(i2cdev),
                ) || (exists|registers: Seq<u8>, mid: T|
                    registers.len() == 2 && #[trigger] write_read_step(
                        *old(i2cdev),
                        seq![BMP180_REGISTER_TEMP_MSB],
                        2,
                        Ok(registers),
                        mid,
                    ) && mid.write_step(pressure_command(mode), Some(e), final(i2cdev))),
            },
    {
        let mut buf = [0_u8;2];
        let reg = [BMP180_REGISTER_TEMP_MSB];
        assert(reg@ =~= seq![BMP180_REGISTER_TEMP_MSB]);
        match i2cdev.write(&reg) {
            Ok(_) => {},
            Err(e) => {
                let r: Result<i16, T::Error> = Err(e);
                assert(r->Err_0 == e);
                return r;
            },
        }
        let ghost after_write = *i2cdev;
        match i2cdev.read(&mut buf) {
            Ok(_) => {},
            Err(e) => {
                assert(old(i2cdev).write_step(reg@, None, &after_write) && after_write.read_step(
                    2,
                    Err(e),
                    i2cdev,
                ));
                let r: Result<i16, T::Error> = Err(e);
                assert(r->Err_0 == e);
                return r;
            },
        }
        let ghost mid = *i2cdev;
        assert(old(i2cdev).write_step(reg@, None, &after_write) && after_write.read_step(
            2,
            Ok(buf@),
            &mid,
        ));
        assert(write_read_step(*old(i2cdev), reg@, 2, Ok(buf@), mid));
        let tadc = BMP180RawReading::raw_temperature(&buf);
        let offset = mode.get_mode_value();
        assert(offset << 6 == 64 * offset) by (bit_vector)
            requires
                offset <= 3,
        ;
        let command = BMP180_CMD_PRESSURE + (offset << 6);
        assert(seq![BMP180_REGISTER_CTL, command] =~= pressure_command(mode));
        match i2cdev.smbus_write_byte_data(BMP180_REGISTER_CTL, command) {
            Ok(_) => {
                assert(mid.write_step(pressure_command(mode), None, i2cdev));
                Ok(tadc)
            },
            Err(e) => {
                assert(mid.write_step(pressure_command(mode), Some(e), i2cdev));
                let r: Result<i16, T::Error> = Err(e);
                assert(r->Err_0 == e);
                r
            },
        }
    }

    /// Last third of a reading: reads the raw pressure that was converted in
    /// `mode` (a plain write of the number of the result register, then a
    /// plain read of three bytes) and puts it together with the raw
    /// temperature `tadc`.
    pub fn finish<T: I2CDevice>(i2cdev: &mut T, mode: BMP180PressureMode, tadc: i16) -> (r: Result<
        BMP180RawReading,
        T::Error,
    >)
        requires
            write_read_allowed(*old(i2cdev), seq![BMP180_REGISTER_PRESSURE_MSB], 3),
        ensures
            match r {
                Ok(reading) => exists|registers: Seq<u8>|
                    registers.len() == 3 && #[trigger] write_read_step(
                        *old(i2cdev),
                        seq![BMP180_REGISTER_PRESSURE_MSB],
                        3,
                        Ok(registers),
                        *final(i2cdev),
                    ) && reading.padc == raw_pressure_of(registers, mode) && reading.tadc == tadc,
                Err(e) => write_read_step(
                    *old(i2cdev),
                    seq![BMP180_REGISTER_PRESSURE_MSB],
                    3,
                    Err(e),
                    *final(i2cdev),
                ),
            },
    {
        let mut p_buf = [0_u8;3];
        let reg = [BMP180_REGISTER_PRESSURE_MSB];
        assert(reg@ =~= seq![BMP180_REGISTER_PRESSURE_MSB]);
        match i2cdev.write(&reg) {
            Ok(_) => {
                let ghost mid = *i2cdev;
                match i2cdev.read(&mut p_buf) {
                    Ok(_) => {
                        let padc = BMP180RawReading::raw_pressure(&p_buf, mode);
                        assert(old(i2cdev).write_step(reg@, None, &mid) && mid.read_step(
                            3,
                            Ok(p_buf@),
                            i2cdev,
                        ));
                        assert(write_read_step(*old(i2cdev), reg@, 3, Ok(p_buf@), *i2cdev));
                        Ok(BMP180RawReading { padc, tadc })
                    },
                    Err(e) => {
                        assert(old(i2cdev).write_step(reg@, None, &mid) && mid.read_step(
                            3,
                            Err(e),
                            i2cdev,
                        ));
                        let r: Result<BMP180RawReading, T::Error> = Err(e);
                        assert(r->Err_0 == e);
                        r
                    },
                }
            },
            Err(e) => {
                let r: Result<BMP180RawReading, T::Error> = Err(e);
                assert(r->Err_0 == e);
                r
            },
        }
    }
}

/// A BMP180 behind an I2C device, with its coefficients and the mode to read
/// pressures in.
pub struct BMP180BarometerThermometer<T: I2CDevice> {
    pub i2cdev: T,
    pub coeff: BMP180CalibrationCoefficients,
    pub pressure_precision: BMP180PressureMode,
}

impl<T: I2CDevice> BMP180BarometerThermometer<T> {
    /// Takes the device and reads the sensor's coefficients from it, as
    /// [`BMP180CalibrationCoefficients::new`] does.
    pub fn new(i2cdev: T, pressure_precision: BMP180PressureMode) -> (r: Result<
        BMP180BarometerThermometer<T>,
        T::Error,
    >)
        requires
            write_read_allowed(i2cdev, seq![BMP180_REGISTER_AC1MSB], 22),
        ensures
            match r {
                Ok(sensor) => sensor.pressure_precision == pressure_precision && (exists|
                    registers: Seq<u8>,
                |
                    registers.len() == 22 && #[trigger] write_read_step(
                        i2cdev,
                        seq![BMP180_REGISTER_AC1MSB],
                        22,
                        Ok(registers),
                        sensor.i2cdev,
                    ) && sensor.coeff == coefficients_of(registers)),
                Err(e) => exists|end: T| #[trigger]
                    write_read_step(i2cdev, seq![BMP180_REGISTER_AC1MSB], 22, Err(e), end),
            },
    {
        let mut dev = i2cdev;
        match BMP180CalibrationCoefficients::new(&mut dev) {
            Ok(coeff) => {
                let ghost registers = choose|registers: Seq<u8>|
                    registers.len() == 22 && #[trigger] write_read_step(
                        i2cdev,
                        seq![BMP180_REGISTER_AC1MSB],
                        22,
                        Ok(registers),
                        dev,
                    ) && coeff == coefficients_of(registers);
                let sensor = BMP180BarometerThermometer { i2cdev: dev, coeff, pressure_precision };
                assert(write_read_step(
                    i2cdev,
                    seq![BMP180_REGISTER_AC1MSB],
                    22,
                    Ok(registers),
                    sensor.i2cdev,
                ));
                Ok(sensor)
            },
            Err(e) => {
                assert(write_read_step(i2cdev, seq![BMP180_REGISTER_AC1MSB], 22, Err(e), dev));
                let r: Result<BMP180BarometerThermometer<T>, T::Error> = Err(e);
                assert(r->Err_0 == e);
                r
            },
        }
    }
}

/// The temperature in tenths of a degree Celsius that the datasheet works
/// out of `B5`: `(B5 + 8) / 2^4`, rounded down.
pub open spec fn temperature_of(b5: i32) -> int {
    (b5 + 8) / 16
}

/// The temperature in tenths of a degree Celsius for the compensated
/// temperature `b5`.
pub fn calculate_temperature(b5: i32) -> (t: i32)
    requires
        b5 + 8 <= i32::MAX,
    ensures
        t == temperature_of(b5),
{
    let sum = b5 + 8;
    assert(sum >> 4 == sum / 16) by (bit_vector);
    sum >> 4
}

/// The number that the bits of a 32-bit signed `x` are when read as unsigned.
pub open spec fn as_unsigned(x: int) -> int {
    if x >= 0 {
        x
    } else {
        x + 0x1_0000_0000
    }
}

/// The number that the bits of a 32-bit unsigned `x` are when read as signed.
pub open spec fn as_signed(x: int) -> int {
    if x < 0x8000_0000 {
        x
    } else {
        x - 0x1_0000_0000
    }
}

/// Two to the power of the oversampling setting.
pub open spec fn oversampling(oss: BMP180PressureMode) -> int {
    match oss {
        BMP180PressureMode::BMP180UltraLowPower => 1,
        BMP180PressureMode::BMP180Standard => 2,
        BMP180PressureMode::BMP180HighResolution => 4,
        BMP180PressureMode::BMP180UltraHighResolution => 8,
    }
}

/// The intermediate values of the datasheet's pressure formula, under the
/// names the datasheet gives them. Where it uses a name twice, the second
/// use carries the name of what it goes into.
pub struct PressureTerms {
    pub b6: int,
    pub x1_b3: int,
    pub x2_b3: int,
    pub x3_b3: int,
    pub b3: int,
    pub x1_b4: int,
    pub x2_b4: int,
    pub x3_b4: int,
    pub b4: int,
    pub b7: int,
    pub p: int,
    pub x1_p: int,
    pub x2_p: int,
}

/// The datasheet's pressure formula, step by step, on the raw pressure
/// `padc`, the compensated temperature `b5`, the coefficients and the
/// oversampling setting. Divisions by a power of two round down, except the
/// one that gives `x1_b3`, which, like the one by `b4`, rounds towards zero.
pub open spec fn pressure_terms(
    padc: i32,
    b5: i32,
    coeff: BMP180CalibrationCoefficients,
    oss: BMP180PressureMode,
) -> PressureTerms {
    let b6 = b5 - 4000;
    let x1_b3 = quotient(coeff.b2 * ((b6 * b6) / 4096), 2048);
    let x2_b3 = (coeff.ac2 * b6) / 2048;
    let x3_b3 = x1_b3 + x2_b3;
    let b3 = ((((as_unsigned(coeff.ac1 as int) * 4 + as_unsigned(x3_b3)) * oversampling(oss))
        % 0x1_0000_0000) + 2) / 4;
    let x1_b4 = (coeff.ac3 * b6) / 8192;
    let x2_b4 = (coeff.b1 * ((b6 * b6) / 4096)) / 65536;
    let x3_b4 = ((x1_b4 + x2_b4) + 2) / 4;
    let b4 = (coeff.ac4 * (as_unsigned(x3_b4) + 32768)) / 32768;
    let b7 = (as_unsigned(padc as int) - b3) * (50000int / oversampling(oss));
    let p = if b7 < 0x8000_0000 {
        as_signed((b7 * 2) / b4)
    } else {
        as_signed((b7 / b4) * 2)
    };
    let x1_p = (((p / 256) * (p / 256)) * 3038) / 65536;
    let x2_p = (-7357 * p) / 65536;
    PressureTerms { b6, x1_b3, x2_b3, x3_b3, b3, x1_b4, x2_b4, x3_b4, b4, b7, p, x1_p, x2_p }
}

/// Whether `x` is a 32-bit signed number.
pub open spec fn fits_i32(x: int) -> bool {
    i32::MIN <= x <= i32::MAX
}

/// Whether `x` is a 32-bit unsigned number.
pub open spec fn fits_u32(x: int) -> bool {
    0 <= x <= u32::MAX
}

/// Whether the datasheet's pressure formula can be worked out in 32-bit
/// arithmetic: every sum, difference and product on the way fits the type it
/// is computed in, and nothing is divided by zero.
pub open spec fn pressure_defined(
    padc: i32,
    b5: i32,
    coeff: BMP180CalibrationCoefficients,
    oss: BMP180PressureMode,
) -> bool {
    let t = pressure_terms(padc, b5, coeff, oss);
    &&& fits_i32(t.b6)
    &&& fits_i32(t.b6 * t.b6)
    &&& fits_i32(coeff.b2 * ((t.b6 * t.b6) / 4096))
    &&& fits_i32(coeff.ac2 * t.b6)
    &&& fits_i32(t.x3_b3)
    &&& fits_u32(as_unsigned(coeff.ac1 as int) * 4 + as_unsigned(t.x3_b3))
    &&& fits_u32(
        (((as_unsigned(coeff.ac1 as int) * 4 + as_unsigned(t.x3_b3)) * oversampling(oss))
            % 0x1_0000_0000) + 2,
    )
    &&& fits_i32(coeff.ac3 * t.b6)
    &&& fits_i32(coeff.b1 * ((t.b6 * t.b6) / 4096))
    &&& fits_i32(t.x1_b4 + t.x2_b4 + 2)
    &&& fits_u32(as_unsigned(t.x3_b4) + 32768)
    &&& fits_u32(coeff.ac4 * (as_unsigned(t.x3_b4) + 32768))
    &&& fits_u32(as_unsigned(padc as int) - t.b3)
    &&& fits_u32(t.b7)
    &&& t.b4 != 0
    &&& fits_u32((t.b7 / t.b4) * 2)
    &&& fits_i32((t.p / 256) * (t.p / 256))
    &&& fits_i32(((t.p / 256) * (t.p / 256)) * 3038)
    &&& fits_i32(-7357 * t.p)
    &&& fits_i32(t.x1_p + t.x2_p + 3791)
    &&& fits_i32(t.p + (t.x1_p + t.x2_p + 3791) / 16)
}

/// The pressure in pascal that the datasheet's formula gives.
pub open spec fn real_pressure(
    padc: i32,
    b5: i32,
    coeff: BMP180CalibrationCoefficients,
    oss: BMP180PressureMode,
) -> int {
    let t = pressure_terms(padc, b5, coeff, oss);
    t.p + (t.x1_p + t.x2_p + 3791) / 16
}

/// The pressure in pascal for the raw pressure `padc` and the compensated
/// temperature `b5`, by the formula of the datasheet.
pub fn calculate_real_pressure(
    padc: i32,
    b5: i32,
    coeff: BMP180CalibrationCoefficients,
    oss: BMP180PressureMode,
) -> (pressure: i32)
    requires
        pressure_defined(padc, b5, coeff, oss),
    ensures
        pressure == real_pressure(padc, b5, coeff, oss),
{
    let ghost t = pressure_terms(padc, b5, coeff, oss);
    let shift: u32 = oss.get_mode_value() as u32;
    let b6: i32 = b5 - 4000;
    let square: i32 = b6 * b6;
    assert(b6 * b6 >= 0) by (nonlinear_arith);
    let square_high: i32 = square / 4096;
    let mut x1: i32 = ((coeff.b2 as i32) * square_high) / 2048;
    assert(x1 == t.x1_b3);
    let product: i32 = (coeff.ac2 as i32) * b6;
    assert(product >> 11 == product / 2048) by (bit_vector);
    let mut x2: i32 = product >> 11;
    let mut x3: i32 = x1 + x2;
    assert(x3 == t.x3_b3);
    let ac1_bits: u32 = #[verifier::truncate] (coeff.ac1 as u32);
    let ac1 = coeff.ac1;
    assert(ac1_bits == as_unsigned(ac1 as int)) by {
        assert(ac1 as u32 == if ac1 >= 0 {
            ac1 as int
        } else {
            ac1 + 0x1_0000_0000
        }) by (bit_vector);
    }
    let x3_bits: u32 = #[verifier::truncate] (x3 as u32);
    assert(x3_bits == as_unsigned(x3 as int)) by {
        assert(x3 as u32 == if x3 >= 0 {
            x3 as int
        } else {
            x3 + 0x1_0000_0000
        }) by (bit_vector);
    }
    let sum: u32 = ac1_bits * 4 + x3_bits;
    let shifted: u32 = sum << shift;
    assert(shifted == (sum * oversampling(oss)) % 0x1_0000_0000) by {
        assert(sum << 0u32 == (sum * 1) % 0x1_0000_0000) by (bit_vector);
        assert(sum << 1u32 == (sum * 2) % 0x1_0000_0000) by (bit_vector);
        assert(sum << 2u32 == (sum * 4) % 0x1_0000_0000) by (bit_vector);
        assert(sum << 3u32 == (sum * 8) % 0x1_0000_0000) by (bit_vector);
    }
    let rounded: u32 = shifted + 2;
    assert(rounded >> 2 == rounded / 4) by (bit_vector);
    let b3: u32 = rounded >> 2;
    assert(b3 == t.b3);
    let product: i32 = (coeff.ac3 as i32) * b6;
    assert(product >> 13 == product / 8192) by (bit_vector);
    x1 = product >> 13;
    assert(square >> 12 == square / 4096) by (bit_vector);
    let product: i32 = (coeff.b1 as i32) * (square >> 12);
    assert(product >> 16 == product / 65536) by (bit_vector);
    x2 = product >> 16;
    let rounded: i32 = (x1 + x2) + 2;
    assert(rounded >> 2 == rounded / 4) by (bit_vector);
    x3 = rounded >> 2;
    assert(x3 == t.x3_b4);
    let x3_bits: u32 = #[verifier::truncate] (x3 as u32);
    assert(x3_bits == as_unsigned(x3 as int)) by {
        assert(x3 as u32 == if x3 >= 0 {
            x3 as int
        } else {
            x3 + 0x1_0000_0000
        }) by (bit_vector);
    }
    let product: u32 = (coeff.ac4 as u32) * (x3_bits + 32768);
    assert(product >> 15 == product / 32768) by (bit_vector);
    let b4: u32 = product >> 15;
    assert(b4 == t.b4);
    let padc_bits: u32 = #[verifier::truncate] (padc as u32);
    assert(padc_bits == as_unsigned(padc as int)) by {
        assert(padc as u32 == if padc >= 0 {
            padc as int
        } else {
            padc + 0x1_0000_0000
        }) by (bit_vector);
    }
    let factor: u32 = 50000u32 >> shift;
    assert(factor == 50000int / oversampling(oss)) by {
        assert(50000u32 >> 0u32 == 50000u32) by (bit_vector);
        assert(50000u32 >> 1u32 == 25000u32) by (bit_vector);
        assert(50000u32 >> 2u32 == 12500u32) by (bit_vector);
        assert(50000u32 >> 3u32 == 6250u32) by (bit_vector);
        assert(50000int / 1 == 50000 && 50000int / 2 == 25000 && 50000int / 4 == 12500 && 50000int
            / 8 == 6250);
    }
    let b7: u32 = (padc_bits - b3) * factor;
    assert(b7 == t.b7);
    let p_bits: u32 = if b7 < 0x80000000 {
        (b7 * 2) / b4
    } else {
        (b7 / b4) * 2
    };
    let p: i32 = #[verifier::truncate] (p_bits as i32);
    assert(p == as_signed(p_bits as int)) by {
        assert(p_bits as i32 == if p_bits < 0x8000_0000 {
            p_bits as int
        } else {
            p_bits - 0x1_0000_0000
        }) by (bit_vector);
    }
    assert(p == t.p);
    assert(p >> 8 == p / 256) by (bit_vector);
    x1 = (p >> 8) * (p >> 8);
    let product: i32 = x1 * 3038;
    assert(product >> 16 == product / 65536) by (bit_vector);
    x1 = product >> 16;
    assert(x1 == t.x1_p);
    let product: i32 = -7357_i32 * p;
    assert(product >> 16 == product / 65536) by (bit_vector);
    x2 = product >> 16;
    assert(x2 == t.x2_p);
    let sum: i32 = x1 + x2 + 3791;
    assert(sum >> 4 == sum / 16) by (bit_vector);
    p + (sum >> 4)
}

/// The pressure in pascal for the raw pressure `padc` and the compensated
/// temperature `b5`, by the formula of the datasheet, where the formula can
/// be worked out in 32-bit arithmetic, and nothing where it cannot.
pub fn checked_real_pressure(
    padc: i32,
    b5: i32,
    coeff: BMP180CalibrationCoefficients,
    oss: BMP180PressureMode,
) -> (pressure: Option<i32>)
    ensures
        match pressure {
            Some(pressure) => pressure_defined(padc, b5, coeff, oss) && pressure == real_pressure(
                padc,
                b5,
                coeff,
                oss,
            ),
            None => !pressure_defined(padc, b5, coeff, oss),
        },
{
    if pressure_is_defined(padc, b5, coeff, oss) {
        Some(calculate_real_pressure(padc, b5, coeff, oss))
    } else {
        None
    }
}

/// Whether `x` is a 32-bit signed number.
fn is_i32(x: i64) -> (fits: bool)
    ensures
        fits == fits_i32(x as int),
{
    -0x8000_0000 <= x && x <= 0x7fff_ffff
}

/// Whether `x` is a 32-bit unsigned number.
fn is_u32(x: i64) -> (fits: bool)
    ensures
        fits == fits_u32(x as int),
{
    0 <= x && x <= 0xffff_ffff
}

/// The number that the bits of the 32-bit signed `x` are when read as unsigned.
fn unsigned_bits(x: i64) -> (bits: i64)
    requires
        fits_i32(x as int),
    ensures
        bits == as_unsigned(x as int),
{
    if x >= 0 {
        x
    } else {
        x + 0x1_0000_0000
    }
}

/// Whether the datasheet's pressure formula can be worked out in 32-bit
/// arithmetic on these values.
pub fn pressure_is_defined(
    padc: i32,
    b5: i32,
    coeff: BMP180CalibrationCoefficients,
    oss: BMP180PressureMode,
) -> (defined: bool)
    ensures
        defined == pressure_defined(padc, b5, coeff, oss),
{
    let ghost t = pressure_terms(padc, b5, coeff, oss);
    let scale: i64 = match oss {
        BMP180PressureMode::BMP180UltraLowPower => 1,
        BMP180PressureMode::BMP180Standard => 2,
        BMP180PressureMode::BMP180HighResolution => 4,
        BMP180PressureMode::BMP180UltraHighResolution => 8,
    };
    let b6: i64 = (b5 as i64) - 4000;
    if !is_i32(b6) {
        return false;
    }
    assert(b6 * b6 >= 0 && b6 * b6 <= 0x4000_0000_0000_0000) by (nonlinear_arith)
        requires
            -0x8000_0000 <= b6 <= 0x7fff_ffff,
    ;
    let square: i64 = b6 * b6;
    if !is_i32(square) {
        return false;
    }
    let square_high: i64 = square / 4096;
    proof {
        lemma_product_bound(coeff.b2 as int, square_high as int, 0x8000, 0x8_0000);
        lemma_product_bound(coeff.b1 as int, square_high as int, 0x8000, 0x8_0000);
        lemma_product_bound(coeff.ac2 as int, b6 as int, 0x8000, 0x8000_0000);
        lemma_product_bound(coeff.ac3 as int, b6 as int, 0x8000, 0x8000_0000);
    }
    let product: i64 = (coeff.b2 as i64) * square_high;
    if !is_i32(product) {
        return false;
    }
    let x1: i64 = product / 2048;
    let product: i64 = (coeff.ac2 as i64) * b6;
    if !is_i32(product) {
        return false;
    }
    let x2: i64 = floor_quotient(product, 2048);
    let x3: i64 = x1 + x2;
    if !is_i32(x3) {
        return false;
    }
    let sum: i64 = unsigned_bits(coeff.ac1 as i64) * 4 + unsigned_bits(x3);
    if !is_u32(sum) {
        return false;
    }
    let rounded: i64 = ((sum * scale) % 0x1_0000_0000) + 2;
    if !is_u32(rounded) {
        return false;
    }
    let b3: i64 = rounded / 4;
    assert(b3 == t.b3);
    let product: i64 = (coeff.ac3 as i64) * b6;
    if !is_i32(product) {
        return false;
    }
    let x1: i64 = floor_quotient(product, 8192);
    let product: i64 = (coeff.b1 as i64) * square_high;
    if !is_i32(product) {
        return false;
    }
    let x2: i64 = floor_quotient(product, 65536);
    let rounded: i64 = x1 + x2 + 2;
    if !is_i32(rounded) {
        return false;
    }
    let x3: i64 = floor_quotient(rounded, 4);
    assert(x3 == t.x3_b4);
    let sum: i64 = unsigned_bits(x3) + 32768;
    if !is_u32(sum) {
        return false;
    }
    assert(0 <= coeff.ac4 * sum <= 0x1_0000_0000_0000) by (nonlinear_arith)
        requires
            0 <= coeff.ac4 <= 0xffff,
            0 <= sum <= 0xffff_ffff,
    ;
    let product: i64 = (coeff.ac4 as i64) * sum;
    if !is_u32(product) {
        return false;
    }
    let b4: i64 = product / 32768;
    assert(b4 == t.b4);
    let difference: i64 = unsigned_bits(padc as i64) - b3;
    if !is_u32(difference) {
        return false;
    }
    let factor: i64 = 50000 / scale;
    assert(0 <= difference * factor <= 0x1_0000_0000_0000) by (nonlinear_arith)
        requires
            0 <= factor <= 50000,
            0 <= difference <= 0xffff_ffff,
    ;
    let b7: i64 = difference * factor;
    assert(b7 == t.b7);
    if !is_u32(b7) {
        return false;
    }
    if b4 == 0 {
        return false;
    }
    let p_bits: i64 = if b7 < 0x8000_0000 {
        assert(0 <= (b7 * 2) / (b4 as int) <= b7 * 2) by (nonlinear_arith)
            requires
                0 <= b7,
                0 < b4,
        ;
        (b7 * 2) / b4
    } else {
        assert(0 <= b7 / b4 <= b7) by (nonlinear_arith)
            requires
                0 <= b7,
                0 < b4,
        ;
        let doubled: i64 = (b7 / b4) * 2;
        if !is_u32(doubled) {
            return false;
        }
        doubled
    };
    let p: i64 = if p_bits < 0x8000_0000 {
        p_bits
    } else {
        p_bits - 0x1_0000_0000
    };
    assert(p == t.p);
    let p_high: i64 = floor_quotient(p, 256);
    assert(-0x80_0000 <= p_high <= 0x7f_ffff);
    assert(0 <= p_high * p_high <= 0x4000_0000_0000) by (nonlinear_arith)
        requires
            -0x80_0000 <= p_high <= 0x7f_ffff,
    ;
    let square: i64 = p_high * p_high;
    if !is_i32(square) {
        return false;
    }
    let product: i64 = square * 3038;
    if !is_i32(product) {
        return false;
    }
    let x1: i64 = floor_quotient(product, 65536);
    assert(x1 == t.x1_p);
    let product: i64 = -7357 * p;
    if !is_i32(product) {
        return false;
    }
    let x2: i64 = floor_quotient(product, 65536);
    assert(x2 == t.x2_p);
    let sum: i64 = x1 + x2 + 3791;
    if !is_i32(sum) {
        return false;
    }
    is_i32(p + floor_quotient(sum, 16))
}

/// The quotient of `a` by the positive `b`, rounded down.
fn floor_quotient(a: i64, b: i64) -> (q: i64)
    requires
        b > 0,
        a > i64::MIN,
    ensures
        q == a / b,
{
    if a >= 0 {
        a / b
    } else {
        let n = -a;
        let d = n / b;
        let r = n % b;
        proof {
            vstd::arithmetic::div_mod::lemma_fundamental_div_mod(n as int, b as int);
            assert(0 <= d <= n) by (nonlinear_arith)
                requires
                    n == b * d + r,
                    0 <= r < b,
                    0 < b,
                    0 < n,
            ;
            if r == 0 {
                assert(a == (-d) * b + 0) by (nonlinear_arith)
                    requires
                        n == b * d + r,
                        r == 0,
                        a == -n,
                ;
                vstd::arithmetic::div_mod::lemma_fundamental_div_mod_converse(
                    a as int,
                    b as int,
                    -d,
                    0,
                );
            } else {
                assert(a == (-d - 1) * b + (b - r)) by (nonlinear_arith)
                    requires
                        n == b * d + r,
                        a == -n,
                ;
                vstd::arithmetic::div_mod::lemma_fundamental_div_mod_converse(
                    a as int,
                    b as int,
                    -d - 1,
                    b - r,
                );
            }
        }
        if r == 0 {
            -d
        } else {
            -d - 1
        }
    }
}

/// A product is no further from zero than the product of the bounds of its factors.
proof fn lemma_product_bound(a: int, b: int, bound_a: int, bound_b: int)
    requires
        -bound_a <= a <= bound_a,
        -bound_b <= b <= bound_b,
    ensures
        -(bound_a * bound_b) <= a * b <= bound_a * bound_b,
{
    assert(-(bound_a * bound_b) <= a * b <= bound_a * bound_b) by (nonlinear_arith)
        requires
            -bound_a <= a <= bound_a,
            -bound_b <= b <= bound_b,
    ;
}

} // verus!
