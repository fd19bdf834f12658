use i2cdev::device::{write_registers, I2CDevice};

/// A device that records what is written to it, hands out the bytes it was
/// given to read, and fails from a given transaction on.
struct ScriptedDevice {
    written: Vec<Vec<u8>>,
    to_read: Vec<u8>,
    transactions: usize,
    fail_from: usize,
}

impl ScriptedDevice {
    fn new(to_read: &[u8], fail_from: usize) -> ScriptedDevice {
        ScriptedDevice { written: Vec::new(), to_read: to_read.to_vec(), transactions: 0, fail_from }
    }

    fn turn(&mut self) -> Result<(), String> {
        self.transactions += 1;
        if self.transactions > self.fail_from {
            Err(format!("transaction {} failed", self.transactions))
        } else {
            Ok(())
        }
    }
}

impl I2CDevice for ScriptedDevice {
    type Error = String;

    fn read(&mut self, data: &mut [u8]) -> Result<(), String> {
        self.turn()?;
        for byte in data.iter_mut() {
            *byte = if self.to_read.is_empty() { 0 } else { self.to_read.remove(0) };
        }
        Ok(())
    }

    fn write(&mut self, data: &[u8]) -> Result<(), String> {
        self.turn()?;
        self.written.push(data.to_vec());
        Ok(())
    }

    fn smbus_write_quick(&mut self, _bit: bool) -> Result<(), String> {
        Err("no quick command".to_string())
    }

    fn smbus_read_block_data(&mut self, _register: u8) -> Result<Vec<u8>, String> {
        Err("no block read".to_string())
    }

    fn smbus_read_i2c_block_data(&mut self, _register: u8, _len: u8) -> Result<Vec<u8>, String> {
        Err("no block read".to_string())
    }

    fn smbus_write_block_data(&mut self, _register: u8, _values: &[u8]) -> Result<(), String> {
        Err("no block write".to_string())
    }

    fn smbus_write_i2c_block_data(&mut self, _register: u8, _values: &[u8]) -> Result<(), String> {
        Err("no block write".to_string())
    }

    fn smbus_process_block(&mut self, _register: u8, _values: &[u8]) -> Result<Vec<u8>, String> {
        Err("no block process call".to_string())
    }
}

#[test]
fn default_read_byte_is_a_plain_read_of_one_byte() {
    let mut dev = ScriptedDevice::new(&[0x5a, 0x5b], 9);
    assert_eq!(dev.smbus_read_byte(), Ok(0x5a));
    assert_eq!(dev.smbus_read_byte(), Ok(0x5b));
    assert!(dev.written.is_empty());
    assert_eq!(dev.transactions, 2);
}

#[test]
fn default_write_byte_is_a_plain_write_of_the_byte() {
    let mut dev = ScriptedDevice::new(&[], 9);
    assert_eq!(dev.smbus_write_byte(0x42), Ok(()));
    assert_eq!(dev.written, vec![vec![0x42]]);
}

#[test]
fn default_read_byte_data_writes_the_register_then_reads() {
    let mut dev = ScriptedDevice::new(&[0x77], 9);
    assert_eq!(dev.smbus_read_byte_data(0x0f), Ok(0x77));
    assert_eq!(dev.written, vec![vec![0x0f]]);
    assert_eq!(dev.transactions, 2);
}

#[test]
fn default_write_byte_data_writes_register_and_value() {
    let mut dev = ScriptedDevice::new(&[], 9);
    assert_eq!(dev.smbus_write_byte_data(0xf0, 0x55), Ok(()));
    assert_eq!(dev.written, vec![vec![0xf0, 0x55]]);
}

#[test]
fn default_read_word_data_decodes_low_byte_first() {
    let mut dev = ScriptedDevice::new(&[0xEF, 0xBE], 9);
    assert_eq!(dev.smbus_read_word_data(0x10), Ok(0xBEEF));
    assert_eq!(dev.written, vec![vec![0x10]]);
}

#[test]
fn default_write_word_data_puts_low_byte_first_on_the_wire() {
    let mut dev = ScriptedDevice::new(&[], 9);
    assert_eq!(dev.smbus_write_word_data(0x10, 0xBEEF), Ok(()));
    assert_eq!(dev.written, vec![vec![0x10, 0xEF, 0xBE]]);
}

#[test]
fn default_process_word_writes_the_word_then_reads_one() {
    let mut dev = ScriptedDevice::new(&[0x34, 0x12], 9);
    assert_eq!(dev.smbus_process_word(0x20, 0x0a0b), Ok(0x1234));
    assert_eq!(dev.written, vec![vec![0x20, 0x0b, 0x0a]]);
    assert_eq!(dev.transactions, 2);
}

#[test]
fn a_failed_write_ends_a_register_read() {
    let mut dev = ScriptedDevice::new(&[0x77], 0);
    assert_eq!(dev.smbus_read_byte_data(0x0f), Err("transaction 1 failed".to_string()));
    assert_eq!(dev.transactions, 1);
    assert_eq!(dev.to_read, vec![0x77]);
    let mut dev = ScriptedDevice::new(&[0x77, 0x78], 0);
    assert_eq!(dev.smbus_read_word_data(0x0f), Err("transaction 1 failed".to_string()));
    assert_eq!(dev.transactions, 1);
    let mut dev = ScriptedDevice::new(&[0x77, 0x78], 0);
    assert_eq!(dev.smbus_process_word(0x0f, 1), Err("transaction 1 failed".to_string()));
    assert_eq!(dev.transactions, 1);
}

#[test]
fn a_failed_read_fails_a_register_read() {
    let mut dev = ScriptedDevice::new(&[0x77], 1);
    assert_eq!(dev.smbus_read_byte_data(0x0f), Err("transaction 2 failed".to_string()));
    assert_eq!(dev.written, vec![vec![0x0f]]);
    let mut dev = ScriptedDevice::new(&[0x77, 0x78], 1);
    assert_eq!(dev.smbus_read_word_data(0x0f), Err("transaction 2 failed".to_string()));
    let mut dev = ScriptedDevice::new(&[0x77, 0x78], 1);
    assert_eq!(dev.smbus_process_word(0x0f, 0x0102), Err("transaction 2 failed".to_string()));
    assert_eq!(dev.written, vec![vec![0x0f, 0x02, 0x01]]);
}

#[test]
fn write_registers_writes_each_setting_in_turn() {
    let mut dev = ScriptedDevice::new(&[], 9);
    assert_eq!(write_registers(&mut dev, &[(0x2d, 0x00), (0x2c, 0x0e), (0x2d, 0x08)]), Ok(()));
    assert_eq!(dev.written, vec![vec![0x2d, 0x00], vec![0x2c, 0x0e], vec![0x2d, 0x08]]);
    let mut dev = ScriptedDevice::new(&[], 9);
    assert_eq!(write_registers(&mut dev, &[]), Ok(()));
    assert!(dev.written.is_empty());
}

#[test]
fn write_registers_gives_up_at_the_first_failure() {
    let mut dev = ScriptedDevice::new(&[], 2);
    assert_eq!(
        write_registers(&mut dev, &[(1, 1), (2, 2), (3, 3), (4, 4)]),
        Err("transaction 3 failed".to_string())
    );
    assert_eq!(dev.written, vec![vec![1, 1], vec![2, 2]]);
    assert_eq!(dev.transactions, 3);
}
