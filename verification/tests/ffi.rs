use i2cdev::ffi::{
    copy_to_i2c_block_data, i2c_rdwr, i2c_rdwr_count, i2c_set_slave_address,
    i2c_set_slave_address_force, i2c_set_smbus_pec, i2c_smbus_access, i2c_smbus_data,
    i2c_smbus_ioctl_data, i2c_smbus_process_call, i2c_smbus_process_call_block,
    i2c_smbus_read_block_data, i2c_smbus_read_byte, i2c_smbus_read_byte_data,
    i2c_smbus_read_i2c_block_data, i2c_smbus_read_word_data, i2c_smbus_write_block_data,
    i2c_smbus_write_byte, i2c_smbus_write_byte_data, i2c_smbus_write_i2c_block_data,
    i2c_smbus_write_quick, i2c_smbus_write_word_data, I2CBuffer, I2CSMBusReadWrite, I2CSMBusSize,
    I2C_PEC, I2C_RDRW_IOCTL_MAX_MSGS, I2C_RDWR, I2C_SLAVE, I2C_SLAVE_FORCE, I2C_SMBUS,
    I2C_SMBUS_BLOCK_MAX,
};
use i2cdev::device::I2CMessage;
use i2cdev::linux::LinuxI2CMessage;

fn packet(args: &i2c_smbus_ioctl_data) -> [u8; 34] {
    match &args.data {
        Some(data) => data.block,
        None => panic!("the request carries no packet"),
    }
}

fn zeros_from(block: &[u8; 34], from: usize) -> bool {
    block[from..].iter().all(|b| *b == 0)
}

#[test]
fn request_codes_are_the_kernels() {
    assert_eq!(I2C_SLAVE, 0x0703);
    assert_eq!(I2C_SLAVE_FORCE, 0x0706);
    assert_eq!(I2C_PEC, 0x0708);
    assert_eq!(I2C_SMBUS, 0x0720);
    assert_eq!(I2C_RDWR, 0x0707);
    assert_eq!(I2C_RDRW_IOCTL_MAX_MSGS, 42);
    assert_eq!(I2C_SMBUS_BLOCK_MAX, 32);
}

#[test]
fn size_and_direction_codes() {
    assert_eq!(I2CSMBusSize::I2C_SMBUS_QUICK.value(), 0);
    assert_eq!(I2CSMBusSize::I2C_SMBUS_BYTE.value(), 1);
    assert_eq!(I2CSMBusSize::I2C_SMBUS_BYTE_DATA.value(), 2);
    assert_eq!(I2CSMBusSize::I2C_SMBUS_WORD_DATA.value(), 3);
    assert_eq!(I2CSMBusSize::I2C_SMBUS_PROC_CALL.value(), 4);
    assert_eq!(I2CSMBusSize::I2C_SMBUS_BLOCK_DATA.value(), 5);
    assert_eq!(I2CSMBusSize::I2C_SMBUS_I2C_BLOCK_BROKEN.value(), 6);
    assert_eq!(I2CSMBusSize::I2C_SMBUS_BLOCK_PROC_CALL.value(), 7);
    assert_eq!(I2CSMBusSize::I2C_SMBUS_I2C_BLOCK_DATA.value(), 8);
    assert_eq!(I2CSMBusReadWrite::I2C_SMBUS_READ.value(), 1);
    assert_eq!(I2CSMBusReadWrite::I2C_SMBUS_WRITE.value(), 0);
}

#[test]
fn slave_select_and_pec_calls() {
    let call = i2c_set_slave_address(0x52);
    assert_eq!((call.request, call.data), (0x0703, 0x52));
    let call = i2c_set_slave_address(0xffff);
    assert_eq!((call.request, call.data), (0x0703, 0xffff));
    let call = i2c_set_slave_address_force(0x3ff);
    assert_eq!((call.request, call.data), (0x0706, 0x3ff));
    let call = i2c_set_smbus_pec(true);
    assert_eq!((call.request, call.data), (0x0708, 1));
    let call = i2c_set_smbus_pec(false);
    assert_eq!((call.request, call.data), (0x0708, 0));
}

#[test]
fn empty_packet_is_all_zero() {
    let data = i2c_smbus_data::empty();
    assert_eq!(data.block, [0u8; 34]);
}

#[test]
fn access_fills_the_envelope() {
    let args = i2c_smbus_access(
        I2CSMBusReadWrite::I2C_SMBUS_READ,
        0x42,
        I2CSMBusSize::I2C_SMBUS_I2C_BLOCK_BROKEN,
        None,
    );
    assert_eq!((args.read_write, args.command, args.size), (1, 0x42, 6));
    assert!(args.data.is_none());
}

#[test]
fn write_quick_sends_the_bit_as_direction() {
    let args = i2c_smbus_write_quick(true);
    assert_eq!((args.read_write, args.command, args.size), (1, 0, 0));
    assert!(args.data.is_none());
    let args = i2c_smbus_write_quick(false);
    assert_eq!((args.read_write, args.command, args.size), (0, 0, 0));
    assert!(args.data.is_none());
}

#[test]
fn byte_requests() {
    let args = i2c_smbus_read_byte();
    assert_eq!((args.read_write, args.command, args.size), (1, 0, 1));
    assert_eq!(packet(&args), [0u8; 34]);
    let args = i2c_smbus_write_byte(0xa5);
    assert_eq!((args.read_write, args.command, args.size), (0, 0xa5, 1));
    assert!(args.data.is_none());
}

#[test]
fn byte_data_requests() {
    let args = i2c_smbus_read_byte_data(0x0f);
    assert_eq!((args.read_write, args.command, args.size), (1, 0x0f, 2));
    assert_eq!(packet(&args), [0u8; 34]);
    let args = i2c_smbus_write_byte_data(0xf0, 0x55);
    assert_eq!((args.read_write, args.command, args.size), (0, 0xf0, 2));
    let block = packet(&args);
    assert_eq!(block[0], 0x55);
    assert!(zeros_from(&block, 1));
}

#[test]
fn write_word_data_lays_the_word_out_in_native_order() {
    let args = i2c_smbus_write_word_data(0x10, 0xBEEF);
    assert_eq!((args.read_write, args.command, args.size), (0, 0x10, 3));
    let block = packet(&args);
    assert_eq!([block[0], block[1]], 0xBEEFu16.to_ne_bytes());
    assert!(zeros_from(&block, 2));
    assert_eq!(u16::from_le_bytes([0xEF, 0xBE]), 0xBEEF);
}

#[test]
fn read_word_data_request_and_answer() {
    let mut args = i2c_smbus_read_word_data(0x11);
    assert_eq!((args.read_write, args.command, args.size), (1, 0x11, 3));
    assert_eq!(packet(&args), [0u8; 34]);
    let bytes = 0x1234u16.to_ne_bytes();
    let mut data = i2c_smbus_data::empty();
    data.block[0] = bytes[0];
    data.block[1] = bytes[1];
    args.data = Some(data);
    assert_eq!(args.data.unwrap().word(), 0x1234);
}

#[test]
fn word_round_trip_through_the_packet() {
    for value in [0u16, 1, 0x00ff, 0x0100, 0x1234, 0x8000, 0xBEEF, 0xffff] {
        let args = i2c_smbus_write_word_data(0, value);
        assert_eq!(args.data.unwrap().word(), value);
    }
}

#[test]
fn process_call_request() {
    let args = i2c_smbus_process_call(0x20, 0x0102);
    assert_eq!((args.read_write, args.command, args.size), (0, 0x20, 4));
    let block = packet(&args);
    assert_eq!([block[0], block[1]], 0x0102u16.to_ne_bytes());
    assert!(zeros_from(&block, 2));
}

#[test]
fn block_read_requests() {
    let args = i2c_smbus_read_block_data(0x30);
    assert_eq!((args.read_write, args.command, args.size), (1, 0x30, 5));
    assert_eq!(packet(&args), [0u8; 34]);
    let args = i2c_smbus_read_i2c_block_data(0xa8, 6);
    assert_eq!((args.read_write, args.command, args.size), (1, 0xa8, 8));
    let block = packet(&args);
    assert_eq!(block[0], 6);
    assert!(zeros_from(&block, 1));
}

#[test]
fn byte_and_block_answers() {
    let mut data = i2c_smbus_data::empty();
    data.block[0] = 3;
    data.block[1] = 10;
    data.block[2] = 20;
    data.block[3] = 30;
    data.block[4] = 40;
    assert_eq!(data.byte(), 3);
    assert_eq!(data.block_data(), vec![10, 20, 30]);
    data.block[0] = 0;
    assert_eq!(data.block_data(), Vec::<u8>::new());
    data.block[0] = 33;
    assert_eq!(data.block_data().len(), 33);
}

#[test]
fn write_block_data_request() {
    let args = i2c_smbus_write_block_data(0x40, &[9, 8, 7]);
    assert_eq!((args.read_write, args.command, args.size), (0, 0x40, 5));
    let block = packet(&args);
    assert_eq!(&block[..4], &[3, 9, 8, 7]);
    assert!(zeros_from(&block, 4));
}

#[test]
fn write_i2c_block_data_request() {
    let args = i2c_smbus_write_i2c_block_data(0x41, &[1]);
    assert_eq!((args.read_write, args.command, args.size), (0, 0x41, 8));
    let block = packet(&args);
    assert_eq!(&block[..2], &[1, 1]);
    assert!(zeros_from(&block, 2));
}

#[test]
fn block_writes_clip_to_32_bytes() {
    let values: Vec<u8> = (1..=40).collect();
    for args in [i2c_smbus_write_block_data(0, &values), i2c_smbus_write_i2c_block_data(0, &values)]
    {
        let block = packet(&args);
        assert_eq!(block[0], 32);
        assert_eq!(&block[1..33], &values[..32]);
        assert_eq!(block[33], 0);
    }
    let exact: Vec<u8> = (1..=32).collect();
    let block = packet(&i2c_smbus_write_block_data(0, &exact));
    assert_eq!(block[0], 32);
    assert_eq!(&block[1..33], &exact[..]);
}

#[test]
fn block_process_call_clips_to_31_bytes() {
    let values: Vec<u8> = (1..=32).collect();
    let args = i2c_smbus_process_call_block(0x50, &values);
    assert_eq!((args.read_write, args.command, args.size), (0, 0x50, 7));
    let block = packet(&args);
    assert_eq!(block[0], 31);
    assert_eq!(&block[1..32], &values[..31]);
    assert_eq!(block[32], 0);
    assert_eq!(block[33], 0);
}

#[test]
fn empty_block_write() {
    let block = packet(&i2c_smbus_write_block_data(0, &[]));
    assert_eq!(block, [0u8; 34]);
}

#[test]
fn copy_to_block_respects_the_limit_given() {
    let data = copy_to_i2c_block_data(&[5, 6, 7, 8], 2);
    assert_eq!(&data.block[..3], &[2, 5, 6]);
    assert!(zeros_from(&data.block, 3));
    let data = copy_to_i2c_block_data(&[5, 6], 33);
    assert_eq!(&data.block[..3], &[2, 5, 6]);
    let data = copy_to_i2c_block_data(&[5, 6], 0);
    assert_eq!(data.block, [0u8; 34]);
}

#[test]
fn block_round_trip_through_the_packet() {
    for len in [0usize, 1, 2, 17, 31, 32] {
        let values: Vec<u8> = (0..len).map(|i| (i * 7 + 3) as u8).collect();
        let args = i2c_smbus_write_i2c_block_data(0x60, &values);
        assert_eq!(args.data.unwrap().block_data(), values);
    }
}

#[test]
fn rdwr_envelope_counts_the_segments() {
    let out = [0x80u8];
    let mut data = [0u8; 10];
    let mut msgs =
        [LinuxI2CMessage::write(&out).with_address(0x57), LinuxI2CMessage::read(&mut data)];
    let args = i2c_rdwr(&mut msgs);
    assert_eq!(args.nmsgs, 2);
    assert_eq!(args.msgs.len(), 2);
    assert_eq!(args.msgs[0].addr, 0x57);
    assert_eq!(args.msgs[1].addr, 0);
    assert!(matches!(args.msgs[0].buf, I2CBuffer::Write(_)));
    assert!(matches!(args.msgs[1].buf, I2CBuffer::Read(_)));
}

#[test]
fn rdwr_count_is_the_kernels_answer() {
    assert_eq!(i2c_rdwr_count(0), 0);
    assert_eq!(i2c_rdwr_count(2), 2);
    assert_eq!(i2c_rdwr_count(42), 42);
}
