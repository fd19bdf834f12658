//! The kernel's i2c-dev interface: request codes, the SMBus data packet, the
//! two `ioctl` envelopes, and one function per SMBus transaction that builds
//! the envelope to submit.
//!
//! Nothing here performs a system call. A function named after a transaction
//! returns what has to be handed to the kernel; where the transaction brings
//! data back, [`i2c_smbus_data::byte`], [`i2c_smbus_data::word`] or
//! [`i2c_smbus_data::block_data`] reads it from the packet afterwards.
use crate::bytes::{high_byte, low_byte, ne_read_u16, ne_write_u16, word_of};
use vstd::prelude::*;
use vstd::slice::{slice_subrange, slice_to_vec};

verus! {

/// Largest payload of a block transaction, as the SMBus standard has it.
pub const I2C_SMBUS_BLOCK_MAX: u8 = 32;

/// Largest payload that the packet has room for behind its length byte.
pub const I2C_SMBUS_BLOCK_ROOM: u8 = 33;

/// Request code: how often a transfer is tried again when the slave does not answer.
pub const I2C_RETRIES: u16 = 0x0701;

/// Request code: how long a transfer may take.
pub const I2C_TIMEOUT: u16 = 0x0702;

/// Request code: select the slave address.
pub const I2C_SLAVE: u16 = 0x0703;

/// Request code: select the slave address even if a driver holds it.
pub const I2C_SLAVE_FORCE: u16 = 0x0706;

/// Request code: take the slave address as one of ten bits.
pub const I2C_TENBIT: u16 = 0x0704;

/// Request code: ask what the adapter can do.
pub const I2C_FUNCS: u16 = 0x0705;

/// Request code: combined read/write transfer.
pub const I2C_RDWR: u16 = 0x0707;

/// Request code: switch packet error checking on or off.
pub const I2C_PEC: u16 = 0x0708;

/// Request code: one SMBus transaction.
pub const I2C_SMBUS: u16 = 0x0720;

/// Most segments the kernel takes in one combined transfer.
pub const I2C_RDRW_IOCTL_MAX_MSGS: u8 = 42;

/// The kernel's `union i2c_smbus_data`, held as its largest member: a length
/// byte, up to 32 bytes of payload, and one spare byte.
pub struct i2c_smbus_data {
    pub block: [u8; 34],
}

impl View for i2c_smbus_data {
    type V = Seq<u8>;

    open spec fn view(&self) -> Seq<u8> {
        self.block@
    }
}

/// The packet of 34 zero bytes.
pub open spec fn zeroed() -> Seq<u8> {
    Seq::new(34, |i: int| 0u8)
}

/// The packet that carries the single byte `value`.
pub open spec fn byte_packet(value: u8) -> Seq<u8> {
    zeroed().update(0, value)
}

/// The packet that carries the word `value` with its low byte first.
pub open spec fn low_first_packet(value: u16) -> Seq<u8> {
    zeroed().update(0, low_byte(value)).update(1, high_byte(value))
}

/// The packet that carries the word `value` with its high byte first.
pub open spec fn high_first_packet(value: u16) -> Seq<u8> {
    zeroed().update(0, high_byte(value)).update(1, low_byte(value))
}

/// Whether `packet` carries the word `value` in its first two bytes, in one
/// order or the other, and nothing else. The kernel takes the word as the
/// machine stores it, so which order it is depends on the machine.
pub open spec fn is_word_packet(packet: Seq<u8>, value: u16) -> bool {
    packet == low_first_packet(value) || packet == high_first_packet(value)
}

/// How many bytes of `values` a block packet takes when at most `max_size` are allowed.
pub open spec fn clipped_len(values: Seq<u8>, max_size: nat) -> nat {
    if values.len() > max_size {
        max_size
    } else {
        values.len()
    }
}

/// The packet that carries the first `clipped_len(values, max_size)` bytes of
/// `values`: their number, then the bytes, then zeros.
pub open spec fn block_packet(values: Seq<u8>, max_size: nat) -> Seq<u8> {
    let len = clipped_len(values, max_size);
    Seq::new(
        34,
        |i: int|
            if i == 0 {
                len as u8
            } else if i <= len {
                values[i - 1]
            } else {
                0u8
            },
    )
}

/// The payload of a block packet: as many bytes as its first byte says,
/// taken from behind it.
pub open spec fn block_payload(packet: Seq<u8>) -> Seq<u8> {
    packet.subrange(1, 1 + packet[0])
}

impl i2c_smbus_data {
    /// A packet of zeros. Every transaction starts from one, so that no stale
    /// byte reaches the kernel.
    pub fn empty() -> (data: i2c_smbus_data)
        ensures
            data@ == zeroed(),
    {
        let data = i2c_smbus_data { block: [0u8; 34] };
        assert(data@ =~= zeroed());
        data
    }

    /// The byte that a byte transaction brought back.
    pub fn byte(&self) -> (value: u8)
        ensures
            value == self@[0],
    {
        self.block[0]
    }

    /// The word that a word transaction brought back. The kernel leaves it in
    /// the first two bytes as the machine stores it: one of the two is the
    /// low byte and the other the high byte, and which is which depends on
    /// the machine.
    pub fn word(&self) -> (value: u16)
        ensures
            value == word_of(self@[0], self@[1]) || value == word_of(self@[1], self@[0]),
    {
        ne_read_u16(self.block.as_slice())
    }

    /// The payload that a block transaction brought back: the bytes behind
    /// the length byte, as many as it says. A length that the packet has no
    /// room for is not accepted.
    pub fn block_data(&self) -> (payload: Vec<u8>)
        requires
            self@[0] <= I2C_SMBUS_BLOCK_ROOM,
        ensures
            payload@ == block_payload(self@),
    {
        let count = self.block[0];
        slice_to_vec(slice_subrange(self.block.as_slice(), 1, count as usize + 1))
    }
}

/// Direction of an SMBus transaction, as the envelope encodes it.
#[derive(Clone, Copy, PartialEq, Eq, Structural, Debug)]
pub enum I2CSMBusReadWrite {
    I2C_SMBUS_READ,
    I2C_SMBUS_WRITE,
}

impl I2CSMBusReadWrite {
    /// The number the kernel knows the direction by.
    pub open spec fn code(self) -> u8 {
        match self {
            I2CSMBusReadWrite::I2C_SMBUS_READ => 1,
            I2CSMBusReadWrite::I2C_SMBUS_WRITE => 0,
        }
    }

    /// The number the kernel knows the direction by.
    pub fn value(self) -> (v: u8)
        ensures
            v == self.code(),
    {
        match self {
            I2CSMBusReadWrite::I2C_SMBUS_READ => 1,
            I2CSMBusReadWrite::I2C_SMBUS_WRITE => 0,
        }
    }
}

/// Shape of an SMBus transaction, as the envelope encodes it.
#[derive(Clone, Copy, PartialEq, Eq, Structural, Debug)]
pub enum I2CSMBusSize {
    I2C_SMBUS_QUICK,
    I2C_SMBUS_BYTE,
    I2C_SMBUS_BYTE_DATA,
    I2C_SMBUS_WORD_DATA,
    I2C_SMBUS_PROC_CALL,
    I2C_SMBUS_BLOCK_DATA,
    I2C_SMBUS_I2C_BLOCK_BROKEN,
    I2C_SMBUS_BLOCK_PROC_CALL,
    I2C_SMBUS_I2C_BLOCK_DATA,
}

impl I2CSMBusSize {
    /// The number the kernel knows the shape by.
    pub open spec fn code(self) -> u32 {
        match self {
            I2CSMBusSize::I2C_SMBUS_QUICK => 0,
            I2CSMBusSize::I2C_SMBUS_BYTE => 1,
            I2CSMBusSize::I2C_SMBUS_BYTE_DATA => 2,
            I2CSMBusSize::I2C_SMBUS_WORD_DATA => 3,
            I2CSMBusSize::I2C_SMBUS_PROC_CALL => 4,
            I2CSMBusSize::I2C_SMBUS_BLOCK_DATA => 5,
            I2CSMBusSize::I2C_SMBUS_I2C_BLOCK_BROKEN => 6,
            I2CSMBusSize::I2C_SMBUS_BLOCK_PROC_CALL => 7,
            I2CSMBusSize::I2C_SMBUS_I2C_BLOCK_DATA => 8,
        }
    }

    /// The number the kernel knows the shape by.
    pub fn value(self) -> (v: u32)
        ensures
            v == self.code(),
    {
        match self {
            I2CSMBusSize::I2C_SMBUS_QUICK => 0,
            I2CSMBusSize::I2C_SMBUS_BYTE => 1,
            I2CSMBusSize::I2C_SMBUS_BYTE_DATA => 2,
            I2CSMBusSize::I2C_SMBUS_WORD_DATA => 3,
            I2CSMBusSize::I2C_SMBUS_PROC_CALL => 4,
            I2CSMBusSize::I2C_SMBUS_BLOCK_DATA => 5,
            I2CSMBusSize::I2C_SMBUS_I2C_BLOCK_BROKEN => 6,
            I2CSMBusSize::I2C_SMBUS_BLOCK_PROC_CALL => 7,
            I2CSMBusSize::I2C_SMBUS_I2C_BLOCK_DATA => 8,
        }
    }
}

/// The argument of the `I2C_SMBUS` ioctl. Where the kernel takes a pointer to
/// the data packet, this holds the packet itself, or `None` for the null
/// pointer of the transactions that carry no data.
pub struct i2c_smbus_ioctl_data {
    pub read_write: u8,
    pub command: u8,
    pub size: u32,
    pub data: Option<i2c_smbus_data>,
}

/// An `I2C_SMBUS` argument as plain values.
pub struct SmbusArgs {
    pub read_write: u8,
    pub command: u8,
    pub size: u32,
    pub data: Option<Seq<u8>>,
}

impl View for i2c_smbus_ioctl_data {
    type V = SmbusArgs;

    open spec fn view(&self) -> SmbusArgs {
        SmbusArgs {
            read_write: self.read_write,
            command: self.command,
            size: self.size,
            data: match self.data {
                Some(data) => Some(data@),
                None => None,
            },
        }
    }
}

/// The argument for a transaction of the given direction, command byte and
/// shape that carries the packet `data`.
pub open spec fn smbus_args(
    read_write: I2CSMBusReadWrite,
    command: u8,
    size: I2CSMBusSize,
    data: Option<Seq<u8>>,
) -> SmbusArgs {
    SmbusArgs { read_write: read_write.code(), command, size: size.code(), data }
}

/// An ioctl whose argument is a plain integer: the request code and the integer.
pub struct IoctlWriteInt {
    pub request: u16,
    pub data: i32,
}

/// Selects `slave_address` for the plain reads and writes and the SMBus
/// transactions that follow. The kernel refuses an address that one of its
/// drivers holds.
pub fn i2c_set_slave_address(slave_address: u16) -> (call: IoctlWriteInt)
    ensures
        call.request == I2C_SLAVE,
        call.data == slave_address,
{
    IoctlWriteInt { request: I2C_SLAVE, data: slave_address as i32 }
}

/// Selects `slave_address` whether or not a kernel driver holds it.
pub fn i2c_set_slave_address_force(slave_address: u16) -> (call: IoctlWriteInt)
    ensures
        call.request == I2C_SLAVE_FORCE,
        call.data == slave_address,
{
    IoctlWriteInt { request: I2C_SLAVE_FORCE, data: slave_address as i32 }
}

/// Switches packet error checking on (1) or off (0).
pub fn i2c_set_smbus_pec(enable: bool) -> (call: IoctlWriteInt)
    ensures
        call.request == I2C_PEC,
        call.data == if enable { 1i32 } else { 0i32 },
{
    IoctlWriteInt { request: I2C_PEC, data: if enable { 1 } else { 0 } }
}

/// Puts direction, command byte, shape and packet into the envelope.
pub fn i2c_smbus_access(
    read_write: I2CSMBusReadWrite,
    command: u8,
    size: I2CSMBusSize,
    data: Option<i2c_smbus_data>,
) -> (args: i2c_smbus_ioctl_data)
    ensures
        args@ == smbus_args(
            read_write,
            command,
            size,
            match data {
                Some(data) => Some(data@),
                None => None,
            },
        ),
{
    i2c_smbus_ioctl_data { read_write: read_write.value(), command, size: size.value(), data }
}

/// Quick command. The one bit it sends travels in the place of the direction:
/// `true` goes out as a read, `false` as a write. There is no packet.
pub fn i2c_smbus_write_quick(bit: bool) -> (args: i2c_smbus_ioctl_data)
    ensures
        args@ == smbus_args(
            if bit {
                I2CSMBusReadWrite::I2C_SMBUS_READ
            } else {
                I2CSMBusReadWrite::I2C_SMBUS_WRITE
            },
            0,
            I2CSMBusSize::I2C_SMBUS_QUICK,
            None,
        ),
{
    let read_write = if bit {
        I2CSMBusReadWrite::I2C_SMBUS_READ
    } else {
        I2CSMBusReadWrite::I2C_SMBUS_WRITE
    };
    i2c_smbus_access(read_write, 0, I2CSMBusSize::I2C_SMBUS_QUICK, None)
}

/// Reads one byte without naming a register. The answer is the packet's
/// [`byte`](i2c_smbus_data::byte).
pub fn i2c_smbus_read_byte() -> (args: i2c_smbus_ioctl_data)
    ensures
        args@ == smbus_args(
            I2CSMBusReadWrite::I2C_SMBUS_READ,
            0,
            I2CSMBusSize::I2C_SMBUS_BYTE,
            Some(zeroed()),
        ),
{
    i2c_smbus_access(
        I2CSMBusReadWrite::I2C_SMBUS_READ,
        0,
        I2CSMBusSize::I2C_SMBUS_BYTE,
        Some(i2c_smbus_data::empty()),
    )
}

/// Writes one byte without naming a register. The byte travels as the
/// command; there is no packet.
pub fn i2c_smbus_write_byte(value: u8) -> (args: i2c_smbus_ioctl_data)
    ensures
        args@ == smbus_args(
            I2CSMBusReadWrite::I2C_SMBUS_WRITE,
            value,
            I2CSMBusSize::I2C_SMBUS_BYTE,
            None,
        ),
{
    i2c_smbus_access(I2CSMBusReadWrite::I2C_SMBUS_WRITE, value, I2CSMBusSize::I2C_SMBUS_BYTE, None)
}

/// Reads one byte from `register`. The answer is the packet's
/// [`byte`](i2c_smbus_data::byte).
pub fn i2c_smbus_read_byte_data(register: u8) -> (args: i2c_smbus_ioctl_data)
    ensures
        args@ == smbus_args(
            I2CSMBusReadWrite::I2C_SMBUS_READ,
            register,
            I2CSMBusSize::I2C_SMBUS_BYTE_DATA,
            Some(zeroed()),
        ),
{
    i2c_smbus_access(
        I2CSMBusReadWrite::I2C_SMBUS_READ,
        register,
        I2CSMBusSize::I2C_SMBUS_BYTE_DATA,
        Some(i2c_smbus_data::empty()),
    )
}

/// Writes `value` to `register`. The value is the first byte of the packet.
pub fn i2c_smbus_write_byte_data(register: u8, value: u8) -> (args: i2c_smbus_ioctl_data)
    ensures
        args@ == smbus_args(
            I2CSMBusReadWrite::I2C_SMBUS_WRITE,
            register,
            I2CSMBusSize::I2C_SMBUS_BYTE_DATA,
            Some(byte_packet(value)),
        ),
{
    let mut data = i2c_smbus_data::empty();
    data.block[0] = value;
    assert(data@ =~= byte_packet(value));
    i2c_smbus_access(
        I2CSMBusReadWrite::I2C_SMBUS_WRITE,
        register,
        I2CSMBusSize::I2C_SMBUS_BYTE_DATA,
        Some(data),
    )
}

/// Reads a word from `register`. The answer is the packet's
/// [`word`](i2c_smbus_data::word).
pub fn i2c_smbus_read_word_data(register: u8) -> (args: i2c_smbus_ioctl_data)
    ensures
        args@ == smbus_args(
            I2CSMBusReadWrite::I2C_SMBUS_READ,
            register,
            I2CSMBusSize::I2C_SMBUS_WORD_DATA,
            Some(zeroed()),
        ),
{
    i2c_smbus_access(
        I2CSMBusReadWrite::I2C_SMBUS_READ,
        register,
        I2CSMBusSize::I2C_SMBUS_WORD_DATA,
        Some(i2c_smbus_data::empty()),
    )
}

/// A zeroed packet with `value` in its first two bytes as the machine stores
/// it: the kernel reads the word from there without swapping bytes.
fn word_data(value: u16) -> (data: i2c_smbus_data)
    ensures
        is_word_packet(data@, value),
{
    let mut data = i2c_smbus_data::empty();
    ne_write_u16(&mut data.block, value);
    data
}

/// Writes the word `value` to `register`. The packet carries the word in
/// its first two bytes as the machine stores it.
pub fn i2c_smbus_write_word_data(register: u8, value: u16) -> (args: i2c_smbus_ioctl_data)
    ensures
        args@.data matches Some(packet) && is_word_packet(packet, value),
        args@ == smbus_args(
            I2CSMBusReadWrite::I2C_SMBUS_WRITE,
            register,
            I2CSMBusSize::I2C_SMBUS_WORD_DATA,
            args@.data,
        ),
{
    i2c_smbus_access(
        I2CSMBusReadWrite::I2C_SMBUS_WRITE,
        register,
        I2CSMBusSize::I2C_SMBUS_WORD_DATA,
        Some(word_data(value)),
    )
}

/// Process call: writes the word `value` to `register` and reads a word back
/// in the same transaction. The packet carries the word in its first two
/// bytes as the machine stores it. The answer is the packet's
/// [`word`](i2c_smbus_data::word).
pub fn i2c_smbus_process_call(register: u8, value: u16) -> (args: i2c_smbus_ioctl_data)
    ensures
        args@.data matches Some(packet) && is_word_packet(packet, value),
        args@ == smbus_args(
            I2CSMBusReadWrite::I2C_SMBUS_WRITE,
            register,
            I2CSMBusSize::I2C_SMBUS_PROC_CALL,
            args@.data,
        ),
{
    i2c_smbus_access(
        I2CSMBusReadWrite::I2C_SMBUS_WRITE,
        register,
        I2CSMBusSize::I2C_SMBUS_PROC_CALL,
        Some(word_data(value)),
    )
}

/// Reads a block from `register`; the slave says how long it is. The answer
/// is the packet's [`block_data`](i2c_smbus_data::block_data).
pub fn i2c_smbus_read_block_data(register: u8) -> (args: i2c_smbus_ioctl_data)
    ensures
        args@ == smbus_args(
            I2CSMBusReadWrite::I2C_SMBUS_READ,
            register,
            I2CSMBusSize::I2C_SMBUS_BLOCK_DATA,
            Some(zeroed()),
        ),
{
    i2c_smbus_access(
        I2CSMBusReadWrite::I2C_SMBUS_READ,
        register,
        I2CSMBusSize::I2C_SMBUS_BLOCK_DATA,
        Some(i2c_smbus_data::empty()),
    )
}

/// Reads `len` bytes from `register`, I2C style: the caller says how many,
/// in the first byte of the packet. The answer is the packet's
/// [`block_data`](i2c_smbus_data::block_data).
pub fn i2c_smbus_read_i2c_block_data(register: u8, len: u8) -> (args: i2c_smbus_ioctl_data)
    ensures
        args@ == smbus_args(
            I2CSMBusReadWrite::I2C_SMBUS_READ,
            register,
            I2CSMBusSize::I2C_SMBUS_I2C_BLOCK_DATA,
            Some(byte_packet(len)),
        ),
{
    let mut data = i2c_smbus_data::empty();
    data.block[0] = len;
    assert(data@ =~= byte_packet(len));
    i2c_smbus_access(
        I2CSMBusReadWrite::I2C_SMBUS_READ,
        register,
        I2CSMBusSize::I2C_SMBUS_I2C_BLOCK_DATA,
        Some(data),
    )
}

/// The first `max_size` bytes of `values`, or all of them if they are fewer,
/// as a block packet. No more than the packet has room for can be asked for.
pub fn copy_to_i2c_block_data(values: &[u8], max_size: usize) -> (data: i2c_smbus_data)
    requires
        clipped_len(values@, max_size as nat) <= I2C_SMBUS_BLOCK_ROOM,
    ensures
        data@ == block_packet(values@, max_size as nat),
{
    let mut data = i2c_smbus_data::empty();
    let len: usize = if values.len() > max_size {
        max_size
    } else {
        values.len()
    };
    data.block[0] = len as u8;
    let mut i: usize = 0;
    while i < len
        invariant
            i <= len,
            len == clipped_len(values@, max_size as nat),
            len <= 33,
            data@.len() == 34,
            data@[0] == len as u8,
            forall|j: int| 1 <= j <= i ==> data@[j] == values@[j - 1],
            forall|j: int| i < j < 34 ==> data@[j] == 0u8,
        decreases len - i,
    {
        data.block[i + 1] = values[i];
        i += 1;
    }
    assert(data@ =~= block_packet(values@, max_size as nat));
    data
}

/// Writes up to 32 bytes of `values` to `register`, their number first.
/// What is beyond 32 bytes is left out without a word.
pub fn i2c_smbus_write_block_data(register: u8, values: &[u8]) -> (args: i2c_smbus_ioctl_data)
    ensures
        args@ == smbus_args(
            I2CSMBusReadWrite::I2C_SMBUS_WRITE,
            register,
            I2CSMBusSize::I2C_SMBUS_BLOCK_DATA,
            Some(block_packet(values@, 32)),
        ),
{
    let data = copy_to_i2c_block_data(values, 32);
    i2c_smbus_access(
        I2CSMBusReadWrite::I2C_SMBUS_WRITE,
        register,
        I2CSMBusSize::I2C_SMBUS_BLOCK_DATA,
        Some(data),
    )
}

/// Writes up to 32 bytes of `values` to `register`, I2C style. What is
/// beyond 32 bytes is left out without a word.
pub fn i2c_smbus_write_i2c_block_data(register: u8, values: &[u8]) -> (args: i2c_smbus_ioctl_data)
    ensures
        args@ == smbus_args(
            I2CSMBusReadWrite::I2C_SMBUS_WRITE,
            register,
            I2CSMBusSize::I2C_SMBUS_I2C_BLOCK_DATA,
            Some(block_packet(values@, 32)),
        ),
{
    let data = copy_to_i2c_block_data(values, 32);
    i2c_smbus_access(
        I2CSMBusReadWrite::I2C_SMBUS_WRITE,
        register,
        I2CSMBusSize::I2C_SMBUS_I2C_BLOCK_DATA,
        Some(data),
    )
}

/// Block process call: writes up to 31 bytes of `values` to `register` and
/// reads a block back in the same transaction. What is beyond 31 bytes is
/// left out without a word. The answer is the packet's
/// [`block_data`](i2c_smbus_data::block_data).
pub fn i2c_smbus_process_call_block(register: u8, values: &[u8]) -> (args: i2c_smbus_ioctl_data)
    ensures
        args@ == smbus_args(
            I2CSMBusReadWrite::I2C_SMBUS_WRITE,
            register,
            I2CSMBusSize::I2C_SMBUS_BLOCK_PROC_CALL,
            Some(block_packet(values@, 31)),
        ),
{
    let data = copy_to_i2c_block_data(values, 31);
    i2c_smbus_access(
        I2CSMBusReadWrite::I2C_SMBUS_WRITE,
        register,
        I2CSMBusSize::I2C_SMBUS_BLOCK_PROC_CALL,
        Some(data),
    )
}

/// The buffer of one segment of a combined transfer. Where the kernel takes
/// a pointer, this holds the borrow it points into: the bytes to send, or
/// the room for the bytes to receive.
pub enum I2CBuffer<'a> {
    Write(&'a [u8]),
    Read(&'a mut [u8]),
}

/// One segment of a combined transfer, field by field as the kernel's
/// `struct i2c_msg` has it.
pub struct i2c_msg<'a> {
    /// Slave address, seven bits, or ten where the flags say so.
    pub addr: u16,
    /// Flag word; see `I2CMessageFlags`.
    pub flags: u16,
    /// Number of bytes to send or to receive.
    pub len: u16,
    /// The bytes to send, or the room for the bytes to receive.
    pub buf: I2CBuffer<'a>,
}

/// The argument of the `I2C_RDWR` ioctl: the segments and their number.
pub struct i2c_rdwr_ioctl_data<'a> {
    pub msgs: &'a mut [i2c_msg<'a>],
    pub nmsgs: u32,
}

/// Puts the segments into the envelope of a combined transfer, as they are
/// and in their order, with their number in its 32 bits. The kernel takes
/// at most [`I2C_RDRW_IOCTL_MAX_MSGS`] of them and refuses the call
/// otherwise.
pub fn i2c_rdwr<'a>(values: &'a mut [i2c_msg<'a>]) -> (args: i2c_rdwr_ioctl_data<'a>)
    ensures
        args.nmsgs == old(values)@.len() % 0x1_0000_0000,
        args.msgs@ == old(values)@,
        final(args.msgs)@ == final(values)@,
{
    let len = values.len();
    assert(len as u32 == (len as u64) % 0x1_0000_0000) by (bit_vector);
    let nmsgs = #[verifier::truncate] (len as u32);
    i2c_rdwr_ioctl_data { msgs: values, nmsgs }
}

/// The number of segments that the kernel says it has carried out: its
/// answer, which on success is not negative, read as an unsigned number.
pub fn i2c_rdwr_count(answer: i32) -> (count: u32)
    ensures
        count == if answer >= 0 {
            answer as int
        } else {
            answer + 0x1_0000_0000
        },
{
    assert(answer as u32 == if answer >= 0 {
        answer as int
    } else {
        answer + 0x1_0000_0000
    }) by (bit_vector);
    #[verifier::truncate]
    (answer as u32)
}

/// A block packet never holds more than it was allowed to, holds the start
/// of what it was given, and is zero behind that.
pub proof fn lemma_block_packet_clips(values: Seq<u8>, max_size: nat)
    requires
        max_size <= I2C_SMBUS_BLOCK_ROOM,
    ensures
        block_packet(values, max_size).len() == 34,
        block_packet(values, max_size)[0] == clipped_len(values, max_size),
        clipped_len(values, max_size) <= max_size,
        clipped_len(values, max_size) <= values.len(),
        block_payload(block_packet(values, max_size)) == values.take(
            clipped_len(values, max_size) as int,
        ),
        forall|i: int|
            clipped_len(values, max_size) < i < 34 ==> block_packet(values, max_size)[i] == 0,
{
    assert(block_payload(block_packet(values, max_size)) =~= values.take(
        clipped_len(values, max_size) as int,
    ));
}

/// A block of at most 32 bytes comes back whole: the packet that
/// [`i2c_smbus_write_i2c_block_data`] or [`i2c_smbus_write_block_data`]
/// makes of `values` is one that
/// [`block_data`](i2c_smbus_data::block_data) takes, and reads as `values`
/// again.
pub proof fn lemma_block_round_trip(values: Seq<u8>)
    requires
        values.len() <= I2C_SMBUS_BLOCK_MAX,
    ensures
        block_packet(values, 32)[0] <= I2C_SMBUS_BLOCK_ROOM,
        block_payload(block_packet(values, 32)) == values,
{
    lemma_block_packet_clips(values, 32);
    assert(values.take(values.len() as int) =~= values);
}

/// A word comes back unchanged from a packet that is read in the order it
/// was written in, whichever of the two orders that is.
pub proof fn lemma_word_round_trip(value: u16)
    ensures
        word_of(low_first_packet(value)[0], low_first_packet(value)[1]) == value,
        word_of(high_first_packet(value)[1], high_first_packet(value)[0]) == value,
{
    crate::bytes::lemma_word_of_bytes(value);
}

} // verus!
