//! An I2C device that lives in memory: a file of 256 registers and a cursor.
use crate::bytes::{high_byte, low_byte};
use crate::device::{
    byte_read, register_writes, word_read, word_write, write_read_step, writes_allowed,
    writes_step, I2CDevice, I2CMessage, I2CTransfer,
};
use vstd::prelude::*;

verus! {

/// Why the mock device refused.
#[derive(Clone, Copy, PartialEq, Eq, Structural, Debug)]
pub enum MockI2CError {
    /// The mock does not offer the transaction.
    Unimplemented,
}

/// Result of a transaction on the mock device.
pub type I2CResult<T> = Result<T, MockI2CError>;

/// Number of registers of the mock device.
pub const REGISTER_COUNT: usize = 256;

/// The registers after `data` has been stored from `offset` on.
pub open spec fn stored(registers: Seq<u8>, offset: int, data: Seq<u8>) -> Seq<u8> {
    Seq::new(
        registers.len(),
        |i: int|
            if offset <= i < offset + data.len() {
                data[i - offset]
            } else {
                registers[i]
            },
    )
}

/// A register file as plain values: what each register holds, and where the
/// next read starts.
pub struct Registers {
    pub registers: Seq<u8>,
    pub offset: nat,
}

impl Registers {
    /// The register file of a new device: all zero, cursor at the start.
    pub open spec fn new() -> Registers {
        Registers { registers: Seq::new(REGISTER_COUNT as nat, |i: int| 0u8), offset: 0 }
    }

    /// A read of `len` bytes stays inside the register file.
    pub open spec fn read_allowed(self, len: nat) -> bool {
        self.offset + len <= REGISTER_COUNT
    }

    /// What a read of `len` bytes gives: the registers from the cursor on.
    pub open spec fn read_bytes(self, len: nat) -> Seq<u8> {
        self.registers.subrange(self.offset as int, (self.offset + len) as int)
    }

    /// The register file after a read of `len` bytes: the cursor has moved on.
    pub open spec fn after_read(self, len: nat) -> Registers {
        Registers { registers: self.registers, offset: self.offset + len }
    }

    /// `data` from `offset` on stays inside the register file.
    pub open spec fn write_regs_allowed(self, offset: nat, data: Seq<u8>) -> bool {
        offset + data.len() <= REGISTER_COUNT
    }

    /// The register file after `data` has been stored from `offset` on. The
    /// cursor stays.
    pub open spec fn after_write_regs(self, offset: nat, data: Seq<u8>) -> Registers {
        Registers { registers: stored(self.registers, offset as int, data), offset: self.offset }
    }

    /// A write has a first byte, which says where the rest goes, and the rest
    /// stays inside the register file.
    pub open spec fn write_allowed(self, data: Seq<u8>) -> bool {
        data.len() >= 1 && data[0] + data.len() - 1 <= REGISTER_COUNT
    }

    /// The register file after a write of `data`: the bytes behind the first
    /// are stored from the register that the first one names, and the cursor
    /// stands behind the last register written.
    pub open spec fn after_write(self, data: Seq<u8>) -> Registers {
        Registers {
            registers: stored(self.registers, data[0] as int, data.skip(1)),
            offset: (data[0] + data.len() - 1) as nat,
        }
    }
}

/// The register file of the mock device.
pub struct I2CRegisterMap {
    registers: [u8; 256],
    offset: usize,
}

impl View for I2CRegisterMap {
    type V = Registers;

    closed spec fn view(&self) -> Registers {
        Registers { registers: self.registers@, offset: self.offset as nat }
    }
}

impl Default for I2CRegisterMap {
    fn default() -> (map: Self)
        ensures
            map@ == Registers::new(),
    {
        Self::new()
    }
}

impl I2CRegisterMap {
    /// A register file can hold 256 bytes, no more and no fewer.
    pub proof fn lemma_register_count(&self)
        ensures
            self@.registers.len() == REGISTER_COUNT,
    {
    }

    /// A register file of zeros with the cursor at the start.
    pub fn new() -> (map: I2CRegisterMap)
        ensures
            map@ == Registers::new(),
    {
        let map = I2CRegisterMap { registers: [0x00;256], offset: 0 };
        assert(map@.registers =~= Registers::new().registers);
        map
    }

    /// Stores `data` in the registers from `offset` on.
    pub fn write_regs(&mut self, offset: usize, data: &[u8])
        requires
            old(self)@.write_regs_allowed(offset as nat, data@),
        ensures
            final(self)@ == old(self)@.after_write_regs(offset as nat, data@),
    {
        let len = data.len();
        let mut i: usize = 0;
        while i < len
            invariant
                len == data@.len(),
                offset + len <= 256,
                i <= len,
                self.offset == old(self).offset,
                forall|j: int|
                    0 <= j < 256 ==> self.registers@[j] == if offset <= j < offset + i {
                        data@[j - offset]
                    } else {
                        old(self).registers@[j]
                    },
            decreases len - i,
        {
            self.registers[offset + i] = data[i];
            i += 1;
        }
        assert(self@.registers =~= stored(old(self)@.registers, offset as int, data@));
    }

    /// Fills `data` with the registers from the cursor on, and moves the
    /// cursor behind the last register read.
    pub fn read(&mut self, data: &mut [u8]) -> (r: I2CResult<()>)
        requires
            old(self)@.read_allowed(old(data)@.len()),
        ensures
            r is Ok,
            final(data)@ == old(self)@.read_bytes(old(data)@.len()),
            final(self)@ == old(self)@.after_read(old(data)@.len()),
    {
        let len = data.len();
        let mut i: usize = 0;
        while i < len
            invariant
                len == data@.len(),
                data@.len() == old(data)@.len(),
                i <= len,
                self.offset == old(self).offset + i,
                old(self).offset + len <= 256,
                self.registers == old(self).registers,
                forall|j: int| 0 <= j < i ==> data@[j] == self.registers@[old(self).offset + j],
            decreases len - i,
        {
            data[i] = self.registers[self.offset];
            self.offset += 1;
            i += 1;
        }
        assert(data@ =~= old(self)@.read_bytes(len as nat));
        Ok(())
    }

    /// Takes the first byte of `data` as a register number, stores the rest
    /// from that register on, and moves the cursor behind the last register
    /// written.
    pub fn write(&mut self, data: &[u8]) -> (r: I2CResult<()>)
        requires
            old(self)@.write_allowed(data@),
        ensures
            r is Ok,
            final(self)@ == old(self)@.after_write(data@),
    {
        let offset = data[0] as usize;
        let remdata = vstd::slice::slice_subrange(data, 1, data.len());
        assert(remdata@ =~= data@.skip(1));
        self.write_regs(offset, remdata);
        self.offset = offset + remdata.len();
        Ok(())
    }
}

/// A mock I2C device that exposes its register file.
pub struct MockI2CDevice {
    pub regmap: I2CRegisterMap,
}

impl Default for MockI2CDevice {
    fn default() -> (device: Self)
        ensures
            device.regmap@ == Registers::new(),
    {
        Self::new()
    }
}

impl MockI2CDevice {
    /// A mock device whose registers are all zero.
    pub fn new() -> (device: MockI2CDevice)
        ensures
            device.regmap@ == Registers::new(),
    {
        MockI2CDevice { regmap: I2CRegisterMap::new() }
    }
}

impl I2CDevice for MockI2CDevice {
    type Error = MockI2CError;

    open spec fn read_allowed(&self, len: nat) -> bool {
        self.regmap@.read_allowed(len)
    }

    open spec fn write_allowed(&self, data: Seq<u8>) -> bool {
        self.regmap@.write_allowed(data)
    }

    open spec fn read_step(&self, len: nat, r: Result<Seq<u8>, MockI2CError>, next: &Self) -> bool {
        &&& r == Ok::<Seq<u8>, MockI2CError>(self.regmap@.read_bytes(len))
        &&& next.regmap@ == self.regmap@.after_read(len)
    }

    open spec fn write_step(&self, data: Seq<u8>, failure: Option<MockI2CError>, next: &Self) -> bool {
        &&& failure is None
        &&& next.regmap@ == self.regmap@.after_write(data)
    }

    fn read(&mut self, data: &mut [u8]) -> (r: I2CResult<()>) {
        self.regmap.read(data)
    }

    fn write(&mut self, data: &[u8]) -> (r: I2CResult<()>) {
        self.regmap.write(data)
    }

    /// The mock has no quick command.
    fn smbus_write_quick(&mut self, _bit: bool) -> (r: I2CResult<()>)
        ensures
            r == Err::<(), MockI2CError>(MockI2CError::Unimplemented),
            final(self).regmap@ == old(self).regmap@,
    {
        Err(MockI2CError::Unimplemented)
    }

    /// The mock has no block read.
    fn smbus_read_block_data(&mut self, _register: u8) -> (r: I2CResult<Vec<u8>>)
        ensures
            r == Err::<Vec<u8>, MockI2CError>(MockI2CError::Unimplemented),
            final(self).regmap@ == old(self).regmap@,
    {
        Err(MockI2CError::Unimplemented)
    }

    /// The mock has no block write.
    fn smbus_write_block_data(&mut self, _register: u8, _values: &[u8]) -> (r: I2CResult<()>)
        ensures
            r == Err::<(), MockI2CError>(MockI2CError::Unimplemented),
            final(self).regmap@ == old(self).regmap@,
    {
        Err(MockI2CError::Unimplemented)
    }

    /// The mock has no block process call.
    fn smbus_process_block(&mut self, _register: u8, _values: &[u8]) -> (r: I2CResult<Vec<u8>>)
        ensures
            r == Err::<Vec<u8>, MockI2CError>(MockI2CError::Unimplemented),
            final(self).regmap@ == old(self).regmap@,
    {
        Err(MockI2CError::Unimplemented)
    }

    /// The mock has no I2C block read.
    fn smbus_read_i2c_block_data(&mut self, _register: u8, _len: u8) -> (r: I2CResult<Vec<u8>>)
        ensures
            r == Err::<Vec<u8>, MockI2CError>(MockI2CError::Unimplemented),
            final(self).regmap@ == old(self).regmap@,
    {
        Err(MockI2CError::Unimplemented)
    }

    /// The mock has no I2C block write.
    fn smbus_write_i2c_block_data(&mut self, _register: u8, _values: &[u8]) -> (r: I2CResult<()>)
        ensures
            r == Err::<(), MockI2CError>(MockI2CError::Unimplemented),
            final(self).regmap@ == old(self).regmap@,
    {
        Err(MockI2CError::Unimplemented)
    }
}

/// One segment of a combined transfer as plain values: the bytes to write,
/// or the number of bytes to read.
pub enum Segment {
    Write(Seq<u8>),
    Read(nat),
}

impl Registers {
    /// The segment is a read or a write that the register file takes.
    pub open spec fn segment_allowed(self, segment: Segment) -> bool {
        match segment {
            Segment::Write(data) => self.write_allowed(data),
            Segment::Read(len) => self.read_allowed(len),
        }
    }

    /// The register file after the segment.
    pub open spec fn after_segment(self, segment: Segment) -> Registers {
        match segment {
            Segment::Write(data) => self.after_write(data),
            Segment::Read(len) => self.after_read(len),
        }
    }

    /// The register file after the segments, one after the other.
    pub open spec fn after_transfer(self, segments: Seq<Segment>) -> Registers
        decreases segments.len(),
    {
        if segments.len() == 0 {
            self
        } else {
            self.after_transfer(segments.drop_last()).after_segment(segments.last())
        }
    }

    /// Each segment is one that the register file takes when its turn comes.
    pub open spec fn transfer_allowed(self, segments: Seq<Segment>) -> bool {
        forall|i: int|
            0 <= i < segments.len() ==> #[trigger] self.after_transfer(
                segments.take(i),
            ).segment_allowed(segments[i])
    }
}

/// The byte that the writes `writes`, made one after the other on a new
/// device, leave in `register`: the byte that the last write to reach the
/// register put there, or zero if none reached it.
pub open spec fn last_written(writes: Seq<Seq<u8>>, register: int) -> u8
    decreases writes.len(),
{
    if writes.len() == 0 {
        0u8
    } else {
        let data = writes.last();
        if data.len() >= 1 && data[0] <= register < data[0] + data.len() - 1 {
            data[register - data[0] + 1]
        } else {
            last_written(writes.drop_last(), register)
        }
    }
}

impl Registers {
    /// The register file after the plain writes `writes`, one after the other.
    pub open spec fn after_writes(self, writes: Seq<Seq<u8>>) -> Registers
        decreases writes.len(),
    {
        if writes.len() == 0 {
            self
        } else {
            self.after_writes(writes.drop_last()).after_write(writes.last())
        }
    }

    /// Whatever is written to a new device, a register holds the last byte
    /// written to it, or zero if nothing was.
    pub proof fn lemma_registers_hold_last_written(writes: Seq<Seq<u8>>, register: u8)
        requires
            forall|i: int| 0 <= i < writes.len() ==> Registers::new().write_allowed(#[trigger] writes[i]),
        ensures
            Registers::new().after_writes(writes).registers.len() == REGISTER_COUNT,
            Registers::new().after_writes(writes).registers[register as int] == last_written(
                writes,
                register as int,
            ),
        decreases writes.len(),
    {
        if writes.len() > 0 {
            Self::lemma_registers_hold_last_written(writes.drop_last(), register);
        }
    }
}

impl MockI2CDevice {
    /// The mock takes every write of a register and a value, whatever state
    /// it is in.
    pub proof fn lemma_takes_register_writes(self, settings: Seq<(u8, u8)>)
        ensures
            writes_allowed(self, register_writes(settings)),
    {
    }

    /// On the mock, plain writes made in turn never fail, and leave the
    /// register file as the writes leave it one after the other.
    pub proof fn lemma_writes(
        pre: MockI2CDevice,
        writes: Seq<Seq<u8>>,
        failure: Option<MockI2CError>,
        post: MockI2CDevice,
    )
        requires
            writes_step(pre, writes, failure, post),
        ensures
            failure is None,
            post.regmap@ == pre.regmap@.after_writes(writes),
        decreases writes.len(),
    {
        if writes.len() > 0 {
            if failure is Some && writes_step(pre, writes.drop_last(), failure, post) {
                Self::lemma_writes(pre, writes.drop_last(), failure, post);
            } else {
                let mid = choose|mid: MockI2CDevice|
                    writes_step(pre, writes.drop_last(), None, mid) && #[trigger] mid.write_step(
                        writes.last(),
                        failure,
                        &post,
                    );
                Self::lemma_writes(pre, writes.drop_last(), None, mid);
            }
        }
    }

    /// On the mock, a plain write followed by a plain read never fails: the
    /// read gives the registers from where the write has left the cursor.
    pub proof fn lemma_write_read(
        pre: MockI2CDevice,
        out: Seq<u8>,
        len: nat,
        r: Result<Seq<u8>, MockI2CError>,
        post: MockI2CDevice,
    )
        requires
            write_read_step(pre, out, len, r, post),
        ensures
            r == Ok::<Seq<u8>, MockI2CError>(pre.regmap@.after_write(out).read_bytes(len)),
            post.regmap@ == pre.regmap@.after_write(out).after_read(len),
    {
    }

    /// On the mock, reading a register by
    /// [`smbus_read_byte_data`](I2CDevice::smbus_read_byte_data) always
    /// succeeds, gives what the register holds, and leaves the cursor behind
    /// that register.
    pub proof fn lemma_read_byte_data(
        pre: MockI2CDevice,
        register: u8,
        r: Result<u8, MockI2CError>,
        post: MockI2CDevice,
    )
        requires
            write_read_step(pre, seq![register], 1, byte_read(r), post),
        ensures
            r == Ok::<u8, MockI2CError>(pre.regmap@.registers[register as int]),
            post.regmap@.registers == pre.regmap@.registers,
            post.regmap@.offset == register + 1,
    {
        Self::lemma_write_read(pre, seq![register], 1, byte_read(r), post);
        pre.regmap.lemma_register_count();
        assert(seq![register].skip(1) =~= Seq::<u8>::empty());
        assert(pre.regmap@.after_write(seq![register]).registers =~= pre.regmap@.registers);
        assert(pre.regmap@.after_write(seq![register]).read_bytes(1)[0]
            == pre.regmap@.registers[register as int]);
        assert(byte_read(r)->Ok_0[0] == r->Ok_0);
    }

    /// Whatever plain writes a new mock device has taken, reading a register
    /// by [`smbus_read_byte_data`](I2CDevice::smbus_read_byte_data) gives the
    /// last byte written to that register, or zero if none was.
    pub proof fn lemma_read_gives_last_written(
        pre: MockI2CDevice,
        writes: Seq<Seq<u8>>,
        register: u8,
        r: Result<u8, MockI2CError>,
        post: MockI2CDevice,
    )
        requires
            forall|i: int|
                0 <= i < writes.len() ==> Registers::new().write_allowed(#[trigger] writes[i]),
            pre.regmap@ == Registers::new().after_writes(writes),
            write_read_step(pre, seq![register], 1, byte_read(r), post),
        ensures
            r == Ok::<u8, MockI2CError>(last_written(writes, register as int)),
    {
        Registers::lemma_registers_hold_last_written(writes, register);
        Self::lemma_read_byte_data(pre, register, r, post);
    }

    /// On the mock, a word written to a register by
    /// [`smbus_write_word_data`](I2CDevice::smbus_write_word_data) and then
    /// read from it by
    /// [`smbus_read_word_data`](I2CDevice::smbus_read_word_data) comes back
    /// as it was. The register must not be the last one, behind which there
    /// is no room for the word's second byte.
    pub proof fn lemma_word_round_trip(
        pre: MockI2CDevice,
        register: u8,
        value: u16,
        written: Option<MockI2CError>,
        mid: MockI2CDevice,
        r: Result<u16, MockI2CError>,
        post: MockI2CDevice,
    )
        requires
            register < 255,
            pre.write_step(word_write(register, value), written, &mid),
            write_read_step(mid, seq![register], 2, word_read(r), post),
        ensures
            written is None,
            r == Ok::<u16, MockI2CError>(value),
    {
        Self::lemma_write_read(mid, seq![register], 2, word_read(r), post);
        pre.regmap.lemma_register_count();
        let after = pre.regmap@.after_write(word_write(register, value));
        assert(word_write(register, value).skip(1) =~= seq![low_byte(value), high_byte(value)]);
        assert(seq![register].skip(1) =~= Seq::<u8>::empty());
        assert(after.after_write(seq![register]).registers =~= after.registers);
        let bytes = after.after_write(seq![register]).read_bytes(2);
        assert(bytes[0] == low_byte(value));
        assert(bytes[1] == high_byte(value));
        assert(word_read(r)->Ok_0[0] == low_byte(r->Ok_0));
        assert(word_read(r)->Ok_0[1] == high_byte(r->Ok_0));
        crate::bytes::lemma_word_of_bytes(value);
        crate::bytes::lemma_word_of_bytes(r->Ok_0);
    }
}

/// The buffer of a mock segment, and with it the direction.
#[derive(Debug)]
pub enum MessageType<'a> {
    Write(&'a [u8]),
    Read(&'a mut [u8]),
}

/// One segment of a combined transfer on the mock device.
pub struct MockI2CMessage<'a> {
    pub msg_type: MessageType<'a>,
}

/// The segments as plain values.
pub open spec fn segments(msgs: Seq<MockI2CMessage<'_>>) -> Seq<Segment> {
    Seq::new(msgs.len(), |i: int| msgs[i].segment())
}

impl<'a> MockI2CMessage<'a> {
    /// The segment as plain values.
    pub open spec fn segment(&self) -> Segment {
        match self.msg_type {
            MessageType::Write(data) => Segment::Write(data@),
            MessageType::Read(data) => Segment::Read(data@.len()),
        }
    }

    /// The bytes in the segment's buffer.
    pub open spec fn data(&self) -> Seq<u8> {
        match self.msg_type {
            MessageType::Write(data) => data@,
            MessageType::Read(data) => data@,
        }
    }

}

impl<'a> I2CMessage<'a> for MockI2CMessage<'a> {
    fn read(data: &'a mut [u8]) -> (msg: Self)
        ensures
            msg.msg_type is Read,
            msg.data() == old(data)@,
            final(msg.msg_type->Read_0)@ == final(data)@,
    {
        Self { msg_type: MessageType::Read(data) }
    }

    fn write(data: &'a [u8]) -> (msg: Self)
        ensures
            msg.msg_type == MessageType::Write(data),
    {
        Self { msg_type: MessageType::Write(data) }
    }
}

impl<'a> I2CTransfer<'a> for MockI2CDevice {
    type Error = MockI2CError;

    type Message = MockI2CMessage<'a>;

    open spec fn transfer_allowed(&self, msgs: Seq<MockI2CMessage<'a>>) -> bool {
        self.regmap@.transfer_allowed(segments(msgs))
    }

    /// Carries out the segments in turn, each as a plain read or write, and
    /// answers with their number in 32 bits.
    fn transfer(&mut self, messages: &'a mut [MockI2CMessage<'a>]) -> (r: Result<u32, MockI2CError>)
        ensures
            r == Ok::<u32, MockI2CError>((old(messages)@.len() % 0x1_0000_0000) as u32),
            final(self).regmap@ == old(self).regmap@.after_transfer(segments(old(messages)@)),
            final(messages)@.len() == old(messages)@.len(),
            forall|i: int|
                0 <= i < old(messages)@.len() && old(messages)@[i].msg_type is Write
                    ==> final(messages)@[i].msg_type == old(messages)@[i].msg_type,
            forall|i: int|
                0 <= i < old(messages)@.len() && old(messages)@[i].msg_type is Read ==> {
                    &&& final(messages)@[i].msg_type is Read
                    &&& final(messages)@[i].data() == old(self).regmap@.after_transfer(
                        segments(old(messages)@).take(i),
                    ).read_bytes(old(messages)@[i].data().len())
                    &&& final(final(messages)@[i].msg_type->Read_0)@
                        == final(old(messages)@[i].msg_type->Read_0)@
                },
    {
        let count = messages.len();
        let ghost segs = segments(old(messages)@);
        let mut i: usize = 0;
        while i < count
            invariant
                count == messages@.len(),
                messages@.len() == old(messages)@.len(),
                i <= count,
                segs == segments(old(messages)@),
                old(self).regmap@.transfer_allowed(segs),
                self.regmap@ == old(self).regmap@.after_transfer(segs.take(i as int)),
                forall|j: int| i <= j < count ==> messages@[j] == old(messages)@[j],
                forall|j: int|
                    0 <= j < i && old(messages)@[j].msg_type is Write ==> messages@[j].msg_type
                        == old(messages)@[j].msg_type,
                forall|j: int|
                    0 <= j < i && old(messages)@[j].msg_type is Read ==> {
                        &&& messages@[j].msg_type is Read
                        &&& messages@[j].data() == old(self).regmap@.after_transfer(
                            segs.take(j),
                        ).read_bytes(old(messages)@[j].data().len())
                        &&& final(messages@[j].msg_type->Read_0)@
                            == final(old(messages)@[j].msg_type->Read_0)@
                    },
            decreases count - i,
        {
            proof {
                assert(segs.take(i + 1).drop_last() =~= segs.take(i as int));
                assert(segs.take(i + 1).last() == segs[i as int]);
                assert(old(self).regmap@.after_transfer(segs.take(i as int)).segment_allowed(
                    segs[i as int],
                ));
            }
            match &mut messages[i].msg_type {
                MessageType::Read(data) => {
                    let _ = self.read(data);
                },
                MessageType::Write(data) => {
                    let _ = self.write(data);
                },
            }
            i += 1;
        }
        assert(segs.take(count as int) =~= segs);
        assert(count as u32 == (count as u64) % 0x1_0000_0000) by (bit_vector);
        Ok(#[verifier::truncate] (count as u32))
    }
}

} // verus!
