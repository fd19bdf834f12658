//! The Linux backend: the device handle with its cached slave address, the
//! bus handle, the flag word and the segments of a combined transfer, and
//! how a device handle comes to be while its character device is opened.
//!
//! A handle here holds no file descriptor. It holds what the library has to
//! remember about one, and says which kernel calls are to be made on it.
use crate::device::I2CMessage;
use crate::ffi::{
    i2c_msg, i2c_rdwr, i2c_rdwr_ioctl_data, i2c_set_slave_address, i2c_set_slave_address_force,
    i2c_set_smbus_pec, I2CBuffer, IoctlWriteInt, I2C_PEC, I2C_SLAVE, I2C_SLAVE_FORCE,
};
use vstd::prelude::*;

verus! {

/// `nix::errno::Errno`, the error of a failed system call. The library
/// carries such a value from the shell to the caller and never looks inside.
#[verifier::external_type_specification]
#[verifier::external_body]
pub struct ExErrno(nix::errno::Errno);

/// `std::io::Error`, the error of a failed read, write or open. The library
/// carries such a value from the shell to the caller and never looks inside.
#[verifier::external_type_specification]
#[verifier::external_body]
pub struct ExIoError(std::io::Error);

/// What can go wrong on the Linux backend.
#[derive(Debug)]
pub enum LinuxI2CError {
    /// The kernel refused an ioctl.
    Nix(nix::Error),
    /// A plain read or write, or opening the device, failed.
    Io(std::io::Error),
}

impl From<nix::Error> for LinuxI2CError {
    fn from(e: nix::Error) -> (error: Self) {
        LinuxI2CError::Nix(e)
    }
}

impl vstd::std_specs::convert::FromSpecImpl<nix::Error> for LinuxI2CError {
    open spec fn obeys_from_spec() -> bool {
        true
    }

    open spec fn from_spec(e: nix::Error) -> Self {
        LinuxI2CError::Nix(e)
    }
}

impl From<std::io::Error> for LinuxI2CError {
    fn from(e: std::io::Error) -> (error: Self) {
        LinuxI2CError::Io(e)
    }
}

impl vstd::std_specs::convert::FromSpecImpl<std::io::Error> for LinuxI2CError {
    open spec fn obeys_from_spec() -> bool {
        true
    }

    open spec fn from_spec(e: std::io::Error) -> Self {
        LinuxI2CError::Io(e)
    }
}

/// The flag word of a segment of a combined transfer. Only the bits named
/// here can be set in one.
#[derive(Clone, Copy, PartialEq, Eq, Structural, Debug)]
pub struct I2CMessageFlags {
    bits: u16,
}

impl I2CMessageFlags {
    /// Use ten bit addressing on this message.
    pub const TEN_BIT_ADDRESS: u16 = 0x0010;

    /// Read data, from slave to master.
    pub const READ: u16 = 0x0001;

    /// Force an I2C stop condition on this message.
    pub const STOP: u16 = 0x8000;

    /// Avoid sending an I2C start condition on this message.
    pub const NO_START: u16 = 0x4000;

    /// Invert the read/write bit of the command.
    pub const INVERT_COMMAND: u16 = 0x2000;

    /// Force this message to ignore I2C negative acknowledgements.
    pub const IGNORE_NACK: u16 = 0x1000;

    /// Force this message to ignore acknowledgement.
    pub const IGNORE_ACK: u16 = 0x0800;

    /// Let the first byte received say how many bytes follow.
    pub const USE_RECEIVE_LENGTH: u16 = 0x0400;

    /// All the bits that have a name.
    pub const ALL: u16 = 0xfc11;

    /// The flag word as a number.
    pub closed spec fn word(&self) -> u16 {
        self.bits
    }

    /// No bit without a name is set.
    #[verifier::type_invariant]
    spec fn named_bits_only(self) -> bool {
        self.bits & !Self::ALL == 0
    }

    /// The flag word with no bit set.
    pub fn empty() -> (flags: Self)
        ensures
            flags.word() == 0,
    {
        assert(0u16 & !0xfc11u16 == 0) by (bit_vector);
        I2CMessageFlags { bits: 0 }
    }

    /// The flag word with every named bit set.
    pub fn all() -> (flags: Self)
        ensures
            flags.word() == Self::ALL,
    {
        assert(0xfc11u16 & !0xfc11u16 == 0) by (bit_vector);
        I2CMessageFlags { bits: Self::ALL }
    }

    /// The flag word as a number. No bit without a name is set in it.
    pub fn bits(&self) -> (bits: u16)
        ensures
            bits == self.word(),
            bits & !Self::ALL == 0,
    {
        proof {
            use_type_invariant(self);
        }
        self.bits
    }

    /// The flag word `bits`, unless a bit without a name is set in it.
    pub fn from_bits(bits: u16) -> (flags: Option<Self>)
        ensures
            match flags {
                Some(flags) => bits & !Self::ALL == 0 && flags.word() == bits,
                None => bits & !Self::ALL != 0,
            },
    {
        if bits & !Self::ALL == 0 {
            Some(I2CMessageFlags { bits })
        } else {
            None
        }
    }

    /// The flag word `bits` without the bits that have no name.
    pub fn from_bits_truncate(bits: u16) -> (flags: Self)
        ensures
            flags.word() == bits & Self::ALL,
    {
        assert((bits & 0xfc11u16) & !0xfc11u16 == 0) by (bit_vector);
        I2CMessageFlags { bits: bits & Self::ALL }
    }

    /// Whether every bit of `other` is set in this flag word.
    pub fn contains(&self, other: I2CMessageFlags) -> (all_set: bool)
        ensures
            all_set == (self.word() & other.word() == other.word()),
    {
        self.bits & other.bits == other.bits
    }

    /// The flag word with the bits of both.
    pub fn union(self, other: I2CMessageFlags) -> (flags: Self)
        ensures
            flags.word() == self.word() | other.word(),
    {
        let a = self.bits;
        let b = other.bits;
        proof {
            use_type_invariant(&self);
            use_type_invariant(&other);
        }
        assert((a | b) & !0xfc11u16 == 0) by (bit_vector)
            requires
                a & !0xfc11u16 == 0,
                b & !0xfc11u16 == 0,
        ;
        I2CMessageFlags { bits: self.bits | other.bits }
    }
}

/// One segment of a combined transfer on Linux.
pub type LinuxI2CMessage<'a> = i2c_msg<'a>;

/// The lower sixteen bits of the length of a buffer.
fn length_word(len: usize) -> (word: u16)
    ensures
        word == len % 0x1_0000,
{
    assert(len as u16 == len % 0x1_0000) by (bit_vector);
    #[verifier::truncate]
    (len as u16)
}

impl<'a> I2CMessage<'a> for LinuxI2CMessage<'a> {
    /// A segment that reads as many bytes as `data` has room for. The read
    /// flag is set and no other; the address is zero until someone sets it.
    /// The length has sixteen bits: of a longer buffer's length, the lower
    /// sixteen bits are taken.
    fn read(data: &'a mut [u8]) -> (msg: Self)
        ensures
            msg.addr == 0,
            msg.flags == I2CMessageFlags::READ,
            msg.len == old(data)@.len() % 0x1_0000,
            msg.buf is Read,
            msg.buf->Read_0@ == old(data)@,
            final(msg.buf->Read_0)@ == final(data)@,
    {
        let len = length_word(data.len());
        i2c_msg { addr: 0, flags: I2CMessageFlags::READ, len, buf: I2CBuffer::Read(data) }
    }

    /// A segment that writes the bytes of `data`. No flag is set; the
    /// address is zero until someone sets it. The length has sixteen bits:
    /// of a longer buffer's length, the lower sixteen bits are taken.
    fn write(data: &'a [u8]) -> (msg: Self)
        ensures
            msg.addr == 0,
            msg.flags == 0,
            msg.len == data@.len() % 0x1_0000,
            msg.buf == I2CBuffer::Write(data),
    {
        i2c_msg { addr: 0, flags: 0, len: length_word(data.len()), buf: I2CBuffer::Write(data) }
    }
}

impl<'a> LinuxI2CMessage<'a> {
    /// The same segment for the slave at `slave_address`.
    pub fn with_address(self, slave_address: u16) -> (msg: Self)
        ensures
            msg.addr == slave_address,
            msg.flags == self.flags,
            msg.len == self.len,
            msg.buf == self.buf,
    {
        Self { addr: slave_address, flags: self.flags, len: self.len, buf: self.buf }
    }

    /// The same segment with `flags` in the place of its flag word.
    pub fn with_flags(self, flags: I2CMessageFlags) -> (msg: Self)
        ensures
            msg.addr == self.addr,
            msg.flags == flags.word(),
            msg.flags & !I2CMessageFlags::ALL == 0,
            msg.len == self.len,
            msg.buf == self.buf,
    {
        Self { addr: self.addr, flags: flags.bits(), len: self.len, buf: self.buf }
    }
}

/// A handle on a slave device behind an open `/dev/i2c-N`: the slave address
/// and the packet error checking that the kernel was last told, with
/// success, to use on the descriptor.
pub struct LinuxI2CDevice {
    slave_address: u16,
    pec: bool,
}

/// A handle on an open `/dev/i2c-N` with no slave selected. It remembers
/// nothing: each segment of a transfer names its own slave.
pub struct LinuxI2CBus {}

/// What the shell is to do next while a device handle is being opened.
pub enum OpenAction {
    /// Open the character device for reading and writing.
    OpenFile,
    /// Submit this ioctl on the descriptor.
    Ioctl(IoctlWriteInt),
    /// Close the descriptor: opening has failed.
    Release,
    /// Nothing more: the handle is ready, or the error is final.
    Done,
}

/// What the shell reports while a device handle is being opened.
pub enum OpenEvent {
    /// How opening the character device went.
    Opened(Result<(), std::io::Error>),
    /// How the ioctl went.
    Answered(Result<(), nix::Error>),
    /// The descriptor has been closed.
    Released,
}

/// Where the opening of a device handle stands.
pub enum Opening {
    /// The character device is to be opened.
    File { slave_address: u16, force: bool },
    /// The descriptor is open and the slave is to be selected.
    Slave { slave_address: u16, force: bool },
    /// The slave is selected and packet error checking is to be switched off.
    Pec { slave_address: u16 },
    /// Every step went well: the handle can be had.
    Ready { slave_address: u16 },
    /// A step failed. `release` tells whether the descriptor is still open.
    Failed { error: LinuxI2CError, release: bool },
}

impl Opening {
    /// Whether a descriptor is open in this state.
    pub open spec fn holds_descriptor(self) -> bool {
        match self {
            Opening::File { .. } => false,
            Opening::Slave { .. } => true,
            Opening::Pec { .. } => true,
            Opening::Ready { .. } => true,
            Opening::Failed { release, .. } => release,
        }
    }

    /// What the shell is to do in this state.
    pub open spec fn pending(self) -> OpenAction {
        match self {
            Opening::File { .. } => OpenAction::OpenFile,
            Opening::Slave { slave_address, force } => OpenAction::Ioctl(
                IoctlWriteInt {
                    request: if force {
                        I2C_SLAVE_FORCE
                    } else {
                        I2C_SLAVE
                    },
                    data: slave_address as i32,
                },
            ),
            Opening::Pec { .. } => OpenAction::Ioctl(IoctlWriteInt { request: I2C_PEC, data: 0 }),
            Opening::Ready { .. } => OpenAction::Done,
            Opening::Failed { release, .. } => if release {
                OpenAction::Release
            } else {
                OpenAction::Done
            },
        }
    }

    /// The state that follows on `event`. An event that does not answer what
    /// is pending changes nothing.
    pub open spec fn after(self, event: OpenEvent) -> Opening {
        match (self, event) {
            (Opening::File { slave_address, force }, OpenEvent::Opened(Ok(_))) => Opening::Slave {
                slave_address,
                force,
            },
            (Opening::File { .. }, OpenEvent::Opened(Err(e))) => Opening::Failed {
                error: LinuxI2CError::Io(e),
                release: false,
            },
            (Opening::Slave { slave_address, .. }, OpenEvent::Answered(Ok(_))) => Opening::Pec {
                slave_address,
            },
            (Opening::Pec { slave_address }, OpenEvent::Answered(Ok(_))) => Opening::Ready {
                slave_address,
            },
            (Opening::Slave { .. }, OpenEvent::Answered(Err(e))) => Opening::Failed {
                error: LinuxI2CError::Nix(e),
                release: true,
            },
            (Opening::Pec { .. }, OpenEvent::Answered(Err(e))) => Opening::Failed {
                error: LinuxI2CError::Nix(e),
                release: true,
            },
            (Opening::Failed { error, release: true }, OpenEvent::Released) => Opening::Failed {
                error,
                release: false,
            },
            (state, _) => state,
        }
    }

    /// What the shell is to do now.
    pub fn action(&self) -> (action: OpenAction)
        ensures
            action == self.pending(),
    {
        match self {
            Opening::File { .. } => OpenAction::OpenFile,
            Opening::Slave { slave_address, force } => if *force {
                OpenAction::Ioctl(i2c_set_slave_address_force(*slave_address))
            } else {
                OpenAction::Ioctl(i2c_set_slave_address(*slave_address))
            },
            Opening::Pec { .. } => OpenAction::Ioctl(i2c_set_smbus_pec(false)),
            Opening::Ready { .. } => OpenAction::Done,
            Opening::Failed { release, .. } => if *release {
                OpenAction::Release
            } else {
                OpenAction::Done
            },
        }
    }

    /// Takes what the shell reports and moves on.
    pub fn step(self, event: OpenEvent) -> (next: Opening)
        ensures
            next == self.after(event),
    {
        match self {
            Opening::File { slave_address, force } => match event {
                OpenEvent::Opened(Ok(_)) => Opening::Slave { slave_address, force },
                OpenEvent::Opened(Err(e)) => Opening::Failed {
                    error: LinuxI2CError::Io(e),
                    release: false,
                },
                _ => Opening::File { slave_address, force },
            },
            Opening::Slave { slave_address, force } => match event {
                OpenEvent::Answered(Ok(_)) => Opening::Pec { slave_address },
                OpenEvent::Answered(Err(e)) => Opening::Failed {
                    error: LinuxI2CError::Nix(e),
                    release: true,
                },
                _ => Opening::Slave { slave_address, force },
            },
            Opening::Pec { slave_address } => match event {
                OpenEvent::Answered(Ok(_)) => Opening::Ready { slave_address },
                OpenEvent::Answered(Err(e)) => Opening::Failed {
                    error: LinuxI2CError::Nix(e),
                    release: true,
                },
                _ => Opening::Pec { slave_address },
            },
            Opening::Ready { slave_address } => Opening::Ready { slave_address },
            Opening::Failed { error, release } => match event {
                OpenEvent::Released => Opening::Failed { error, release: false },
                _ => Opening::Failed { error, release },
            },
        }
    }

    /// The handle, once opening has gone all the way: it holds the slave
    /// address that was asked for, and packet error checking is off.
    pub fn device(self) -> (device: Option<LinuxI2CDevice>)
        ensures
            match self {
                Opening::Ready { slave_address } => device matches Some(d) && d.address()
                    == slave_address && !d.pec(),
                _ => device is None,
            },
    {
        match self {
            Opening::Ready { slave_address } => Some(LinuxI2CDevice { slave_address, pec: false }),
            _ => None,
        }
    }

    /// Opening never ends on a failure with the descriptor still open: as
    /// long as one is, the shell is told to close it. A descriptor, once
    /// open, stays on the books until the shell reports it closed, and none
    /// appears on them but by a successful open.
    pub proof fn lemma_failure_releases(self, event: OpenEvent)
        ensures
            self.after(event) is Failed && self.after(event).holds_descriptor() ==> self.after(event).pending() is Release,
            self.after(event).pending() is Done ==> self.after(event) is Ready || !self.after(event).holds_descriptor(),
            self.holds_descriptor() && !(event is Released) ==> self.after(event).holds_descriptor(),
            !self.holds_descriptor() && self.after(event).holds_descriptor() ==> self is File
                && event is Opened && event->Opened_0 is Ok,
    {
    }
}

impl LinuxI2CDevice {
    /// The slave address that the kernel was last told, with success, to use.
    pub closed spec fn address(&self) -> u16 {
        self.slave_address
    }

    /// Whether the kernel was last told, with success, to check packet errors.
    pub closed spec fn pec(&self) -> bool {
        self.pec
    }

    /// Begins to open a handle on the slave at `slave_address`. Selecting
    /// the slave fails if a kernel driver holds the address.
    pub fn new(slave_address: u16) -> (opening: Opening)
        ensures
            opening == (Opening::File { slave_address, force: false }),
    {
        Opening::File { slave_address, force: false }
    }

    /// Begins to open a handle on the slave at `slave_address`, whether or
    /// not a kernel driver holds the address. Talking to a slave behind its
    /// driver's back can confuse the driver beyond what can be told from here.
    pub fn force_new(slave_address: u16) -> (opening: Opening)
        ensures
            opening == (Opening::File { slave_address, force: true }),
    {
        Opening::File { slave_address, force: true }
    }

    /// The slave address that the kernel was last told, with success, to use.
    pub fn slave_address(&self) -> (address: u16)
        ensures
            address == self.address(),
    {
        self.slave_address
    }

    /// Whether the kernel was last told, with success, to check packet errors.
    pub fn smbus_pec(&self) -> (enabled: bool)
        ensures
            enabled == self.pec(),
    {
        self.pec
    }

    /// Takes the kernel's answer to selecting the slave at `slave_address`.
    /// On success the handle remembers the address; on failure it stays as
    /// it was and the kernel's error is handed on.
    pub fn set_slave_address(&mut self, slave_address: u16, answer: Result<(), nix::Error>) -> (r:
        Result<(), LinuxI2CError>)
        ensures
            final(self).pec() == old(self).pec(),
            match answer {
                Ok(_) => r is Ok && final(self).address() == slave_address,
                Err(e) => r == Err::<(), LinuxI2CError>(LinuxI2CError::Nix(e)) && final(self).address() == old(self).address(),
            },
    {
        match answer {
            Ok(_) => {
                self.slave_address = slave_address;
                Ok(())
            },
            Err(e) => Err(LinuxI2CError::Nix(e)),
        }
    }

    /// Takes the kernel's answer to switching packet error checking on or
    /// off. On success the handle remembers the setting; on failure it stays
    /// as it was and the kernel's error is handed on.
    pub fn set_smbus_pec(&mut self, enable: bool, answer: Result<(), nix::Error>) -> (r: Result<
        (),
        LinuxI2CError,
    >)
        ensures
            final(self).address() == old(self).address(),
            match answer {
                Ok(_) => r is Ok && final(self).pec() == enable,
                Err(e) => r == Err::<(), LinuxI2CError>(LinuxI2CError::Nix(e)) && final(self).pec()
                    == old(self).pec(),
            },
    {
        match answer {
            Ok(_) => {
                self.pec = enable;
                Ok(())
            },
            Err(e) => Err(LinuxI2CError::Nix(e)),
        }
    }

    /// Takes the outcome of a plain read or write on the descriptor. How
    /// many bytes went over the bus is dropped, so that a short read or
    /// write counts as success; an error is handed on.
    pub fn plain_outcome(answer: Result<usize, std::io::Error>) -> (r: Result<(), LinuxI2CError>)
        ensures
            match answer {
                Ok(_) => r is Ok,
                Err(e) => r == Err::<(), LinuxI2CError>(LinuxI2CError::Io(e)),
            },
    {
        match answer {
            Ok(_) => Ok(()),
            Err(e) => Err(LinuxI2CError::Io(e)),
        }
    }

    /// Prepares a combined transfer to the slave of this handle: every
    /// segment gets the handle's slave address, whatever address it had, and
    /// the segments go into the envelope in their order.
    pub fn transfer<'a>(&mut self, messages: &'a mut [LinuxI2CMessage<'a>]) -> (args:
        i2c_rdwr_ioctl_data<'a>)
        ensures
            *final(self) == *old(self),
            args.nmsgs == old(messages)@.len() % 0x1_0000_0000,
            args.msgs@.len() == old(messages)@.len(),
            forall|i: int|
                0 <= i < old(messages)@.len() ==> {
                    &&& (#[trigger] args.msgs@[i]).addr == old(self).address()
                    &&& args.msgs@[i].flags == old(messages)@[i].flags
                    &&& args.msgs@[i].len == old(messages)@[i].len
                    &&& args.msgs@[i].buf == old(messages)@[i].buf
                },
            final(args.msgs)@ == final(messages)@,
    {
        let count = messages.len();
        let mut i: usize = 0;
        while i < count
            invariant
                count == messages@.len(),
                messages@.len() == old(messages)@.len(),
                i <= count,
                *self == *old(self),
                forall|j: int| i <= j < count ==> messages@[j] == old(messages)@[j],
                forall|j: int|
                    0 <= j < i ==> {
                        &&& (#[trigger] messages@[j]).addr == self.slave_address
                        &&& messages@[j].flags == old(messages)@[j].flags
                        &&& messages@[j].len == old(messages)@[j].len
                        &&& messages@[j].buf == old(messages)@[j].buf
                    },
            decreases count - i,
        {
            messages[i].addr = self.slave_address;
            i += 1;
        }
        i2c_rdwr(messages)
    }
}

impl LinuxI2CBus {
    /// Prepares a combined transfer on the bus: the segments go into the
    /// envelope as they are, each with the address its maker gave it.
    pub fn transfer<'a>(&mut self, msgs: &'a mut [LinuxI2CMessage<'a>]) -> (args:
        i2c_rdwr_ioctl_data<'a>)
        ensures
            args.nmsgs == old(msgs)@.len() % 0x1_0000_0000,
            args.msgs@ == old(msgs)@,
            final(args.msgs)@ == final(msgs)@,
    {
        i2c_rdwr(msgs)
    }
}

} // verus!
