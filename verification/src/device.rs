//! What every I2C backend offers: plain reads and writes, the SMBus
//! transactions, and combined transfers.
//!
//! A backend describes its plain `read` and `write` by two relations between
//! the state before, what went over the bus, the outcome and the state after.
//! The SMBus transactions that can be put together from plain reads and
//! writes come with the backend for free, and their contracts say, in terms
//! of those two relations, exactly which reads and writes they are made of.
use crate::bytes::{high_byte, le_read_u16, le_write_u16, low_byte};
use vstd::prelude::*;

verus! {

/// The error of an outcome, if it is one.
pub open spec fn failure<T, E>(r: Result<T, E>) -> Option<E> {
    match r {
        Ok(_) => None,
        Err(e) => Some(e),
    }
}

/// The outcome of a one-byte read that gave `r`.
pub open spec fn byte_read<E>(r: Result<u8, E>) -> Result<Seq<u8>, E> {
    match r {
        Ok(v) => Ok(seq![v]),
        Err(e) => Err(e),
    }
}

/// The outcome of a two-byte read that gave the word `r`, low byte first.
pub open spec fn word_read<E>(r: Result<u16, E>) -> Result<Seq<u8>, E> {
    match r {
        Ok(v) => Ok(seq![low_byte(v), high_byte(v)]),
        Err(e) => Err(e),
    }
}

/// The bytes that write the word `value` to `register`: the register, then
/// the low byte, then the high byte.
pub open spec fn word_write(register: u8, value: u16) -> Seq<u8> {
    seq![register, low_byte(value), high_byte(value)]
}

/// An I2C slave device as seen from the master.
pub trait I2CDevice: Sized {
    type Error;

    /// Whether the backend, in this state, takes a plain read of `len`
    /// bytes. A backend that does not say takes every read.
    open spec fn read_allowed(&self, len: nat) -> bool {
        true
    }

    /// Whether the backend, in this state, takes a plain write of `data`. A
    /// backend that does not say takes every write.
    open spec fn write_allowed(&self, data: Seq<u8>) -> bool {
        true
    }

    /// Whether a plain read of `len` bytes in this state can end with `r`
    /// (the bytes read, or an error) and leave the backend in state `next`.
    /// Of a backend that does not say, a read can end in any way.
    open spec fn read_step(&self, len: nat, r: Result<Seq<u8>, Self::Error>, next: &Self) -> bool {
        true
    }

    /// Whether a plain write of `data` in this state can end with `failure`
    /// (`None` for success) and leave the backend in state `next`. Of a
    /// backend that does not say, a write can end in any way.
    open spec fn write_step(
        &self,
        data: Seq<u8>,
        failure: Option<Self::Error>,
        next: &Self,
    ) -> bool {
        true
    }

    /// Reads from the device to fill `data`.
    fn read(&mut self, data: &mut [u8]) -> (r: Result<(), Self::Error>)
        requires
            old(self).read_allowed(old(data)@.len()),
        ensures
            final(data)@.len() == old(data)@.len(),
            old(self).read_step(
                old(data)@.len(),
                match r {
                    Ok(_) => Ok(final(data)@),
                    Err(e) => Err(e),
                },
                final(self),
            ),
    ;

    /// Writes `data` to the device.
    fn write(&mut self, data: &[u8]) -> (r: Result<(), Self::Error>)
        requires
            old(self).write_allowed(data@),
        ensures
            old(self).write_step(data@, failure(r), final(self)),
    ;

    /// Sends a single bit to the device, in the place of the read/write bit.
    fn smbus_write_quick(&mut self, bit: bool) -> Result<(), Self::Error>;

    /// Reads a single byte without naming a register: a plain read of one byte.
    fn smbus_read_byte(&mut self) -> (r: Result<u8, Self::Error>)
        requires
            old(self).read_allowed(1),
        ensures
            old(self).read_step(1, byte_read(r), final(self)),
    {
        let mut buf = [0_u8];
        match self.read(&mut buf) {
            Ok(_) => {
                assert(buf@ =~= seq![buf[0]]);
                Ok(buf[0])
            },
            Err(e) => Err(e),
        }
    }

    /// Writes a single byte without naming a register: a plain write of `[value]`.
    fn smbus_write_byte(&mut self, value: u8) -> (r: Result<(), Self::Error>)
        requires
            old(self).write_allowed(seq![value]),
        ensures
            old(self).write_step(seq![value], failure(r), final(self)),
    {
        let buf = [value];
        assert(buf@ =~= seq![value]);
        self.write(&buf)
    }

    /// Reads a single byte from `register`: a plain write of `[register]`,
    /// then, if that went well, a plain read of one byte.
    fn smbus_read_byte_data(&mut self, register: u8) -> (r: Result<u8, Self::Error>)
        requires
            old(self).write_allowed(seq![register]),
            forall|mid: Self| #[trigger]
                old(self).write_step(seq![register], None, &mid) ==> mid.read_allowed(1),
        ensures
            (failure(r) matches Some(e) && old(self).write_step(
                seq![register],
                Some(e),
                final(self),
            )) || (exists|mid: Self| #[trigger]
                old(self).write_step(seq![register], None, &mid) && mid.read_step(
                    1,
                    byte_read(r),
                    final(self),
                )),
    {
        match self.smbus_write_byte(register) {
            Ok(_) => {
                let ghost mid = *self;
                let r = self.smbus_read_byte();
                assert(old(self).write_step(seq![register], None, &mid) && mid.read_step(
                    1,
                    byte_read(r),
                    self,
                ));
                r
            },
            Err(e) => Err(e),
        }
    }

    /// Writes `value` to `register`: a plain write of `[register, value]`.
    fn smbus_write_byte_data(&mut self, register: u8, value: u8) -> (r: Result<(), Self::Error>)
        requires
            old(self).write_allowed(seq![register, value]),
        ensures
            old(self).write_step(seq![register, value], failure(r), final(self)),
    {
        let buf = [register, value];
        assert(buf@ =~= seq![register, value]);
        self.write(&buf)
    }

    /// Reads a word from `register`: a plain write of `[register]`, then, if
    /// that went well, a plain read of two bytes, of which the first is the
    /// low byte.
    fn smbus_read_word_data(&mut self, register: u8) -> (r: Result<u16, Self::Error>)
        requires
            old(self).write_allowed(seq![register]),
            forall|mid: Self| #[trigger]
                old(self).write_step(seq![register], None, &mid) ==> mid.read_allowed(2),
        ensures
            (failure(r) matches Some(e) && old(self).write_step(
                seq![register],
                Some(e),
                final(self),
            )) || (exists|mid: Self| #[trigger]
                old(self).write_step(seq![register], None, &mid) && mid.read_step(
                    2,
                    word_read(r),
                    final(self),
                )),
    {
        let mut buf: [u8; 2] = [0x00;2];
        match self.smbus_write_byte(register) {
            Ok(_) => {
                let ghost mid = *self;
                match self.read(&mut buf) {
                    Ok(_) => {
                        let value = le_read_u16(buf.as_slice());
                        proof {
                            crate::bytes::lemma_bytes_of_word(buf[0], buf[1]);
                            assert(buf@ =~= seq![low_byte(value), high_byte(value)]);
                            assert(old(self).write_step(seq![register], None, &mid)
                                && mid.read_step(2, word_read(Ok::<u16, Self::Error>(value)), self));
                        }
                        Ok(value)
                    },
                    Err(e) => {
                        assert(old(self).write_step(seq![register], None, &mid) && mid.read_step(
                            2,
                            word_read(Err::<u16, Self::Error>(e)),
                            self,
                        ));
                        Err(e)
                    },
                }
            },
            Err(e) => Err(e),
        }
    }

    /// Writes the word `value` to `register`: a plain write of the register,
    /// the low byte and the high byte.
    fn smbus_write_word_data(&mut self, register: u8, value: u16) -> (r: Result<(), Self::Error>)
        requires
            old(self).write_allowed(word_write(register, value)),
        ensures
            old(self).write_step(word_write(register, value), failure(r), final(self)),
    {
        let mut word: [u8; 2] = [0x00;2];
        le_write_u16(&mut word, value);
        let buf: [u8; 3] = [register, word[0], word[1]];
        assert(buf@ =~= word_write(register, value));
        self.write(&buf)
    }

    /// Writes the word `value` to `register` and reads a word back: the plain
    /// write of [`smbus_write_word_data`](Self::smbus_write_word_data), then,
    /// if that went well, a plain read of two bytes, of which the first is
    /// the low byte.
    fn smbus_process_word(&mut self, register: u8, value: u16) -> (r: Result<u16, Self::Error>)
        requires
            old(self).write_allowed(word_write(register, value)),
            forall|mid: Self| #[trigger]
                old(self).write_step(word_write(register, value), None, &mid)
                    ==> mid.read_allowed(2),
        ensures
            (failure(r) matches Some(e) && old(self).write_step(
                word_write(register, value),
                Some(e),
                final(self),
            )) || (exists|mid: Self| #[trigger]
                old(self).write_step(word_write(register, value), None, &mid) && mid.read_step(
                    2,
                    word_read(r),
                    final(self),
                )),
    {
        let mut buf: [u8; 2] = [0x00;2];
        match self.smbus_write_word_data(register, value) {
            Ok(_) => {
                let ghost mid = *self;
                match self.read(&mut buf) {
                    Ok(_) => {
                        let answer = le_read_u16(buf.as_slice());
                        proof {
                            crate::bytes::lemma_bytes_of_word(buf[0], buf[1]);
                            assert(buf@ =~= seq![low_byte(answer), high_byte(answer)]);
                            assert(old(self).write_step(word_write(register, value), None, &mid)
                                && mid.read_step(
                                2,
                                word_read(Ok::<u16, Self::Error>(answer)),
                                self,
                            ));
                        }
                        Ok(answer)
                    },
                    Err(e) => {
                        assert(old(self).write_step(word_write(register, value), None, &mid)
                            && mid.read_step(2, word_read(Err::<u16, Self::Error>(e)), self));
                        Err(e)
                    },
                }
            },
            Err(e) => Err(e),
        }
    }

    /// Reads a block of up to 32 bytes from `register`; the device says how
    /// many there are.
    fn smbus_read_block_data(&mut self, register: u8) -> Result<Vec<u8>, Self::Error>;

    /// Reads a block of `len` bytes from `register`, I2C style.
    fn smbus_read_i2c_block_data(&mut self, register: u8, len: u8) -> Result<Vec<u8>, Self::Error>;

    /// Writes a block of up to 32 bytes to `register`, their number first.
    fn smbus_write_block_data(&mut self, register: u8, values: &[u8]) -> Result<(), Self::Error>;

    /// Writes a block of up to 32 bytes to `register`, I2C style.
    fn smbus_write_i2c_block_data(&mut self, register: u8, values: &[u8]) -> Result<
        (),
        Self::Error,
    >;

    /// Writes 1 to 31 bytes to `register` and reads 1 to 31 bytes back.
    fn smbus_process_block(&mut self, register: u8, values: &[u8]) -> Result<Vec<u8>, Self::Error>;
}

/// Whether a plain write of `out` and, if that went well, a plain read of
/// `len` bytes can take the backend from `pre` to `post` and end with `r`:
/// the bytes read, or the error of whichever of the two failed.
pub open spec fn write_read_step<T: I2CDevice>(
    pre: T,
    out: Seq<u8>,
    len: nat,
    r: Result<Seq<u8>, T::Error>,
    post: T,
) -> bool {
    ||| (r matches Err(e) && pre.write_step(out, Some(e), &post))
    ||| (exists|mid: T| #[trigger] pre.write_step(out, None, &mid) && mid.read_step(len, r, &post))
}

/// Whether the backend, in state `pre`, takes a plain write of `out` and
/// then, however the write leaves it, a plain read of `len` bytes.
pub open spec fn write_read_allowed<T: I2CDevice>(pre: T, out: Seq<u8>, len: nat) -> bool {
    &&& pre.write_allowed(out)
    &&& forall|mid: T| #[trigger] pre.write_step(out, None, &mid) ==> mid.read_allowed(len)
}

/// Whether the plain writes `writes`, made in turn and given up at the first
/// that fails, can take the backend from `pre` to `post` and end with
/// `failure`.
pub open spec fn writes_step<T: I2CDevice>(
    pre: T,
    writes: Seq<Seq<u8>>,
    failure: Option<T::Error>,
    post: T,
) -> bool
    decreases writes.len(),
{
    if writes.len() == 0 {
        failure is None && post == pre
    } else {
        ||| (failure is Some && writes_step(pre, writes.drop_last(), failure, post))
        ||| (exists|mid: T|
            writes_step(pre, writes.drop_last(), None, mid) && #[trigger] mid.write_step(
                writes.last(),
                failure,
                &post,
            ))
    }
}

/// Whether the backend, in state `pre`, takes the plain writes `writes` in
/// turn, however the ones before leave it.
pub open spec fn writes_allowed<T: I2CDevice>(pre: T, writes: Seq<Seq<u8>>) -> bool {
    forall|i: int, mid: T|
        0 <= i < writes.len() && #[trigger] writes_step(pre, writes.take(i), None, mid)
            ==> mid.write_allowed(writes[i])
}

/// The plain writes that set each register of `settings` to its value: the
/// number of the register, then the value.
pub open spec fn register_writes(settings: Seq<(u8, u8)>) -> Seq<Seq<u8>> {
    Seq::new(settings.len(), |i: int| seq![settings[i].0, settings[i].1])
}

/// If the writes fail when only the first `k` of them are tried, they fail
/// in the same way when all of them are.
pub proof fn lemma_writes_fail_early<T: I2CDevice>(
    pre: T,
    writes: Seq<Seq<u8>>,
    k: int,
    failure: Option<T::Error>,
    post: T,
)
    requires
        0 <= k <= writes.len(),
        failure is Some,
        writes_step(pre, writes.take(k), failure, post),
    ensures
        writes_step(pre, writes, failure, post),
    decreases writes.len(),
{
    if k == writes.len() {
        assert(writes.take(k) =~= writes);
    } else {
        assert(writes.drop_last().take(k) =~= writes.take(k));
        lemma_writes_fail_early(pre, writes.drop_last(), k, failure, post);
    }
}

/// Sets each register of `settings` to its value, in the order given, each
/// by a plain write of the register's number and the value. The first write
/// that fails ends it.
pub fn write_registers<T: I2CDevice>(i2cdev: &mut T, settings: &[(u8, u8)]) -> (r: Result<
    (),
    T::Error,
>)
    requires
        writes_allowed(*old(i2cdev), register_writes(settings@)),
    ensures
        writes_step(*old(i2cdev), register_writes(settings@), failure(r), *final(i2cdev)),
{
    let ghost writes = register_writes(settings@);
    let mut i: usize = 0;
    while i < settings.len()
        invariant
            i <= settings@.len(),
            writes == register_writes(settings@),
            writes_allowed(*old(i2cdev), writes),
            writes_step(*old(i2cdev), writes.take(i as int), None, *i2cdev),
        decreases settings@.len() - i,
    {
        let ghost before = *i2cdev;
        let (register, value) = settings[i];
        assert(writes[i as int] == seq![register, value]);
        assert(writes.take(i + 1).drop_last() =~= writes.take(i as int));
        assert(writes.take(i + 1).last() == writes[i as int]);
        match i2cdev.smbus_write_byte_data(register, value) {
            Ok(_) => {
                assert(before.write_step(writes[i as int], None, i2cdev));
                assert(writes_step(*old(i2cdev), writes.take(i + 1), None, *i2cdev));
            },
            Err(e) => {
                proof {
                    assert(before.write_step(writes[i as int], Some(e), i2cdev));
                    assert(writes_step(*old(i2cdev), writes.take(i + 1), Some(e), *i2cdev));
                    lemma_writes_fail_early(*old(i2cdev), writes, i + 1, Some(e), *i2cdev);
                }
                let r: Result<(), T::Error> = Err(e);
                assert(r->Err_0 == e);
                return r;
            },
        }
        i += 1;
    }
    assert(writes.take(settings@.len() as int) =~= writes);
    Ok(())
}

/// One segment of a combined transfer, made from the buffer it reads into or
/// writes from.
pub trait I2CMessage<'a>: Sized {
    /// A segment that reads from the device to fill `data`.
    fn read(data: &'a mut [u8]) -> Self;

    /// A segment that writes `data` to the device.
    fn write(data: &'a [u8]) -> Self;
}

/// A backend that runs several reads and writes chained into one transfer.
pub trait I2CTransfer<'a>: Sized {
    type Error;

    type Message: I2CMessage<'a>;

    /// Whether the backend, in this state, takes the segments `msgs`. A
    /// backend that does not say takes every transfer.
    open spec fn transfer_allowed(&self, msgs: Seq<Self::Message>) -> bool {
        true
    }

    /// Runs the segments in the order given. On success the result is the
    /// number of segments that were carried out.
    fn transfer(&mut self, msgs: &'a mut [Self::Message]) -> (r: Result<u32, Self::Error>)
        requires
            old(self).transfer_allowed(old(msgs)@),
    ;
}

} // verus!
