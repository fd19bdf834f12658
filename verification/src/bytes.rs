//! Sixteen-bit words as pairs of bytes, and the calls into `byteorder` that
//! convert between the two.
//!
//! The conversions themselves are not proved here: each wrapper below states
//! what the `byteorder` function computes, and the rest of the crate is proved
//! against these statements.
//!
//! Two of the conversions go by the byte order of the machine. Of those the
//! contracts say what holds on every machine: that the bytes stand in one of
//! the two orders.
use byteorder::ByteOrder;
use vstd::prelude::*;

verus! {

/// The unsigned 16-bit value with low byte `low` and high byte `high`.
pub open spec fn word_of(low: u8, high: u8) -> int {
    low + 256 * high
}

/// The low byte of `n`.
pub open spec fn low_byte(n: u16) -> u8 {
    (n % 256) as u8
}

/// The high byte of `n`.
pub open spec fn high_byte(n: u16) -> u8 {
    (n / 256) as u8
}

/// The two's complement reading of a 16-bit pattern `n` in `0..65536`.
pub open spec fn signed16(n: int) -> int {
    if n < 32768 {
        n
    } else {
        n - 65536
    }
}

/// A word is its high and low byte put together again.
pub proof fn lemma_word_of_bytes(n: u16)
    ensures
        word_of(low_byte(n), high_byte(n)) == n,
{
}

/// The bytes of a word put together are its low and high byte.
pub proof fn lemma_bytes_of_word(low: u8, high: u8)
    ensures
        0 <= word_of(low, high) <= u16::MAX,
        low_byte(word_of(low, high) as u16) == low,
        high_byte(word_of(low, high) as u16) == high,
{
}

/// `byteorder::LittleEndian::read_u16`: the first two bytes of `buf`, the
/// first one being the low byte. The call panics on fewer than two bytes.
#[verifier::external_body]
pub(crate) fn le_read_u16(buf: &[u8]) -> (n: u16)
    requires
        buf@.len() >= 2,
    ensures
        n == word_of(buf@[0], buf@[1]),
{
    byteorder::LittleEndian::read_u16(buf)
}

/// `byteorder::LittleEndian::write_u16`: overwrites the first two bytes of
/// `buf` with the low, then the high byte of `n`, and leaves the rest alone.
/// The call panics on fewer than two bytes.
#[verifier::external_body]
pub(crate) fn le_write_u16(buf: &mut [u8], n: u16)
    requires
        old(buf)@.len() >= 2,
    ensures
        final(buf)@ == old(buf)@.update(0, low_byte(n)).update(1, high_byte(n)),
{
    byteorder::LittleEndian::write_u16(buf, n)
}

/// `byteorder::LittleEndian::read_i16`: the first two bytes of `buf`, the
/// first one being the low byte, read as a signed number. The call panics on
/// fewer than two bytes.
#[verifier::external_body]
pub(crate) fn le_read_i16(buf: &[u8]) -> (n: i16)
    requires
        buf@.len() >= 2,
    ensures
        n == signed16(word_of(buf@[0], buf@[1])),
{
    byteorder::LittleEndian::read_i16(buf)
}

/// `byteorder::BigEndian::read_u16`: the first two bytes of `buf`, the
/// first one being the high byte. The call panics on fewer than two bytes.
#[verifier::external_body]
pub(crate) fn be_read_u16(buf: &[u8]) -> (n: u16)
    requires
        buf@.len() >= 2,
    ensures
        n == word_of(buf@[1], buf@[0]),
{
    byteorder::BigEndian::read_u16(buf)
}

/// `byteorder::BigEndian::read_i16`: the first two bytes of `buf`, the
/// first one being the high byte, read as a signed number. The call panics
/// on fewer than two bytes.
#[verifier::external_body]
pub(crate) fn be_read_i16(buf: &[u8]) -> (n: i16)
    requires
        buf@.len() >= 2,
    ensures
        n == signed16(word_of(buf@[1], buf@[0])),
{
    byteorder::BigEndian::read_i16(buf)
}

/// `byteorder::NativeEndian::read_u16`: the first two bytes of `buf`, read
/// in the order of the machine, so that one of the two is the low byte and
/// the other the high byte. The call panics on fewer than two bytes.
#[verifier::external_body]
pub(crate) fn ne_read_u16(buf: &[u8]) -> (n: u16)
    requires
        buf@.len() >= 2,
    ensures
        n == word_of(buf@[0], buf@[1]) || n == word_of(buf@[1], buf@[0]),
{
    byteorder::NativeEndian::read_u16(buf)
}

/// `byteorder::NativeEndian::write_u16`: overwrites the first two bytes of
/// `buf` with the two bytes of `n` in the order of the machine, low byte
/// first or high byte first, and leaves the rest alone. The call panics on
/// fewer than two bytes.
#[verifier::external_body]
pub(crate) fn ne_write_u16(buf: &mut [u8], n: u16)
    requires
        old(buf)@.len() >= 2,
    ensures
        final(buf)@ == old(buf)@.update(0, low_byte(n)).update(1, high_byte(n)) || final(buf)@
            == old(buf)@.update(0, high_byte(n)).update(1, low_byte(n)),
{
    byteorder::NativeEndian::write_u16(buf, n)
}

} // verus!
