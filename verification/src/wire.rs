//! Little-endian integers and UTF-8 text on the wire.

use byteorder::{ByteOrder, LittleEndian, WriteBytesExt};
use vstd::prelude::*;
use vstd::utf8::{decode_utf8, valid_utf8};

verus! {

/// The number of values that `width` bytes can tell apart: `256^width`.
pub open spec fn radix(width: nat) -> nat
    decreases width,
{
    if width == 0 {
        1
    } else {
        256 * radix((width - 1) as nat)
    }
}

/// The number that `bytes` spell, least significant byte first.
pub open spec fn le_nat(bytes: Seq<u8>) -> nat
    decreases bytes.len(),
{
    if bytes.len() == 0 {
        0
    } else {
        bytes[0] as nat + 256 * le_nat(bytes.drop_first())
    }
}

/// The `width` bytes that spell `n` modulo `256^width`, least significant
/// byte first.
pub open spec fn le_bytes(n: nat, width: nat) -> Seq<u8>
    decreases width,
{
    if width == 0 {
        Seq::empty()
    } else {
        seq![(n % 256) as u8] + le_bytes(n / 256, (width - 1) as nat)
    }
}

/// The integer that the unsigned number `n` stands for in two's complement
/// of `width` bytes.
pub open spec fn signed(n: nat, width: nat) -> int {
    if 2 * n < radix(width) {
        n as int
    } else {
        n - radix(width)
    }
}

/// The unsigned number that stands for `i` in two's complement of `width`
/// bytes.
pub open spec fn unsigned(i: int, width: nat) -> nat {
    if i >= 0 {
        i as nat
    } else {
        (i + radix(width)) as nat
    }
}

/// The values of `radix` at the widths that the wire uses.
pub proof fn lemma_radix_values()
    ensures
        radix(0) == 1,
        radix(1) == 0x100,
        radix(2) == 0x1_0000,
        radix(4) == 0x1_0000_0000,
        radix(8) == 0x1_0000_0000_0000_0000,
{
    reveal_with_fuel(radix, 9);
}

/// What `bytes` spell is below `256^len`.
pub proof fn lemma_le_nat_bound(bytes: Seq<u8>)
    ensures
        le_nat(bytes) < radix(bytes.len()),
    decreases bytes.len(),
{
    if bytes.len() > 0 {
        lemma_le_nat_bound(bytes.drop_first());
    }
}

/// `le_bytes` gives as many bytes as it is asked for.
pub proof fn lemma_le_bytes_len(n: nat, width: nat)
    ensures
        le_bytes(n, width).len() == width,
    decreases width,
{
    if width > 0 {
        lemma_le_bytes_len(n / 256, (width - 1) as nat);
    }
}

/// Spelling a number that fits and reading the bytes back gives the number.
pub proof fn lemma_le_nat_of_le_bytes(n: nat, width: nat)
    requires
        n < radix(width),
    ensures
        le_nat(le_bytes(n, width)) == n,
    decreases width,
{
    if width > 0 {
        let rest = le_bytes(n / 256, (width - 1) as nat);
        let all = le_bytes(n, width);
        lemma_le_nat_of_le_bytes(n / 256, (width - 1) as nat);
        assert(all.drop_first() =~= rest);
        assert(all[0] == (n % 256) as u8);
    }
}

/// Reading bytes and spelling the number again gives the bytes.
pub proof fn lemma_le_bytes_of_le_nat(bytes: Seq<u8>)
    ensures
        le_bytes(le_nat(bytes), bytes.len()) == bytes,
    decreases bytes.len(),
{
    if bytes.len() > 0 {
        let rest = bytes.drop_first();
        lemma_le_bytes_of_le_nat(rest);
        let n: nat = le_nat(bytes);
        assert(n % 256 == bytes[0] as nat);
        assert(n / 256 == le_nat(rest));
        assert(le_bytes(n, bytes.len()) =~= bytes);
    } else {
        assert(le_bytes(le_nat(bytes), bytes.len()) =~= bytes);
    }
}

/// Two's complement loses nothing: an integer in the range of `width` bytes
/// is found again from the unsigned number that stands for it.
pub proof fn lemma_signed_of_unsigned(i: int, width: nat)
    requires
        -(radix(width) as int) <= 2 * i < radix(width),
    ensures
        unsigned(i, width) < radix(width),
        signed(unsigned(i, width), width) == i,
{
}

/// The single byte of a one-byte slice is what it spells.
pub proof fn lemma_le_nat_one(bytes: Seq<u8>)
    requires
        bytes.len() == 1,
    ensures
        le_nat(bytes) == bytes[0] as nat,
{
    reveal_with_fuel(le_nat, 2);
}

/// `LittleEndian::read_u16` of `byteorder`: the number that the first two
/// bytes of `buf` spell, least significant first. On a shorter buffer it
/// panics.
#[verifier::external_body]
pub(crate) fn read_u16(buf: &[u8]) -> (r: u16)
    requires
        buf@.len() >= 2,
    ensures
        r as nat == le_nat(buf@.subrange(0, 2)),
{
    LittleEndian::read_u16(buf)
}

/// `LittleEndian::read_i16` of `byteorder`: as `read_u16`, the number taken
/// in two's complement.
#[verifier::external_body]
pub(crate) fn read_i16(buf: &[u8]) -> (r: i16)
    requires
        buf@.len() >= 2,
    ensures
        r as int == signed(le_nat(buf@.subrange(0, 2)), 2),
{
    LittleEndian::read_i16(buf)
}

/// `LittleEndian::read_u32` of `byteorder`: the number that the first four
/// bytes of `buf` spell, least significant first. On a shorter buffer it
/// panics.
#[verifier::external_body]
pub(crate) fn read_u32(buf: &[u8]) -> (r: u32)
    requires
        buf@.len() >= 4,
    ensures
        r as nat == le_nat(buf@.subrange(0, 4)),
{
    LittleEndian::read_u32(buf)
}

/// `LittleEndian::read_i32` of `byteorder`: as `read_u32`, the number taken
/// in two's complement.
#[verifier::external_body]
pub(crate) fn read_i32(buf: &[u8]) -> (r: i32)
    requires
        buf@.len() >= 4,
    ensures
        r as int == signed(le_nat(buf@.subrange(0, 4)), 4),
{
    LittleEndian::read_i32(buf)
}

/// `LittleEndian::read_u64` of `byteorder`: the number that the first eight
/// bytes of `buf` spell, least significant first. On a shorter buffer it
/// panics.
#[verifier::external_body]
pub(crate) fn read_u64(buf: &[u8]) -> (r: u64)
    requires
        buf@.len() >= 8,
    ensures
        r as nat == le_nat(buf@.subrange(0, 8)),
{
    LittleEndian::read_u64(buf)
}

/// `LittleEndian::read_i64` of `byteorder`: as `read_u64`, the number taken
/// in two's complement.
#[verifier::external_body]
pub(crate) fn read_i64(buf: &[u8]) -> (r: i64)
    requires
        buf@.len() >= 8,
    ensures
        r as int == signed(le_nat(buf@.subrange(0, 8)), 8),
{
    LittleEndian::read_i64(buf)
}

/// `WriteBytesExt::write_i32` of `byteorder`, in little-endian order, on a
/// `Vec<u8>`: the four bytes of `n` in two's complement are appended, least
/// significant first. Writing to a vector appends and cannot fail, so the
/// `Ok` that comes back is dropped.
#[verifier::external_body]
pub(crate) fn write_i32(out: &mut Vec<u8>, n: i32)
    ensures
        final(out)@ == old(out)@ + le_bytes(unsigned(n as int, 4), 4),
{
    let _ = out.write_i32::<LittleEndian>(n);
}

/// `std::str::from_utf8`: the text that `bytes` encode, if they are UTF-8,
/// and `None` if they are not.
#[verifier::external_body]
pub(crate) fn utf8_str(bytes: &[u8]) -> (r: Option<&str>)
    ensures
        r is Some <==> valid_utf8(bytes@),
        r matches Some(s) ==> s@ == decode_utf8(bytes@),
{
    match std::str::from_utf8(bytes) {
        Ok(s) => Some(s),
        Err(_) => None,
    }
}

/// Appends the lowest `width` bytes of `n` to `out`, least significant first.
pub fn push_le(out: &mut Vec<u8>, n: u64, width: usize)
    ensures
        final(out)@ == old(out)@ + le_bytes(n as nat, width as nat),
{
    let mut rest: u64 = n;
    let mut done: usize = 0;
    while done < width
        invariant
            done <= width,
            out@ + le_bytes(rest as nat, (width - done) as nat) == old(out)@ + le_bytes(
                n as nat,
                width as nat,
            ),
        decreases width - done,
    {
        let ghost before = out@;
        let byte: u8 = (rest % 256) as u8;
        out.push(byte);
        proof {
            let tail = le_bytes((rest / 256) as nat, (width - done - 1) as nat);
            assert(le_bytes(rest as nat, (width - done) as nat) =~= seq![byte] + tail);
            assert(out@ + tail =~= before + le_bytes(rest as nat, (width - done) as nat));
        }
        rest = rest / 256;
        done = done + 1;
    }
    assert(out@ =~= out@ + le_bytes(rest as nat, 0));
}

} // verus!
