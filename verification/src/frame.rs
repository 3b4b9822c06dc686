//! The wire format.
//!
//! ```text
//! frame  := prefix || payload
//! prefix := the payload's length in bytes, as an unsigned integer of
//!           2, 4 or 8 bytes, least or most significant byte first
//! ```
//!
//! There is no magic number, no version and no checksum. The first part of
//! this module says what a frame is, over `nat` and `Seq<u8>`; the second
//! part computes it.

use crate::config::{Endian, IrisNetworkConfig, SizeType};
use crate::error::NetError;
use vstd::prelude::*;

verus! {

/// The number of values that `width` bytes can tell apart: 256 to the power
/// `width`.
pub open spec fn capacity(width: nat) -> nat
    decreases width,
{
    if width == 0 {
        1
    } else {
        256 * capacity((width - 1) as nat)
    }
}

/// `n` written in `width` bytes, least significant byte first. Digits of `n`
/// beyond `width` bytes are dropped.
pub open spec fn le_bytes(n: nat, width: nat) -> Seq<u8>
    decreases width,
{
    if width == 0 {
        Seq::empty()
    } else {
        seq![(n % 256) as u8] + le_bytes(n / 256, (width - 1) as nat)
    }
}

/// `n` written in `width` bytes, most significant byte first. Digits of `n`
/// beyond `width` bytes are dropped.
pub open spec fn be_bytes(n: nat, width: nat) -> Seq<u8>
    decreases width,
{
    if width == 0 {
        Seq::empty()
    } else {
        be_bytes(n / 256, (width - 1) as nat).push((n % 256) as u8)
    }
}

/// The number that `bytes` spell, least significant byte first.
pub open spec fn le_value(bytes: Seq<u8>) -> nat
    decreases bytes.len(),
{
    if bytes.len() == 0 {
        0
    } else {
        bytes[0] as nat + 256 * le_value(bytes.drop_first())
    }
}

/// The number that `bytes` spell, most significant byte first.
pub open spec fn be_value(bytes: Seq<u8>) -> nat
    decreases bytes.len(),
{
    if bytes.len() == 0 {
        0
    } else {
        256 * be_value(bytes.drop_last()) + bytes.last() as nat
    }
}

/// The length prefix that announces a payload of `len` bytes.
pub open spec fn length_prefix(config: IrisNetworkConfig, len: nat) -> Seq<u8> {
    match config.endian {
        Endian::Little => le_bytes(len, config.size.width()),
        Endian::Big => be_bytes(len, config.size.width()),
    }
}

/// The payload length that a prefix announces.
pub open spec fn prefix_value(endian: Endian, prefix: Seq<u8>) -> nat {
    match endian {
        Endian::Little => le_value(prefix),
        Endian::Big => be_value(prefix),
    }
}

/// Whether a payload of `len` bytes can be framed under `config`.
pub open spec fn fits(config: IrisNetworkConfig, len: nat) -> bool {
    len <= config.size.max_payload()
}

/// The bytes that carry `payload` over the wire: its length, then the payload
/// itself.
pub open spec fn frame(config: IrisNetworkConfig, payload: Seq<u8>) -> Seq<u8> {
    length_prefix(config, payload.len()) + payload
}

/// The capacities of the widths in use, as numbers.
pub proof fn lemma_capacity_values()
    ensures
        capacity(0) == 1,
        capacity(1) == 0x100,
        capacity(2) == 0x1_0000,
        capacity(3) == 0x100_0000,
        capacity(4) == 0x1_0000_0000,
        capacity(5) == 0x100_0000_0000,
        capacity(6) == 0x1_0000_0000_0000,
        capacity(7) == 0x100_0000_0000_0000,
        capacity(8) == 0x1_0000_0000_0000_0000,
{
    reveal_with_fuel(capacity, 9);
}

/// Seven bytes or fewer leave room for one byte more in a 64-bit word.
proof fn lemma_capacity_below_word(width: nat)
    requires
        width <= 7,
    ensures
        capacity(width) <= 0x100_0000_0000_0000,
{
    lemma_capacity_values();
    if width == 0 {
    } else if width == 1 {
    } else if width == 2 {
    } else if width == 3 {
    } else if width == 4 {
    } else if width == 5 {
    } else if width == 6 {
    } else {
    }
}

/// The longest payload of a width is the largest number its prefix can hold.
pub proof fn lemma_max_payload_is_capacity(size: SizeType)
    ensures
        size.max_payload() + 1 == capacity(size.width()),
{
    lemma_capacity_values();
}

/// The longest payload of a width can be framed, and one byte more cannot.
pub proof fn lemma_overflow_boundary(config: IrisNetworkConfig)
    ensures
        fits(config, config.size.max_payload()),
        !fits(config, config.size.max_payload() + 1),
        forall|len: nat| fits(config, len) <==> len < capacity(config.size.width()),
{
    lemma_max_payload_is_capacity(config.size);
}

/// Writing a number takes exactly `width` bytes.
pub proof fn lemma_bytes_len(n: nat, width: nat)
    ensures
        le_bytes(n, width).len() == width,
        be_bytes(n, width).len() == width,
    decreases width,
{
    if width > 0 {
        lemma_bytes_len(n / 256, (width - 1) as nat);
    }
}

/// Bytes spell a number below the capacity of their count.
pub proof fn lemma_value_bound(bytes: Seq<u8>)
    ensures
        le_value(bytes) < capacity(bytes.len()),
        be_value(bytes) < capacity(bytes.len()),
    decreases bytes.len(),
{
    if bytes.len() > 0 {
        lemma_value_bound(bytes.drop_first());
        lemma_value_bound(bytes.drop_last());
    }
}

/// Reading back what was written, least significant byte first, gives the
/// number that was written.
pub proof fn lemma_le_round_trip(n: nat, width: nat)
    requires
        n < capacity(width),
    ensures
        le_value(le_bytes(n, width)) == n,
    decreases width,
{
    if width > 0 {
        let rest = le_bytes(n / 256, (width - 1) as nat);
        let all = le_bytes(n, width);
        lemma_le_round_trip(n / 256, (width - 1) as nat);
        assert(all.drop_first() =~= rest);
        assert(all[0] == (n % 256) as u8);
    }
}

/// Reading back what was written, most significant byte first, gives the
/// number that was written.
pub proof fn lemma_be_round_trip(n: nat, width: nat)
    requires
        n < capacity(width),
    ensures
        be_value(be_bytes(n, width)) == n,
    decreases width,
{
    if width > 0 {
        let rest = be_bytes(n / 256, (width - 1) as nat);
        let all = be_bytes(n, width);
        lemma_be_round_trip(n / 256, (width - 1) as nat);
        assert(all.drop_last() =~= rest);
        assert(all.last() == (n % 256) as u8);
    }
}

/// Writing the number that bytes spell, least significant byte first, gives
/// those bytes again.
pub proof fn lemma_le_bytes_of_value(bytes: Seq<u8>)
    ensures
        le_bytes(le_value(bytes), bytes.len()) == bytes,
    decreases bytes.len(),
{
    if bytes.len() > 0 {
        let tail = bytes.drop_first();
        lemma_le_bytes_of_value(tail);
        let n = le_value(bytes);
        assert(n % 256 == bytes[0] as nat && n / 256 == le_value(tail)) by {
            assert(n == bytes[0] as nat + 256 * le_value(tail));
        }
        assert(le_bytes(n, bytes.len()) =~= bytes);
    } else {
        assert(le_bytes(le_value(bytes), bytes.len()) =~= bytes);
    }
}

/// Writing the number that bytes spell, most significant byte first, gives
/// those bytes again.
pub proof fn lemma_be_bytes_of_value(bytes: Seq<u8>)
    ensures
        be_bytes(be_value(bytes), bytes.len()) == bytes,
    decreases bytes.len(),
{
    if bytes.len() > 0 {
        let head = bytes.drop_last();
        lemma_be_bytes_of_value(head);
        let n = be_value(bytes);
        assert(n % 256 == bytes.last() as nat && n / 256 == be_value(head)) by {
            assert(n == 256 * be_value(head) + bytes.last() as nat);
        }
        assert(be_bytes(n, bytes.len()) =~= bytes);
    } else {
        assert(be_bytes(be_value(bytes), bytes.len()) =~= bytes);
    }
}

/// A prefix has the configured width, and announces the length it was
/// written for.
pub proof fn lemma_prefix_round_trip(config: IrisNetworkConfig, len: nat)
    requires
        fits(config, len),
    ensures
        length_prefix(config, len).len() == config.size.width(),
        prefix_value(config.endian, length_prefix(config, len)) == len,
{
    let width = config.size.width();
    lemma_max_payload_is_capacity(config.size);
    lemma_bytes_len(len, width);
    lemma_le_round_trip(len, width);
    lemma_be_round_trip(len, width);
}

/// Every sequence of the configured width is the prefix of exactly one
/// length, and that length can be framed.
pub proof fn lemma_prefix_of_value(config: IrisNetworkConfig, prefix: Seq<u8>)
    requires
        prefix.len() == config.size.width(),
    ensures
        fits(config, prefix_value(config.endian, prefix)),
        length_prefix(config, prefix_value(config.endian, prefix)) == prefix,
{
    lemma_max_payload_is_capacity(config.size);
    lemma_value_bound(prefix);
    lemma_le_bytes_of_value(prefix);
    lemma_be_bytes_of_value(prefix);
}

/// Writes `n` in `width` bytes, least significant byte first.
fn write_le(n: u64, width: usize) -> (out: Vec<u8>)
    ensures
        out@ == le_bytes(n as nat, width as nat),
{
    let mut out: Vec<u8> = Vec::new();
    let mut rest: u64 = n;
    let mut i: usize = 0;
    while i < width
        invariant
            i <= width,
            out@ + le_bytes(rest as nat, (width - i) as nat) == le_bytes(n as nat, width as nat),
        decreases width - i,
    {
        out.push((rest % 256) as u8);
        rest = rest / 256;
        i = i + 1;
    }
    out
}

/// Writes `n` in `width` bytes, most significant byte first.
fn write_be(n: u64, width: usize) -> (out: Vec<u8>)
    ensures
        out@ == be_bytes(n as nat, width as nat),
    decreases width,
{
    if width == 0 {
        Vec::new()
    } else {
        let mut out = write_be(n / 256, width - 1);
        out.push((n % 256) as u8);
        out
    }
}

/// Reads the number that `bytes` spell, least significant byte first.
fn read_le(bytes: &[u8]) -> (n: u64)
    requires
        bytes@.len() <= 8,
    ensures
        n == le_value(bytes@),
{
    let mut acc: u64 = 0;
    let mut i: usize = bytes.len();
    while i > 0
        invariant
            i <= bytes@.len() <= 8,
            acc == le_value(bytes@.skip(i as int)),
        decreases i,
    {
        proof {
            let done = bytes@.skip(i as int);
            let next = bytes@.skip(i - 1);
            lemma_value_bound(done);
            assert(next.drop_first() =~= done);
            assert(next[0] == bytes@[i - 1]);
            lemma_capacity_below_word(done.len());
        }
        i = i - 1;
        acc = acc * 256 + bytes[i] as u64;
    }
    assert(bytes@.skip(0) =~= bytes@);
    acc
}

/// Reads the number that `bytes` spell, most significant byte first.
fn read_be(bytes: &[u8]) -> (n: u64)
    requires
        bytes@.len() <= 8,
    ensures
        n == be_value(bytes@),
{
    let mut acc: u64 = 0;
    let mut i: usize = 0;
    while i < bytes.len()
        invariant
            i <= bytes@.len() <= 8,
            acc == be_value(bytes@.take(i as int)),
        decreases bytes@.len() - i,
    {
        proof {
            let done = bytes@.take(i as int);
            let next = bytes@.take(i + 1);
            lemma_value_bound(done);
            assert(next.drop_last() =~= done);
            assert(next.last() == bytes@[i as int]);
            lemma_capacity_below_word(done.len());
        }
        acc = acc * 256 + bytes[i] as u64;
        i = i + 1;
    }
    assert(bytes@.take(bytes@.len() as int) =~= bytes@);
    acc
}

/// Writes the prefix that announces a payload of `len` bytes.
///
/// A length beyond what the prefix can hold is refused with
/// [`NetError::Overflow`]; it is never truncated.
pub fn encode_length(config: IrisNetworkConfig, len: u64) -> (prefix: Result<Vec<u8>, NetError>)
    ensures
        match prefix {
            Ok(bytes) => fits(config, len as nat) && bytes@ == length_prefix(config, len as nat)
                && bytes@.len() == config.size.width(),
            Err(e) => !fits(config, len as nat) && e == NetError::Overflow,
        },
{
    if len > config.size.payload_limit() {
        return Err(NetError::Overflow);
    }
    proof {
        lemma_bytes_len(len as nat, config.size.width());
    }
    let width = config.size.prefix_len();
    match config.endian {
        Endian::Little => Ok(write_le(len, width)),
        Endian::Big => Ok(write_be(len, width)),
    }
}

/// Reads the payload length that `prefix` announces.
pub fn decode_length(config: IrisNetworkConfig, prefix: &[u8]) -> (len: u64)
    requires
        prefix@.len() == config.size.width(),
    ensures
        len == prefix_value(config.endian, prefix@),
        fits(config, len as nat),
{
    proof {
        lemma_prefix_of_value(config, prefix@);
    }
    match config.endian {
        Endian::Little => read_le(prefix),
        Endian::Big => read_be(prefix),
    }
}

/// Frames `payload`: its length prefix, then the payload.
///
/// A payload too long for the prefix is refused with
/// [`NetError::Overflow`]; it is never truncated.
pub fn encode_frame(config: IrisNetworkConfig, payload: &[u8]) -> (wire: Result<
    Vec<u8>,
    NetError,
>)
    ensures
        match wire {
            Ok(bytes) => fits(config, payload@.len()) && bytes@ == frame(config, payload@),
            Err(e) => !fits(config, payload@.len()) && e == NetError::Overflow,
        },
{
    match encode_length(config, payload.len() as u64) {
        Ok(mut bytes) => {
            bytes.extend_from_slice(payload);
            Ok(bytes)
        },
        Err(e) => Err(e),
    }
}

} // verus!
