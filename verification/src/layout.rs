//! How a host stores the integers of a record that it shares with the
//! kernel: byte by byte, in the host's order.

use vstd::prelude::*;

verus! {

/// The order in which a host stores the bytes of an integer.
#[derive(Clone, Copy, Debug, PartialEq, Eq, Structural)]
pub enum ByteOrder {
    /// Least significant byte first.
    Little,
    /// Most significant byte first.
    Big,
}

/// The two bytes of a 16-bit field, as a host of the given order stores them.
pub open spec fn half_layout(x: u16, order: ByteOrder) -> Seq<u8> {
    let low = (x % 256) as u8;
    let high = (x / 256) as u8;
    match order {
        ByteOrder::Little => seq![low, high],
        ByteOrder::Big => seq![high, low],
    }
}

/// The four bytes of a 32-bit field, as a host of the given order stores them.
pub open spec fn word_layout(x: u32, order: ByteOrder) -> Seq<u8> {
    let b0 = (x % 256) as u8;
    let b1 = ((x / 0x100) % 256) as u8;
    let b2 = ((x / 0x1_0000) % 256) as u8;
    let b3 = (x / 0x100_0000) as u8;
    match order {
        ByteOrder::Little => seq![b0, b1, b2, b3],
        ByteOrder::Big => seq![b3, b2, b1, b0],
    }
}

/// The 16-bit value that two stored bytes stand for.
pub open spec fn half_value(b: Seq<u8>, order: ByteOrder) -> int
    recommends
        b.len() == 2,
{
    match order {
        ByteOrder::Little => b[0] + 0x100 * b[1],
        ByteOrder::Big => b[1] + 0x100 * b[0],
    }
}

/// The 32-bit value that four stored bytes stand for.
pub open spec fn word_value(b: Seq<u8>, order: ByteOrder) -> int
    recommends
        b.len() == 4,
{
    match order {
        ByteOrder::Little => b[0] + 0x100 * b[1] + 0x1_0000 * b[2] + 0x100_0000 * b[3],
        ByteOrder::Big => b[3] + 0x100 * b[2] + 0x1_0000 * b[1] + 0x100_0000 * b[0],
    }
}

/// The eight bytes of a 64-bit field, as a host of the given order stores
/// them: its two 32-bit halves, each in that order.
pub open spec fn long_layout(x: u64, order: ByteOrder) -> Seq<u8> {
    let low = word_layout((x % 0x1_0000_0000) as u32, order);
    let high = word_layout((x / 0x1_0000_0000) as u32, order);
    match order {
        ByteOrder::Little => low + high,
        ByteOrder::Big => high + low,
    }
}

/// The 64-bit value that eight stored bytes stand for.
pub open spec fn long_value(b: Seq<u8>, order: ByteOrder) -> int
    recommends
        b.len() == 8,
{
    match order {
        ByteOrder::Little => word_value(b.subrange(0, 4), order) + 0x1_0000_0000 * word_value(
            b.subrange(4, 8),
            order,
        ),
        ByteOrder::Big => word_value(b.subrange(4, 8), order) + 0x1_0000_0000 * word_value(
            b.subrange(0, 4),
            order,
        ),
    }
}

/// The two bytes of a 16-bit field in the given order.
pub(crate) fn put_half(x: u16, order: ByteOrder) -> (b: [u8; 2])
    ensures
        b@ == half_layout(x, order),
{
    let low = (x % 256) as u8;
    let high = (x / 256) as u8;
    let b = match order {
        ByteOrder::Little => [low, high],
        ByteOrder::Big => [high, low],
    };
    assert(b@ =~= half_layout(x, order));
    b
}

/// The four bytes of a 32-bit field in the given order.
pub(crate) fn put_word(x: u32, order: ByteOrder) -> (b: [u8; 4])
    ensures
        b@ == word_layout(x, order),
{
    let b0 = (x % 256) as u8;
    let b1 = ((x / 0x100) % 256) as u8;
    let b2 = ((x / 0x1_0000) % 256) as u8;
    let b3 = (x / 0x100_0000) as u8;
    let b = match order {
        ByteOrder::Little => [b0, b1, b2, b3],
        ByteOrder::Big => [b3, b2, b1, b0],
    };
    assert(b@ =~= word_layout(x, order));
    b
}

/// The 16-bit value of two stored bytes, given in storage order.
pub(crate) fn get_half(first: u8, second: u8, order: ByteOrder) -> (x: u16)
    ensures
        x == half_value(seq![first, second], order),
{
    match order {
        ByteOrder::Little => first as u16 + 0x100 * (second as u16),
        ByteOrder::Big => second as u16 + 0x100 * (first as u16),
    }
}

/// The 32-bit value of four stored bytes, given in storage order.
pub(crate) fn get_word(first: u8, second: u8, third: u8, fourth: u8, order: ByteOrder) -> (x: u32)
    ensures
        x == word_value(seq![first, second, third, fourth], order),
{
    match order {
        ByteOrder::Little => first as u32 + 0x100 * (second as u32) + 0x1_0000 * (third as u32)
            + 0x100_0000 * (fourth as u32),
        ByteOrder::Big => fourth as u32 + 0x100 * (third as u32) + 0x1_0000 * (second as u32)
            + 0x100_0000 * (first as u32),
    }
}

/// The eight bytes of a 64-bit field in the given order.
pub(crate) fn put_long(x: u64, order: ByteOrder) -> (b: [u8; 8])
    ensures
        b@ == long_layout(x, order),
{
    let low = put_word((x % 0x1_0000_0000) as u32, order);
    let high = put_word((x / 0x1_0000_0000) as u32, order);
    let b = match order {
        ByteOrder::Little => [low[0], low[1], low[2], low[3], high[0], high[1], high[2], high[3]],
        ByteOrder::Big => [high[0], high[1], high[2], high[3], low[0], low[1], low[2], low[3]],
    };
    assert(b@ =~= long_layout(x, order));
    b
}

/// The 64-bit value of eight stored bytes.
pub(crate) fn get_long(b: &[u8; 8], order: ByteOrder) -> (x: u64)
    ensures
        x == long_value(b@, order),
{
    let first = get_word(b[0], b[1], b[2], b[3], order);
    let second = get_word(b[4], b[5], b[6], b[7], order);
    proof {
        assert(b@.subrange(0, 4) =~= seq![b@[0], b@[1], b@[2], b@[3]]);
        assert(b@.subrange(4, 8) =~= seq![b@[4], b@[5], b@[6], b@[7]]);
    }
    match order {
        ByteOrder::Little => first as u64 + 0x1_0000_0000 * (second as u64),
        ByteOrder::Big => second as u64 + 0x1_0000_0000 * (first as u64),
    }
}

/// The value of a stored 16-bit field is the field.
pub proof fn lemma_half_value_layout(x: u16, order: ByteOrder)
    ensures
        half_layout(x, order).len() == 2,
        half_value(half_layout(x, order), order) == x,
{
}

/// The value of a stored 32-bit field is the field.
pub proof fn lemma_word_value_layout(x: u32, order: ByteOrder)
    ensures
        word_layout(x, order).len() == 4,
        word_value(word_layout(x, order), order) == x,
{
}

/// Two stored bytes are the layout of their value.
pub proof fn lemma_half_layout_value(b: Seq<u8>, order: ByteOrder)
    requires
        b.len() == 2,
    ensures
        0 <= half_value(b, order) <= u16::MAX,
        half_layout(half_value(b, order) as u16, order) == b,
{
    assert(half_layout(half_value(b, order) as u16, order) =~= b);
}

/// Four stored bytes are the layout of their value.
pub proof fn lemma_word_layout_value(b: Seq<u8>, order: ByteOrder)
    requires
        b.len() == 4,
    ensures
        0 <= word_value(b, order) <= u32::MAX,
        word_layout(word_value(b, order) as u32, order) == b,
{
    let (b0, b1, b2, b3): (u32, u32, u32, u32) = match order {
        ByteOrder::Little => (b[0] as u32, b[1] as u32, b[2] as u32, b[3] as u32),
        ByteOrder::Big => (b[3] as u32, b[2] as u32, b[1] as u32, b[0] as u32),
    };
    assert(b0 < 256 && b1 < 256 && b2 < 256 && b3 < 256 ==> {
        let v = (b0 + 0x100 * b1 + 0x1_0000 * b2 + 0x100_0000 * b3) as u32;
        &&& v == b0 + 0x100 * b1 + 0x1_0000 * b2 + 0x100_0000 * b3
        &&& v % 256 == b0
        &&& (v / 0x100) % 256 == b1
        &&& (v / 0x1_0000) % 256 == b2
        &&& v / 0x100_0000 == b3
    }) by (bit_vector);
    assert(word_layout(word_value(b, order) as u32, order) =~= b);
}

/// The value of a stored 64-bit field is the field.
pub proof fn lemma_long_value_layout(x: u64, order: ByteOrder)
    ensures
        long_layout(x, order).len() == 8,
        long_value(long_layout(x, order), order) == x,
{
    let low = (x % 0x1_0000_0000) as u32;
    let high = (x / 0x1_0000_0000) as u32;
    lemma_word_value_layout(low, order);
    lemma_word_value_layout(high, order);
    let l = long_layout(x, order);
    match order {
        ByteOrder::Little => {
            assert(l.subrange(0, 4) =~= word_layout(low, order));
            assert(l.subrange(4, 8) =~= word_layout(high, order));
        },
        ByteOrder::Big => {
            assert(l.subrange(0, 4) =~= word_layout(high, order));
            assert(l.subrange(4, 8) =~= word_layout(low, order));
        },
    }
}

/// Eight stored bytes are the layout of their value.
pub proof fn lemma_long_layout_value(b: Seq<u8>, order: ByteOrder)
    requires
        b.len() == 8,
    ensures
        0 <= long_value(b, order) <= u64::MAX,
        long_layout(long_value(b, order) as u64, order) == b,
{
    lemma_word_layout_value(b.subrange(0, 4), order);
    lemma_word_layout_value(b.subrange(4, 8), order);
    let first = word_value(b.subrange(0, 4), order);
    let second = word_value(b.subrange(4, 8), order);
    let x = long_value(b, order) as u64;
    match order {
        ByteOrder::Little => {
            assert(x % 0x1_0000_0000 == first && x / 0x1_0000_0000 == second);
        },
        ByteOrder::Big => {
            assert(x % 0x1_0000_0000 == second && x / 0x1_0000_0000 == first);
        },
    }
    assert(long_layout(x, order) =~= b);
}

} // verus!
