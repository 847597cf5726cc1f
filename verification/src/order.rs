//! Byte orders, and the integer that a run of bytes stands for in each.

use vstd::prelude::*;
use vstd::endian::{endianness, Endian};

verus! {

/// The order in which the bytes of an integer follow each other.
#[derive(Clone, Copy, Debug, PartialEq, Eq, Structural)]
pub enum ByteOrder {
    /// The least significant byte comes first.
    Little,
    /// The most significant byte comes first.
    Big,
}

/// The byte order of the machine that the program runs on. It is one of the
/// two and the same for the whole run; which one is left open, so that what is
/// proved holds on either kind of machine.
pub open spec fn native_order() -> ByteOrder {
    match endianness() {
        Endian::Little => ByteOrder::Little,
        Endian::Big => ByteOrder::Big,
    }
}

/// The number of values that `width` bytes can tell apart: 256 to the power
/// `width`.
pub open spec fn values_in(width: nat) -> nat
    decreases width,
{
    if width == 0 {
        1
    } else {
        256 * values_in((width - 1) as nat)
    }
}

/// The number that `bytes` spell in base 256 with the least significant digit
/// first.
pub open spec fn little_endian_value(bytes: Seq<u8>) -> nat
    decreases bytes.len(),
{
    if bytes.len() == 0 {
        0
    } else {
        bytes.first() as nat + 256 * little_endian_value(bytes.drop_first())
    }
}

/// The number that `bytes` spell in base 256 with the most significant digit
/// first.
pub open spec fn big_endian_value(bytes: Seq<u8>) -> nat
    decreases bytes.len(),
{
    if bytes.len() == 0 {
        0
    } else {
        256 * big_endian_value(bytes.drop_last()) + bytes.last() as nat
    }
}

/// The unsigned integer that `bytes` hold when read in `order`.
pub open spec fn unsigned_value(order: ByteOrder, bytes: Seq<u8>) -> nat {
    match order {
        ByteOrder::Little => little_endian_value(bytes),
        ByteOrder::Big => big_endian_value(bytes),
    }
}

/// The two's complement integer that `bytes` hold when read in `order`: the
/// upper half of the unsigned values stands for the negative numbers.
pub open spec fn signed_value(order: ByteOrder, bytes: Seq<u8>) -> int {
    let unsigned = unsigned_value(order, bytes);
    if 2 * unsigned >= values_in(bytes.len()) {
        unsigned - values_in(bytes.len())
    } else {
        unsigned as int
    }
}

/// `bytes`, taken to be in the machine's own order, brought into `order`:
/// unchanged where the two orders agree, back to front where they differ.
pub open spec fn normalized(order: ByteOrder, bytes: Seq<u8>) -> Seq<u8> {
    if order == native_order() {
        bytes
    } else {
        bytes.reverse()
    }
}

/// The `width` bytes that hold `value` in `order`: its lowest `width` digits in
/// base 256.
pub open spec fn bytes_of(order: ByteOrder, value: nat, width: nat) -> Seq<u8>
    decreases width,
{
    if width == 0 {
        Seq::empty()
    } else {
        let lowest = (value % 256) as u8;
        let higher = bytes_of(order, value / 256, (width - 1) as nat);
        match order {
            ByteOrder::Little => seq![lowest] + higher,
            ByteOrder::Big => higher.push(lowest),
        }
    }
}

/// `value` with its `width` bytes back to front.
pub open spec fn byte_swapped(value: nat, width: nat) -> nat {
    big_endian_value(bytes_of(ByteOrder::Little, value, width))
}

/// `u16::from_ne_bytes` of the standard library: the integer that two bytes
/// hold in the order of the machine. Nothing here proves this contract; it
/// restates the documentation of that function, which reads the bytes least
/// significant first on a little-endian machine and most significant first on
/// a big-endian one.
#[verifier::external_body]
fn u16_from_ne_bytes(bytes: [u8; 2]) -> (value: u16)
    ensures
        value == unsigned_value(native_order(), bytes@),
{
    u16::from_ne_bytes(bytes)
}

impl ByteOrder {
    /// The other of the two orders.
    pub open spec fn other(self) -> ByteOrder {
        match self {
            ByteOrder::Little => ByteOrder::Big,
            ByteOrder::Big => ByteOrder::Little,
        }
    }

    /// The byte order of the machine that the program runs on.
    pub fn native() -> (order: ByteOrder)
        ensures
            order == native_order(),
    {
        let probe: [u8; 2] = [1, 0];
        proof {
            reveal_with_fuel(little_endian_value, 3);
            reveal_with_fuel(big_endian_value, 3);
        }
        if u16_from_ne_bytes(probe) == 1 {
            ByteOrder::Little
        } else {
            ByteOrder::Big
        }
    }

    /// Brings `bytes` from the machine's own order into this one: they come
    /// back unchanged where the two agree and back to front where they differ.
    pub fn normalize<const N: usize>(self, bytes: [u8; N]) -> (ordered: [u8; N])
        ensures
            ordered@ == normalized(self, bytes@),
    {
        if self == ByteOrder::native() {
            bytes
        } else {
            reversed(bytes)
        }
    }

    /// The `u8` that one byte holds. The order makes no difference here.
    pub fn u8_from_bytes(self, bytes: [u8; 1]) -> (value: u8)
        ensures
            value == unsigned_value(self, bytes@),
            value == bytes@[0],
    {
        proof {
            reveal_with_fuel(little_endian_value, 2);
            reveal_with_fuel(big_endian_value, 2);
        }
        bytes[0]
    }

    /// The `u16` that two bytes hold in this order.
    pub fn u16_from_bytes(self, bytes: [u8; 2]) -> (value: u16)
        ensures
            value == unsigned_value(self, bytes@),
    {
        proof {
            lemma_unsigned_value_fits(self, bytes@);
            lemma_values_in_widths();
        }
        unsigned_from_bytes(self, &bytes) as u16
    }

    /// The `u32` that four bytes hold in this order.
    pub fn u32_from_bytes(self, bytes: [u8; 4]) -> (value: u32)
        ensures
            value == unsigned_value(self, bytes@),
    {
        proof {
            lemma_unsigned_value_fits(self, bytes@);
            lemma_values_in_widths();
        }
        unsigned_from_bytes(self, &bytes) as u32
    }

    /// The `u64` that eight bytes hold in this order.
    pub fn u64_from_bytes(self, bytes: [u8; 8]) -> (value: u64)
        ensures
            value == unsigned_value(self, bytes@),
    {
        unsigned_from_bytes(self, &bytes)
    }

    /// The `i8` that one byte holds. The order makes no difference here.
    pub fn i8_from_bytes(self, bytes: [u8; 1]) -> (value: i8)
        ensures
            value == signed_value(self, bytes@),
    {
        proof {
            lemma_values_in_widths();
        }
        let unsigned: u8 = self.u8_from_bytes(bytes);
        if unsigned >= 0x80 {
            (unsigned - 0x80) as i8 + i8::MIN
        } else {
            unsigned as i8
        }
    }

    /// The `i16` that two bytes hold in this order.
    pub fn i16_from_bytes(self, bytes: [u8; 2]) -> (value: i16)
        ensures
            value == signed_value(self, bytes@),
    {
        proof {
            lemma_values_in_widths();
        }
        let unsigned: u16 = self.u16_from_bytes(bytes);
        if unsigned >= 0x8000 {
            (unsigned - 0x8000) as i16 + i16::MIN
        } else {
            unsigned as i16
        }
    }

    /// The `i32` that four bytes hold in this order.
    pub fn i32_from_bytes(self, bytes: [u8; 4]) -> (value: i32)
        ensures
            value == signed_value(self, bytes@),
    {
        proof {
            lemma_values_in_widths();
        }
        let unsigned: u32 = self.u32_from_bytes(bytes);
        if unsigned >= 0x8000_0000 {
            (unsigned - 0x8000_0000) as i32 + i32::MIN
        } else {
            unsigned as i32
        }
    }

    /// The `i64` that eight bytes hold in this order.
    pub fn i64_from_bytes(self, bytes: [u8; 8]) -> (value: i64)
        ensures
            value == signed_value(self, bytes@),
    {
        proof {
            lemma_values_in_widths();
        }
        let unsigned: u64 = self.u64_from_bytes(bytes);
        if unsigned >= 0x8000_0000_0000_0000 {
            (unsigned - 0x8000_0000_0000_0000) as i64 + i64::MIN
        } else {
            unsigned as i64
        }
    }
}

/// The unsigned integer of at most eight bytes, read in `order`.
fn unsigned_from_bytes<const N: usize>(order: ByteOrder, bytes: &[u8; N]) -> (value: u64)
    requires
        N <= 8,
    ensures
        value == unsigned_value(order, bytes@),
{
    let mut value: u64 = 0;
    match order {
        ByteOrder::Big => {
            let mut read: usize = 0;
            while read < N
                invariant
                    N <= 8,
                    read <= N,
                    bytes@.len() == N,
                    value == big_endian_value(bytes@.take(read as int)),
                decreases N - read,
            {
                proof {
                    let longer = bytes@.take(read + 1);
                    assert(longer.drop_last() == bytes@.take(read as int));
                    lemma_unsigned_value_fits(ByteOrder::Big, longer);
                    lemma_values_in_grows(longer.len(), 8);
                    lemma_values_in_widths();
                }
                value = value * 256 + bytes[read] as u64;
                read += 1;
            }
            assert(bytes@.take(N as int) == bytes@);
        },
        ByteOrder::Little => {
            let mut left: usize = N;
            while left > 0
                invariant
                    N <= 8,
                    left <= N,
                    bytes@.len() == N,
                    value == little_endian_value(bytes@.skip(left as int)),
                decreases left,
            {
                proof {
                    let longer = bytes@.skip(left - 1);
                    assert(longer.drop_first() == bytes@.skip(left as int));
                    lemma_unsigned_value_fits(ByteOrder::Little, longer);
                    lemma_values_in_grows(longer.len(), 8);
                    lemma_values_in_widths();
                }
                left -= 1;
                value = value * 256 + bytes[left] as u64;
            }
            assert(bytes@.skip(0) == bytes@);
        },
    }
    value
}

/// `bytes` back to front.
fn reversed<const N: usize>(bytes: [u8; N]) -> (turned: [u8; N])
    ensures
        turned@ == bytes@.reverse(),
{
    let mut turned = bytes;
    let mut done: usize = 0;
    while done < N
        invariant
            done <= N,
            bytes@.len() == N,
            turned@.len() == N,
            forall|i: int| 0 <= i < done ==> turned@[i] == bytes@[N - 1 - i],
        decreases N - done,
    {
        turned[done] = bytes[N - 1 - done];
        done += 1;
    }
    turned
}

/// Every run of bytes holds a value below `values_in` of its length.
pub proof fn lemma_unsigned_value_fits(order: ByteOrder, bytes: Seq<u8>)
    ensures
        unsigned_value(order, bytes) < values_in(bytes.len()),
    decreases bytes.len(),
{
    if bytes.len() > 0 {
        match order {
            ByteOrder::Little => lemma_unsigned_value_fits(order, bytes.drop_first()),
            ByteOrder::Big => lemma_unsigned_value_fits(order, bytes.drop_last()),
        }
    }
}

/// `values_in` for the widths of the fixed-size integers.
pub proof fn lemma_values_in_widths()
    ensures
        values_in(0) == 1,
        values_in(1) == 0x100,
        values_in(2) == 0x1_0000,
        values_in(4) == 0x1_0000_0000,
        values_in(8) == 0x1_0000_0000_0000_0000,
{
    reveal_with_fuel(values_in, 9);
}

/// More bytes tell more values apart.
pub proof fn lemma_values_in_grows(narrow: nat, wide: nat)
    requires
        narrow <= wide,
    ensures
        values_in(narrow) <= values_in(wide),
    decreases wide,
{
    if narrow < wide {
        lemma_values_in_grows(narrow, (wide - 1) as nat);
    }
}

/// Bytes read in one order hold what the same bytes back to front hold in the
/// other order.
pub proof fn lemma_reversed_bytes_other_order(order: ByteOrder, bytes: Seq<u8>)
    ensures
        unsigned_value(order.other(), bytes) == unsigned_value(order, bytes.reverse()),
        signed_value(order.other(), bytes) == signed_value(order, bytes.reverse()),
    decreases bytes.len(),
{
    let turned = bytes.reverse();
    if bytes.len() > 0 {
        match order {
            ByteOrder::Little => {
                assert(turned.drop_first() == bytes.drop_last().reverse());
                lemma_reversed_bytes_other_order(order, bytes.drop_last());
            },
            ByteOrder::Big => {
                assert(turned.drop_last() == bytes.drop_first().reverse());
                lemma_reversed_bytes_other_order(order, bytes.drop_first());
            },
        }
    }
}

/// Writing down the value of `bytes` in the order in which it was read gives
/// `bytes` again.
pub proof fn lemma_bytes_round_trip(order: ByteOrder, bytes: Seq<u8>)
    ensures
        bytes_of(order, unsigned_value(order, bytes), bytes.len()) == bytes,
    decreases bytes.len(),
{
    if bytes.len() > 0 {
        match order {
            ByteOrder::Little => lemma_bytes_round_trip(order, bytes.drop_first()),
            ByteOrder::Big => lemma_bytes_round_trip(order, bytes.drop_last()),
        }
    }
}

/// Reading the bytes of a value that fits in `width` bytes gives the value
/// again.
pub proof fn lemma_value_round_trip(order: ByteOrder, value: nat, width: nat)
    requires
        value < values_in(width),
    ensures
        bytes_of(order, value, width).len() == width,
        unsigned_value(order, bytes_of(order, value, width)) == value,
    decreases width,
{
    if width > 0 {
        let lowest = (value % 256) as u8;
        let higher = bytes_of(order, value / 256, (width - 1) as nat);
        lemma_value_round_trip(order, value / 256, (width - 1) as nat);
        match order {
            ByteOrder::Little => {
                let all = seq![lowest] + higher;
                assert(all.drop_first() == higher);
            },
            ByteOrder::Big => {
                let all = higher.push(lowest);
                assert(all.drop_last() == higher);
            },
        }
    }
}

/// Two runs of one length that hold the same value in one order are the same
/// run.
pub proof fn lemma_value_tells_bytes(order: ByteOrder, one: Seq<u8>, two: Seq<u8>)
    requires
        one.len() == two.len(),
        unsigned_value(order, one) == unsigned_value(order, two) || signed_value(order, one)
            == signed_value(order, two),
    ensures
        one == two,
{
    lemma_unsigned_value_fits(order, one);
    lemma_unsigned_value_fits(order, two);
    lemma_bytes_round_trip(order, one);
    lemma_bytes_round_trip(order, two);
}

/// The little-endian and the big-endian reading of a run are each other's
/// byte swap, and they are equal only for a run that reads the same in both
/// directions.
pub proof fn lemma_orders_swap_bytes(bytes: Seq<u8>)
    ensures
        big_endian_value(bytes) == byte_swapped(little_endian_value(bytes), bytes.len()),
        little_endian_value(bytes) == byte_swapped(big_endian_value(bytes), bytes.len()),
        little_endian_value(bytes) == big_endian_value(bytes) <==> bytes == bytes.reverse(),
        signed_value(ByteOrder::Little, bytes) == signed_value(ByteOrder::Big, bytes) <==> bytes
            == bytes.reverse(),
{
    let turned = bytes.reverse();
    lemma_bytes_round_trip(ByteOrder::Little, bytes);
    lemma_reversed_bytes_other_order(ByteOrder::Little, bytes);
    lemma_reversed_bytes_other_order(ByteOrder::Big, bytes);
    // the little-endian bytes of the big-endian value are the run back to front
    lemma_bytes_round_trip(ByteOrder::Little, turned);
    lemma_reversed_bytes_other_order(ByteOrder::Little, turned);
    if little_endian_value(bytes) == big_endian_value(bytes) || signed_value(
        ByteOrder::Little,
        bytes,
    ) == signed_value(ByteOrder::Big, bytes) {
        lemma_value_tells_bytes(ByteOrder::Little, bytes, turned);
    }
}

/// Bringing bytes into an order twice gives them back as they were.
pub proof fn lemma_normalized_twice(order: ByteOrder, bytes: Seq<u8>)
    ensures
        normalized(order, normalized(order, bytes)) == bytes,
{
}

/// Bytes brought into `order` and then read as the machine reads them hold
/// what the bytes as they were hold in `order`.
pub proof fn lemma_normalized_then_native(order: ByteOrder, bytes: Seq<u8>)
    ensures
        unsigned_value(native_order(), normalized(order, bytes)) == unsigned_value(order, bytes),
        signed_value(native_order(), normalized(order, bytes)) == signed_value(order, bytes),
{
    if order != native_order() {
        lemma_reversed_bytes_other_order(native_order(), bytes);
    }
}

/// One byte holds the same value in either order.
pub proof fn lemma_one_byte_any_order(bytes: Seq<u8>)
    requires
        bytes.len() == 1,
    ensures
        unsigned_value(ByteOrder::Little, bytes) == bytes[0],
        unsigned_value(ByteOrder::Big, bytes) == bytes[0],
        signed_value(ByteOrder::Little, bytes) == signed_value(ByteOrder::Big, bytes),
{
    reveal_with_fuel(little_endian_value, 2);
    reveal_with_fuel(big_endian_value, 2);
}

} // verus!
