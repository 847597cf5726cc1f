//! The mathematical model of a reader: a sequence and a position in it.

use vstd::prelude::*;
use crate::order::{
    byte_swapped, lemma_one_byte_any_order, lemma_orders_swap_bytes, lemma_unsigned_value_fits,
    lemma_values_in_widths, normalized, signed_value, unsigned_value, ByteOrder,
};

verus! {

/// What a [`Reader`](crate::reader::Reader) stands for: the whole buffer and
/// the index of the next element to be read.
pub struct ReaderView<T> {
    pub buffer: Seq<T>,
    pub position: nat,
}

impl<T> ReaderView<T> {
    /// The position lies inside the buffer or just behind its last element.
    pub open spec fn wf(self) -> bool {
        self.position <= self.buffer.len()
    }

    /// How many elements have not been read yet.
    pub open spec fn remaining(self) -> nat {
        (self.buffer.len() - self.position) as nat
    }

    /// At least one element has not been read yet.
    pub open spec fn has_some(self) -> bool {
        self.position < self.buffer.len()
    }

    /// The elements that have not been read yet.
    pub open spec fn rest(self) -> Seq<T> {
        self.buffer.subrange(self.position as int, self.buffer.len() as int)
    }

    /// At least `n` elements have not been read yet.
    pub open spec fn has_n(self, n: nat) -> bool {
        self.position + n <= self.buffer.len()
    }

    /// The element `offset` places after the position, if the buffer reaches
    /// that far.
    pub open spec fn peek_at(self, offset: nat) -> Option<T> {
        if self.position + offset < self.buffer.len() {
            Some(self.buffer[(self.position + offset) as int])
        } else {
            None
        }
    }

    /// The next element, if one is left.
    pub open spec fn peek(self) -> Option<T> {
        self.peek_at(0)
    }

    /// The next `n` elements, if that many are left.
    pub open spec fn peek_n(self, n: nat) -> Option<Seq<T>> {
        if self.has_n(n) {
            Some(self.buffer.subrange(self.position as int, (self.position + n) as int))
        } else {
            None
        }
    }

    /// The reader after an attempt to read `n` elements: `n` places further
    /// on if that many were left, unchanged otherwise.
    pub open spec fn consume(self, n: nat) -> Self {
        if self.has_n(n) {
            ReaderView { buffer: self.buffer, position: self.position + n }
        } else {
            self
        }
    }

    /// Every read of the series `counts`, made one after the other from this
    /// reader on, finds enough elements left.
    pub open spec fn each_succeeds(self, counts: Seq<nat>) -> bool
        decreases counts.len(),
    {
        counts.len() == 0 || (self.has_n(counts.first()) && self.consume(
            counts.first(),
        ).each_succeeds(counts.drop_first()))
    }

    /// The reader after the reads of the series `counts`, made one after the
    /// other.
    pub open spec fn consume_each(self, counts: Seq<nat>) -> Self
        decreases counts.len(),
    {
        if counts.len() == 0 {
            self
        } else {
            self.consume(counts.first()).consume_each(counts.drop_first())
        }
    }
}

/// The sum of `counts`.
pub open spec fn total(counts: Seq<nat>) -> nat
    decreases counts.len(),
{
    if counts.len() == 0 {
        0
    } else {
        counts.first() + total(counts.drop_first())
    }
}

impl ReaderView<u8> {
    /// The next `n` bytes brought from the machine's own order into `order`,
    /// if that many are left.
    pub open spec fn peek_bytes_in(self, order: ByteOrder, n: nat) -> Option<Seq<u8>> {
        match self.peek_n(n) {
            Some(bytes) => Some(normalized(order, bytes)),
            None => None,
        }
    }

    /// The next byte as a `u8` in `order`, if one is left.
    pub open spec fn peek_u8(self, order: ByteOrder) -> Option<u8> {
        match self.peek_n(1) {
            Some(bytes) => Some(unsigned_value(order, bytes) as u8),
            None => None,
        }
    }

    /// The next two bytes as a `u16` in `order`, if that many are left.
    pub open spec fn peek_u16(self, order: ByteOrder) -> Option<u16> {
        match self.peek_n(2) {
            Some(bytes) => Some(unsigned_value(order, bytes) as u16),
            None => None,
        }
    }

    /// The next four bytes as a `u32` in `order`, if that many are left.
    pub open spec fn peek_u32(self, order: ByteOrder) -> Option<u32> {
        match self.peek_n(4) {
            Some(bytes) => Some(unsigned_value(order, bytes) as u32),
            None => None,
        }
    }

    /// The next eight bytes as a `u64` in `order`, if that many are left.
    pub open spec fn peek_u64(self, order: ByteOrder) -> Option<u64> {
        match self.peek_n(8) {
            Some(bytes) => Some(unsigned_value(order, bytes) as u64),
            None => None,
        }
    }

    /// The next byte as an `i8` in `order`, if one is left.
    pub open spec fn peek_i8(self, order: ByteOrder) -> Option<i8> {
        match self.peek_n(1) {
            Some(bytes) => Some(signed_value(order, bytes) as i8),
            None => None,
        }
    }

    /// The next two bytes as an `i16` in `order`, if that many are left.
    pub open spec fn peek_i16(self, order: ByteOrder) -> Option<i16> {
        match self.peek_n(2) {
            Some(bytes) => Some(signed_value(order, bytes) as i16),
            None => None,
        }
    }

    /// The next four bytes as an `i32` in `order`, if that many are left.
    pub open spec fn peek_i32(self, order: ByteOrder) -> Option<i32> {
        match self.peek_n(4) {
            Some(bytes) => Some(signed_value(order, bytes) as i32),
            None => None,
        }
    }

    /// The next eight bytes as an `i64` in `order`, if that many are left.
    pub open spec fn peek_i64(self, order: ByteOrder) -> Option<i64> {
        match self.peek_n(8) {
            Some(bytes) => Some(signed_value(order, bytes) as i64),
            None => None,
        }
    }
}

/// `has_n(n)` holds exactly when `peek_n(n)` gives a run: the run then has `n`
/// elements, and they are the buffer's from the position on.
pub proof fn lemma_has_n_iff_peek_n<T>(reader: ReaderView<T>, n: nat)
    requires
        reader.wf(),
    ensures
        reader.has_n(n) <==> reader.peek_n(n) is Some,
        reader.has_n(n) <==> n <= reader.remaining(),
        reader.peek_n(n) matches Some(run) ==> {
            &&& run.len() == n
            &&& run == reader.buffer.subrange(reader.position as int, (reader.position + n) as int)
            &&& forall|i: int| 0 <= i < n ==> run[i] == reader.buffer[reader.position + i]
            &&& forall|i: nat| i < n ==> reader.peek_at(i) == Some(run[i as int])
        },
{
}

/// A read never takes the position past the end of the buffer, and never
/// touches the buffer.
pub proof fn lemma_consume_keeps_wf<T>(reader: ReaderView<T>, n: nat)
    requires
        reader.wf(),
    ensures
        reader.consume(n).wf(),
        reader.consume(n).buffer == reader.buffer,
        reader.position <= reader.consume(n).position,
{
}

/// A read of `n` elements that succeeds moves the position on by `n`, and what
/// is left afterwards is what was left before without its first `n` elements.
pub proof fn lemma_read_advances<T>(reader: ReaderView<T>, n: nat)
    requires
        reader.wf(),
        reader.has_n(n),
    ensures
        reader.consume(n).position == reader.position + n,
        reader.consume(n).remaining() == reader.remaining() - n,
        reader.consume(n).rest() == reader.rest().skip(n as int),
        reader.peek_n(n) == Some(reader.rest().take(n as int)),
{
}

/// A read of more elements than are left gives nothing and changes nothing:
/// the position and the number of elements left stay as they were.
pub proof fn lemma_failed_read_changes_nothing<T>(reader: ReaderView<T>, n: nat)
    requires
        reader.wf(),
        n > reader.remaining(),
    ensures
        reader.peek_n(n) is None,
        reader.consume(n) == reader,
        reader.consume(n).position == reader.position,
        reader.consume(n).remaining() == reader.remaining(),
{
}

/// After a series of reads that all succeed the position has moved on by the
/// sum of their counts, and what is left is the buffer from that position on.
pub proof fn lemma_reads_add_up<T>(start: ReaderView<T>, counts: Seq<nat>)
    requires
        start.wf(),
        start.each_succeeds(counts),
    ensures
        start.consume_each(counts).wf(),
        start.consume_each(counts).buffer == start.buffer,
        start.consume_each(counts).position == start.position + total(counts),
        start.consume_each(counts).rest() == start.buffer.skip(
            (start.position + total(counts)) as int,
        ),
    decreases counts.len(),
{
    if counts.len() > 0 {
        lemma_reads_add_up(start.consume(counts.first()), counts.drop_first());
    }
}

/// Each integer read gives the value that the next bytes hold in the order
/// asked for, whole: every such value fits the type it is read as. A `u8` is
/// the next byte itself.
pub proof fn lemma_integers_hold_their_values(reader: ReaderView<u8>, order: ByteOrder)
    requires
        reader.wf(),
    ensures
        reader.peek_u8(order) == reader.peek(),
        reader.peek_n(1) matches Some(bytes) ==> {
            &&& reader.peek_u8(order) matches Some(value) && value == unsigned_value(order, bytes)
            &&& reader.peek_i8(order) matches Some(value) && value == signed_value(order, bytes)
        },
        reader.peek_n(2) matches Some(bytes) ==> {
            &&& reader.peek_u16(order) matches Some(value) && value == unsigned_value(order, bytes)
            &&& reader.peek_i16(order) matches Some(value) && value == signed_value(order, bytes)
        },
        reader.peek_n(4) matches Some(bytes) ==> {
            &&& reader.peek_u32(order) matches Some(value) && value == unsigned_value(order, bytes)
            &&& reader.peek_i32(order) matches Some(value) && value == signed_value(order, bytes)
        },
        reader.peek_n(8) matches Some(bytes) ==> {
            &&& reader.peek_u64(order) matches Some(value) && value == unsigned_value(order, bytes)
            &&& reader.peek_i64(order) matches Some(value) && value == signed_value(order, bytes)
        },
{
    lemma_values_in_widths();
    if let Some(bytes) = reader.peek_n(1) {
        lemma_unsigned_value_fits(order, bytes);
        lemma_one_byte_any_order(bytes);
    }
    if let Some(bytes) = reader.peek_n(2) {
        lemma_unsigned_value_fits(order, bytes);
    }
    if let Some(bytes) = reader.peek_n(4) {
        lemma_unsigned_value_fits(order, bytes);
    }
    if let Some(bytes) = reader.peek_n(8) {
        lemma_unsigned_value_fits(order, bytes);
    }
}

/// The little-endian and the big-endian read of one integer are each other's
/// byte swap, and they agree exactly when the bytes read the same in both
/// directions, as a single byte always does.
pub proof fn lemma_little_and_big_endian_reads(reader: ReaderView<u8>)
    requires
        reader.wf(),
    ensures
        reader.peek_u8(ByteOrder::Little) == reader.peek_u8(ByteOrder::Big),
        reader.peek_i8(ByteOrder::Little) == reader.peek_i8(ByteOrder::Big),
        reader.peek_n(2) matches Some(bytes) ==> {
            let same = bytes == bytes.reverse();
            &&& reader.peek_u16(ByteOrder::Little) matches Some(little)
            &&& reader.peek_u16(ByteOrder::Big) matches Some(big)
            &&& big == byte_swapped(little as nat, 2) && little == byte_swapped(big as nat, 2)
            &&& little == big <==> same
            &&& reader.peek_i16(ByteOrder::Little) == reader.peek_i16(ByteOrder::Big) <==> same
        },
        reader.peek_n(4) matches Some(bytes) ==> {
            let same = bytes == bytes.reverse();
            &&& reader.peek_u32(ByteOrder::Little) matches Some(little)
            &&& reader.peek_u32(ByteOrder::Big) matches Some(big)
            &&& big == byte_swapped(little as nat, 4) && little == byte_swapped(big as nat, 4)
            &&& little == big <==> same
            &&& reader.peek_i32(ByteOrder::Little) == reader.peek_i32(ByteOrder::Big) <==> same
        },
        reader.peek_n(8) matches Some(bytes) ==> {
            let same = bytes == bytes.reverse();
            &&& reader.peek_u64(ByteOrder::Little) matches Some(little)
            &&& reader.peek_u64(ByteOrder::Big) matches Some(big)
            &&& big == byte_swapped(little as nat, 8) && little == byte_swapped(big as nat, 8)
            &&& little == big <==> same
            &&& reader.peek_i64(ByteOrder::Little) == reader.peek_i64(ByteOrder::Big) <==> same
        },
{
    lemma_values_in_widths();
    if let Some(bytes) = reader.peek_n(1) {
        lemma_one_byte_any_order(bytes);
    }
    if let Some(bytes) = reader.peek_n(2) {
        lemma_orders_swap_bytes(bytes);
        lemma_unsigned_value_fits(ByteOrder::Little, bytes);
        lemma_unsigned_value_fits(ByteOrder::Big, bytes);
    }
    if let Some(bytes) = reader.peek_n(4) {
        lemma_orders_swap_bytes(bytes);
        lemma_unsigned_value_fits(ByteOrder::Little, bytes);
        lemma_unsigned_value_fits(ByteOrder::Big, bytes);
    }
    if let Some(bytes) = reader.peek_n(8) {
        lemma_orders_swap_bytes(bytes);
        lemma_unsigned_value_fits(ByteOrder::Little, bytes);
        lemma_unsigned_value_fits(ByteOrder::Big, bytes);
    }
}

} // verus!
