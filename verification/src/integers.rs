//! Fixed-width integers out of a reader of bytes.
//!
//! For each integer type there is a pair `peek_*_in` / `next_*_in` that takes
//! the byte order as an argument, and beside it the same pair under a name of
//! its own for each order: `_le`, `_be`, and `_ne` or no suffix for the order of
//! the machine.

use vstd::prelude::*;
use crate::order::{native_order, ByteOrder};
use crate::reader::Reader;

verus! {

impl<'rdr> Reader<'rdr, u8> {
    /// The next byte as a `u8` in `order`, without reading it.
    pub fn peek_u8_in(&self, order: ByteOrder) -> (value: Option<u8>)
        ensures
            value == self@.peek_u8(order),
    {
        match self.peek_bytes::<1>() {
            Some(bytes) => Some(order.u8_from_bytes(bytes)),
            None => None,
        }
    }

    /// Reads a `u8` in `order`. Where no byte is left this returns
    /// `None` and the reader stays as it was.
    pub fn next_u8_in(&mut self, order: ByteOrder) -> (value: Option<u8>)
        ensures
            value == old(self)@.peek_u8(order),
            final(self)@ == old(self)@.consume(1),
    {
        match self.next_bytes::<1>() {
            Some(bytes) => Some(order.u8_from_bytes(bytes)),
            None => None,
        }
    }

    /// Reads a `u8` in the order of the machine.
    pub fn next_u8(&mut self) -> (value: Option<u8>)
        ensures
            value == old(self)@.peek_u8(native_order()),
            final(self)@ == old(self)@.consume(1),
    {
        self.next_u8_in(ByteOrder::native())
    }

    /// Reads a `u8` in the order of the machine.
    pub fn next_u8_ne(&mut self) -> (value: Option<u8>)
        ensures
            value == old(self)@.peek_u8(native_order()),
            final(self)@ == old(self)@.consume(1),
    {
        self.next_u8_in(ByteOrder::native())
    }

    /// Reads a `u8` in little-endian order.
    pub fn next_u8_le(&mut self) -> (value: Option<u8>)
        ensures
            value == old(self)@.peek_u8(ByteOrder::Little),
            final(self)@ == old(self)@.consume(1),
    {
        self.next_u8_in(ByteOrder::Little)
    }

    /// Reads a `u8` in big-endian order.
    pub fn next_u8_be(&mut self) -> (value: Option<u8>)
        ensures
            value == old(self)@.peek_u8(ByteOrder::Big),
            final(self)@ == old(self)@.consume(1),
    {
        self.next_u8_in(ByteOrder::Big)
    }

    /// The next byte as a `u8` in the order of the machine, without reading it.
    pub fn peek_u8(&self) -> (value: Option<u8>)
        ensures
            value == self@.peek_u8(native_order()),
    {
        self.peek_u8_in(ByteOrder::native())
    }

    /// The next byte as a `u8` in the order of the machine, without reading it.
    pub fn peek_u8_ne(&self) -> (value: Option<u8>)
        ensures
            value == self@.peek_u8(native_order()),
    {
        self.peek_u8_in(ByteOrder::native())
    }

    /// The next byte as a `u8` in little-endian order, without reading it.
    pub fn peek_u8_le(&self) -> (value: Option<u8>)
        ensures
            value == self@.peek_u8(ByteOrder::Little),
    {
        self.peek_u8_in(ByteOrder::Little)
    }

    /// The next byte as a `u8` in big-endian order, without reading it.
    pub fn peek_u8_be(&self) -> (value: Option<u8>)
        ensures
            value == self@.peek_u8(ByteOrder::Big),
    {
        self.peek_u8_in(ByteOrder::Big)
    }

    /// The next two bytes as a `u16` in `order`, without reading them.
    pub fn peek_u16_in(&self, order: ByteOrder) -> (value: Option<u16>)
        ensures
            value == self@.peek_u16(order),
    {
        match self.peek_bytes::<2>() {
            Some(bytes) => Some(order.u16_from_bytes(bytes)),
            None => None,
        }
    }

    /// Reads a `u16` in `order`. Where fewer than two bytes are left this returns
    /// `None` and the reader stays as it was.
    pub fn next_u16_in(&mut self, order: ByteOrder) -> (value: Option<u16>)
        ensures
            value == old(self)@.peek_u16(order),
            final(self)@ == old(self)@.consume(2),
    {
        match self.next_bytes::<2>() {
            Some(bytes) => Some(order.u16_from_bytes(bytes)),
            None => None,
        }
    }

    /// Reads a `u16` in the order of the machine.
    pub fn next_u16(&mut self) -> (value: Option<u16>)
        ensures
            value == old(self)@.peek_u16(native_order()),
            final(self)@ == old(self)@.consume(2),
    {
        self.next_u16_in(ByteOrder::native())
    }

    /// Reads a `u16` in the order of the machine.
    pub fn next_u16_ne(&mut self) -> (value: Option<u16>)
        ensures
            value == old(self)@.peek_u16(native_order()),
            final(self)@ == old(self)@.consume(2),
    {
        self.next_u16_in(ByteOrder::native())
    }

    /// Reads a `u16` in little-endian order.
    pub fn next_u16_le(&mut self) -> (value: Option<u16>)
        ensures
            value == old(self)@.peek_u16(ByteOrder::Little),
            final(self)@ == old(self)@.consume(2),
    {
        self.next_u16_in(ByteOrder::Little)
    }

    /// Reads a `u16` in big-endian order.
    pub fn next_u16_be(&mut self) -> (value: Option<u16>)
        ensures
            value == old(self)@.peek_u16(ByteOrder::Big),
            final(self)@ == old(self)@.consume(2),
    {
        self.next_u16_in(ByteOrder::Big)
    }

    /// The next two bytes as a `u16` in the order of the machine, without reading them.
    pub fn peek_u16(&self) -> (value: Option<u16>)
        ensures
            value == self@.peek_u16(native_order()),
    {
        self.peek_u16_in(ByteOrder::native())
    }

    /// The next two bytes as a `u16` in the order of the machine, without reading them.
    pub fn peek_u16_ne(&self) -> (value: Option<u16>)
        ensures
            value == self@.peek_u16(native_order()),
    {
        self.peek_u16_in(ByteOrder::native())
    }

    /// The next two bytes as a `u16` in little-endian order, without reading them.
    pub fn peek_u16_le(&self) -> (value: Option<u16>)
        ensures
            value == self@.peek_u16(ByteOrder::Little),
    {
        self.peek_u16_in(ByteOrder::Little)
    }

    /// The next two bytes as a `u16` in big-endian order, without reading them.
    pub fn peek_u16_be(&self) -> (value: Option<u16>)
        ensures
            value == self@.peek_u16(ByteOrder::Big),
    {
        self.peek_u16_in(ByteOrder::Big)
    }

    /// The next four bytes as a `u32` in `order`, without reading them.
    pub fn peek_u32_in(&self, order: ByteOrder) -> (value: Option<u32>)
        ensures
            value == self@.peek_u32(order),
    {
        match self.peek_bytes::<4>() {
            Some(bytes) => Some(order.u32_from_bytes(bytes)),
            None => None,
        }
    }

    /// Reads a `u32` in `order`. Where fewer than four bytes are left this returns
    /// `None` and the reader stays as it was.
    pub fn next_u32_in(&mut self, order: ByteOrder) -> (value: Option<u32>)
        ensures
            value == old(self)@.peek_u32(order),
            final(self)@ == old(self)@.consume(4),
    {
        match self.next_bytes::<4>() {
            Some(bytes) => Some(order.u32_from_bytes(bytes)),
            None => None,
        }
    }

    /// Reads a `u32` in the order of the machine.
    pub fn next_u32(&mut self) -> (value: Option<u32>)
        ensures
            value == old(self)@.peek_u32(native_order()),
            final(self)@ == old(self)@.consume(4),
    {
        self.next_u32_in(ByteOrder::native())
    }

    /// Reads a `u32` in the order of the machine.
    pub fn next_u32_ne(&mut self) -> (value: Option<u32>)
        ensures
            value == old(self)@.peek_u32(native_order()),
            final(self)@ == old(self)@.consume(4),
    {
        self.next_u32_in(ByteOrder::native())
    }

    /// Reads a `u32` in little-endian order.
    pub fn next_u32_le(&mut self) -> (value: Option<u32>)
        ensures
            value == old(self)@.peek_u32(ByteOrder::Little),
            final(self)@ == old(self)@.consume(4),
    {
        self.next_u32_in(ByteOrder::Little)
    }

    /// Reads a `u32` in big-endian order.
    pub fn next_u32_be(&mut self) -> (value: Option<u32>)
        ensures
            value == old(self)@.peek_u32(ByteOrder::Big),
            final(self)@ == old(self)@.consume(4),
    {
        self.next_u32_in(ByteOrder::Big)
    }

    /// The next four bytes as a `u32` in the order of the machine, without reading them.
    pub fn peek_u32(&self) -> (value: Option<u32>)
        ensures
            value == self@.peek_u32(native_order()),
    {
        self.peek_u32_in(ByteOrder::native())
    }

    /// The next four bytes as a `u32` in the order of the machine, without reading them.
    pub fn peek_u32_ne(&self) -> (value: Option<u32>)
        ensures
            value == self@.peek_u32(native_order()),
    {
        self.peek_u32_in(ByteOrder::native())
    }

    /// The next four bytes as a `u32` in little-endian order, without reading them.
    pub fn peek_u32_le(&self) -> (value: Option<u32>)
        ensures
            value == self@.peek_u32(ByteOrder::Little),
    {
        self.peek_u32_in(ByteOrder::Little)
    }

    /// The next four bytes as a `u32` in big-endian order, without reading them.
    pub fn peek_u32_be(&self) -> (value: Option<u32>)
        ensures
            value == self@.peek_u32(ByteOrder::Big),
    {
        self.peek_u32_in(ByteOrder::Big)
    }

    /// The next eight bytes as a `u64` in `order`, without reading them.
    pub fn peek_u64_in(&self, order: ByteOrder) -> (value: Option<u64>)
        ensures
            value == self@.peek_u64(order),
    {
        match self.peek_bytes::<8>() {
            Some(bytes) => Some(order.u64_from_bytes(bytes)),
            None => None,
        }
    }

    /// Reads a `u64` in `order`. Where fewer than eight bytes are left this returns
    /// `None` and the reader stays as it was.
    pub fn next_u64_in(&mut self, order: ByteOrder) -> (value: Option<u64>)
        ensures
            value == old(self)@.peek_u64(order),
            final(self)@ == old(self)@.consume(8),
    {
        match self.next_bytes::<8>() {
            Some(bytes) => Some(order.u64_from_bytes(bytes)),
            None => None,
        }
    }

    /// Reads a `u64` in the order of the machine.
    pub fn next_u64(&mut self) -> (value: Option<u64>)
        ensures
            value == old(self)@.peek_u64(native_order()),
            final(self)@ == old(self)@.consume(8),
    {
        self.next_u64_in(ByteOrder::native())
    }

    /// Reads a `u64` in the order of the machine.
    pub fn next_u64_ne(&mut self) -> (value: Option<u64>)
        ensures
            value == old(self)@.peek_u64(native_order()),
            final(self)@ == old(self)@.consume(8),
    {
        self.next_u64_in(ByteOrder::native())
    }

    /// Reads a `u64` in little-endian order.
    pub fn next_u64_le(&mut self) -> (value: Option<u64>)
        ensures
            value == old(self)@.peek_u64(ByteOrder::Little),
            final(self)@ == old(self)@.consume(8),
    {
        self.next_u64_in(ByteOrder::Little)
    }

    /// Reads a `u64` in big-endian order.
    pub fn next_u64_be(&mut self) -> (value: Option<u64>)
        ensures
            value == old(self)@.peek_u64(ByteOrder::Big),
            final(self)@ == old(self)@.consume(8),
    {
        self.next_u64_in(ByteOrder::Big)
    }

    /// The next eight bytes as a `u64` in the order of the machine, without reading them.
    pub fn peek_u64(&self) -> (value: Option<u64>)
        ensures
            value == self@.peek_u64(native_order()),
    {
        self.peek_u64_in(ByteOrder::native())
    }

    /// The next eight bytes as a `u64` in the order of the machine, without reading them.
    pub fn peek_u64_ne(&self) -> (value: Option<u64>)
        ensures
            value == self@.peek_u64(native_order()),
    {
        self.peek_u64_in(ByteOrder::native())
    }

    /// The next eight bytes as a `u64` in little-endian order, without reading them.
    pub fn peek_u64_le(&self) -> (value: Option<u64>)
        ensures
            value == self@.peek_u64(ByteOrder::Little),
    {
        self.peek_u64_in(ByteOrder::Little)
    }

    /// The next eight bytes as a `u64` in big-endian order, without reading them.
    pub fn peek_u64_be(&self) -> (value: Option<u64>)
        ensures
            value == self@.peek_u64(ByteOrder::Big),
    {
        self.peek_u64_in(ByteOrder::Big)
    }

    /// The next byte as an `i8` in `order`, without reading it.
    pub fn peek_i8_in(&self, order: ByteOrder) -> (value: Option<i8>)
        ensures
            value == self@.peek_i8(order),
    {
        match self.peek_bytes::<1>() {
            Some(bytes) => Some(order.i8_from_bytes(bytes)),
            None => None,
        }
    }

    /// Reads an `i8` in `order`. Where no byte is left this returns
    /// `None` and the reader stays as it was.
    pub fn next_i8_in(&mut self, order: ByteOrder) -> (value: Option<i8>)
        ensures
            value == old(self)@.peek_i8(order),
            final(self)@ == old(self)@.consume(1),
    {
        match self.next_bytes::<1>() {
            Some(bytes) => Some(order.i8_from_bytes(bytes)),
            None => None,
        }
    }

    /// Reads an `i8` in the order of the machine.
    pub fn next_i8(&mut self) -> (value: Option<i8>)
        ensures
            value == old(self)@.peek_i8(native_order()),
            final(self)@ == old(self)@.consume(1),
    {
        self.next_i8_in(ByteOrder::native())
    }

    /// Reads an `i8` in the order of the machine.
    pub fn next_i8_ne(&mut self) -> (value: Option<i8>)
        ensures
            value == old(self)@.peek_i8(native_order()),
            final(self)@ == old(self)@.consume(1),
    {
        self.next_i8_in(ByteOrder::native())
    }

    /// Reads an `i8` in little-endian order.
    pub fn next_i8_le(&mut self) -> (value: Option<i8>)
        ensures
            value == old(self)@.peek_i8(ByteOrder::Little),
            final(self)@ == old(self)@.consume(1),
    {
        self.next_i8_in(ByteOrder::Little)
    }

    /// Reads an `i8` in big-endian order.
    pub fn next_i8_be(&mut self) -> (value: Option<i8>)
        ensures
            value == old(self)@.peek_i8(ByteOrder::Big),
            final(self)@ == old(self)@.consume(1),
    {
        self.next_i8_in(ByteOrder::Big)
    }

    /// The next byte as an `i8` in the order of the machine, without reading it.
    pub fn peek_i8(&self) -> (value: Option<i8>)
        ensures
            value == self@.peek_i8(native_order()),
    {
        self.peek_i8_in(ByteOrder::native())
    }

    /// The next byte as an `i8` in the order of the machine, without reading it.
    pub fn peek_i8_ne(&self) -> (value: Option<i8>)
        ensures
            value == self@.peek_i8(native_order()),
    {
        self.peek_i8_in(ByteOrder::native())
    }

    /// The next byte as an `i8` in little-endian order, without reading it.
    pub fn peek_i8_le(&self) -> (value: Option<i8>)
        ensures
            value == self@.peek_i8(ByteOrder::Little),
    {
        self.peek_i8_in(ByteOrder::Little)
    }

    /// The next byte as an `i8` in big-endian order, without reading it.
    pub fn peek_i8_be(&self) -> (value: Option<i8>)
        ensures
            value == self@.peek_i8(ByteOrder::Big),
    {
        self.peek_i8_in(ByteOrder::Big)
    }

    /// The next two bytes as an `i16` in `order`, without reading them.
    pub fn peek_i16_in(&self, order: ByteOrder) -> (value: Option<i16>)
        ensures
            value == self@.peek_i16(order),
    {
        match self.peek_bytes::<2>() {
            Some(bytes) => Some(order.i16_from_bytes(bytes)),
            None => None,
        }
    }

    /// Reads an `i16` in `order`. Where fewer than two bytes are left this returns
    /// `None` and the reader stays as it was.
    pub fn next_i16_in(&mut self, order: ByteOrder) -> (value: Option<i16>)
        ensures
            value == old(self)@.peek_i16(order),
            final(self)@ == old(self)@.consume(2),
    {
        match self.next_bytes::<2>() {
            Some(bytes) => Some(order.i16_from_bytes(bytes)),
            None => None,
        }
    }

    /// Reads an `i16` in the order of the machine.
    pub fn next_i16(&mut self) -> (value: Option<i16>)
        ensures
            value == old(self)@.peek_i16(native_order()),
            final(self)@ == old(self)@.consume(2),
    {
        self.next_i16_in(ByteOrder::native())
    }

    /// Reads an `i16` in the order of the machine.
    pub fn next_i16_ne(&mut self) -> (value: Option<i16>)
        ensures
            value == old(self)@.peek_i16(native_order()),
            final(self)@ == old(self)@.consume(2),
    {
        self.next_i16_in(ByteOrder::native())
    }

    /// Reads an `i16` in little-endian order.
    pub fn next_i16_le(&mut self) -> (value: Option<i16>)
        ensures
            value == old(self)@.peek_i16(ByteOrder::Little),
            final(self)@ == old(self)@.consume(2),
    {
        self.next_i16_in(ByteOrder::Little)
    }

    /// Reads an `i16` in big-endian order.
    pub fn next_i16_be(&mut self) -> (value: Option<i16>)
        ensures
            value == old(self)@.peek_i16(ByteOrder::Big),
            final(self)@ == old(self)@.consume(2),
    {
        self.next_i16_in(ByteOrder::Big)
    }

    /// The next two bytes as an `i16` in the order of the machine, without reading them.
    pub fn peek_i16(&self) -> (value: Option<i16>)
        ensures
            value == self@.peek_i16(native_order()),
    {
        self.peek_i16_in(ByteOrder::native())
    }

    /// The next two bytes as an `i16` in the order of the machine, without reading them.
    pub fn peek_i16_ne(&self) -> (value: Option<i16>)
        ensures
            value == self@.peek_i16(native_order()),
    {
        self.peek_i16_in(ByteOrder::native())
    }

    /// The next two bytes as an `i16` in little-endian order, without reading them.
    pub fn peek_i16_le(&self) -> (value: Option<i16>)
        ensures
            value == self@.peek_i16(ByteOrder::Little),
    {
        self.peek_i16_in(ByteOrder::Little)
    }

    /// The next two bytes as an `i16` in big-endian order, without reading them.
    pub fn peek_i16_be(&self) -> (value: Option<i16>)
        ensures
            value == self@.peek_i16(ByteOrder::Big),
    {
        self.peek_i16_in(ByteOrder::Big)
    }

    /// The next four bytes as an `i32` in `order`, without reading them.
    pub fn peek_i32_in(&self, order: ByteOrder) -> (value: Option<i32>)
        ensures
            value == self@.peek_i32(order),
    {
        match self.peek_bytes::<4>() {
            Some(bytes) => Some(order.i32_from_bytes(bytes)),
            None => None,
        }
    }

    /// Reads an `i32` in `order`. Where fewer than four bytes are left this returns
    /// `None` and the reader stays as it was.
    pub fn next_i32_in(&mut self, order: ByteOrder) -> (value: Option<i32>)
        ensures
            value == old(self)@.peek_i32(order),
            final(self)@ == old(self)@.consume(4),
    {
        match self.next_bytes::<4>() {
            Some(bytes) => Some(order.i32_from_bytes(bytes)),
            None => None,
        }
    }

    /// Reads an `i32` in the order of the machine.
    pub fn next_i32(&mut self) -> (value: Option<i32>)
        ensures
            value == old(self)@.peek_i32(native_order()),
            final(self)@ == old(self)@.consume(4),
    {
        self.next_i32_in(ByteOrder::native())
    }

    /// Reads an `i32` in the order of the machine.
    pub fn next_i32_ne(&mut self) -> (value: Option<i32>)
        ensures
            value == old(self)@.peek_i32(native_order()),
            final(self)@ == old(self)@.consume(4),
    {
        self.next_i32_in(ByteOrder::native())
    }

    /// Reads an `i32` in little-endian order.
    pub fn next_i32_le(&mut self) -> (value: Option<i32>)
        ensures
            value == old(self)@.peek_i32(ByteOrder::Little),
            final(self)@ == old(self)@.consume(4),
    {
        self.next_i32_in(ByteOrder::Little)
    }

    /// Reads an `i32` in big-endian order.
    pub fn next_i32_be(&mut self) -> (value: Option<i32>)
        ensures
            value == old(self)@.peek_i32(ByteOrder::Big),
            final(self)@ == old(self)@.consume(4),
    {
        self.next_i32_in(ByteOrder::Big)
    }

    /// The next four bytes as an `i32` in the order of the machine, without reading them.
    pub fn peek_i32(&self) -> (value: Option<i32>)
        ensures
            value == self@.peek_i32(native_order()),
    {
        self.peek_i32_in(ByteOrder::native())
    }

    /// The next four bytes as an `i32` in the order of the machine, without reading them.
    pub fn peek_i32_ne(&self) -> (value: Option<i32>)
        ensures
            value == self@.peek_i32(native_order()),
    {
        self.peek_i32_in(ByteOrder::native())
    }

    /// The next four bytes as an `i32` in little-endian order, without reading them.
    pub fn peek_i32_le(&self) -> (value: Option<i32>)
        ensures
            value == self@.peek_i32(ByteOrder::Little),
    {
        self.peek_i32_in(ByteOrder::Little)
    }

    /// The next four bytes as an `i32` in big-endian order, without reading them.
    pub fn peek_i32_be(&self) -> (value: Option<i32>)
        ensures
            value == self@.peek_i32(ByteOrder::Big),
    {
        self.peek_i32_in(ByteOrder::Big)
    }

    /// The next eight bytes as an `i64` in `order`, without reading them.
    pub fn peek_i64_in(&self, order: ByteOrder) -> (value: Option<i64>)
        ensures
            value == self@.peek_i64(order),
    {
        match self.peek_bytes::<8>() {
            Some(bytes) => Some(order.i64_from_bytes(bytes)),
            None => None,
        }
    }

    /// Reads an `i64` in `order`. Where fewer than eight bytes are left this returns
    /// `None` and the reader stays as it was.
    pub fn next_i64_in(&mut self, order: ByteOrder) -> (value: Option<i64>)
        ensures
            value == old(self)@.peek_i64(order),
            final(self)@ == old(self)@.consume(8),
    {
        match self.next_bytes::<8>() {
            Some(bytes) => Some(order.i64_from_bytes(bytes)),
            None => None,
        }
    }

    /// Reads an `i64` in the order of the machine.
    pub fn next_i64(&mut self) -> (value: Option<i64>)
        ensures
            value == old(self)@.peek_i64(native_order()),
            final(self)@ == old(self)@.consume(8),
    {
        self.next_i64_in(ByteOrder::native())
    }

    /// Reads an `i64` in the order of the machine.
    pub fn next_i64_ne(&mut self) -> (value: Option<i64>)
        ensures
            value == old(self)@.peek_i64(native_order()),
            final(self)@ == old(self)@.consume(8),
    {
        self.next_i64_in(ByteOrder::native())
    }

    /// Reads an `i64` in little-endian order.
    pub fn next_i64_le(&mut self) -> (value: Option<i64>)
        ensures
            value == old(self)@.peek_i64(ByteOrder::Little),
            final(self)@ == old(self)@.consume(8),
    {
        self.next_i64_in(ByteOrder::Little)
    }

    /// Reads an `i64` in big-endian order.
    pub fn next_i64_be(&mut self) -> (value: Option<i64>)
        ensures
            value == old(self)@.peek_i64(ByteOrder::Big),
            final(self)@ == old(self)@.consume(8),
    {
        self.next_i64_in(ByteOrder::Big)
    }

    /// The next eight bytes as an `i64` in the order of the machine, without reading them.
    pub fn peek_i64(&self) -> (value: Option<i64>)
        ensures
            value == self@.peek_i64(native_order()),
    {
        self.peek_i64_in(ByteOrder::native())
    }

    /// The next eight bytes as an `i64` in the order of the machine, without reading them.
    pub fn peek_i64_ne(&self) -> (value: Option<i64>)
        ensures
            value == self@.peek_i64(native_order()),
    {
        self.peek_i64_in(ByteOrder::native())
    }

    /// The next eight bytes as an `i64` in little-endian order, without reading them.
    pub fn peek_i64_le(&self) -> (value: Option<i64>)
        ensures
            value == self@.peek_i64(ByteOrder::Little),
    {
        self.peek_i64_in(ByteOrder::Little)
    }

    /// The next eight bytes as an `i64` in big-endian order, without reading them.
    pub fn peek_i64_be(&self) -> (value: Option<i64>)
        ensures
            value == self@.peek_i64(ByteOrder::Big),
    {
        self.peek_i64_in(ByteOrder::Big)
    }
}

} // verus!
