//! Fixed-size arrays of bytes out of a reader of bytes.

use vstd::prelude::*;
use crate::order::ByteOrder;
use crate::reader::Reader;

verus! {

/// An array with the bytes of `run`, which has just that many.
fn array_from_run<const N: usize>(run: &[u8]) -> (bytes: [u8; N])
    requires
        run@.len() == N,
    ensures
        bytes@ == run@,
{
    let mut bytes = [0u8; N];
    let mut copied: usize = 0;
    while copied < N
        invariant
            copied <= N,
            run@.len() == N,
            bytes@.len() == N,
            forall|i: int| 0 <= i < copied ==> bytes@[i] == run@[i],
        decreases N - copied,
    {
        bytes[copied] = run[copied];
        copied += 1;
    }
    bytes
}

impl<'rdr> Reader<'rdr, u8> {
    /// The next `N` bytes as an array, without reading them.
    pub fn peek_bytes<const N: usize>(&self) -> (bytes: Option<[u8; N]>)
        ensures
            match bytes {
                Some(b) => self@.peek_n(N as nat) == Some(b@),
                None => self@.peek_n(N as nat) is None,
            },
    {
        match self.peek_n(N) {
            Some(run) => Some(array_from_run(run)),
            None => None,
        }
    }

    /// The next `N` bytes as an array in `order`, without reading them. The
    /// buffer is taken to hold them in the machine's own order, so they come
    /// back to front where `order` is the other one.
    pub fn peek_bytes_in<const N: usize>(&self, order: ByteOrder) -> (bytes: Option<[u8; N]>)
        ensures
            match bytes {
                Some(b) => self@.peek_bytes_in(order, N as nat) == Some(b@),
                None => self@.peek_bytes_in(order, N as nat) is None,
            },
    {
        match self.peek_bytes::<N>() {
            Some(bytes) => Some(order.normalize(bytes)),
            None => None,
        }
    }

    /// The next `N` bytes in little-endian order, without reading them.
    pub fn peek_bytes_le<const N: usize>(&self) -> (bytes: Option<[u8; N]>)
        ensures
            match bytes {
                Some(b) => self@.peek_bytes_in(ByteOrder::Little, N as nat) == Some(b@),
                None => self@.peek_bytes_in(ByteOrder::Little, N as nat) is None,
            },
    {
        self.peek_bytes_in::<N>(ByteOrder::Little)
    }

    /// The next `N` bytes in big-endian order, without reading them.
    pub fn peek_bytes_be<const N: usize>(&self) -> (bytes: Option<[u8; N]>)
        ensures
            match bytes {
                Some(b) => self@.peek_bytes_in(ByteOrder::Big, N as nat) == Some(b@),
                None => self@.peek_bytes_in(ByteOrder::Big, N as nat) is None,
            },
    {
        self.peek_bytes_in::<N>(ByteOrder::Big)
    }

    /// Reads the next `N` bytes as an array. Where fewer are left this returns
    /// `None` and the reader stays as it was.
    pub fn next_bytes<const N: usize>(&mut self) -> (bytes: Option<[u8; N]>)
        ensures
            final(self)@ == old(self)@.consume(N as nat),
            match bytes {
                Some(b) => old(self)@.peek_n(N as nat) == Some(b@),
                None => old(self)@.peek_n(N as nat) is None,
            },
    {
        match self.next_n(N) {
            Some(run) => Some(array_from_run(run)),
            None => None,
        }
    }

    /// Reads the next `N` bytes as an array in `order`. Where fewer are left
    /// this returns `None` and the reader stays as it was.
    pub fn next_bytes_in<const N: usize>(&mut self, order: ByteOrder) -> (bytes: Option<[u8; N]>)
        ensures
            final(self)@ == old(self)@.consume(N as nat),
            match bytes {
                Some(b) => old(self)@.peek_bytes_in(order, N as nat) == Some(b@),
                None => old(self)@.peek_bytes_in(order, N as nat) is None,
            },
    {
        match self.next_bytes::<N>() {
            Some(bytes) => Some(order.normalize(bytes)),
            None => None,
        }
    }

    /// Reads the next `N` bytes in little-endian order.
    pub fn next_bytes_le<const N: usize>(&mut self) -> (bytes: Option<[u8; N]>)
        ensures
            final(self)@ == old(self)@.consume(N as nat),
            match bytes {
                Some(b) => old(self)@.peek_bytes_in(ByteOrder::Little, N as nat) == Some(b@),
                None => old(self)@.peek_bytes_in(ByteOrder::Little, N as nat) is None,
            },
    {
        self.next_bytes_in::<N>(ByteOrder::Little)
    }

    /// Reads the next `N` bytes in big-endian order.
    pub fn next_bytes_be<const N: usize>(&mut self) -> (bytes: Option<[u8; N]>)
        ensures
            final(self)@ == old(self)@.consume(N as nat),
            match bytes {
                Some(b) => old(self)@.peek_bytes_in(ByteOrder::Big, N as nat) == Some(b@),
                None => old(self)@.peek_bytes_in(ByteOrder::Big, N as nat) is None,
            },
    {
        self.next_bytes_in::<N>(ByteOrder::Big)
    }
}

/// Looking at an array of bytes is repeatable: whatever two calls of
/// `peek_bytes` on one reader return, they return the same.
pub proof fn lemma_peek_bytes_repeats<'a, const N: usize>(
    reader: Reader<'a, u8>,
    first: Option<[u8; N]>,
    second: Option<[u8; N]>,
)
    requires
        call_ensures(Reader::<'a, u8>::peek_bytes::<N>, (&reader,), first),
        call_ensures(Reader::<'a, u8>::peek_bytes::<N>, (&reader,), second),
    ensures
        first == second,
{
}

/// The same of the arrays in a given byte order: whatever two calls of
/// `peek_bytes_in` on one reader with one order return, they return the same.
pub proof fn lemma_peek_bytes_in_repeats<'a, const N: usize>(
    reader: Reader<'a, u8>,
    order: ByteOrder,
    first: Option<[u8; N]>,
    second: Option<[u8; N]>,
)
    requires
        call_ensures(Reader::<'a, u8>::peek_bytes_in::<N>, (&reader, order), first),
        call_ensures(Reader::<'a, u8>::peek_bytes_in::<N>, (&reader, order), second),
    ensures
        first == second,
{
}

/// Whatever two calls of `peek_bytes_le` on one reader return, they return
/// the same.
pub proof fn lemma_peek_bytes_le_repeats<'a, const N: usize>(
    reader: Reader<'a, u8>,
    first: Option<[u8; N]>,
    second: Option<[u8; N]>,
)
    requires
        call_ensures(Reader::<'a, u8>::peek_bytes_le::<N>, (&reader,), first),
        call_ensures(Reader::<'a, u8>::peek_bytes_le::<N>, (&reader,), second),
    ensures
        first == second,
{
}

/// Whatever two calls of `peek_bytes_be` on one reader return, they return
/// the same.
pub proof fn lemma_peek_bytes_be_repeats<'a, const N: usize>(
    reader: Reader<'a, u8>,
    first: Option<[u8; N]>,
    second: Option<[u8; N]>,
)
    requires
        call_ensures(Reader::<'a, u8>::peek_bytes_be::<N>, (&reader,), first),
        call_ensures(Reader::<'a, u8>::peek_bytes_be::<N>, (&reader,), second),
    ensures
        first == second,
{
}

} // verus!
