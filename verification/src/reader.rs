//! The cursor itself, for elements of any type.

use vstd::prelude::*;
use crate::model::ReaderView;

verus! {

/// A read position in a borrowed slice.
///
/// The slice is never changed and never copied; the reader only remembers how
/// far it has read. A reader starts at the front of its slice and moves on only
/// by the reads that succeed, so its position never passes the end.
pub struct Reader<'buf, T> {
    buffer: &'buf [T],
    cursor: usize,
}

impl<'buf, T> View for Reader<'buf, T> {
    type V = ReaderView<T>;

    closed spec fn view(&self) -> ReaderView<T> {
        ReaderView { buffer: self.buffer@, position: self.cursor as nat }
    }
}

impl<'buf, T> Clone for Reader<'buf, T> {
    /// A second reader over the same slice at the same position. The two move
    /// on independently of each other.
    fn clone(&self) -> (copy: Self)
        ensures
            copy == *self,
    {
        proof {
            use_type_invariant(self);
        }
        Reader { buffer: self.buffer, cursor: self.cursor }
    }
}

/// A slice is never longer than `usize::MAX`.
proof fn lemma_slice_len_fits<T>(slice: &[T])
    ensures
        slice@.len() <= usize::MAX,
{
    broadcast use vstd::slice::axiom_spec_len;

    assert(vstd::slice::spec_slice_len(slice) == slice@.len());
}

impl<'rdr, T> Reader<'rdr, T> {
    /// Holds of every reader: its position never passes the end of its buffer.
    #[verifier::type_invariant]
    pub open spec fn inv(&self) -> bool {
        self@.wf()
    }

    /// A reader at the start of `buffer`.
    pub fn new(buffer: &'rdr [T]) -> (reader: Reader<'rdr, T>)
        ensures
            reader@ == (ReaderView { buffer: buffer@, position: 0 }),
    {
        Reader { buffer: buffer, cursor: 0 }
    }

    /// The whole slice that this reader walks, read and unread.
    pub fn buffer(&self) -> (buffer: &'rdr [T])
        ensures
            buffer@ == self@.buffer,
    {
        self.buffer
    }

    /// The number of elements read so far: the index of the next one.
    pub fn position(&self) -> (position: usize)
        ensures
            position == self@.position,
            position <= self@.buffer.len(),
    {
        proof {
            use_type_invariant(self);
        }
        self.cursor
    }

    /// The number of elements that have not been read yet.
    pub fn remaining(&self) -> (count: usize)
        ensures
            count == self@.remaining(),
            count + self@.position == self@.buffer.len(),
    {
        proof {
            use_type_invariant(self);
        }
        self.buffer.len() - self.cursor
    }

    /// The elements that have not been read yet, without reading them.
    pub fn rest(&self) -> (run: &'rdr [T])
        ensures
            run@ == self@.rest(),
    {
        proof {
            use_type_invariant(self);
        }
        let buffer: &'rdr [T] = self.buffer;
        &buffer[self.cursor..buffer.len()]
    }

    /// Nothing is left to read.
    pub fn empty(&self) -> (none_left: bool)
        ensures
            none_left == !self@.has_some(),
    {
        !self.has_some()
    }

    /// At least one element is left to read.
    pub fn has_some(&self) -> (some_left: bool)
        ensures
            some_left == self@.has_some(),
    {
        self.cursor < self.buffer.len()
    }

    /// The element `offset` places after the next one, without reading it.
    ///
    /// Any `offset` may be given: one that reaches past the end of the buffer
    /// gives `None`.
    pub fn peek_at(&self, offset: usize) -> (element: Option<&'rdr T>)
        ensures
            match element {
                Some(e) => self@.peek_at(offset as nat) == Some(*e),
                None => self@.peek_at(offset as nat) is None,
            },
    {
        proof {
            use_type_invariant(self);
        }
        let buffer: &'rdr [T] = self.buffer;
        if offset < buffer.len() - self.cursor {
            Some(&buffer[self.cursor + offset])
        } else {
            None
        }
    }

    /// The next element, without reading it.
    pub fn peek(&self) -> (element: Option<&'rdr T>)
        ensures
            match element {
                Some(e) => self@.peek() == Some(*e),
                None => self@.peek() is None,
            },
    {
        self.peek_at(0)
    }

    /// Reads the next element. At the end of the buffer this returns `None`
    /// and the reader stays as it was.
    pub fn next(&mut self) -> (element: Option<&'rdr T>)
        ensures
            final(self)@ == old(self)@.consume(1),
            match element {
                Some(e) => old(self)@.peek() == Some(*e),
                None => old(self)@.peek() is None,
            },
    {
        let element = self.peek();
        if element.is_some() {
            proof {
                lemma_slice_len_fits(self.buffer);
            }
            self.cursor += 1;
        }
        element
    }

    /// At least `n` elements are left to read. Any `n` may be given.
    pub fn has_n(&self, n: usize) -> (enough: bool)
        ensures
            enough == self@.has_n(n as nat),
    {
        proof {
            use_type_invariant(self);
        }
        n <= self.buffer.len() - self.cursor
    }

    /// The next `n` elements, without reading them: all of them or `None`.
    pub fn peek_n(&self, n: usize) -> (run: Option<&'rdr [T]>)
        ensures
            match run {
                Some(r) => self@.peek_n(n as nat) == Some(r@),
                None => self@.peek_n(n as nat) is None,
            },
    {
        if self.has_n(n) {
            proof {
                lemma_slice_len_fits(self.buffer);
            }
            let buffer: &'rdr [T] = self.buffer;
            return Some(&buffer[self.cursor..self.cursor + n]);
        }
        None
    }

    /// Reads the next `n` elements. Where fewer are left this returns `None`
    /// and the reader stays as it was.
    pub fn next_n(&mut self, n: usize) -> (run: Option<&'rdr [T]>)
        ensures
            final(self)@ == old(self)@.consume(n as nat),
            match run {
                Some(r) => old(self)@.peek_n(n as nat) == Some(r@),
                None => old(self)@.peek_n(n as nat) is None,
            },
    {
        let run = self.peek_n(n);
        if run.is_some() {
            proof {
                lemma_slice_len_fits(self.buffer);
            }
            self.cursor += n;
        }
        run
    }
}

/// Looking at an element is repeatable: whatever two calls of `peek_at` on
/// one reader with one offset return, they return the same.
pub proof fn lemma_peek_at_repeats<'a, T>(
    reader: Reader<'a, T>,
    offset: usize,
    first: Option<&'a T>,
    second: Option<&'a T>,
)
    requires
        call_ensures(Reader::<'a, T>::peek_at, (&reader, offset), first),
        call_ensures(Reader::<'a, T>::peek_at, (&reader, offset), second),
    ensures
        first == second,
{
}

/// Looking at the next element is repeatable: whatever two calls of `peek` on
/// one reader return, they return the same.
pub proof fn lemma_peek_repeats<'a, T>(
    reader: Reader<'a, T>,
    first: Option<&'a T>,
    second: Option<&'a T>,
)
    requires
        call_ensures(Reader::<'a, T>::peek, (&reader,), first),
        call_ensures(Reader::<'a, T>::peek, (&reader,), second),
    ensures
        first == second,
{
}

/// Looking at a run is repeatable: whatever two calls of `peek_n` on one
/// reader with one count return, they hold the same elements or are both
/// `None`.
pub proof fn lemma_peek_n_repeats<'a, T>(
    reader: Reader<'a, T>,
    n: usize,
    first: Option<&'a [T]>,
    second: Option<&'a [T]>,
)
    requires
        call_ensures(Reader::<'a, T>::peek_n, (&reader, n), first),
        call_ensures(Reader::<'a, T>::peek_n, (&reader, n), second),
    ensures
        first is Some <==> second is Some,
        first is Some ==> first.unwrap()@ == second.unwrap()@,
{
}

} // verus!
