//! A read position in a buffer.

use vstd::prelude::*;
use crate::wire;
use crate::wire::TagFault;

verus! {

/// A buffer together with the number of its bytes that have been read.
///
/// Every read hands back the value and the cursor behind it, and leaves the
/// cursor it was called on as it was. A read that the rest of the buffer is
/// too short for fails and reads nothing.
#[derive(Clone, Copy)]
pub struct Cursor<'a> {
    rest: &'a [u8],
    consumed: usize,
    whole: Ghost<Seq<u8>>,
}

impl<'a> Cursor<'a> {
    /// What holds of every cursor: it stands inside its buffer, and holds
    /// the bytes of the buffer from there on.
    #[verifier::type_invariant]
    pub closed spec fn inv(self) -> bool {
        &&& self.consumed <= self.whole@.len() <= usize::MAX
        &&& self.rest@ == self.whole@.skip(self.consumed as int)
    }

    /// A cursor stands inside its buffer, and the buffer's length is that
    /// of a slice.
    pub proof fn lemma_in_bounds(self)
        requires
            self.inv(),
        ensures
            self.pos() <= self.buffer().len() <= usize::MAX,
    {
    }

    /// The bytes of the buffer, read and unread.
    pub closed spec fn buffer(self) -> Seq<u8> {
        self.whole@
    }

    /// The offset in the buffer of the next byte to read.
    pub closed spec fn pos(self) -> nat {
        self.consumed as nat
    }

    /// Whether `count` more bytes can be read.
    pub open spec fn has(self, count: int) -> bool {
        self.pos() + count <= self.buffer().len()
    }

    /// Whether the cursor `next` stands `count` bytes behind this one in the
    /// same buffer.
    pub open spec fn advances_to(self, next: Cursor<'a>, count: int) -> bool {
        next.buffer() == self.buffer() && next.pos() == self.pos() + count
    }

    /// A cursor at the start of `bytes`.
    pub fn new(bytes: &'a [u8]) -> (c: Self)
        ensures
            c.buffer() == bytes@,
            c.pos() == 0,
    {
        proof {
            assert(bytes@.skip(0) =~= bytes@);
            assert(bytes@.len() == bytes.len());
        }
        Cursor { rest: bytes, consumed: 0, whole: Ghost(bytes@) }
    }

    /// The offset in the buffer of the next byte to read.
    pub fn position(&self) -> (p: usize)
        ensures
            p == self.pos(),
            p <= self.buffer().len() <= usize::MAX,
    {
        proof {
            use_type_invariant(self);
        }
        self.consumed
    }

    /// The number of bytes that are left to read.
    pub fn remaining(&self) -> (n: usize)
        ensures
            n == self.buffer().len() - self.pos(),
    {
        proof {
            use_type_invariant(self);
        }
        self.rest.len()
    }

    /// Reads one byte.
    pub fn byte(self) -> (r: Option<(u8, Cursor<'a>)>)
        ensures
            r is Some <==> self.has(1),
            r matches Some((value, next)) ==> value == self.buffer()[self.pos() as int]
                && self.advances_to(next, 1),
    {
        proof {
            use_type_invariant(self);
        }
        match wire::byte(self.rest) {
            Some((rest, value)) => {
                assert(rest@ =~= self.whole@.skip(self.consumed + 1));
                Some((value, Cursor { rest, consumed: self.consumed + 1, whole: self.whole }))
            },
            None => None,
        }
    }

    /// Reads a little-endian unsigned 16-bit integer.
    pub fn le_u16(self) -> (r: Option<(u16, Cursor<'a>)>)
        ensures
            r is Some <==> self.has(2),
            r matches Some((value, next)) ==> value == wire::u16_at(self.buffer(), self.pos() as int)
                && self.advances_to(next, 2),
    {
        proof {
            use_type_invariant(self);
        }
        match wire::le_u16(self.rest) {
            Some((rest, value)) => {
                assert(rest@ =~= self.whole@.skip(self.consumed + 2));
                Some((value, Cursor { rest, consumed: self.consumed + 2, whole: self.whole }))
            },
            None => None,
        }
    }

    /// Reads a little-endian unsigned 32-bit integer.
    pub fn le_u32(self) -> (r: Option<(u32, Cursor<'a>)>)
        ensures
            r is Some <==> self.has(4),
            r matches Some((value, next)) ==> value == wire::u32_at(self.buffer(), self.pos() as int)
                && self.advances_to(next, 4),
    {
        proof {
            use_type_invariant(self);
        }
        match wire::le_u32(self.rest) {
            Some((rest, value)) => {
                assert(rest@ =~= self.whole@.skip(self.consumed + 4));
                Some((value, Cursor { rest, consumed: self.consumed + 4, whole: self.whole }))
            },
            None => None,
        }
    }

    /// Reads a little-endian signed 16-bit integer.
    pub fn le_i16(self) -> (r: Option<(i16, Cursor<'a>)>)
        ensures
            r is Some <==> self.has(2),
            r matches Some((value, next)) ==> value == wire::i16_at(self.buffer(), self.pos() as int)
                && self.advances_to(next, 2),
    {
        proof {
            use_type_invariant(self);
        }
        match wire::le_i16(self.rest) {
            Some((rest, value)) => {
                assert(rest@ =~= self.whole@.skip(self.consumed + 2));
                Some((value, Cursor { rest, consumed: self.consumed + 2, whole: self.whole }))
            },
            None => None,
        }
    }

    /// Reads a little-endian signed 32-bit integer.
    pub fn le_i32(self) -> (r: Option<(i32, Cursor<'a>)>)
        ensures
            r is Some <==> self.has(4),
            r matches Some((value, next)) ==> value == wire::i32_at(self.buffer(), self.pos() as int)
                && self.advances_to(next, 4),
    {
        proof {
            use_type_invariant(self);
        }
        match wire::le_i32(self.rest) {
            Some((rest, value)) => {
                assert(rest@ =~= self.whole@.skip(self.consumed + 4));
                Some((value, Cursor { rest, consumed: self.consumed + 4, whole: self.whole }))
            },
            None => None,
        }
    }

    /// Reads a little-endian signed 64-bit integer.
    pub fn le_i64(self) -> (r: Option<(i64, Cursor<'a>)>)
        ensures
            r is Some <==> self.has(8),
            r matches Some((value, next)) ==> value == wire::i64_at(self.buffer(), self.pos() as int)
                && self.advances_to(next, 8),
    {
        proof {
            use_type_invariant(self);
        }
        match wire::le_i64(self.rest) {
            Some((rest, value)) => {
                assert(rest@ =~= self.whole@.skip(self.consumed + 8));
                Some((value, Cursor { rest, consumed: self.consumed + 8, whole: self.whole }))
            },
            None => None,
        }
    }

    /// Reads `count` bytes.
    pub fn take(self, count: usize) -> (r: Option<(&'a [u8], Cursor<'a>)>)
        ensures
            r is Some <==> self.has(count as int),
            r matches Some((taken, next)) ==> taken@.len() == count && taken@
                == self.buffer().subrange(self.pos() as int, self.pos() + count) && self.advances_to(
                next,
                count as int,
            ),
    {
        proof {
            use_type_invariant(self);
        }
        match wire::take(self.rest, count) {
            Some((rest, taken)) => {
                assert(rest@ =~= self.whole@.skip(self.consumed + count));
                assert(taken@ =~= self.whole@.subrange(
                    self.consumed as int,
                    self.consumed + count,
                ));
                Some((taken, Cursor { rest, consumed: self.consumed + count, whole: self.whole }))
            },
            None => None,
        }
    }

    /// Passes over `count` bytes.
    pub fn skip(self, count: usize) -> (r: Option<Cursor<'a>>)
        ensures
            r is Some <==> self.has(count as int),
            r matches Some(next) ==> self.advances_to(next, count as int),
    {
        match self.take(count) {
            Some((_, next)) => Some(next),
            None => None,
        }
    }

    /// Reads the bytes of `pattern`.
    ///
    /// The unread bytes are compared with the pattern as far as both reach:
    /// a byte that differs is a mismatch even where the buffer ends inside
    /// the pattern.
    pub fn tag(self, pattern: &[u8]) -> (r: Result<Cursor<'a>, TagFault>)
        ensures
            r is Ok <==> !wire::differs(self.buffer().skip(self.pos() as int), pattern@) && self.has(
                pattern@.len() as int,
            ),
            r matches Ok(next) ==> self.advances_to(next, pattern@.len() as int),
            (r matches Err(TagFault::Mismatch)) <==> wire::differs(
                self.buffer().skip(self.pos() as int),
                pattern@,
            ),
    {
        proof {
            use_type_invariant(self);
        }
        match wire::tag(self.rest, pattern) {
            Ok((rest, _)) => {
                assert(rest@ =~= self.whole@.skip(self.consumed + pattern@.len()));
                Ok(Cursor { rest, consumed: self.consumed + pattern.len(), whole: self.whole })
            },
            Err(fault) => Err(fault),
        }
    }
}

} // verus!
