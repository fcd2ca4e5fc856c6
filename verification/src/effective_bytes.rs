//! Effective bytes of buffers, byte sequences and text, and the iterator
//! over a buffer's effective bytes.

use crate::buffer::FixedStr;
use crate::null_scan::{effective_prefix, find_first_null, lemma_first_null_is_boundary};
use vstd::prelude::*;
use vstd::string::*;
use vstd::utf8::encode_utf8;

verus! {

/// Values that have effective bytes.
///
/// For a buffer and for raw bytes these are the bytes before the first null
/// byte. Text has no terminator: all of its bytes are effective.
pub trait EffectiveBytes {
    /// What `effective_bytes` returns, as a sequence.
    spec fn effective_spec(&self) -> Seq<u8>;

    /// Returns the effective bytes.
    fn effective_bytes(&self) -> (out: &[u8])
        ensures
            out@ == self.effective_spec(),
    ;
}

impl<const N: usize> EffectiveBytes for FixedStr<N> {
    open spec fn effective_spec(&self) -> Seq<u8> {
        effective_prefix(self@)
    }

    fn effective_bytes(&self) -> (out: &[u8]) {
        self.storage().effective_bytes()
    }
}

impl<const N: usize> EffectiveBytes for &FixedStr<N> {
    open spec fn effective_spec(&self) -> Seq<u8> {
        effective_prefix((*self)@)
    }

    fn effective_bytes(&self) -> (out: &[u8]) {
        (*self).effective_bytes()
    }
}

impl EffectiveBytes for [u8] {
    open spec fn effective_spec(&self) -> Seq<u8> {
        effective_prefix(self@)
    }

    fn effective_bytes(&self) -> (out: &[u8]) {
        let end = find_first_null(self);
        proof {
            lemma_first_null_is_boundary(self@);
        }
        &self[0..end]
    }
}

impl<const N: usize> EffectiveBytes for [u8; N] {
    open spec fn effective_spec(&self) -> Seq<u8> {
        effective_prefix(self@)
    }

    fn effective_bytes(&self) -> (out: &[u8]) {
        self.as_slice().effective_bytes()
    }
}

impl EffectiveBytes for &str {
    /// All the bytes of the text: a null byte in it is content like any other.
    open spec fn effective_spec(&self) -> Seq<u8> {
        encode_utf8(self@)
    }

    fn effective_bytes(&self) -> (out: &[u8]) {
        self.as_bytes()
    }
}

impl EffectiveBytes for String {
    /// All the bytes of the text: a null byte in it is content like any other.
    open spec fn effective_spec(&self) -> Seq<u8> {
        encode_utf8(self@)
    }

    fn effective_bytes(&self) -> (out: &[u8]) {
        self.as_str().as_bytes()
    }
}

/// An iterator over the effective bytes of a buffer.
///
/// It holds a copy of the storage, taken when it was made, and walks that
/// copy from the start to the first null byte. Once it has yielded its last
/// byte it yields nothing more.
pub struct EffectiveBytesIter<const N: usize> {
    data: [u8; N],
    index: usize,
    len: usize,
}

impl<const N: usize> View for EffectiveBytesIter<N> {
    type V = Seq<u8>;

    /// The bytes still to be yielded, in order.
    closed spec fn view(&self) -> Seq<u8> {
        self.data@.subrange(self.index as int, self.len as int)
    }
}

/// What the next call of `next` yields from an iterator with `remaining`
/// still to come.
pub open spec fn next_item(remaining: Seq<u8>) -> Option<u8> {
    if remaining.len() > 0 {
        Some(remaining[0])
    } else {
        None
    }
}

/// What is still to come after that call.
pub open spec fn next_rest(remaining: Seq<u8>) -> Seq<u8> {
    if remaining.len() > 0 {
        remaining.drop_first()
    } else {
        remaining
    }
}

/// What is still to come after `calls` calls of `next`.
pub open spec fn rest_after(remaining: Seq<u8>, calls: nat) -> Seq<u8>
    decreases calls,
{
    if calls == 0 {
        remaining
    } else {
        rest_after(next_rest(remaining), (calls - 1) as nat)
    }
}

impl<const N: usize> EffectiveBytesIter<N> {
    #[verifier::type_invariant]
    spec fn in_bounds(self) -> bool {
        self.index <= self.len <= N
    }

    /// Whether nothing is left to yield.
    pub open spec fn is_exhausted(&self) -> bool {
        self@.len() == 0
    }

    /// Yields the next effective byte, or `None` once all have been yielded.
    /// An exhausted iterator stays as it is.
    pub fn next(&mut self) -> (item: Option<u8>)
        ensures
            item == next_item(old(self)@),
            final(self)@ == next_rest(old(self)@),
            old(self).is_exhausted() ==> *final(self) == *old(self),
    {
        proof {
            use_type_invariant(&*self);
        }
        if self.index < self.len {
            let byte = self.data[self.index];
            self.index += 1;
            assert(self@ =~= old(self)@.drop_first());
            Some(byte)
        } else {
            None
        }
    }
}

impl<const N: usize> FixedStr<N> {
    /// Makes an iterator over the effective bytes, from a copy of the storage
    /// as it is now.
    pub fn byte_iter(&self) -> (iter: EffectiveBytesIter<N>)
        ensures
            iter@ == self.effective_view(),
    {
        let len = self.len();
        EffectiveBytesIter { data: *self.storage(), index: 0, len }
    }
}

/// What call number `calls` of `next` (counted from zero) yields from an
/// iterator that had `remaining` to come before the first call.
pub open spec fn item_of_call(remaining: Seq<u8>, calls: nat) -> Option<u8> {
    next_item(rest_after(remaining, calls))
}

/// Each call of `next` takes one byte off the front until none is left:
/// after `calls` calls, what is still to come is `remaining` without its
/// first `calls` bytes, or nothing if it had fewer.
pub proof fn lemma_rest_after_skips(remaining: Seq<u8>, calls: nat)
    ensures
        calls <= remaining.len() ==> rest_after(remaining, calls) == remaining.skip(calls as int),
        calls >= remaining.len() ==> rest_after(remaining, calls).len() == 0,
    decreases calls,
{
    if calls == 0 {
        assert(remaining.skip(0) =~= remaining);
    } else {
        lemma_rest_after_skips(next_rest(remaining), (calls - 1) as nat);
        if calls <= remaining.len() {
            assert(rest_after(remaining, calls) =~= remaining.skip(calls as int));
        }
    }
}

/// Iteration and exhaustion: an iterator made from a buffer yields the
/// effective bytes of that buffer, in their order, one for each call, and
/// nothing from then on. With `L` effective bytes, call number `calls`
/// (counted from zero) yields byte `calls` while `calls < L`, and `None` for
/// every later call.
pub proof fn lemma_iteration_yields_effective_bytes<const N: usize>(
    buffer: FixedStr<N>,
    iter: EffectiveBytesIter<N>,
    calls: nat,
)
    requires
        iter@ == buffer.effective_view(),
    ensures
        calls < buffer.effective_view().len() ==> item_of_call(iter@, calls) == Some(
            buffer.effective_view()[calls as int],
        ),
        calls >= buffer.effective_view().len() ==> item_of_call(iter@, calls) is None,
        calls >= buffer.effective_view().len() ==> rest_after(iter@, calls).len() == 0,
{
    lemma_rest_after_skips(iter@, calls);
}

} // verus!
