//! The fixed-capacity buffer.

use crate::fs_error::FixedStrError;
use crate::null_scan::{
    effective_prefix, find_first_null, first_null, has_null, lemma_boundary_is_first_null,
    lemma_first_null_is_boundary, lemma_zero_padded_keeps_effective, zero_padded,
};
use vstd::prelude::*;
use vstd::string::*;
use vstd::utf8::{
    decode_utf8, encode_utf8, encode_utf8_decode_utf8, encode_utf8_valid_utf8,
    is_char_boundary_iff_not_is_continuation_byte, valid_utf8, valid_utf8_split,
};

verus! {

/// The error of `core::str::from_utf8`. Nothing is read from it.
#[verifier::external_type_specification]
#[verifier::external_body]
pub struct ExUtf8Error(core::str::Utf8Error);

/// `core::str::from_utf8` accepts exactly the byte sequences that are valid
/// UTF-8, and the text that it returns has the bytes that it was given.
pub assume_specification[ core::str::from_utf8 ](v: &[u8]) -> (res: Result<
    &str,
    core::str::Utf8Error,
>)
    ensures
        res is Ok <==> valid_utf8(v@),
        res is Ok ==> res->Ok_0.spec_bytes() == v@,
;

/// A string in a buffer of exactly `N` bytes, padded with null bytes.
///
/// The content ends before the first null byte of the storage, or fills the
/// storage if there is none. Nothing but the storage is kept: the length is
/// found by scanning it.
#[derive(Clone, Copy)]
pub struct FixedStr<const N: usize> {
    data: [u8; N],
}

impl<const N: usize> View for FixedStr<N> {
    type V = Seq<u8>;

    /// The storage: all `N` bytes, padding included.
    closed spec fn view(&self) -> Seq<u8> {
        self.data@
    }
}

impl<const N: usize> FixedStr<N> {
    /// The effective bytes of the buffer: its storage before the first null
    /// byte.
    pub open spec fn effective_view(&self) -> Seq<u8> {
        effective_prefix(self@)
    }

    /// The storage has `N` bytes.
    pub broadcast proof fn lemma_storage_len(&self)
        ensures
            #[trigger] self@.len() == N,
    {
    }

    /// Makes a buffer from raw bytes: the bytes, then null bytes up to the
    /// capacity. Input longer than the capacity is refused, and nothing is
    /// built. The bytes are not checked to be text.
    pub fn from_bytes(bytes: &[u8]) -> (res: Result<Self, FixedStrError>)
        ensures
            match res {
                Ok(buffer) => {
                    &&& bytes@.len() <= N
                    &&& buffer@ == zero_padded(bytes@, N as nat)
                    &&& buffer.effective_view() == effective_prefix(bytes@)
                },
                Err(e) => bytes@.len() > N && e == (FixedStrError::Overflow {
                    available: N,
                    found: bytes@.len() as usize,
                }),
            },
    {
        let found = bytes.len();
        if found > N {
            return Err(FixedStrError::Overflow { available: N, found });
        }
        let mut data = [0u8;N];
        let mut i: usize = 0;
        while i < found
            invariant
                i <= found,
                found == bytes@.len(),
                found <= N,
                forall|j: int| 0 <= j < i ==> data@[j] == bytes@[j],
                forall|j: int| i <= j < N ==> data@[j] == 0u8,
            decreases found - i,
        {
            data[i] = bytes[i];
            i += 1;
        }
        proof {
            assert(data@ =~= zero_padded(bytes@, N as nat));
            lemma_zero_padded_keeps_effective(bytes@, N as nat);
        }
        Ok(FixedStr { data })
    }

    /// Makes a buffer from text: its UTF-8 bytes, then null bytes up to the
    /// capacity. Text longer than the capacity is refused, and nothing is
    /// built.
    pub fn new(text: &str) -> (res: Result<Self, FixedStrError>)
        ensures
            match res {
                Ok(buffer) => {
                    &&& text.spec_bytes().len() <= N
                    &&& buffer@ == zero_padded(text.spec_bytes(), N as nat)
                    &&& buffer.effective_view() == effective_prefix(text.spec_bytes())
                    &&& valid_utf8(buffer.effective_view())
                },
                Err(e) => text.spec_bytes().len() > N && e == (FixedStrError::Overflow {
                    available: N,
                    found: text.spec_bytes().len() as usize,
                }),
            },
    {
        proof {
            lemma_text_prefix_is_valid_utf8(text@);
        }
        Self::from_bytes(text.as_bytes())
    }

    /// The effective length: the index of the first null byte of the storage,
    /// or `N` if it holds none.
    pub fn len(&self) -> (n: usize)
        ensures
            n == first_null(self@),
            n == self.effective_view().len(),
            n <= N,
    {
        proof {
            lemma_first_null_is_boundary(self@);
        }
        find_first_null(&self.data)
    }

    /// Reads the effective bytes as text, if they are valid UTF-8.
    pub fn try_as_str(&self) -> (res: Result<&str, FixedStrError>)
        ensures
            match res {
                Ok(text) => {
                    &&& valid_utf8(self.effective_view())
                    &&& text.spec_bytes() == self.effective_view()
                    &&& text@ == decode_utf8(self.effective_view())
                },
                Err(e) => !valid_utf8(self.effective_view()) && e == FixedStrError::InvalidUtf8,
            },
    {
        let end = self.len();
        let bytes: &[u8] = &self.data;
        match core::str::from_utf8(&bytes[0..end]) {
            Ok(text) => {
                proof {
                    encode_utf8_decode_utf8(text@);
                }
                Ok(text)
            },
            Err(_) => Err(FixedStrError::InvalidUtf8),
        }
    }

    /// The whole storage, padding included.
    pub fn storage(&self) -> (bytes: &[u8; N])
        ensures
            bytes@ == self@,
    {
        &self.data
    }
}

/// The bytes of a text before their first null byte are valid UTF-8: a null
/// byte is a character of its own, never part of a longer one.
pub proof fn lemma_text_prefix_is_valid_utf8(chars: Seq<char>)
    ensures
        valid_utf8(effective_prefix(encode_utf8(chars))),
{
    let bytes = encode_utf8(chars);
    let k = first_null(bytes);
    encode_utf8_valid_utf8(chars);
    lemma_first_null_is_boundary(bytes);
    if k < bytes.len() {
        is_char_boundary_iff_not_is_continuation_byte(bytes, k);
        valid_utf8_split(bytes, k);
    } else {
        assert(bytes.subrange(0, k) =~= bytes);
    }
}

/// Round trip: a buffer made from bytes that fit and hold no null byte has
/// exactly those bytes as its effective bytes.
pub proof fn lemma_round_trip<const N: usize>(bytes: Seq<u8>, buffer: FixedStr<N>)
    requires
        bytes.len() <= N,
        !has_null(bytes),
        buffer@ == zero_padded(bytes, N as nat),
    ensures
        buffer.effective_view() == bytes,
        first_null(buffer@) == bytes.len(),
{
    lemma_zero_padded_keeps_effective(bytes, N as nat);
    lemma_boundary_is_first_null(bytes, bytes.len() as int);
    assert(bytes.subrange(0, bytes.len() as int) =~= bytes);
}

} // verus!
