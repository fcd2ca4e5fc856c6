use fixed_str::{find_first_null, EffectiveBytes, FixedStr};

fn buffer<const N: usize>(text: &str) -> FixedStr<N> {
    match FixedStr::<N>::new(text) {
        Ok(buffer) => buffer,
        Err(e) => panic!("{}", e.to_string()),
    }
}

#[test]
fn test_effective_bytes_trait() {
    let fixed = buffer::<10>("Hi");
    let bytes = fixed.effective_bytes();
    assert_eq!(bytes, b"Hi");

    // For a byte slice with an embedded null, the effective bytes stop at the first zero.
    let slice: &[u8] = b"abc\0def";
    let effective = slice.effective_bytes();
    assert_eq!(effective, b"abc");

    // For text, the effective bytes are the full UTF-8 bytes.
    let s = "hello";
    let effective_str = s.effective_bytes();
    assert_eq!(effective_str, b"hello");
}

#[test]
fn scan_finds_first_null() {
    assert_eq!(find_first_null(b"abc\0def"), 3);
    assert_eq!(find_first_null(b"a\0b\0c"), 1);
    assert_eq!(find_first_null(b"\0abc"), 0);
}

#[test]
fn scan_without_null_returns_length() {
    assert_eq!(find_first_null(b"abcdef"), 6);
    assert_eq!(find_first_null(b""), 0);
}

#[test]
fn slice_stops_at_first_null() {
    let slice: &[u8] = &[1, 2, 3, 0, 4, 0, 5];
    assert_eq!(slice.effective_bytes(), &[1, 2, 3]);
}

#[test]
fn slice_without_null_is_unchanged() {
    let slice: &[u8] = &[9, 8, 7, 255];
    assert_eq!(slice.effective_bytes(), &[9, 8, 7, 255]);
}

#[test]
fn all_null_input_is_empty() {
    let slice: &[u8] = &[0, 0, 0];
    assert!(slice.effective_bytes().is_empty());
    let array = [0u8; 5];
    assert!(array.effective_bytes().is_empty());
}

#[test]
fn empty_slice_is_empty() {
    let slice: &[u8] = &[];
    assert!(slice.effective_bytes().is_empty());
}

#[test]
fn array_stops_at_first_null() {
    let array: [u8; 6] = [b'x', b'y', 0, b'z', 0, 0];
    assert_eq!(array.effective_bytes(), b"xy");
    let full: [u8; 3] = [b'a', b'b', b'c'];
    assert_eq!(full.effective_bytes(), b"abc");
}

#[test]
fn text_keeps_embedded_nulls() {
    let s = "ab\0cd";
    assert_eq!(s.effective_bytes(), b"ab\0cd");
    let owned = String::from("\0tail");
    assert_eq!(owned.effective_bytes(), b"\0tail");
}

#[test]
fn text_returns_full_utf8_encoding() {
    let s = "héllo €";
    assert_eq!(s.effective_bytes(), s.as_bytes());
    assert_eq!(s.effective_bytes().len(), 10);
    let owned = String::from("hello");
    assert_eq!(owned.effective_bytes(), b"hello");
}

#[test]
fn buffer_and_reference_agree() {
    let fixed = buffer::<8>("abc");
    let by_ref = &fixed;
    assert_eq!(by_ref.effective_bytes(), b"abc");
    assert_eq!((&by_ref).effective_bytes(), fixed.effective_bytes());
}

#[test]
fn iterator_yields_effective_bytes_then_none() {
    let fixed = buffer::<10>("hello");
    let mut iter = fixed.byte_iter();
    let mut seen = Vec::new();
    while let Some(byte) = iter.next() {
        seen.push(byte);
    }
    assert_eq!(seen.len(), 5);
    assert_eq!(seen.as_slice(), fixed.effective_bytes());
    assert_eq!(iter.next(), None);
    assert_eq!(iter.next(), None);
}

#[test]
fn iterator_steps_one_byte_at_a_time() {
    let fixed = buffer::<4>("ab");
    let mut iter = fixed.byte_iter();
    assert_eq!(iter.next(), Some(b'a'));
    assert_eq!(iter.next(), Some(b'b'));
    assert_eq!(iter.next(), None);
}

#[test]
fn iterator_over_empty_buffer_is_exhausted() {
    let fixed = buffer::<4>("");
    let mut iter = fixed.byte_iter();
    assert_eq!(iter.next(), None);
    assert_eq!(iter.next(), None);
}

#[test]
fn iterator_over_full_buffer_yields_all() {
    let fixed = buffer::<3>("xyz");
    let mut iter = fixed.byte_iter();
    assert_eq!(iter.next(), Some(b'x'));
    assert_eq!(iter.next(), Some(b'y'));
    assert_eq!(iter.next(), Some(b'z'));
    assert_eq!(iter.next(), None);
}

#[test]
fn iterators_are_independent_snapshots() {
    let fixed = buffer::<6>("abc");
    let mut first = fixed.byte_iter();
    assert_eq!(first.next(), Some(b'a'));
    assert_eq!(first.next(), Some(b'b'));
    let mut second = fixed.byte_iter();
    assert_eq!(second.next(), Some(b'a'));
    assert_eq!(first.next(), Some(b'c'));
    assert_eq!(first.next(), None);
    assert_eq!(second.next(), Some(b'b'));
}

#[test]
fn iterator_stops_at_embedded_null() {
    let fixed = match FixedStr::<8>::from_bytes(b"ab\0cd") {
        Ok(buffer) => buffer,
        Err(e) => panic!("{}", e.to_string()),
    };
    let mut iter = fixed.byte_iter();
    assert_eq!(iter.next(), Some(b'a'));
    assert_eq!(iter.next(), Some(b'b'));
    assert_eq!(iter.next(), None);
}
