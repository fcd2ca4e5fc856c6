//! Fixed-capacity, null-padded byte strings.
//!
//! A [`FixedStr<N>`] stores text in exactly `N` bytes. The bytes that carry
//! meaning, its *effective bytes*, are those before the first null byte; the
//! rest is padding. Every public function states what it returns over the
//! spec functions of [`null_scan`], and the laws that tie the functions
//! together are public proof functions next to them.

pub mod buffer;
pub mod effective_bytes;
pub mod fs_error;
pub mod null_scan;

pub use buffer::FixedStr;
pub use effective_bytes::{EffectiveBytes, EffectiveBytesIter};
pub use fs_error::FixedStrError;
pub use null_scan::find_first_null;
