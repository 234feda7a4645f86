//! Byte-buffer handoff primitives for moving variable-length payloads across
//! an FFI boundary.
//!
//! The single abstraction is an owned byte buffer with exactly one owner. A
//! buffer lives in one of two regimes: *managed*, where a native value
//! (`Vec<u8>`, `String`) owns it and dropping the owner frees the memory, and
//! *detached*, where a [`handle::RawHandle`] — the library's image of the
//! `(pointer, length)` pair published to the host — is the sole reference and
//! automatic reclamation is suspended. Release operations move a buffer from
//! the managed to the detached regime; reclaim operations move it back.
//!
//! The cross-cutting rule is the null/empty policy: every release collapses an
//! empty buffer to the canonical empty handle, standing for `(null, 0)`, and
//! every reclaim treats a zero-length handle as the empty buffer.

pub mod buffer;
pub mod handle;
pub mod text;
pub mod trim;

pub use buffer::from_boxed_byte_slice_raw;
pub use buffer::into_boxed_byte_slice_raw;
pub use buffer::new_boxed_byte_slice_buffer_raw;
pub use handle::RawHandle;
pub use text::string_from_boxed_byte_slice_raw;
pub use text::string_into_boxed_byte_slice_raw;
