//! A mutable binary buffer with independent read and write cursors.
//!
//! The [`buffer::ByteBuf`] type owns a growable byte store together with a
//! read cursor, a write cursor and an optional read mark.  Fixed-width
//! integers and booleans can be appended or consumed in big- or little-endian
//! order, and strings travel as a length prefix followed by their UTF-8
//! bytes.  The [`codec`] module holds the byte-level encodings these
//! operations are specified against, and [`slice_util`] a few free-standing
//! slice splicing helpers.

pub mod buffer;
pub mod codec;
pub mod error;
pub mod laws;
pub mod scalars;
pub mod slice_util;
pub mod strings;

pub use buffer::ByteBuf;
pub use error::ByteBufError;
