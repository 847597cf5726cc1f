//! A read cursor over a borrowed slice.
//!
//! A [`Reader`] walks a slice from front to back without copying it. Every read
//! is checked against the end of the slice: a read that does not fit returns
//! `None` and leaves the reader where it was, whatever count or offset was
//! asked for. Each read comes in two forms: `peek_*` looks, `next_*` looks and
//! moves on.
//!
//! A reader of bytes can also hand out fixed-size arrays and the fixed-width
//! integers, in little-endian order, in big-endian order, or in the order of
//! the machine ([`ByteOrder`]).
//!
//! - [`model`]: what a reader is, mathematically, and the laws of reading;
//! - [`reader`]: the reader for elements of any type;
//! - [`order`]: byte orders, and the value of a run of bytes in each;
//! - [`bytes`]: arrays of bytes out of a reader of bytes;
//! - [`integers`]: integers out of a reader of bytes.

pub mod bytes;
pub mod integers;
pub mod model;
pub mod order;
pub mod reader;

pub use model::ReaderView;
pub use order::ByteOrder;
pub use reader::Reader;
