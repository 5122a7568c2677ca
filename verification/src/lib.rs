//! A network buffer for asynchronous network applications: it has the
//! right interface for reading from the network into the `Buf` and for
//! parsing packets directly from it, and capacity management tuned for
//! network applications (it starts growing fast, but is deallocated for
//! idle connections).

mod buf;
pub mod laws;
pub mod model;
mod range;
pub mod text;

pub use buf::{Buf, ALLOC_MIN, MAX_BUF_SIZE, READ_MIN};
pub use range::RangeArgument;
