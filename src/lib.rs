use vstd::prelude::*;

pub mod framed;
pub mod seek;
pub mod shared;
pub mod store;

pub use framed::{Frame, FramedFile};
pub use seek::{SeekFrom, StreamError};
pub use shared::SharedFile;
