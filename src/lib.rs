//! A codec between 16-bit Thumb instruction words and a typed view of them,
//! with the condition codes that gate conditional execution.

pub mod cond;
pub mod error;
pub mod thumb;

pub use cond::Cond;
pub use error::CodecError;
pub use thumb::ThumbOp;
