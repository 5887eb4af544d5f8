//! Verified core of a binding to a native speech engine: decoding of the
//! engine's codes, ownership of its handles and the conversions that sit at
//! the boundary between native buffers and owned values.

pub mod audio;
pub mod c_string;
pub mod common;
pub mod error;
pub mod flow;
pub mod handle;
pub mod native;
pub mod speech;
