//! Request and response types.

pub use crate::error::{ErrorKind, ErrorResponse};
