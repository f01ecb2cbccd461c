//! Construction and byte layout of 128-bit universally unique identifiers.

pub mod builder;
pub mod error;
pub mod layout;
pub mod marker;
pub mod non_nil;
pub mod order;
pub mod text;
pub mod value;

pub use crate::builder::Builder;
pub use crate::error::{Error, ErrorKind};
pub use crate::marker::{Variant, Version};
pub use crate::non_nil::NonNilUuid;
pub use crate::value::{Bytes, Uuid, UuidRef};
