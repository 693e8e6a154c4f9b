use vstd::prelude::*;

pub mod error;
pub mod host;
pub mod number;
pub mod ser;

pub use error::Error;
pub use host::HostValue;
pub use ser::{ArraySerializer, MapSerializer, ObjectSerializer, Serializer, VariantSerializer};
