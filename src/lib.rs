//! Runtime type identification and checked downcasting for values that carry
//! the `Shapeless` capability.

pub mod capability;
pub mod cast;

pub use capability::Shapeless;
pub use cast::{
    convert, convert_own, downcast_own, downcast_ref, is_own_type, is_type, render, CONVERSION_FAILED,
};
