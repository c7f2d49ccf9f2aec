//! The dynamic value container: a finalized [`Type`] paired with an opaque
//! byte buffer. It has no behaviour of its own beyond exposing its type tag.

use vstd::prelude::*;

use crate::types::Type;

verus! {

/// A value of a runtime-described type: the describing [`Type`] together
/// with the value's raw bytes, which this crate never interprets.
///
/// The container exclusively owns its `Type`, which therefore remains valid
/// and immutable for as long as the container holds it.
#[derive(Debug)]
pub struct Dynamic {
    ty: Type,
    _value: Vec<u8>,
}

impl Dynamic {
    /// The type of the contained value.
    pub closed spec fn spec_ty(&self) -> Type {
        self.ty
    }

    /// The type of the contained value.
    pub fn value_type(&self) -> (r: &Type)
        ensures
            *r == self.spec_ty(),
    {
        &self.ty
    }
}

} // verus!
