//! Generic read-only traversal over the kind variants of a [`Type`].

use vstd::prelude::*;

use super::Array;
use super::Enum;
use super::Function;
use super::IntType;
use super::Struct;

verus! {

/// A caller-supplied set of six handler methods, one per type kind.
///
/// [`Type::visit`] routes to exactly one of these, matching the active kind
/// of the visited type, passing a read-only reference to that kind's
/// payload. There is no default or fallback method: the kind set is closed,
/// and every implementer handles all six.
///
/// [`Type`]: super::Type
/// [`Type::visit`]: super::Type::visit
pub trait Visitor {
    /// Handles an enumeration payload.
    fn visit_enum(&self, enumeration: &Enum);

    /// Handles a struct payload.
    fn visit_struct(&self, structure: &Struct);

    /// Handles a signed integer payload.
    fn visit_int(&self, int_type: &IntType);

    /// Handles an unsigned integer payload.
    fn visit_uint(&self, int_type: &IntType);

    /// Handles an array payload.
    fn visit_array(&self, array: &Array);

    /// Handles a function payload.
    fn visit_function(&self, function: &Function);
}

} // verus!
