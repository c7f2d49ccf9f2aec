//! The immutable, recursively-composable type model: a tagged union over
//! signed/unsigned integers, enumerations, structs, arrays and functions,
//! each carrying an optional name and a kind-specific payload.

use vstd::prelude::*;

mod builders;
mod visitors;

pub use builders::ArrayBuilder;
pub use builders::BuilderError;
pub use builders::EnumBuilder;
pub use builders::FunctionBuilder;
pub use builders::IntBuilder;
pub use builders::StructBuilder;
pub use builders::TypeBuilder;
pub use visitors::Visitor;

verus! {

/// An immutable description of a data or function shape, one of six kinds.
///
/// Values are created only by a completed builder and never mutated
/// afterwards; every nested `Type` is owned by value, so the whole
/// description is a tree.
#[derive(Debug)]
pub struct Type(Box<TypeInfo>);

/// The name and kind payload stored behind a `Type`.
#[derive(Debug)]
pub struct TypeInfo {
    name: Option<String>,
    kind: TypeKind,
}

/// The active kind of a `Type`, with its payload.
///
/// Executable code never obtains a `TypeKind` from a built `Type`; kind-aware
/// processing goes through [`Visitor`]. The enum is public so that contracts
/// can speak about which kind a `Type` holds.
#[derive(Debug)]
pub enum TypeKind {
    Int(IntType),
    UInt(IntType),
    Enum(Enum),
    Struct(Struct),
    Array(Array),
    Function(Function),
}

/// Payload of an integer kind: the width in bits.
#[derive(Debug)]
pub struct IntType {
    bits: u16,
}

/// Payload of a struct kind: an ordered sequence of fields.
#[derive(Debug)]
pub struct Struct {
    fields: Vec<Field>,
}

/// An optionally named member of a struct, carrying a nested type.
#[derive(Debug)]
pub struct Field {
    name: Option<String>,
    ty: Type,
}

/// Payload of an enumeration kind: an ordered sequence of variants.
#[derive(Debug)]
pub struct Enum {
    variants: Vec<Variant>,
}

/// A named alternative of an enumeration.
#[derive(Debug)]
pub struct Variant {
    name: String,
}

/// Payload of an array kind: an element type and a fixed length.
#[derive(Debug)]
pub struct Array {
    element_type: Type,
    len: usize,
}

/// Payload of a function kind: parameters in order, a return type, and an
/// optional free-form body text.
#[derive(Debug)]
pub struct Function {
    parameters: Vec<Parameter>,
    return_type: Type,
    body: Option<String>,
}

/// A named parameter of a function, carrying a nested type.
#[derive(Debug)]
pub struct Parameter {
    name: String,
    ty: Type,
}

// ---------------------------------------------------------------------------
// Name helpers shared by the well-formedness predicates and the builders.
// ---------------------------------------------------------------------------

/// Whether some variant in `vs` already carries `name`.
pub open spec fn has_variant_named(vs: Seq<Variant>, name: Seq<char>) -> bool {
    exists|i: int| 0 <= i < vs.len() && (#[trigger] vs[i]).spec_name() == name
}

/// All variant names in `vs` are pairwise distinct.
pub open spec fn variants_distinct(vs: Seq<Variant>) -> bool {
    forall|i: int, j: int|
        0 <= i < j < vs.len() ==> (#[trigger] vs[i]).spec_name() != (#[trigger] vs[j]).spec_name()
}

/// Two optional field names conflict exactly when both are present and equal;
/// absent names never conflict with anything, not even with each other.
pub open spec fn field_names_conflict(a: Option<Seq<char>>, b: Option<Seq<char>>) -> bool {
    a matches Some(x) && b matches Some(y) && x == y
}

/// Whether some field in `fs` carries a name that conflicts with `name`.
pub open spec fn has_conflicting_field(fs: Seq<Field>, name: Option<Seq<char>>) -> bool {
    exists|i: int| 0 <= i < fs.len() && field_names_conflict((#[trigger] fs[i]).spec_name(), name)
}

/// No two field names in `fs` conflict.
pub open spec fn fields_distinct(fs: Seq<Field>) -> bool {
    forall|i: int, j: int|
        0 <= i < j < fs.len() ==> !field_names_conflict(
            (#[trigger] fs[i]).spec_name(),
            (#[trigger] fs[j]).spec_name(),
        )
}

/// Every field in `fs` carries a well-formed type.
pub open spec fn fields_wf(fs: Seq<Field>) -> bool
    decreases fs,
{
    forall|i: int| 0 <= i < fs.len() ==> (#[trigger] fs[i]).wf()
}

/// Every parameter in `ps` carries a well-formed type.
pub open spec fn parameters_wf(ps: Seq<Parameter>) -> bool
    decreases ps,
{
    forall|i: int| 0 <= i < ps.len() ==> (#[trigger] ps[i]).wf()
}

// ---------------------------------------------------------------------------
// Type
// ---------------------------------------------------------------------------

impl Type {
    /// The declared name, if any.
    pub closed spec fn spec_name(&self) -> Option<Seq<char>> {
        self.0.name.deep_view()
    }

    /// The active kind with its payload.
    pub closed spec fn spec_kind(&self) -> TypeKind {
        self.0.kind
    }

    /// The structural invariant of a built type: its payload, and every
    /// payload of every nested type, is well formed.
    pub closed spec fn wf(&self) -> bool
        decreases self,
    {
        self.0.kind.wf()
    }

    /// A type is well formed exactly when its kind payload is.
    pub proof fn lemma_wf(&self)
        ensures
            self.wf() <==> self.spec_kind().wf(),
    {
    }

    /// Starts building a type with the given name.
    pub fn builder(name: String) -> (r: TypeBuilder)
        ensures
            r.spec_name() == name@,
            r.spec_kind() is None,
    {
        TypeBuilder::new(name)
    }

    /// The declared name, if any, borrowed from the instance.
    pub fn name(&self) -> (r: Option<&str>)
        ensures
            match r {
                Some(s) => self.spec_name() matches Some(n) && s@ == n,
                None => self.spec_name() is None,
            },
    {
        match &self.0.name {
            Some(s) => Some(s.as_str()),
            None => None,
        }
    }

    /// Dispatches to exactly one of the six handler methods of `visitor`,
    /// the one matching the active kind, passing that kind's payload.
    pub fn visit<V: Visitor>(&self, visitor: &V) {
        match &self.0.kind {
            TypeKind::Enum(enumeration) => visitor.visit_enum(enumeration),
            TypeKind::Struct(structure) => visitor.visit_struct(structure),
            TypeKind::Int(int_type) => visitor.visit_int(int_type),
            TypeKind::UInt(int_type) => visitor.visit_uint(int_type),
            TypeKind::Array(array) => visitor.visit_array(array),
            TypeKind::Function(function) => visitor.visit_function(function),
        }
    }

    /// Packages a finished builder's parts into an immutable `Type`.
    pub(crate) fn assemble(name: String, kind: TypeKind) -> (r: Type)
        ensures
            r.spec_name() == Some(name@),
            r.spec_kind() == kind,
            r.wf() <==> kind.wf(),
    {
        Type(Box::new(TypeInfo { name: Some(name), kind }))
    }
}

impl TypeKind {
    /// Well-formedness of the payload of this kind, recursively.
    pub closed spec fn wf(&self) -> bool
        decreases self,
    {
        match self {
            TypeKind::Int(int_type) => int_type.wf(),
            TypeKind::UInt(int_type) => int_type.wf(),
            TypeKind::Enum(enumeration) => enumeration.wf(),
            TypeKind::Struct(structure) => structure.wf(),
            TypeKind::Array(array) => array.wf(),
            TypeKind::Function(function) => function.wf(),
        }
    }

    /// A kind is well formed exactly when its payload is.
    pub proof fn lemma_wf(&self)
        ensures
            self.wf() <==> match self {
                TypeKind::Int(int_type) => int_type.wf(),
                TypeKind::UInt(int_type) => int_type.wf(),
                TypeKind::Enum(enumeration) => enumeration.wf(),
                TypeKind::Struct(structure) => structure.wf(),
                TypeKind::Array(array) => array.wf(),
                TypeKind::Function(function) => function.wf(),
            },
    {
    }
}

// ---------------------------------------------------------------------------
// IntType
// ---------------------------------------------------------------------------

impl IntType {
    /// The stored width in bits.
    pub closed spec fn spec_bits(&self) -> u16 {
        self.bits
    }

    /// A width is valid when it is positive and at most 4096.
    pub closed spec fn wf(&self) -> bool {
        0 < self.bits <= 4096
    }

    /// An integer payload is well formed exactly when its width is positive
    /// and at most 4096.
    pub proof fn lemma_wf(&self)
        ensures
            self.wf() <==> 0 < self.spec_bits() <= 4096,
    {
    }

    /// The width of the integer type in bits.
    pub fn bits(&self) -> (r: u16)
        ensures
            r == self.spec_bits(),
    {
        self.bits
    }

    pub(crate) fn from_bits(bits: u16) -> (r: IntType)
        ensures
            r.spec_bits() == bits,
            r.wf() <==> 0 < bits <= 4096,
    {
        IntType { bits }
    }
}

// ---------------------------------------------------------------------------
// Struct and Field
// ---------------------------------------------------------------------------

impl Struct {
    /// The stored fields, in insertion order.
    pub closed spec fn spec_fields(&self) -> Seq<Field> {
        self.fields@
    }

    /// No two fields share a present name, and every field type is well
    /// formed.
    pub closed spec fn wf(&self) -> bool
        decreases self,
    {
        fields_distinct(self.fields@) && fields_wf(self.fields@)
    }

    /// A struct payload is well formed exactly when its field names are
    /// conflict-free and its field types are well formed.
    pub proof fn lemma_wf(&self)
        ensures
            self.wf() <==> fields_distinct(self.spec_fields()) && fields_wf(self.spec_fields()),
    {
    }

    /// The fields of the struct, in insertion order.
    pub fn fields(&self) -> (r: &[Field])
        ensures
            r@ == self.spec_fields(),
    {
        self.fields.as_slice()
    }

    pub(crate) fn from_fields(fields: Vec<Field>) -> (r: Struct)
        ensures
            r.spec_fields() == fields@,
            r.wf() <==> fields_distinct(fields@) && fields_wf(fields@),
    {
        Struct { fields }
    }
}

impl Field {
    /// The optional field name.
    pub closed spec fn spec_name(&self) -> Option<Seq<char>> {
        self.name.deep_view()
    }

    /// The carried type.
    pub closed spec fn spec_ty(&self) -> Type {
        self.ty
    }

    /// A field is well formed when its type is.
    pub closed spec fn wf(&self) -> bool
        decreases self,
    {
        self.ty.wf()
    }

    /// A field is well formed exactly when its carried type is.
    pub proof fn lemma_wf(&self)
        ensures
            self.wf() <==> self.spec_ty().wf(),
    {
    }

    /// Creates a field with an optional name and a type.
    pub fn new(name: Option<String>, ty: Type) -> (r: Self)
        ensures
            r.spec_name() == name.deep_view(),
            r.spec_ty() == ty,
            r.wf() <==> ty.wf(),
    {
        Self { name, ty }
    }

    /// The field's name, if any.
    pub fn name(&self) -> (r: Option<&str>)
        ensures
            match r {
                Some(s) => self.spec_name() matches Some(n) && s@ == n,
                None => self.spec_name() is None,
            },
    {
        match &self.name {
            Some(s) => Some(s.as_str()),
            None => None,
        }
    }

    /// The field's type.
    pub fn field_type(&self) -> (r: &Type)
        ensures
            *r == self.spec_ty(),
    {
        &self.ty
    }

    /// Whether this field's name conflicts with `other`'s: both present and
    /// equal.
    pub(crate) fn name_conflicts(&self, other: &Field) -> (r: bool)
        ensures
            r == field_names_conflict(self.spec_name(), other.spec_name()),
    {
        match (&self.name, &other.name) {
            (Some(a), Some(b)) => *a == *b,
            _ => false,
        }
    }
}

// ---------------------------------------------------------------------------
// Enum and Variant
// ---------------------------------------------------------------------------

impl Enum {
    /// The stored variants, in insertion order.
    pub closed spec fn spec_variants(&self) -> Seq<Variant> {
        self.variants@
    }

    /// All variant names are distinct.
    pub closed spec fn wf(&self) -> bool {
        variants_distinct(self.variants@)
    }

    /// An enumeration payload is well formed exactly when its variant names
    /// are pairwise distinct.
    pub proof fn lemma_wf(&self)
        ensures
            self.wf() <==> variants_distinct(self.spec_variants()),
    {
    }

    /// The variants of the enumeration, in insertion order.
    pub fn variants(&self) -> (r: &[Variant])
        ensures
            r@ == self.spec_variants(),
    {
        self.variants.as_slice()
    }

    pub(crate) fn from_variants(variants: Vec<Variant>) -> (r: Enum)
        ensures
            r.spec_variants() == variants@,
            r.wf() <==> variants_distinct(variants@),
    {
        Enum { variants }
    }
}

impl Variant {
    /// The variant's name.
    pub closed spec fn spec_name(&self) -> Seq<char> {
        self.name@
    }

    /// Creates a variant with the given name.
    pub fn new(name: String) -> (r: Self)
        ensures
            r.spec_name() == name@,
    {
        Self { name }
    }

    /// The variant's name.
    pub fn name(&self) -> (r: &str)
        ensures
            r@ == self.spec_name(),
    {
        self.name.as_str()
    }

    /// Whether this variant carries the same name as `other`.
    pub(crate) fn name_matches(&self, other: &Variant) -> (r: bool)
        ensures
            r == (self.spec_name() == other.spec_name()),
    {
        self.name == other.name
    }
}

// ---------------------------------------------------------------------------
// Array
// ---------------------------------------------------------------------------

impl Array {
    /// The stored element type.
    pub closed spec fn spec_element_type(&self) -> Type {
        self.element_type
    }

    /// The stored length.
    pub closed spec fn spec_len(&self) -> usize {
        self.len
    }

    /// An array payload is well formed when its element type is.
    pub closed spec fn wf(&self) -> bool
        decreases self,
    {
        self.element_type.wf()
    }

    /// An array payload is well formed exactly when its element type is.
    pub proof fn lemma_wf(&self)
        ensures
            self.wf() <==> self.spec_element_type().wf(),
    {
    }

    /// The element type of the array.
    pub fn element_type(&self) -> (r: &Type)
        ensures
            *r == self.spec_element_type(),
    {
        &self.element_type
    }

    /// The fixed length of the array; zero is permitted.
    pub fn len(&self) -> (r: usize)
        ensures
            r == self.spec_len(),
    {
        self.len
    }

    pub(crate) fn assemble(element_type: Type, len: usize) -> (r: Array)
        ensures
            r.spec_element_type() == element_type,
            r.spec_len() == len,
            r.wf() <==> element_type.wf(),
    {
        Array { element_type, len }
    }
}

// ---------------------------------------------------------------------------
// Function and Parameter
// ---------------------------------------------------------------------------

impl Function {
    /// The stored parameters, in insertion order.
    pub closed spec fn spec_parameters(&self) -> Seq<Parameter> {
        self.parameters@
    }

    /// The stored return type.
    pub closed spec fn spec_return_type(&self) -> Type {
        self.return_type
    }

    /// The stored body text, if any.
    pub closed spec fn spec_body(&self) -> Option<Seq<char>> {
        self.body.deep_view()
    }

    /// A function payload is well formed when its return type and every
    /// parameter type are; parameter names need not be distinct.
    pub closed spec fn wf(&self) -> bool
        decreases self,
    {
        parameters_wf(self.parameters@) && self.return_type.wf()
    }

    /// A function payload is well formed exactly when every parameter and
    /// the return type are.
    pub proof fn lemma_wf(&self)
        ensures
            self.wf() <==> parameters_wf(self.spec_parameters())
                && self.spec_return_type().wf(),
    {
    }

    /// The parameters of the function, in insertion order.
    pub fn parameters(&self) -> (r: &[Parameter])
        ensures
            r@ == self.spec_parameters(),
    {
        self.parameters.as_slice()
    }

    /// The return type of the function.
    pub fn return_type(&self) -> (r: &Type)
        ensures
            *r == self.spec_return_type(),
    {
        &self.return_type
    }

    /// The free-form body text, if any; no parsing is ever performed on it.
    pub fn body(&self) -> (r: Option<&str>)
        ensures
            match r {
                Some(s) => self.spec_body() matches Some(b) && s@ == b,
                None => self.spec_body() is None,
            },
    {
        match &self.body {
            Some(s) => Some(s.as_str()),
            None => None,
        }
    }

    pub(crate) fn assemble(parameters: Vec<Parameter>, return_type: Type, body: Option<String>) -> (r:
        Function)
        ensures
            r.spec_parameters() == parameters@,
            r.spec_return_type() == return_type,
            r.spec_body() == body.deep_view(),
            r.wf() <==> parameters_wf(parameters@) && return_type.wf(),
    {
        Function { parameters, return_type, body }
    }
}

impl Parameter {
    /// The parameter's name.
    pub closed spec fn spec_name(&self) -> Seq<char> {
        self.name@
    }

    /// The carried type.
    pub closed spec fn spec_ty(&self) -> Type {
        self.ty
    }

    /// A parameter is well formed when its type is.
    pub closed spec fn wf(&self) -> bool
        decreases self,
    {
        self.ty.wf()
    }

    /// A parameter is well formed exactly when its carried type is.
    pub proof fn lemma_wf(&self)
        ensures
            self.wf() <==> self.spec_ty().wf(),
    {
    }

    /// Creates a parameter with the given name and type.
    pub fn new(name: String, ty: Type) -> (r: Self)
        ensures
            r.spec_name() == name@,
            r.spec_ty() == ty,
            r.wf() <==> ty.wf(),
    {
        Self { name, ty }
    }

    /// The parameter's name.
    pub fn name(&self) -> (r: &str)
        ensures
            r@ == self.spec_name(),
    {
        self.name.as_str()
    }

    /// The parameter's type.
    pub fn parameter_type(&self) -> (r: &Type)
        ensures
            *r == self.spec_ty(),
    {
        &self.ty
    }
}

} // verus!
