//! The staged builder subsystem: a top-level [`TypeBuilder`] hands exclusive
//! ownership of itself to one kind-specific sub-builder at a time; the
//! sub-builder accumulates that kind's configuration, validates it, and
//! `finish` returns the top-level builder with the kind payload committed.
//! Selecting a kind again on the returned builder overwrites the previous
//! payload: the last committed kind wins.

use vstd::prelude::*;

use super::Array;
use super::Enum;
use super::Field;
use super::Function;
use super::IntType;
use super::Parameter;
use super::Struct;
use super::Type;
use super::TypeKind;
use super::Variant;
use super::field_names_conflict;
use super::fields_distinct;
use super::fields_wf;
use super::has_conflicting_field;
use super::has_variant_named;
use super::parameters_wf;
use super::variants_distinct;

verus! {

/// An error raised while building a type; never after a `Type` is finalized.
#[derive(Debug, PartialEq, Eq)]
pub enum BuilderError {
    /// A required value was never set before finishing; carries the name of
    /// the absent value.
    MissingValue(&'static str),
    /// The top-level builder was finalized without ever selecting a kind.
    NoKind,
    /// A second field or variant with an already-present name was added;
    /// carries the name of the duplicated item kind.
    DuplicateValue(&'static str),
}

impl BuilderError {
    /// The error reports the required value named `field` as missing.
    pub open spec fn is_missing(self, field: Seq<char>) -> bool {
        self matches BuilderError::MissingValue(f) && f@ == field
    }

    /// The error reports a duplicate of the item kind named `what`.
    pub open spec fn is_duplicate(self, what: Seq<char>) -> bool {
        self matches BuilderError::DuplicateValue(w) && w@ == what
    }
}

/// Builder for creating [`Type`] instances.
///
/// Created from a name; one kind selector hands the builder to a
/// kind-specific sub-builder, whose `finish` returns it with the kind
/// committed; `try_build` then produces the immutable `Type`.
#[derive(Debug)]
pub struct TypeBuilder {
    name: String,
    kind: Option<TypeKind>,
}

impl TypeBuilder {
    /// The name the builder was created with.
    pub closed spec fn spec_name(&self) -> Seq<char> {
        self.name@
    }

    /// The committed kind payload, if a sub-builder has finished.
    pub closed spec fn spec_kind(&self) -> Option<TypeKind> {
        self.kind
    }

    /// The committed kind payload, if any, is well formed.
    pub open spec fn wf(&self) -> bool {
        self.spec_kind() matches Some(k) ==> k.wf()
    }

    /// Creates a builder with the given name and no kind selected.
    pub fn new(name: String) -> (r: Self)
        ensures
            r.spec_name() == name@,
            r.spec_kind() is None,
    {
        Self { name, kind: None }
    }

    /// Starts building an enumeration type.
    pub fn enumeration(self) -> (r: EnumBuilder)
        ensures
            r.spec_builder() == self,
            r.spec_variants() == Seq::<Variant>::empty(),
    {
        EnumBuilder::new(self)
    }

    /// Starts building a struct type.
    pub fn structure(self) -> (r: StructBuilder)
        ensures
            r.spec_builder() == self,
            r.spec_fields() == Seq::<Field>::empty(),
    {
        StructBuilder::new(self)
    }

    /// Starts building an array type.
    pub fn array(self) -> (r: ArrayBuilder)
        ensures
            r.spec_builder() == self,
            r.spec_element_type() is None,
            r.spec_len() is None,
    {
        ArrayBuilder::new(self)
    }

    /// Starts building a signed integer type.
    pub fn integer(self) -> (r: IntBuilder)
        ensures
            r.spec_builder() == self,
            r.spec_bits() is None,
            r.spec_signed(),
    {
        IntBuilder::new(self, true)
    }

    /// Starts building an unsigned integer type.
    pub fn uint(self) -> (r: IntBuilder)
        ensures
            r.spec_builder() == self,
            r.spec_bits() is None,
            !r.spec_signed(),
    {
        IntBuilder::new(self, false)
    }

    /// Starts building a function type.
    pub fn function(self) -> (r: FunctionBuilder)
        ensures
            r.spec_builder() == self,
            r.spec_parameters() == Seq::<Parameter>::empty(),
            r.spec_return_type() is None,
            r.spec_body() is None,
    {
        FunctionBuilder::new(self)
    }

    /// Tries to build the `Type`.
    ///
    /// Succeeds exactly when a kind has been committed, yielding a type that
    /// carries the builder's name and that payload; fails with
    /// [`BuilderError::NoKind`] otherwise.
    pub fn try_build(self) -> (r: Result<Type, BuilderError>)
        ensures
            match r {
                Ok(t) => self.spec_kind() matches Some(k) && t.spec_kind() == k
                    && t.spec_name() == Some(self.spec_name()) && (self.wf() ==> t.wf()),
                Err(e) => self.spec_kind() is None && e is NoKind,
            },
    {
        let TypeBuilder { name, kind } = self;
        match kind {
            Some(kind) => Ok(Type::assemble(name, kind)),
            None => Err(BuilderError::NoKind),
        }
    }

    /// Builds the `Type`; callers must have committed a kind.
    pub fn build(self) -> (r: Type)
        requires
            self.spec_kind() is Some,
        ensures
            self.spec_kind() matches Some(k) && r.spec_kind() == k,
            r.spec_name() == Some(self.spec_name()),
            self.wf() ==> r.wf(),
    {
        match self.try_build() {
            Ok(t) => t,
            Err(_) => unreached(),
        }
    }

    /// Commits a kind payload, replacing any previously committed one.
    pub(crate) fn with_kind(self, kind: TypeKind) -> (r: Self)
        ensures
            r.spec_name() == self.spec_name(),
            r.spec_kind() == Some(kind),
    {
        Self { name: self.name, kind: Some(kind) }
    }
}

/// Builder for creating enumeration types.
#[derive(Debug)]
pub struct EnumBuilder {
    builder: TypeBuilder,
    variants: Vec<Variant>,
}

impl EnumBuilder {
    /// The owned top-level builder.
    pub closed spec fn spec_builder(&self) -> TypeBuilder {
        self.builder
    }

    /// The variants accumulated so far, in insertion order.
    pub closed spec fn spec_variants(&self) -> Seq<Variant> {
        self.variants@
    }

    /// The accumulated variant names are pairwise distinct.
    pub open spec fn wf(&self) -> bool {
        variants_distinct(self.spec_variants())
    }

    /// Creates an enumeration sub-builder owning `builder`.
    pub fn new(builder: TypeBuilder) -> (r: Self)
        ensures
            r.spec_builder() == builder,
            r.spec_variants() == Seq::<Variant>::empty(),
    {
        Self { builder, variants: Vec::new() }
    }

    /// Adds a variant to the enumeration.
    ///
    /// Rejects a variant whose name matches one already accumulated with
    /// [`BuilderError::DuplicateValue`], leaving the accumulated variants
    /// unchanged.
    pub fn add_variant(&mut self, variant: Variant) -> (r: Result<(), BuilderError>)
        ensures
            final(self).spec_builder() == old(self).spec_builder(),
            has_variant_named(old(self).spec_variants(), variant.spec_name()) ==> (r matches Err(e)
                && e.is_duplicate("variant"@)
                && final(self).spec_variants() == old(self).spec_variants()),
            !has_variant_named(old(self).spec_variants(), variant.spec_name()) ==> (r is Ok
                && final(self).spec_variants() == old(self).spec_variants().push(variant)),
            old(self).wf() ==> final(self).wf(),
    {
        if holds_variant_name(&self.variants, &variant) {
            Err(BuilderError::DuplicateValue("variant"))
        } else {
            let ghost added = variant;
            let ghost before = self.variants@;
            self.variants.push(variant);
            proof {
                let after = self.variants@;
                if old(self).wf() {
                    assert forall|i: int, j: int| 0 <= i < j < after.len() implies (#[trigger] after[i]).spec_name()
                        != (#[trigger] after[j]).spec_name() by {
                        if j < before.len() {
                            assert(after[i] == before[i] && after[j] == before[j]);
                        } else {
                            assert(after[j] == added && after[i] == before[i]);
                            assert(!has_variant_named(before, added.spec_name()));
                        }
                    }
                }
            }
            Ok(())
        }
    }

    /// Commits the accumulated variants as an enumeration kind and returns
    /// the top-level builder.
    pub fn finish(self) -> (r: TypeBuilder)
        ensures
            r.spec_name() == self.spec_builder().spec_name(),
            r.spec_kind() matches Some(TypeKind::Enum(e)) && e.spec_variants()
                == self.spec_variants(),
            self.wf() ==> r.wf(),
    {
        let EnumBuilder { builder, variants } = self;
        let kind = TypeKind::Enum(Enum::from_variants(variants));
        proof {
            kind.lemma_wf();
        }
        builder.with_kind(kind)
    }
}

/// Whether some variant of `variants` carries the same name as `variant`.
fn holds_variant_name(variants: &Vec<Variant>, variant: &Variant) -> (r: bool)
    ensures
        r == has_variant_named(variants@, variant.spec_name()),
{
    let n = variants.len();
    let mut i: usize = 0;
    let mut found = false;
    while i < n
        invariant
            n == variants@.len(),
            i <= n,
            found <==> exists|j: int|
                0 <= j < i && (#[trigger] variants@[j]).spec_name() == variant.spec_name(),
        decreases n - i,
    {
        if variants[i].name_matches(variant) {
            found = true;
        }
        i += 1;
    }
    found
}

/// Builder for creating struct types.
#[derive(Debug)]
pub struct StructBuilder {
    builder: TypeBuilder,
    fields: Vec<Field>,
}

impl StructBuilder {
    /// The owned top-level builder.
    pub closed spec fn spec_builder(&self) -> TypeBuilder {
        self.builder
    }

    /// The fields accumulated so far, in insertion order.
    pub closed spec fn spec_fields(&self) -> Seq<Field> {
        self.fields@
    }

    /// The accumulated field names are conflict-free and every accumulated
    /// field carries a well-formed type.
    pub open spec fn wf(&self) -> bool {
        fields_distinct(self.spec_fields()) && fields_wf(self.spec_fields())
    }

    /// Creates a struct sub-builder owning `builder`.
    pub fn new(builder: TypeBuilder) -> (r: Self)
        ensures
            r.spec_builder() == builder,
            r.spec_fields() == Seq::<Field>::empty(),
    {
        Self { builder, fields: Vec::new() }
    }

    /// Adds a field to the struct.
    ///
    /// Rejects a field whose present name matches the present name of one
    /// already accumulated with [`BuilderError::DuplicateValue`], leaving the
    /// accumulated fields unchanged; fields without a name never conflict.
    pub fn add_field(&mut self, field: Field) -> (r: Result<(), BuilderError>)
        ensures
            final(self).spec_builder() == old(self).spec_builder(),
            has_conflicting_field(old(self).spec_fields(), field.spec_name()) ==> (r matches Err(e)
                && e.is_duplicate("field"@)
                && final(self).spec_fields() == old(self).spec_fields()),
            !has_conflicting_field(old(self).spec_fields(), field.spec_name()) ==> (r is Ok
                && final(self).spec_fields() == old(self).spec_fields().push(field)),
            old(self).wf() && field.wf() ==> final(self).wf(),
    {
        if holds_conflicting_field(&self.fields, &field) {
            Err(BuilderError::DuplicateValue("field"))
        } else {
            let ghost added = field;
            let ghost before = self.fields@;
            self.fields.push(field);
            proof {
                let after = self.fields@;
                if old(self).wf() && added.wf() {
                    assert forall|i: int, j: int| 0 <= i < j < after.len() implies !field_names_conflict(
                        (#[trigger] after[i]).spec_name(),
                        (#[trigger] after[j]).spec_name(),
                    ) by {
                        if j < before.len() {
                            assert(after[i] == before[i] && after[j] == before[j]);
                        } else {
                            assert(after[j] == added && after[i] == before[i]);
                            assert(!has_conflicting_field(before, added.spec_name()));
                        }
                    }
                    assert forall|i: int| 0 <= i < after.len() implies (#[trigger] after[i]).wf() by {
                        if i < before.len() {
                            assert(after[i] == before[i]);
                        } else {
                            assert(after[i] == added);
                        }
                    }
                }
            }
            Ok(())
        }
    }

    /// Commits the accumulated fields as a struct kind and returns the
    /// top-level builder.
    pub fn finish(self) -> (r: TypeBuilder)
        ensures
            r.spec_name() == self.spec_builder().spec_name(),
            r.spec_kind() matches Some(TypeKind::Struct(s)) && s.spec_fields()
                == self.spec_fields(),
            self.wf() ==> r.wf(),
    {
        let StructBuilder { builder, fields } = self;
        let kind = TypeKind::Struct(Struct::from_fields(fields));
        proof {
            kind.lemma_wf();
        }
        builder.with_kind(kind)
    }
}

/// Whether some field of `fields` carries a present name equal to a present
/// name of `field`.
fn holds_conflicting_field(fields: &Vec<Field>, field: &Field) -> (r: bool)
    ensures
        r == has_conflicting_field(fields@, field.spec_name()),
{
    let n = fields.len();
    let mut i: usize = 0;
    let mut found = false;
    while i < n
        invariant
            n == fields@.len(),
            i <= n,
            found <==> exists|j: int|
                0 <= j < i && field_names_conflict(
                    (#[trigger] fields@[j]).spec_name(),
                    field.spec_name(),
                ),
        decreases n - i,
    {
        if fields[i].name_conflicts(field) {
            found = true;
        }
        i += 1;
    }
    found
}

/// Builder for creating array types.
#[derive(Debug)]
pub struct ArrayBuilder {
    builder: TypeBuilder,
    element_type: Option<Type>,
    len: Option<usize>,
}

impl ArrayBuilder {
    /// The owned top-level builder.
    pub closed spec fn spec_builder(&self) -> TypeBuilder {
        self.builder
    }

    /// The element type, if it has been set.
    pub closed spec fn spec_element_type(&self) -> Option<Type> {
        self.element_type
    }

    /// The length, if it has been set.
    pub closed spec fn spec_len(&self) -> Option<usize> {
        self.len
    }

    /// The element type, if set, is well formed.
    pub open spec fn wf(&self) -> bool {
        self.spec_element_type() matches Some(t) ==> t.wf()
    }

    /// Creates an array sub-builder owning `builder`, with neither the
    /// element type nor the length set.
    pub fn new(builder: TypeBuilder) -> (r: Self)
        ensures
            r.spec_builder() == builder,
            r.spec_element_type() is None,
            r.spec_len() is None,
    {
        Self { builder, element_type: None, len: None }
    }

    /// Sets the element type of the array.
    pub fn set_element_type(self, element_type: Type) -> (r: Self)
        ensures
            r.spec_builder() == self.spec_builder(),
            r.spec_element_type() == Some(element_type),
            r.spec_len() == self.spec_len(),
    {
        Self { builder: self.builder, element_type: Some(element_type), len: self.len }
    }

    /// Sets the length of the array; zero is permitted.
    pub fn len(self, len: usize) -> (r: Self)
        ensures
            r.spec_builder() == self.spec_builder(),
            r.spec_element_type() == self.spec_element_type(),
            r.spec_len() == Some(len),
    {
        Self { builder: self.builder, element_type: self.element_type, len: Some(len) }
    }

    /// Commits the array kind and returns the top-level builder.
    ///
    /// Requires both the element type and the length to have been set;
    /// reports the first absent one, element type before length, as
    /// [`BuilderError::MissingValue`].
    pub fn try_finish(self) -> (r: Result<TypeBuilder, BuilderError>)
        ensures
            match r {
                Ok(b) => self.spec_element_type() matches Some(element_type)
                    && self.spec_len() matches Some(n) && b.spec_kind() matches Some(
                    TypeKind::Array(a),
                ) && a.spec_element_type() == element_type && a.spec_len() == n && b.spec_name()
                    == self.spec_builder().spec_name() && (self.wf() ==> b.wf()),
                Err(e) => (self.spec_element_type() is None || self.spec_len() is None) && (
                self.spec_element_type() is None ==> e.is_missing("element_type"@)) && (
                self.spec_element_type() is Some ==> e.is_missing("len"@)),
            },
    {
        let ArrayBuilder { builder, element_type, len } = self;
        let element_type = match element_type {
            Some(t) => t,
            None => {
                return Err(BuilderError::MissingValue("element_type"));
            },
        };
        let len = match len {
            Some(n) => n,
            None => {
                return Err(BuilderError::MissingValue("len"));
            },
        };
        let kind = TypeKind::Array(Array::assemble(element_type, len));
        proof {
            kind.lemma_wf();
        }
        Ok(builder.with_kind(kind))
    }

    /// Commits the array kind; callers must have set both the element type
    /// and the length.
    pub fn finish(self) -> (r: TypeBuilder)
        requires
            self.spec_element_type() is Some,
            self.spec_len() is Some,
        ensures
            self.spec_element_type() matches Some(element_type) && r.spec_kind() matches Some(
                TypeKind::Array(a),
            ) && a.spec_element_type() == element_type && a.spec_len() == self.spec_len()->0,
            r.spec_name() == self.spec_builder().spec_name(),
            self.wf() ==> r.wf(),
    {
        match self.try_finish() {
            Ok(b) => b,
            Err(_) => unreached(),
        }
    }
}

/// Builder for creating integer types, signed or unsigned.
#[derive(Debug)]
pub struct IntBuilder {
    builder: TypeBuilder,
    bits: Option<u16>,
    signed: bool,
}

impl IntBuilder {
    /// The owned top-level builder.
    pub closed spec fn spec_builder(&self) -> TypeBuilder {
        self.builder
    }

    /// The width in bits, if it has been set.
    pub closed spec fn spec_bits(&self) -> Option<u16> {
        self.bits
    }

    /// Whether the integer type under construction is signed.
    pub closed spec fn spec_signed(&self) -> bool {
        self.signed
    }

    /// The width, if set, is positive and at most 4096.
    pub open spec fn wf(&self) -> bool {
        self.spec_bits() matches Some(b) ==> 0 < b <= 4096
    }

    /// Creates an integer sub-builder owning `builder`; `signed` selects
    /// between a signed and an unsigned integer type.
    pub fn new(builder: TypeBuilder, signed: bool) -> (r: Self)
        ensures
            r.spec_builder() == builder,
            r.spec_bits() is None,
            r.spec_signed() == signed,
    {
        Self { builder, bits: None, signed }
    }

    /// Sets the width of the integer type in bits.
    ///
    /// The width is a caller contract: it must be positive and at most 4096,
    /// the largest hardware-addressable width in this model.
    pub fn set_bits(self, bits: u16) -> (r: Self)
        requires
            0 < bits <= 4096,
        ensures
            r.spec_builder() == self.spec_builder(),
            r.spec_bits() == Some(bits),
            r.spec_signed() == self.spec_signed(),
    {
        Self { builder: self.builder, bits: Some(bits), signed: self.signed }
    }

    /// Commits the integer kind and returns the top-level builder.
    ///
    /// Requires the width to have been set; reports it as
    /// [`BuilderError::MissingValue`] otherwise.
    pub fn try_finish(self) -> (r: Result<TypeBuilder, BuilderError>)
        ensures
            match r {
                Ok(b) => self.spec_bits() matches Some(bits) && b.spec_name()
                    == self.spec_builder().spec_name() && (self.spec_signed()
                    ==> (b.spec_kind() matches Some(TypeKind::Int(t)) && t.spec_bits() == bits))
                    && (!self.spec_signed() ==> (b.spec_kind() matches Some(TypeKind::UInt(t))
                    && t.spec_bits() == bits)) && (self.wf() ==> b.wf()),
                Err(e) => self.spec_bits() is None && e.is_missing("bits"@),
            },
    {
        let IntBuilder { builder, bits, signed } = self;
        let bits = match bits {
            Some(b) => b,
            None => {
                return Err(BuilderError::MissingValue("bits"));
            },
        };
        let int_type = IntType::from_bits(bits);
        let kind = if signed {
            TypeKind::Int(int_type)
        } else {
            TypeKind::UInt(int_type)
        };
        proof {
            kind.lemma_wf();
        }
        Ok(builder.with_kind(kind))
    }

    /// Commits the integer kind; callers must have set the width.
    pub fn finish(self) -> (r: TypeBuilder)
        requires
            self.spec_bits() is Some,
        ensures
            self.spec_bits() matches Some(bits) && (self.spec_signed()
                ==> (r.spec_kind() matches Some(TypeKind::Int(t)) && t.spec_bits() == bits)) && (
            !self.spec_signed() ==> (r.spec_kind() matches Some(TypeKind::UInt(t)) && t.spec_bits()
                == bits)),
            r.spec_name() == self.spec_builder().spec_name(),
            self.wf() ==> r.wf(),
    {
        match self.try_finish() {
            Ok(b) => b,
            Err(_) => unreached(),
        }
    }
}

/// Builder for creating function types.
#[derive(Debug)]
pub struct FunctionBuilder {
    builder: TypeBuilder,
    parameters: Vec<Parameter>,
    return_type: Option<Type>,
    body: Option<String>,
}

impl FunctionBuilder {
    /// The owned top-level builder.
    pub closed spec fn spec_builder(&self) -> TypeBuilder {
        self.builder
    }

    /// The parameters accumulated so far, in insertion order.
    pub closed spec fn spec_parameters(&self) -> Seq<Parameter> {
        self.parameters@
    }

    /// The return type, if it has been set.
    pub closed spec fn spec_return_type(&self) -> Option<Type> {
        self.return_type
    }

    /// The body text, if it has been set.
    pub closed spec fn spec_body(&self) -> Option<Seq<char>> {
        self.body.deep_view()
    }

    /// Every accumulated parameter, and the return type if set, carries a
    /// well-formed type.
    pub open spec fn wf(&self) -> bool {
        parameters_wf(self.spec_parameters()) && (self.spec_return_type() matches Some(t)
            ==> t.wf())
    }

    /// Creates a function sub-builder owning `builder`, with no parameters,
    /// no return type and no body.
    pub fn new(builder: TypeBuilder) -> (r: Self)
        ensures
            r.spec_builder() == builder,
            r.spec_parameters() == Seq::<Parameter>::empty(),
            r.spec_return_type() is None,
            r.spec_body() is None,
    {
        Self { builder, parameters: Vec::new(), return_type: None, body: None }
    }

    /// Adds a parameter to the function; parameter names need not be
    /// distinct, so duplicates are accepted.
    pub fn add_parameter(self, param: Parameter) -> (r: Self)
        ensures
            r.spec_builder() == self.spec_builder(),
            r.spec_parameters() == self.spec_parameters().push(param),
            r.spec_return_type() == self.spec_return_type(),
            r.spec_body() == self.spec_body(),
            self.wf() && param.wf() ==> r.wf(),
    {
        let ghost added = param;
        let ghost before = self.parameters@;
        let mut parameters = self.parameters;
        parameters.push(param);
        proof {
            let after = parameters@;
            if parameters_wf(before) && added.wf() {
                assert forall|i: int| 0 <= i < after.len() implies (#[trigger] after[i]).wf() by {
                    if i < before.len() {
                        assert(after[i] == before[i]);
                    } else {
                        assert(after[i] == added);
                    }
                }
            }
        }
        Self {
            builder: self.builder,
            parameters,
            return_type: self.return_type,
            body: self.body,
        }
    }

    /// Sets the return type of the function.
    pub fn set_return_type(self, return_type: Type) -> (r: Self)
        ensures
            r.spec_builder() == self.spec_builder(),
            r.spec_parameters() == self.spec_parameters(),
            r.spec_return_type() == Some(return_type),
            r.spec_body() == self.spec_body(),
    {
        Self {
            builder: self.builder,
            parameters: self.parameters,
            return_type: Some(return_type),
            body: self.body,
        }
    }

    /// Sets the free-form body text of the function.
    pub fn set_body(self, body: String) -> (r: Self)
        ensures
            r.spec_builder() == self.spec_builder(),
            r.spec_parameters() == self.spec_parameters(),
            r.spec_return_type() == self.spec_return_type(),
            r.spec_body() == Some(body@),
    {
        Self {
            builder: self.builder,
            parameters: self.parameters,
            return_type: self.return_type,
            body: Some(body),
        }
    }

    /// Commits the function kind and returns the top-level builder.
    ///
    /// Requires the return type to have been set; reports it as
    /// [`BuilderError::MissingValue`] otherwise.
    pub fn try_finish(self) -> (r: Result<TypeBuilder, BuilderError>)
        ensures
            match r {
                Ok(b) => self.spec_return_type() matches Some(return_type)
                    && b.spec_kind() matches Some(TypeKind::Function(f)) && f.spec_parameters()
                    == self.spec_parameters() && f.spec_return_type() == return_type
                    && f.spec_body() == self.spec_body() && b.spec_name()
                    == self.spec_builder().spec_name() && (self.wf() ==> b.wf()),
                Err(e) => self.spec_return_type() is None && e.is_missing("return_type"@),
            },
    {
        let FunctionBuilder { builder, parameters, return_type, body } = self;
        let return_type = match return_type {
            Some(t) => t,
            None => {
                return Err(BuilderError::MissingValue("return_type"));
            },
        };
        let kind = TypeKind::Function(Function::assemble(parameters, return_type, body));
        proof {
            kind.lemma_wf();
        }
        Ok(builder.with_kind(kind))
    }

    /// Commits the function kind; callers must have set the return type.
    pub fn finish(self) -> (r: TypeBuilder)
        requires
            self.spec_return_type() is Some,
        ensures
            self.spec_return_type() matches Some(return_type) && r.spec_kind() matches Some(
                TypeKind::Function(f),
            ) && f.spec_parameters() == self.spec_parameters() && f.spec_return_type()
                == return_type && f.spec_body() == self.spec_body(),
            r.spec_name() == self.spec_builder().spec_name(),
            self.wf() ==> r.wf(),
    {
        match self.try_finish() {
            Ok(b) => b,
            Err(_) => unreached(),
        }
    }
}

} // verus!
