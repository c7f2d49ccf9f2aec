use typemodel::BuilderError;
use typemodel::Field;
use typemodel::Parameter;
use typemodel::Type;
use typemodel::Variant;

#[test]
fn built_type_carries_builder_name() {
    let t = Type::builder("color".to_string())
        .enumeration()
        .finish()
        .build();
    assert_eq!(t.name(), Some("color"));

    let t = Type::builder("byte".to_string())
        .uint()
        .set_bits(8)
        .finish()
        .build();
    assert_eq!(t.name(), Some("byte"));

    let t = Type::builder("empty".to_string())
        .structure()
        .finish()
        .try_build()
        .unwrap();
    assert_eq!(t.name(), Some("empty"));
}

#[test]
fn enum_duplicate_variant_is_rejected() {
    let b = Type::builder("color".to_string());
    let mut eb = b.enumeration();
    eb.add_variant(Variant::new("red".to_string())).unwrap();
    let err = eb
        .add_variant(Variant::new("red".to_string()))
        .unwrap_err();
    assert_eq!(err, BuilderError::DuplicateValue("variant"));
    // The accumulated set is unchanged: a different name still goes in.
    eb.add_variant(Variant::new("green".to_string())).unwrap();
    let t = eb.finish().build();
    assert_eq!(t.name(), Some("color"));
}

#[test]
fn struct_duplicate_field_is_rejected() {
    let i8t = Type::builder("int8".to_string())
        .integer()
        .set_bits(8)
        .finish()
        .build();
    let i8t2 = Type::builder("int8".to_string())
        .integer()
        .set_bits(8)
        .finish()
        .build();
    let b = Type::builder("pair".to_string());
    let mut sb = b.structure();
    sb.add_field(Field::new(Some("a".to_string()), i8t)).unwrap();
    let err = sb
        .add_field(Field::new(Some("a".to_string()), i8t2))
        .unwrap_err();
    assert_eq!(err, BuilderError::DuplicateValue("field"));
}

#[test]
fn array_missing_len_is_reported() {
    let elem = Type::builder("int8".to_string())
        .integer()
        .set_bits(8)
        .finish()
        .build();
    let err = Type::builder("block".to_string())
        .array()
        .set_element_type(elem)
        .try_finish()
        .unwrap_err();
    assert_eq!(err, BuilderError::MissingValue("len"));
}

#[test]
fn array_missing_element_type_is_reported() {
    let err = Type::builder("block".to_string())
        .array()
        .len(16)
        .try_finish()
        .unwrap_err();
    assert_eq!(err, BuilderError::MissingValue("element_type"));
}

#[test]
fn array_missing_both_reports_element_type_first() {
    let err = Type::builder("block".to_string())
        .array()
        .try_finish()
        .unwrap_err();
    assert_eq!(err, BuilderError::MissingValue("element_type"));
}

#[test]
fn int_missing_bits_is_reported() {
    let err = Type::builder("n".to_string())
        .integer()
        .try_finish()
        .unwrap_err();
    assert_eq!(err, BuilderError::MissingValue("bits"));
}

#[test]
fn uint_missing_bits_is_reported() {
    let err = Type::builder("n".to_string())
        .uint()
        .try_finish()
        .unwrap_err();
    assert_eq!(err, BuilderError::MissingValue("bits"));
}

#[test]
fn no_kind_selected_fails_try_build() {
    let err = Type::builder("nothing".to_string()).try_build().unwrap_err();
    assert_eq!(err, BuilderError::NoKind);
}

#[test]
fn function_missing_return_type_is_reported() {
    let i32t = Type::builder("int32".to_string())
        .integer()
        .set_bits(32)
        .finish()
        .build();
    let err = Type::builder("f".to_string())
        .function()
        .add_parameter(Parameter::new("x".to_string(), i32t))
        .try_finish()
        .unwrap_err();
    assert_eq!(err, BuilderError::MissingValue("return_type"));
}

#[test]
fn variant_and_field_and_parameter_accessors() {
    let v = Variant::new("on".to_string());
    assert_eq!(v.name(), "on");

    let u8t = Type::builder("uint8".to_string())
        .uint()
        .set_bits(8)
        .finish()
        .build();
    let f = Field::new(Some("flags".to_string()), u8t);
    assert_eq!(f.name(), Some("flags"));
    assert_eq!(f.field_type().name(), Some("uint8"));

    let i64t = Type::builder("int64".to_string())
        .integer()
        .set_bits(64)
        .finish()
        .build();
    let p = Parameter::new("count".to_string(), i64t);
    assert_eq!(p.name(), "count");
    assert_eq!(p.parameter_type().name(), Some("int64"));

    let unnamed = Field::new(
        None::<String>,
        Type::builder("pad".to_string()).uint().set_bits(1).finish().build(),
    );
    assert_eq!(unnamed.name(), None);
}
