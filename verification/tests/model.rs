use std::cell::Cell;
use std::cell::RefCell;

use typemodel::Array;
use typemodel::Enum;
use typemodel::Field;
use typemodel::Function;
use typemodel::IntType;
use typemodel::Parameter;
use typemodel::Struct;
use typemodel::Type;
use typemodel::Variant;
use typemodel::Visitor;

/// Records which handler ran and everything the payload accessors report,
/// reading each accessor twice to observe that repeated reads agree.
#[derive(Default)]
struct Probe {
    visited: RefCell<Vec<&'static str>>,
    bits: Cell<Option<u16>>,
    variant_names: RefCell<Vec<String>>,
    field_names: RefCell<Vec<Option<String>>>,
    field_type_names: RefCell<Vec<Option<String>>>,
    array_len: Cell<Option<usize>>,
    element_type_name: RefCell<Option<String>>,
    parameter_names: RefCell<Vec<String>>,
    return_type_name: RefCell<Option<String>>,
    body: RefCell<Option<Option<String>>>,
}

impl Visitor for Probe {
    fn visit_enum(&self, enumeration: &Enum) {
        self.visited.borrow_mut().push("enum");
        assert_eq!(enumeration.variants().len(), enumeration.variants().len());
        for v in enumeration.variants() {
            assert_eq!(v.name(), v.name());
            self.variant_names.borrow_mut().push(v.name().to_string());
        }
    }

    fn visit_struct(&self, structure: &Struct) {
        self.visited.borrow_mut().push("struct");
        assert_eq!(structure.fields().len(), structure.fields().len());
        for f in structure.fields() {
            assert_eq!(f.name(), f.name());
            self.field_names.borrow_mut().push(f.name().map(str::to_string));
            self.field_type_names
                .borrow_mut()
                .push(f.field_type().name().map(str::to_string));
        }
    }

    fn visit_int(&self, int_type: &IntType) {
        self.visited.borrow_mut().push("int");
        assert_eq!(int_type.bits(), int_type.bits());
        self.bits.set(Some(int_type.bits()));
    }

    fn visit_uint(&self, int_type: &IntType) {
        self.visited.borrow_mut().push("uint");
        assert_eq!(int_type.bits(), int_type.bits());
        self.bits.set(Some(int_type.bits()));
    }

    fn visit_array(&self, array: &Array) {
        self.visited.borrow_mut().push("array");
        assert_eq!(array.len(), array.len());
        self.array_len.set(Some(array.len()));
        *self.element_type_name.borrow_mut() =
            array.element_type().name().map(str::to_string);
    }

    fn visit_function(&self, function: &Function) {
        self.visited.borrow_mut().push("function");
        assert_eq!(function.parameters().len(), function.parameters().len());
        for p in function.parameters() {
            assert_eq!(p.name(), p.name());
            self.parameter_names.borrow_mut().push(p.name().to_string());
        }
        *self.return_type_name.borrow_mut() =
            function.return_type().name().map(str::to_string);
        assert_eq!(function.body(), function.body());
        *self.body.borrow_mut() = Some(function.body().map(str::to_string));
    }
}

#[test]
fn struct_round_trip_dispatches_to_visit_struct_only() {
    let int8 = Type::builder("int8".to_string())
        .integer()
        .set_bits(8)
        .finish()
        .build();
    let uint16 = Type::builder("uint16".to_string())
        .uint()
        .set_bits(16)
        .finish()
        .build();

    let b = Type::builder("pair".to_string());
    let mut sb = b.structure();
    sb.add_field(Field::new(Some("a".to_string()), int8)).unwrap();
    sb.add_field(Field::new(Some("b".to_string()), uint16)).unwrap();
    let t = sb.finish().build();

    assert_eq!(t.name(), Some("pair"));
    let probe = Probe::default();
    t.visit(&probe);
    assert_eq!(*probe.visited.borrow(), vec!["struct"]);
    let names = probe.field_names.borrow();
    assert_eq!(names.len(), 2);
    assert_eq!(names[0].as_deref(), Some("a"));
    assert_eq!(names[1].as_deref(), Some("b"));
    let type_names = probe.field_type_names.borrow();
    assert_eq!(type_names[0].as_deref(), Some("int8"));
    assert_eq!(type_names[1].as_deref(), Some("uint16"));
}

#[test]
fn function_round_trip_reports_parameters_return_type_and_no_body() {
    let int32 = Type::builder("int32".to_string())
        .integer()
        .set_bits(32)
        .finish()
        .build();
    let uint8 = Type::builder("uint8".to_string())
        .uint()
        .set_bits(8)
        .finish()
        .build();

    let t = Type::builder("f".to_string())
        .function()
        .add_parameter(Parameter::new("x".to_string(), int32))
        .set_return_type(uint8)
        .finish()
        .build();

    let probe = Probe::default();
    t.visit(&probe);
    assert_eq!(*probe.visited.borrow(), vec!["function"]);
    assert_eq!(*probe.parameter_names.borrow(), vec!["x".to_string()]);
    assert_eq!(probe.return_type_name.borrow().as_deref(), Some("uint8"));
    assert_eq!(*probe.body.borrow(), Some(None));
}

#[test]
fn function_body_text_is_kept_verbatim() {
    let uint8 = Type::builder("uint8".to_string())
        .uint()
        .set_bits(8)
        .finish()
        .build();
    let t = Type::builder("g".to_string())
        .function()
        .set_return_type(uint8)
        .set_body("return 0;".to_string())
        .finish()
        .build();
    let probe = Probe::default();
    t.visit(&probe);
    assert_eq!(*probe.visited.borrow(), vec!["function"]);
    assert_eq!(*probe.body.borrow(), Some(Some("return 0;".to_string())));
}

#[test]
fn enum_round_trip_keeps_variant_order() {
    let b = Type::builder("light".to_string());
    let mut eb = b.enumeration();
    eb.add_variant(Variant::new("red".to_string())).unwrap();
    eb.add_variant(Variant::new("yellow".to_string())).unwrap();
    eb.add_variant(Variant::new("green".to_string())).unwrap();
    let t = eb.finish().build();

    let probe = Probe::default();
    t.visit(&probe);
    assert_eq!(*probe.visited.borrow(), vec!["enum"]);
    assert_eq!(
        *probe.variant_names.borrow(),
        vec!["red".to_string(), "yellow".to_string(), "green".to_string()]
    );
}

#[test]
fn enum_duplicate_leaves_accumulated_variants_unchanged() {
    let b = Type::builder("color".to_string());
    let mut eb = b.enumeration();
    eb.add_variant(Variant::new("red".to_string())).unwrap();
    eb.add_variant(Variant::new("red".to_string())).unwrap_err();
    let t = eb.finish().build();
    let probe = Probe::default();
    t.visit(&probe);
    assert_eq!(*probe.variant_names.borrow(), vec!["red".to_string()]);
}

#[test]
fn struct_duplicate_leaves_accumulated_fields_unchanged() {
    let mk = |n: &str| {
        Type::builder(n.to_string())
            .uint()
            .set_bits(8)
            .finish()
            .build()
    };
    let b = Type::builder("s".to_string());
    let mut sb = b.structure();
    sb.add_field(Field::new(Some("a".to_string()), mk("u8"))).unwrap();
    sb.add_field(Field::new(Some("a".to_string()), mk("u8"))).unwrap_err();
    let t = sb.finish().build();
    let probe = Probe::default();
    t.visit(&probe);
    assert_eq!(probe.field_names.borrow().len(), 1);
}

#[test]
fn unnamed_struct_fields_never_conflict() {
    let mk = |n: &str| {
        Type::builder(n.to_string())
            .uint()
            .set_bits(16)
            .finish()
            .build()
    };
    let b = Type::builder("anon".to_string());
    let mut sb = b.structure();
    sb.add_field(Field::new(None, mk("uint16"))).unwrap();
    sb.add_field(Field::new(None, mk("uint16"))).unwrap();
    let t = sb.finish().build();
    let probe = Probe::default();
    t.visit(&probe);
    assert_eq!(*probe.field_names.borrow(), vec![None, None]);
}

#[test]
fn array_round_trip_reports_element_type_and_len() {
    let elem = Type::builder("uint8".to_string())
        .uint()
        .set_bits(8)
        .finish()
        .build();
    let t = Type::builder("block".to_string())
        .array()
        .set_element_type(elem)
        .len(512)
        .finish()
        .build();
    let probe = Probe::default();
    t.visit(&probe);
    assert_eq!(*probe.visited.borrow(), vec!["array"]);
    assert_eq!(probe.array_len.get(), Some(512));
    assert_eq!(probe.element_type_name.borrow().as_deref(), Some("uint8"));
}

#[test]
fn zero_length_array_is_permitted() {
    let elem = Type::builder("uint8".to_string())
        .uint()
        .set_bits(8)
        .finish()
        .build();
    let t = Type::builder("empty".to_string())
        .array()
        .set_element_type(elem)
        .len(0)
        .finish()
        .build();
    let probe = Probe::default();
    t.visit(&probe);
    assert_eq!(probe.array_len.get(), Some(0));
}

#[test]
fn int_width_bounds_are_kept() {
    let wide = Type::builder("wide".to_string())
        .uint()
        .set_bits(4096)
        .finish()
        .build();
    let probe = Probe::default();
    wide.visit(&probe);
    assert_eq!(*probe.visited.borrow(), vec!["uint"]);
    assert_eq!(probe.bits.get(), Some(4096));

    let bit = Type::builder("bit".to_string())
        .integer()
        .set_bits(1)
        .finish()
        .build();
    let probe = Probe::default();
    bit.visit(&probe);
    assert_eq!(*probe.visited.borrow(), vec!["int"]);
    assert_eq!(probe.bits.get(), Some(1));
}

#[test]
fn last_committed_kind_wins() {
    let b = Type::builder("twice".to_string())
        .enumeration()
        .finish()
        .uint()
        .set_bits(8)
        .finish();
    let t = b.build();
    let probe = Probe::default();
    t.visit(&probe);
    assert_eq!(*probe.visited.borrow(), vec!["uint"]);
    assert_eq!(probe.bits.get(), Some(8));
}

#[test]
fn type_name_reads_are_stable() {
    let t = Type::builder("stable".to_string())
        .uint()
        .set_bits(8)
        .finish()
        .build();
    assert_eq!(t.name(), t.name());
    assert_eq!(t.name(), Some("stable"));
    // Visiting twice dispatches the same way both times.
    let probe = Probe::default();
    t.visit(&probe);
    t.visit(&probe);
    assert_eq!(*probe.visited.borrow(), vec!["uint", "uint"]);
}
