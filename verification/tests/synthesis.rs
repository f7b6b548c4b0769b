use specified_default::decl::Annotation;
use specified_default::decl::AnnotationValue;
use specified_default::decl::Field;
use specified_default::decl::Shape;
use specified_default::decl::TypeDeclaration;
use specified_default::decl::Variant;
use specified_default::synth::synthesize;
use specified_default::synth::SynthesisError;

fn override_annotation(literal: &str) -> Annotation {
    Annotation { name: "default".to_string(), value: AnnotationValue::Text(literal.to_string()) }
}

fn marker_annotation() -> Annotation {
    Annotation { name: "default".to_string(), value: AnnotationValue::Marker }
}

fn field(ident: &str, annotations: Vec<Annotation>) -> Field {
    Field { ident: ident.to_string(), annotations }
}

fn variant(ident: &str, annotations: Vec<Annotation>) -> Variant {
    Variant { ident: ident.to_string(), annotations }
}

fn record(ident: &str, fields: Vec<Field>) -> TypeDeclaration {
    TypeDeclaration { ident: ident.to_string(), shape: Shape::Record(fields) }
}

fn choice(ident: &str, variants: Vec<Variant>) -> TypeDeclaration {
    TypeDeclaration { ident: ident.to_string(), shape: Shape::Choice(variants) }
}

struct MyStruct {
    width: u32,
    height: u32,
    scenes: u32,
}

impl Default for MyStruct {
    fn default() -> MyStruct {
        MyStruct {
            width: "640".parse().expect("Failed to parse 640 for field width"),
            height: "480".parse().expect("Failed to parse 480 for field height"),
            scenes: Default::default(),
        }
    }
}

#[derive(Debug, PartialEq)]
enum MyEnum {
    Foo,
    Bar,
}

impl Default for MyEnum {
    fn default() -> MyEnum {
        MyEnum::Bar
    }
}

#[test]
fn record_override_fields_parse_literal() {
    let d = record(
        "MyStruct",
        vec![
            field("width", vec![override_annotation("640")]),
            field("height", vec![override_annotation("480")]),
            field("scenes", vec![]),
        ],
    );
    let out = synthesize(&d).unwrap();
    let expected = "impl Default for MyStruct {\n    fn default() -> MyStruct {\n        MyStruct {\n            width: \"640\".parse().expect(\"Failed to parse 640 for field width\"),\n            height: \"480\".parse().expect(\"Failed to parse 480 for field height\"),\n            scenes: Default::default(),\n        }\n    }\n}\n";
    assert_eq!(out.as_str(), expected);
    // The emitted implementation, compiled, behaves as stated.
    let built = MyStruct::default();
    assert_eq!(built.width, 640);
    assert_eq!(built.height, 480);
    assert_eq!(built.scenes, 0);
}

#[test]
fn record_unannotated_fields_use_element_default() {
    let d = record("Plain", vec![field("scenes", vec![])]);
    let out = synthesize(&d).unwrap();
    let expected = "impl Default for Plain {\n    fn default() -> Plain {\n        Plain {\n            scenes: Default::default(),\n        }\n    }\n}\n";
    assert_eq!(out.as_str(), expected);
}

#[test]
fn record_field_independence() {
    let with_override = record(
        "Pair",
        vec![field("width", vec![override_annotation("640")]), field("height", vec![])],
    );
    let without_override =
        record("Pair", vec![field("width", vec![]), field("height", vec![])]);
    let a = synthesize(&with_override).unwrap();
    let b = synthesize(&without_override).unwrap();
    // Overriding `width` leaves `height`'s line untouched.
    let height_line = "            height: Default::default(),\n";
    assert!(a.contains(height_line));
    assert!(b.contains(height_line));
    assert!(a.contains("width: \"640\".parse()"));
    assert!(b.contains("            width: Default::default(),\n"));
}

#[test]
fn choice_selects_marked_variant() {
    let d = choice("MyEnum", vec![variant("Foo", vec![]), variant("Bar", vec![marker_annotation()])]);
    let out = synthesize(&d).unwrap();
    let expected =
        "impl Default for MyEnum {\n    fn default() -> MyEnum {\n        MyEnum::Bar\n    }\n}\n";
    assert_eq!(out.as_str(), expected);
    assert!(!out.contains("Foo"));
    // The emitted implementation, compiled, behaves as stated.
    assert_eq!(MyEnum::default(), MyEnum::Bar);
}

#[test]
fn choice_zero_marked_fails_missing() {
    let d = choice("MyEnum", vec![variant("Foo", vec![]), variant("Bar", vec![])]);
    assert_eq!(synthesize(&d), Err(SynthesisError::MissingDefaultVariant));
}

#[test]
fn choice_two_marked_fails_ambiguous() {
    let d = choice(
        "MyEnum",
        vec![variant("Foo", vec![marker_annotation()]), variant("Bar", vec![marker_annotation()])],
    );
    assert_eq!(synthesize(&d), Err(SynthesisError::AmbiguousDefaultVariant));
}

#[test]
fn variant_marked_by_valued_annotation_counts() {
    let d = choice(
        "MyEnum",
        vec![variant("Foo", vec![]), variant("Bar", vec![override_annotation("1")])],
    );
    let out = synthesize(&d).unwrap();
    assert!(out.contains("MyEnum::Bar"));
}

#[test]
fn name_only_annotation_rejected() {
    let d = record("MyStruct", vec![field("width", vec![marker_annotation()])]);
    assert_eq!(
        synthesize(&d),
        Err(SynthesisError::MalformedAnnotation("width".to_string())),
    );
}

#[test]
fn non_string_value_rejected() {
    let d = record(
        "MyStruct",
        vec![
            field("width", vec![override_annotation("640")]),
            field(
                "height",
                vec![Annotation {
                    name: "default".to_string(),
                    value: AnnotationValue::Other,
                }],
            ),
        ],
    );
    assert_eq!(
        synthesize(&d),
        Err(SynthesisError::MalformedAnnotation("height".to_string())),
    );
}

#[test]
fn unsupported_shape_rejected() {
    let d = TypeDeclaration { ident: "Tuple".to_string(), shape: Shape::Unsupported };
    assert_eq!(synthesize(&d), Err(SynthesisError::UnsupportedShape));
}

#[test]
fn synthesis_is_deterministic() {
    let make = || {
        record(
            "MyStruct",
            vec![field("width", vec![override_annotation("640")]), field("scenes", vec![])],
        )
    };
    let a = synthesize(&make()).unwrap();
    let b = synthesize(&make()).unwrap();
    assert_eq!(a, b);
}

#[test]
fn escaped_literal_embedded() {
    let d = record("Greeting", vec![field("text", vec![override_annotation("say \"hi\\\"")])]);
    let out = synthesize(&d).unwrap();
    let expected = "impl Default for Greeting {\n    fn default() -> Greeting {\n        Greeting {\n            text: \"say \\\"hi\\\\\\\"\".parse().expect(\"Failed to parse say \\\"hi\\\\\\\" for field text\"),\n        }\n    }\n}\n";
    assert_eq!(out.as_str(), expected);
}

#[test]
fn annotation_with_other_name_is_ignored() {
    let d = record(
        "MyStruct",
        vec![field(
            "width",
            vec![Annotation { name: "doc".to_string(), value: AnnotationValue::Marker }],
        )],
    );
    let out = synthesize(&d).unwrap();
    assert!(out.contains("            width: Default::default(),\n"));
}

#[test]
fn first_default_annotation_wins() {
    let d = record(
        "MyStruct",
        vec![field("width", vec![override_annotation("640"), marker_annotation()])],
    );
    let out = synthesize(&d).unwrap();
    assert!(out.contains("width: \"640\".parse()"));
}

#[test]
fn record_with_no_fields_rejected() {
    let d = record("Empty", vec![]);
    assert_eq!(synthesize(&d), Err(SynthesisError::UnsupportedShape));
}

#[test]
fn carriage_return_literal_escaped() {
    let d = record("Cr", vec![field("text", vec![override_annotation("a\rb")])]);
    let out = synthesize(&d).unwrap();
    let expected = "impl Default for Cr {\n    fn default() -> Cr {\n        Cr {\n            text: \"a\\rb\".parse().expect(\"Failed to parse a\\rb for field text\"),\n        }\n    }\n}\n";
    assert_eq!(out.as_str(), expected);
    // The escaped form denotes the original literal when Rust reads it back.
    assert_eq!("a\rb", "a\u{d}b");
}

#[test]
fn variant_with_other_annotation_not_marked() {
    let d = choice(
        "MyEnum",
        vec![variant(
            "Foo",
            vec![Annotation { name: "doc".to_string(), value: AnnotationValue::Marker }],
        )],
    );
    assert_eq!(synthesize(&d), Err(SynthesisError::MissingDefaultVariant));
}

#[test]
fn unicode_literal_passes_through() {
    let d = record("Title", vec![field("text", vec![override_annotation("h\u{e9}llo \u{2192}")])]);
    let out = synthesize(&d).unwrap();
    assert!(out.contains("\"h\u{e9}llo \u{2192}\".parse()"));
}

#[test]
fn rejection_messages_identify_the_fault() {
    assert_eq!(
        SynthesisError::MalformedAnnotation("width".to_string()).message(),
        "the default annotation on field width must assign a string literal",
    );
    assert_eq!(
        SynthesisError::UnsupportedShape.message(),
        "only records with named fields and choices of variants are supported",
    );
    assert_eq!(
        SynthesisError::MissingDefaultVariant.message(),
        "no variant is marked as the default",
    );
    assert_eq!(
        SynthesisError::AmbiguousDefaultVariant.message(),
        "more than one variant is marked as the default",
    );
}
