//! The structural description of one type declaration: its name, its shape
//! (a record of named fields or a choice of variants), and the annotations
//! attached to each field or variant.

use vstd::prelude::*;

verus! {

/// The value part of one attached annotation, as it appears in source.
#[derive(Clone, Debug, PartialEq, Eq)]
pub enum AnnotationValue {
    /// Name-only, as in `#[default]`.
    Marker,
    /// A string-literal assignment, as in `#[default = "640"]`.
    Text(String),
    /// Any other form: a non-string literal, a list, and so on.
    Other,
}

/// One annotation attached to a field or a variant.
#[derive(Clone, Debug, PartialEq, Eq)]
pub struct Annotation {
    /// The annotation's name (the synthesizer only reacts to `default`).
    pub name: String,
    /// The annotation's value part.
    pub value: AnnotationValue,
}

/// One named field of a record, with its attached annotations in source
/// order. The field's element type is never inspected and so not recorded.
#[derive(Clone, Debug, PartialEq, Eq)]
pub struct Field {
    pub ident: String,
    pub annotations: Vec<Annotation>,
}

/// One variant of a choice, with its attached annotations in source order.
///
/// A variant's payload, if it has one, is not represented: variants are
/// treated as bare tags, the synthesized implementation references the tag
/// alone, and a payload-bearing variant marked as the default is left for
/// the surrounding compiler to reject when it compiles the emitted text.
#[derive(Clone, Debug, PartialEq, Eq)]
pub struct Variant {
    pub ident: String,
    pub annotations: Vec<Annotation>,
}

/// The shape of a declaration. Anything but a record with named fields or a
/// choice of variants is unsupported; a record must have at least one field,
/// and synthesis rejects one without any as an unsupported shape too.
#[derive(Clone, Debug, PartialEq, Eq)]
pub enum Shape {
    Record(Vec<Field>),
    Choice(Vec<Variant>),
    Unsupported,
}

/// One type declaration, the synthesizer's whole input.
#[derive(Clone, Debug, PartialEq, Eq)]
pub struct TypeDeclaration {
    pub ident: String,
    pub shape: Shape,
}

/// Mathematical model of an annotation's value part.
pub enum SpecAnnotationValue {
    Marker,
    Text(Seq<char>),
    Other,
}

/// Mathematical model of an annotation.
pub struct SpecAnnotation {
    pub name: Seq<char>,
    pub value: SpecAnnotationValue,
}

/// Mathematical model of a field.
pub struct SpecField {
    pub ident: Seq<char>,
    pub annotations: Seq<SpecAnnotation>,
}

/// Mathematical model of a variant.
pub struct SpecVariant {
    pub ident: Seq<char>,
    pub annotations: Seq<SpecAnnotation>,
}

/// Mathematical model of a shape.
pub enum SpecShape {
    Record(Seq<SpecField>),
    Choice(Seq<SpecVariant>),
    Unsupported,
}

/// Mathematical model of a declaration.
pub struct SpecTypeDeclaration {
    pub ident: Seq<char>,
    pub shape: SpecShape,
}

impl View for AnnotationValue {
    type V = SpecAnnotationValue;

    open spec fn view(&self) -> SpecAnnotationValue {
        match self {
            AnnotationValue::Marker => SpecAnnotationValue::Marker,
            AnnotationValue::Text(lit) => SpecAnnotationValue::Text(lit@),
            AnnotationValue::Other => SpecAnnotationValue::Other,
        }
    }
}

impl View for Annotation {
    type V = SpecAnnotation;

    open spec fn view(&self) -> SpecAnnotation {
        SpecAnnotation { name: self.name@, value: self.value@ }
    }
}

/// The models of a list of annotations, in order.
pub open spec fn annotations_view(anns: Seq<Annotation>) -> Seq<SpecAnnotation> {
    anns.map_values(|a: Annotation| a@)
}

impl View for Field {
    type V = SpecField;

    open spec fn view(&self) -> SpecField {
        SpecField { ident: self.ident@, annotations: annotations_view(self.annotations@) }
    }
}

impl View for Variant {
    type V = SpecVariant;

    open spec fn view(&self) -> SpecVariant {
        SpecVariant { ident: self.ident@, annotations: annotations_view(self.annotations@) }
    }
}

/// The models of a list of fields, in order.
pub open spec fn fields_view(fs: Seq<Field>) -> Seq<SpecField> {
    fs.map_values(|f: Field| f@)
}

/// The models of a list of variants, in order.
pub open spec fn variants_view(vs: Seq<Variant>) -> Seq<SpecVariant> {
    vs.map_values(|v: Variant| v@)
}

impl View for Shape {
    type V = SpecShape;

    open spec fn view(&self) -> SpecShape {
        match self {
            Shape::Record(fields) => SpecShape::Record(fields_view(fields@)),
            Shape::Choice(variants) => SpecShape::Choice(variants_view(variants@)),
            Shape::Unsupported => SpecShape::Unsupported,
        }
    }
}

impl View for TypeDeclaration {
    type V = SpecTypeDeclaration;

    open spec fn view(&self) -> SpecTypeDeclaration {
        SpecTypeDeclaration { ident: self.ident@, shape: self.shape@ }
    }
}

/// Whether an annotation is the one the synthesizer reacts to.
pub open spec fn is_default_annotation(a: SpecAnnotation) -> bool {
    a.name == "default"@
}

/// The first annotation named `default` in the list, if any. Later
/// annotations of the same name are ignored.
pub open spec fn find_default_annotation(anns: Seq<SpecAnnotation>) -> Option<SpecAnnotation>
    decreases anns.len(),
{
    if anns.len() == 0 {
        None
    } else if is_default_annotation(anns[0]) {
        Some(anns[0])
    } else {
        find_default_annotation(anns.drop_first())
    }
}

/// A field's override annotation, if present, carries a string literal.
pub open spec fn spec_field_ok(f: SpecField) -> bool {
    match find_default_annotation(f.annotations) {
        Some(a) => a.value is Text,
        None => true,
    }
}

/// Whether a variant is marked as the choice's default.
pub open spec fn spec_variant_marked(v: SpecVariant) -> bool {
    find_default_annotation(v.annotations) is Some
}

/// Find the index of the first annotation named `default`, if any.
pub fn find_default(anns: &Vec<Annotation>) -> (r: Option<usize>)
    ensures
        match r {
            Some(i) => i < anns.len() && find_default_annotation(annotations_view(anns@))
                == Some(anns@[i as int]@),
            None => find_default_annotation(annotations_view(anns@)) is None,
        },
{
    let ghost av = annotations_view(anns@);
    let default_name: String = "default".to_owned();
    proof {
        assert(av.skip(0) =~= av);
    }
    for i in 0..anns.len()
        invariant
            av == annotations_view(anns@),
            av.len() == anns@.len(),
            default_name@ == "default"@,
            find_default_annotation(av) == find_default_annotation(av.skip(i as int)),
    {
        proof {
            assert(av[i as int] == anns@[i as int]@);
            assert(av.skip(i as int).len() > 0);
            assert(av.skip(i as int)[0] == av[i as int]);
        }
        if anns[i].name == default_name {
            proof {
                assert(is_default_annotation(av[i as int]));
            }
            return Some(i);
        }
        proof {
            assert(!is_default_annotation(av[i as int]));
            assert(av.skip(i as int).drop_first() =~= av.skip(i as int + 1));
        }
    }
    proof {
        assert(av.skip(anns@.len() as int) =~= Seq::<SpecAnnotation>::empty());
    }
    None
}

} // verus!
