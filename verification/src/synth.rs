//! The synthesizer: one declaration in, the text of one default-construction
//! implementation out, or a diagnostic for a declaration that cannot be
//! served.

use vstd::prelude::*;
use crate::decl::AnnotationValue;
use crate::decl::Field;
use crate::decl::Shape;
use crate::decl::SpecField;
use crate::decl::SpecShape;
use crate::decl::SpecTypeDeclaration;
use crate::decl::SpecVariant;
use crate::decl::TypeDeclaration;
use crate::decl::Variant;
use crate::decl::annotations_view;
use crate::decl::find_default;
use crate::decl::fields_view;
use crate::decl::spec_field_ok;
use crate::decl::spec_variant_marked;
use crate::decl::variants_view;
use crate::text::choice_impl_text;
use crate::text::emit_field_entry;
use crate::text::field_entries_text;
use crate::text::record_impl_text;
use vstd::string::StringExecFns;

verus! {

/// Why synthesis rejected a declaration.
#[derive(Clone, Debug, PartialEq, Eq)]
pub enum SynthesisError {
    /// The declaration is neither a record with named fields nor a choice.
    UnsupportedShape,
    /// The named field's override annotation does not assign a string
    /// literal.
    MalformedAnnotation(String),
    /// A choice declaration has no variant marked as the default.
    MissingDefaultVariant,
    /// A choice declaration has more than one variant marked as the default.
    AmbiguousDefaultVariant,
}

/// Mathematical model of a rejection.
pub enum SpecSynthesisError {
    UnsupportedShape,
    MalformedAnnotation(Seq<char>),
    MissingDefaultVariant,
    AmbiguousDefaultVariant,
}

impl View for SynthesisError {
    type V = SpecSynthesisError;

    open spec fn view(&self) -> SpecSynthesisError {
        match self {
            SynthesisError::UnsupportedShape => SpecSynthesisError::UnsupportedShape,
            SynthesisError::MalformedAnnotation(f) => SpecSynthesisError::MalformedAnnotation(f@),
            SynthesisError::MissingDefaultVariant => SpecSynthesisError::MissingDefaultVariant,
            SynthesisError::AmbiguousDefaultVariant => SpecSynthesisError::AmbiguousDefaultVariant,
        }
    }
}

/// The diagnostic text for a rejection.
pub open spec fn message_text(e: SpecSynthesisError) -> Seq<char> {
    match e {
        SpecSynthesisError::UnsupportedShape => "only records with named fields and choices of variants are supported"@,
        SpecSynthesisError::MalformedAnnotation(f) => "the default annotation on field "@ + f
            + " must assign a string literal"@,
        SpecSynthesisError::MissingDefaultVariant => "no variant is marked as the default"@,
        SpecSynthesisError::AmbiguousDefaultVariant => "more than one variant is marked as the default"@,
    }
}

impl SynthesisError {
    /// A diagnostic describing the rejection.
    pub fn message(&self) -> (r: String)
        ensures
            r@ == message_text(self@),
    {
        match self {
            SynthesisError::UnsupportedShape => "only records with named fields and choices of variants are supported".to_owned(),
            SynthesisError::MalformedAnnotation(f) => {
                let mut m: String = "the default annotation on field ".to_owned();
                m.append(f.as_str());
                m.append(" must assign a string literal");
                proof {
                    assert(m@ =~= message_text(self@));
                }
                m
            },
            SynthesisError::MissingDefaultVariant => "no variant is marked as the default".to_owned(),
            SynthesisError::AmbiguousDefaultVariant => "more than one variant is marked as the default".to_owned(),
        }
    }
}

/// The first field whose override annotation is malformed, if any.
pub open spec fn first_bad_field(fs: Seq<SpecField>) -> Option<SpecField>
    decreases fs.len(),
{
    if fs.len() == 0 {
        None
    } else if !spec_field_ok(fs[0]) {
        Some(fs[0])
    } else {
        first_bad_field(fs.drop_first())
    }
}

/// How many variants are marked as the default.
pub open spec fn marked_count(vs: Seq<SpecVariant>) -> int
    decreases vs.len(),
{
    if vs.len() == 0 {
        0
    } else {
        (if spec_variant_marked(vs[0]) { 1int } else { 0int }) + marked_count(vs.drop_first())
    }
}

/// The marked-variant count lies between zero and the variant count.
pub proof fn lemma_marked_count_bounds(vs: Seq<SpecVariant>)
    ensures
        0 <= marked_count(vs) <= vs.len(),
    decreases vs.len(),
{
    if vs.len() > 0 {
        lemma_marked_count_bounds(vs.drop_first());
    }
}

/// The first variant marked as the default, if any.
pub open spec fn first_marked_variant(vs: Seq<SpecVariant>) -> Option<SpecVariant>
    decreases vs.len(),
{
    if vs.len() == 0 {
        None
    } else if spec_variant_marked(vs[0]) {
        Some(vs[0])
    } else {
        first_marked_variant(vs.drop_first())
    }
}

/// What synthesis returns for one declaration: the emitted implementation
/// text, or the rejection.
pub open spec fn spec_synthesize(d: SpecTypeDeclaration) -> Result<Seq<char>, SpecSynthesisError> {
    match d.shape {
        SpecShape::Record(fs) => {
            if fs.len() == 0 {
                Err(SpecSynthesisError::UnsupportedShape)
            } else {
                match first_bad_field(fs) {
                    Some(f) => Err(SpecSynthesisError::MalformedAnnotation(f.ident)),
                    None => Ok(record_impl_text(d.ident, fs)),
                }
            }
        },
        SpecShape::Choice(vs) => {
            if marked_count(vs) == 0 {
                Err(SpecSynthesisError::MissingDefaultVariant)
            } else if marked_count(vs) > 1 {
                Err(SpecSynthesisError::AmbiguousDefaultVariant)
            } else {
                match first_marked_variant(vs) {
                    Some(v) => Ok(choice_impl_text(d.ident, v.ident)),
                    None => Err(SpecSynthesisError::MissingDefaultVariant),
                }
            }
        },
        SpecShape::Unsupported => Err(SpecSynthesisError::UnsupportedShape),
    }
}

/// A variant marked as the default makes the marked-variant count positive.
proof fn lemma_marked_implies_count_pos(vs: Seq<SpecVariant>, k: int)
    requires
        0 <= k < vs.len(),
        spec_variant_marked(vs[k]),
    ensures
        marked_count(vs) >= 1,
    decreases k,
{
    lemma_marked_count_bounds(vs.drop_first());
    if k > 0 {
        lemma_marked_implies_count_pos(vs.drop_first(), k - 1);
    }
}

/// With exactly one variant marked as the default, the selected variant is
/// the marked one, never any other.
pub proof fn lemma_single_marked_is_selected(vs: Seq<SpecVariant>, k: int)
    requires
        marked_count(vs) == 1,
        0 <= k < vs.len(),
        spec_variant_marked(vs[k]),
    ensures
        first_marked_variant(vs) == Some(vs[k]),
    decreases k,
{
    if k > 0 {
        if spec_variant_marked(vs[0]) {
            lemma_marked_implies_count_pos(vs.drop_first(), k - 1);
            assert(false);
        }
        lemma_single_marked_is_selected(vs.drop_first(), k - 1);
    }
}

/// A record with a malformed override annotation is rejected, naming the
/// first offending field.
pub proof fn lemma_malformed_annotation_rejected(
    d: SpecTypeDeclaration,
    fs: Seq<SpecField>,
    f: SpecField,
)
    requires
        d.shape == SpecShape::Record(fs),
        first_bad_field(fs) == Some(f),
    ensures
        spec_synthesize(d) == Err::<Seq<char>, SpecSynthesisError>(
            SpecSynthesisError::MalformedAnnotation(f.ident),
        ),
{
    assert(fs.len() > 0);
}

/// A record with no fields at all is rejected as an unsupported shape.
pub proof fn lemma_empty_record_rejected(d: SpecTypeDeclaration, fs: Seq<SpecField>)
    requires
        d.shape == SpecShape::Record(fs),
        fs.len() == 0,
    ensures
        spec_synthesize(d) == Err::<Seq<char>, SpecSynthesisError>(
            SpecSynthesisError::UnsupportedShape,
        ),
{
}

/// A declaration that is neither a record with named fields nor a choice is
/// rejected.
pub proof fn lemma_unsupported_shape_rejected(d: SpecTypeDeclaration)
    requires
        d.shape is Unsupported,
    ensures
        spec_synthesize(d) == Err::<Seq<char>, SpecSynthesisError>(
            SpecSynthesisError::UnsupportedShape,
        ),
{
}

/// Exactly one marked variant is enforced: a choice with none is rejected as
/// missing a default, one with several as ambiguous, and one with exactly
/// one constructs that variant.
pub proof fn lemma_exactly_one_default_enforced(d: SpecTypeDeclaration, vs: Seq<SpecVariant>)
    requires
        d.shape == SpecShape::Choice(vs),
    ensures
        marked_count(vs) == 0 ==> spec_synthesize(d) == Err::<Seq<char>, SpecSynthesisError>(
            SpecSynthesisError::MissingDefaultVariant,
        ),
        marked_count(vs) > 1 ==> spec_synthesize(d) == Err::<Seq<char>, SpecSynthesisError>(
            SpecSynthesisError::AmbiguousDefaultVariant,
        ),
        marked_count(vs) == 1 ==> (first_marked_variant(vs) matches Some(v) ==> spec_synthesize(d)
            == Ok::<Seq<char>, SpecSynthesisError>(choice_impl_text(d.ident, v.ident))),
{
    lemma_marked_count_bounds(vs);
}

/// Synthesis is deterministic: structurally identical declarations receive
/// identical implementations or identical rejections.
pub proof fn lemma_synthesis_deterministic(d1: &TypeDeclaration, d2: &TypeDeclaration)
    requires
        d1@ == d2@,
    ensures
        spec_synthesize(d1@) == spec_synthesize(d2@),
{
}

/// Whether a field's override annotation, if present, carries a string
/// literal.
fn field_ok(f: &Field) -> (r: bool)
    ensures
        r == spec_field_ok(f@),
{
    let found = find_default(&f.annotations);
    proof {
        assert(annotations_view(f.annotations@) == f@.annotations);
    }
    match found {
        None => true,
        Some(i) => {
            proof {
                assert(f.annotations@[i as int]@ == annotations_view(f.annotations@)[i as int]);
            }
            match &f.annotations[i].value {
                AnnotationValue::Text(_) => true,
                AnnotationValue::Marker => false,
                AnnotationValue::Other => false,
            }
        },
    }
}

/// Synthesize the implementation for a record with named fields.
fn synthesize_record(decl_ident: &String, fields: &Vec<Field>) -> (r: Result<
    String,
    SynthesisError,
>)
    ensures
        fields@.len() == 0 ==> (r matches Err(e) && e@ == SpecSynthesisError::UnsupportedShape),
        fields@.len() > 0 ==> (first_bad_field(fields_view(fields@)) matches Some(f) ==> (r
            matches Err(e) && e@ == SpecSynthesisError::MalformedAnnotation(f.ident))),
        fields@.len() > 0 ==> (first_bad_field(fields_view(fields@)) is None ==> (r matches Ok(s)
            && s@ == record_impl_text(decl_ident@, fields_view(fields@)))),
{
    if fields.len() == 0 {
        return Err(SynthesisError::UnsupportedShape);
    }
    let ghost fm = fields_view(fields@);
    let mut body = String::new();
    proof {
        assert(fm.skip(0) =~= fm);
        assert(body@ + field_entries_text(fm) =~= field_entries_text(fm));
    }
    for i in 0..fields.len()
        invariant
            fm == fields_view(fields@),
            fm.len() == fields@.len(),
            first_bad_field(fm) == first_bad_field(fm.skip(i as int)),
            forall|j: int| 0 <= j < i ==> spec_field_ok(#[trigger] fm[j]),
            field_entries_text(fm) == body@ + field_entries_text(fm.skip(i as int)),
    {
        proof {
            assert(fm[i as int] == fields@[i as int]@);
            assert(fm.skip(i as int)[0] == fm[i as int]);
            assert(fm.skip(i as int).drop_first() =~= fm.skip(i as int + 1));
        }
        let ghost prev = body@;
        if !field_ok(&fields[i]) {
            return Err(SynthesisError::MalformedAnnotation(fields[i].ident.clone()));
        }
        emit_field_entry(&mut body, &fields[i]);
        proof {
            assert(body@ + field_entries_text(fm.skip(i as int + 1)) =~= prev
                + field_entries_text(fm.skip(i as int)));
        }
    }
    proof {
        assert(fm.skip(fields@.len() as int) =~= Seq::<SpecField>::empty());
        assert(body@ =~= body@ + field_entries_text(fm.skip(fields@.len() as int)));
    }
    let mut out = String::new();
    out.append("impl Default for ");
    out.append(decl_ident.as_str());
    out.append(" {\n    fn default() -> ");
    out.append(decl_ident.as_str());
    out.append(" {\n        ");
    out.append(decl_ident.as_str());
    out.append(" {\n");
    out.append(body.as_str());
    out.append("        }\n    }\n}\n");
    proof {
        assert(out@ =~= record_impl_text(decl_ident@, fm));
    }
    Ok(out)
}

/// Synthesize the implementation for a choice of variants.
fn synthesize_choice(decl_ident: &String, variants: &Vec<Variant>) -> (r: Result<
    String,
    SynthesisError,
>)
    ensures
        marked_count(variants_view(variants@)) == 0 ==> (r matches Err(e) && e@
            == SpecSynthesisError::MissingDefaultVariant),
        marked_count(variants_view(variants@)) > 1 ==> (r matches Err(e) && e@
            == SpecSynthesisError::AmbiguousDefaultVariant),
        marked_count(variants_view(variants@)) == 1 ==> (r matches Ok(s)
            && first_marked_variant(variants_view(variants@)) matches Some(v) && s@
            == choice_impl_text(decl_ident@, v.ident)),
{
    let ghost vm = variants_view(variants@);
    let mut count: usize = 0;
    let mut first: Option<usize> = None;
    proof {
        assert(vm.skip(0) =~= vm);
    }
    for i in 0..variants.len()
        invariant
            vm == variants_view(variants@),
            vm.len() == variants@.len(),
            count <= i,
            marked_count(vm) == count + marked_count(vm.skip(i as int)),
            first is None ==> count == 0 && first_marked_variant(vm) == first_marked_variant(
                vm.skip(i as int),
            ),
            first matches Some(k) ==> count >= 1 && k < i && spec_variant_marked(vm[k as int])
                && first_marked_variant(vm) == Some(vm[k as int]),
    {
        proof {
            assert(vm[i as int] == variants@[i as int]@);
            assert(vm.skip(i as int)[0] == vm[i as int]);
            assert(vm.skip(i as int).drop_first() =~= vm.skip(i as int + 1));
        }
        let marked = find_default(&variants[i].annotations);
        proof {
            assert(annotations_view(variants@[i as int].annotations@) == vm[i as int].annotations);
        }
        if marked.is_some() {
            count = count + 1;
            if first.is_none() {
                first = Some(i);
            }
        }
    }
    proof {
        assert(vm.skip(variants@.len() as int) =~= Seq::<SpecVariant>::empty());
    }
    if count == 0 {
        return Err(SynthesisError::MissingDefaultVariant);
    }
    if count > 1 {
        return Err(SynthesisError::AmbiguousDefaultVariant);
    }
    let k: usize = match first {
        Some(k) => k,
        None => {
            // Unreachable: a count of one implies a first marked variant.
            proof {
                assert(false);
            }
            0
        },
    };
    let mut out = String::new();
    out.append("impl Default for ");
    out.append(decl_ident.as_str());
    out.append(" {\n    fn default() -> ");
    out.append(decl_ident.as_str());
    out.append(" {\n        ");
    out.append(decl_ident.as_str());
    out.append("::");
    out.append(variants[k].ident.as_str());
    out.append("\n    }\n}\n");
    proof {
        assert(out@ =~= choice_impl_text(decl_ident@, vm[k as int].ident));
    }
    Ok(out)
}

/// Synthesize the default-construction implementation for one declaration:
/// the returned text, or the returned rejection, is exactly what
/// [`spec_synthesize`] states for the declaration's structure.
pub fn synthesize(d: &TypeDeclaration) -> (r: Result<String, SynthesisError>)
    ensures
        spec_synthesize(d@) matches Ok(text) ==> (r matches Ok(s) && s@ == text),
        spec_synthesize(d@) matches Err(e) ==> (r matches Err(x) && x@ == e),
{
    match &d.shape {
        Shape::Record(fields) => {
            proof {
                assert(d@.shape == SpecShape::Record(fields_view(fields@)));
            }
            let r = synthesize_record(&d.ident, fields);
            proof {
                let fs = fields_view(fields@);
                assert(fs.len() == fields@.len());
                assert(spec_synthesize(d@) == (if fs.len() == 0 {
                    Err::<Seq<char>, SpecSynthesisError>(SpecSynthesisError::UnsupportedShape)
                } else {
                    match first_bad_field(fs) {
                        Some(f) => Err::<Seq<char>, SpecSynthesisError>(
                            SpecSynthesisError::MalformedAnnotation(f.ident),
                        ),
                        None => Ok(record_impl_text(d@.ident, fs)),
                    }
                }));
                assert(d@.ident == d.ident@);
            }
            r
        },
        Shape::Choice(variants) => {
            proof {
                assert(d@.shape == SpecShape::Choice(variants_view(variants@)));
            }
            let r = synthesize_choice(&d.ident, variants);
            proof {
                let vs = variants_view(variants@);
                assert(marked_count(vs) >= 0) by {
                    lemma_marked_count_bounds(vs);
                }
                assert(spec_synthesize(d@) == (if marked_count(vs) == 0 {
                    Err::<Seq<char>, SpecSynthesisError>(SpecSynthesisError::MissingDefaultVariant)
                } else if marked_count(vs) > 1 {
                    Err(SpecSynthesisError::AmbiguousDefaultVariant)
                } else {
                    match first_marked_variant(vs) {
                        Some(v) => Ok(choice_impl_text(d@.ident, v.ident)),
                        None => Err(SpecSynthesisError::MissingDefaultVariant),
                    }
                }));
                assert(d@.ident == d.ident@);
            }
            r
        },
        Shape::Unsupported => {
            proof {
                assert(d@.shape == SpecShape::Unsupported);
                assert(spec_synthesize(d@) == Err::<Seq<char>, SpecSynthesisError>(
                    SpecSynthesisError::UnsupportedShape,
                ));
            }
            Err(SynthesisError::UnsupportedShape)
        },
    }
}

} // verus!
