//! Emission of the synthesized implementation as source text, and the exact
//! shape of that text as specification functions over `Seq<char>`.

use vstd::prelude::*;
use crate::decl::AnnotationValue;
use crate::decl::Field;
use crate::decl::SpecAnnotationValue;
use crate::decl::SpecField;
use crate::decl::annotations_view;
use crate::decl::find_default;
use crate::decl::find_default_annotation;
use crate::decl::spec_field_ok;
use vstd::string::StrSliceExecFns;
use vstd::string::StringExecFns;

verus! {

/// How one character appears inside an emitted string literal: quotes and
/// backslashes get a backslash escape, a carriage return (which Rust source
/// may not hold bare inside a string literal) becomes `\r`, and every other
/// character stays itself.
pub open spec fn escaped_char(c: char) -> Seq<char> {
    if c == '"' {
        "\\\""@
    } else if c == '\\' {
        "\\\\"@
    } else if c == '\r' {
        "\\r"@
    } else {
        seq![c]
    }
}

/// How a whole literal appears inside an emitted string literal.
pub open spec fn escaped(s: Seq<char>) -> Seq<char>
    decreases s.len(),
{
    if s.len() == 0 {
        Seq::empty()
    } else {
        escaped_char(s[0]) + escaped(s.drop_first())
    }
}

/// The inverse reading of an escaped literal: `\r` stands for a carriage
/// return, a backslash takes the next character verbatim, and everything
/// else stands for itself.
pub open spec fn unescaped(s: Seq<char>) -> Seq<char>
    decreases s.len(),
{
    if s.len() == 0 {
        Seq::empty()
    } else if s[0] == '\\' && s.len() >= 2 {
        (if s[1] == 'r' {
            seq!['\r']
        } else {
            seq![s[1]]
        }) + unescaped(s.skip(2))
    } else {
        seq![s[0]] + unescaped(s.skip(1))
    }
}

/// Escaping loses nothing: the literal can be read back from its escaped
/// form, so the emitted expression parses exactly the annotated literal.
pub proof fn lemma_escape_round_trip(s: Seq<char>)
    ensures
        unescaped(escaped(s)) == s,
    decreases s.len(),
{
    reveal_strlit("\\\"");
    reveal_strlit("\\\\");
    reveal_strlit("\\r");
    if s.len() == 0 {
        assert(unescaped(escaped(s)) =~= s);
    } else {
        let rest = s.drop_first();
        lemma_escape_round_trip(rest);
        let e = escaped(s);
        assert(e == escaped_char(s[0]) + escaped(rest));
        if s[0] == '"' {
            assert(e[0] == '\\' && e[1] == '"');
            assert(e.skip(2) =~= escaped(rest));
            assert(unescaped(e) =~= s);
        } else if s[0] == '\\' {
            assert(e[0] == '\\' && e[1] == '\\');
            assert(e.skip(2) =~= escaped(rest));
            assert(unescaped(e) =~= s);
        } else if s[0] == '\r' {
            assert(e[0] == '\\' && e[1] == 'r');
            assert(e.skip(2) =~= escaped(rest));
            assert(unescaped(e) =~= s);
        } else {
            assert(e[0] == s[0]);
            assert(e[0] != '\\');
            assert(e.skip(1) =~= escaped(rest));
            assert(unescaped(e) =~= s);
        }
    }
}

/// Relies on `String::push`: appends exactly the one character at the end.
#[verifier::external_body]
fn push_char(s: &mut String, c: char)
    ensures
        final(s)@ == old(s)@.push(c),
{
    s.push(c);
}

/// Escape a literal for inclusion in an emitted string literal.
pub fn escape_literal(s: &str) -> (r: String)
    ensures
        r@ == escaped(s@),
{
    let n: usize = s.unicode_len();
    let mut r = String::new();
    proof {
        assert(s@.skip(0) =~= s@);
        assert(r@ + escaped(s@) =~= escaped(s@));
    }
    for i in 0..n
        invariant
            n == s@.len(),
            escaped(s@) == r@ + escaped(s@.skip(i as int)),
    {
        let c = s.get_char(i);
        proof {
            assert(s@.skip(i as int)[0] == s@[i as int]);
            assert(s@.skip(i as int).drop_first() =~= s@.skip(i as int + 1));
        }
        let ghost prev = r@;
        if c == '"' {
            r.append("\\\"");
        } else if c == '\\' {
            r.append("\\\\");
        } else if c == '\r' {
            r.append("\\r");
        } else {
            push_char(&mut r, c);
            proof {
                assert(r@ =~= prev + seq![c]);
            }
        }
        proof {
            assert(r@ + escaped(s@.skip(i as int + 1)) =~= prev + escaped(s@.skip(i as int)));
        }
    }
    proof {
        assert(s@.skip(n as int) =~= Seq::<char>::empty());
        assert(r@ =~= r@ + escaped(s@.skip(n as int)));
    }
    r
}

/// The expression emitted for a field that carries the override literal
/// `lit`: parse the literal, with a diagnostic naming the literal and the
/// field should parsing fail when the construction runs.
pub open spec fn override_expr_text(lit: Seq<char>, field_ident: Seq<char>) -> Seq<char> {
    "\""@ + escaped(lit) + "\".parse().expect(\"Failed to parse "@ + escaped(lit)
        + " for field "@ + field_ident + "\")"@
}

/// The expression emitted for a field: the parsed override literal when the
/// field carries one, the element type's own default otherwise.
pub open spec fn field_expr_text(f: SpecField) -> Seq<char> {
    match find_default_annotation(f.annotations) {
        Some(a) => match a.value {
            SpecAnnotationValue::Text(lit) => override_expr_text(lit, f.ident),
            _ => Seq::empty(),
        },
        None => "Default::default()"@,
    }
}

/// One emitted constructor line for a field.
pub open spec fn field_entry_text(f: SpecField) -> Seq<char> {
    "            "@ + f.ident + ": "@ + field_expr_text(f) + ",\n"@
}

/// The emitted constructor lines of a record's fields, in source order.
pub open spec fn field_entries_text(fs: Seq<SpecField>) -> Seq<char>
    decreases fs.len(),
{
    if fs.len() == 0 {
        Seq::empty()
    } else {
        field_entry_text(fs[0]) + field_entries_text(fs.drop_first())
    }
}

/// The whole emitted implementation for a record.
pub open spec fn record_impl_text(decl_ident: Seq<char>, fs: Seq<SpecField>) -> Seq<char> {
    "impl Default for "@ + decl_ident + " {\n    fn default() -> "@ + decl_ident
        + " {\n        "@ + decl_ident + " {\n"@ + field_entries_text(fs)
        + "        }\n    }\n}\n"@
}

/// The whole emitted implementation for a choice: construct the marked
/// variant.
pub open spec fn choice_impl_text(decl_ident: Seq<char>, variant_ident: Seq<char>) -> Seq<char> {
    "impl Default for "@ + decl_ident + " {\n    fn default() -> "@ + decl_ident
        + " {\n        "@ + decl_ident + "::"@ + variant_ident + "\n    }\n}\n"@
}

/// A field without an override annotation is constructed from its element
/// type's own default.
pub proof fn lemma_unannotated_field_defaults(f: SpecField)
    requires
        find_default_annotation(f.annotations) is None,
    ensures
        field_expr_text(f) == "Default::default()"@,
{
}

/// A field with an override annotation is constructed by parsing exactly its
/// literal: the emitted expression embeds the literal in escaped form, and
/// the escaping can be undone, so no other value is parsed.
pub proof fn lemma_override_field_parses_literal(f: SpecField, lit: Seq<char>)
    requires
        find_default_annotation(f.annotations) matches Some(a) && a.value
            == SpecAnnotationValue::Text(lit),
    ensures
        field_expr_text(f) == override_expr_text(lit, f.ident),
        unescaped(escaped(lit)) == lit,
{
    lemma_escape_round_trip(lit);
}

/// The emitted record body decomposes around any position: the lines before
/// and after a field are computed from the other fields alone.
pub proof fn lemma_entries_decompose(fs: Seq<SpecField>, j: int)
    requires
        0 <= j < fs.len(),
    ensures
        field_entries_text(fs) == field_entries_text(fs.take(j)) + field_entry_text(fs[j])
            + field_entries_text(fs.skip(j + 1)),
    decreases j,
{
    if j == 0 {
        assert(fs.take(0) =~= Seq::<SpecField>::empty());
        assert(fs.drop_first() =~= fs.skip(1));
        assert(field_entries_text(fs) =~= field_entries_text(fs.take(0)) + field_entry_text(fs[0])
            + field_entries_text(fs.skip(1)));
    } else {
        lemma_entries_decompose(fs.drop_first(), j - 1);
        assert(fs.drop_first().take(j - 1) =~= fs.take(j).drop_first());
        assert(fs.drop_first().skip(j) =~= fs.skip(j + 1));
        assert(fs.drop_first()[j - 1] == fs[j]);
        assert(fs.take(j)[0] == fs[0]);
        assert(field_entries_text(fs.take(j)) == field_entry_text(fs[0]) + field_entries_text(
            fs.take(j).drop_first(),
        ));
        assert(field_entries_text(fs) =~= field_entries_text(fs.take(j)) + field_entry_text(fs[j])
            + field_entries_text(fs.skip(j + 1)));
    }
}

/// Overriding one field never changes another field's default: replacing
/// field `j` rewrites only that field's constructor line, the lines of all
/// other fields stay exactly as they were.
pub proof fn lemma_record_field_independence(fs: Seq<SpecField>, j: int, g: SpecField)
    requires
        0 <= j < fs.len(),
    ensures
        field_entries_text(fs.update(j, g)) == field_entries_text(fs.take(j)) + field_entry_text(g)
            + field_entries_text(fs.skip(j + 1)),
{
    let us = fs.update(j, g);
    lemma_entries_decompose(us, j);
    assert(us.take(j) =~= fs.take(j));
    assert(us.skip(j + 1) =~= fs.skip(j + 1));
    assert(us[j] == g);
}

/// Append the expression for a field carrying the override literal `lit`.
fn emit_override_expr(out: &mut String, lit: &str, field_ident: &str)
    ensures
        final(out)@ == old(out)@ + override_expr_text(lit@, field_ident@),
{
    let esc = escape_literal(lit);
    out.append("\"");
    out.append(esc.as_str());
    out.append("\".parse().expect(\"Failed to parse ");
    out.append(esc.as_str());
    out.append(" for field ");
    out.append(field_ident);
    out.append("\")");
    proof {
        assert(out@ =~= old(out)@ + override_expr_text(lit@, field_ident@));
    }
}

/// Append one constructor line for a field whose annotation, if present,
/// carries a string literal.
pub fn emit_field_entry(out: &mut String, f: &Field)
    requires
        spec_field_ok(f@),
    ensures
        final(out)@ == old(out)@ + field_entry_text(f@),
{
    out.append("            ");
    out.append(f.ident.as_str());
    out.append(": ");
    let found = find_default(&f.annotations);
    match found {
        None => {
            out.append("Default::default()");
        },
        Some(i) => {
            proof {
                assert(annotations_view(f.annotations@) == f@.annotations);
                assert(f.annotations@[i as int]@.value is Text);
            }
            match &f.annotations[i].value {
                AnnotationValue::Text(lit) => {
                    emit_override_expr(out, lit.as_str(), f.ident.as_str());
                },
                // Unreachable: the precondition says the found annotation
                // carries a string literal.
                AnnotationValue::Marker => {
                    proof {
                        assert(false);
                    }
                },
                AnnotationValue::Other => {
                    proof {
                        assert(false);
                    }
                },
            }
        },
    }
    out.append(",\n");
    proof {
        assert(out@ =~= old(out)@ + field_entry_text(f@));
    }
}

} // verus!
