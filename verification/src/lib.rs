//! Synthesis of default-construction implementations with per-field and
//! per-variant overrides.
//!
//! A declaration is described structurally: a name together with either a
//! record of named fields or a choice of variants, each carrying its attached
//! annotations. [`synth::synthesize`] turns one such declaration into the
//! source text of a `Default` implementation: a field annotated
//! `#[default = "640"]` is constructed by parsing that literal, an
//! unannotated field falls back to its element type's own default, and a
//! choice constructs the single variant marked `#[default]`. Declarations
//! that fit neither shape, records with no fields at all, fields whose
//! annotation carries no string literal, and choices with zero or several
//! marked variants are rejected with a diagnostic.

pub mod decl;
pub mod synth;
pub mod text;
