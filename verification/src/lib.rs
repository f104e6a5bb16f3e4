//! Generation of field-wise arithmetic operator implementations for
//! record types.
//!
//! Given a record declaration — named or positional fields — the library
//! synthesizes the source text of generic implementations of the eight
//! binary arithmetic traits and unary negation, combining two records
//! element by element in declaration order, with the right-hand operand
//! converted into the record type exactly once per invocation.
//!
//! The pipeline is pure data to data: a parsed declaration ([`schema::Decl`])
//! is normalized into a [`schema::Schema`], a requested [`ops::OpKind`] is
//! looked up in the fixed descriptor table, and the synthesizer emits one
//! implementation block whose exact text the contracts pin down. Reading
//! host-language token streams and splicing the emitted text back in are
//! the callers' business, outside this crate.

use vstd::prelude::*;

pub mod bundle;
pub mod eval;
pub mod numeral;
pub mod ops;
pub mod schema;
pub mod synth;

use crate::bundle::{bundle_kinds, bundle_text, render_all};
use crate::ops::{OpKind, describe};
use crate::schema::{Decl, DeclBody, ExtractError, FieldId, decl_fields, extract};
use crate::synth::{concat_texts, impl_text, kind_shape, lemma_synthesis_shape, render, synthesize};

verus! {

/// The canonical field list of a record declaration; empty where the
/// declaration is not a record and extraction would fail instead.
pub open spec fn decl_schema_fields(decl: Decl) -> Seq<FieldId> {
    match decl.body {
        DeclBody::Record(fs) => decl_fields(fs@),
        _ => Seq::empty(),
    }
}

/// The exact text a single-operation request emits for a record
/// declaration.
pub open spec fn derived_text(decl: Decl, kind: OpKind) -> Seq<char>
    recommends
        decl.body is Record,
{
    impl_text(kind_shape(decl.name@, decl_schema_fields(decl), kind))
}

/// The exact text the all-operations request emits for a record
/// declaration.
pub open spec fn derived_all_text(decl: Decl) -> Seq<char>
    recommends
        decl.body is Record,
{
    bundle_text(decl.name@, decl_schema_fields(decl))
}

/// The bundle is nothing but the nine single-operation emissions, in
/// the fixed bundle order, concatenated: no block of the bundle differs
/// from what the corresponding single request emits.
pub proof fn lemma_bundle_is_all_kinds(decl: Decl)
    ensures
        derived_all_text(decl) == concat_texts(
            Seq::new(bundle_kinds().len(), |i: int| derived_text(decl, bundle_kinds()[i])),
        ),
{
    assert(Seq::new(bundle_kinds().len(), |i: int| derived_text(decl, bundle_kinds()[i]))
        =~= Seq::new(
        bundle_kinds().len(),
        |i: int| impl_text(kind_shape(decl.name@, decl_schema_fields(decl), bundle_kinds()[i])),
    ));
}

fn complete(decl: &Decl, kind: OpKind) -> (r: Result<String, ExtractError>)
    ensures
        r is Ok <==> decl.body is Record,
        (r matches Ok(s) ==> s@ == derived_text(*decl, kind)),
        (r matches Err(e) ==> e == ExtractError::NotARecord),
{
    let schema = match extract(decl) {
        Ok(s) => s,
        Err(e) => {
            return Err(e);
        },
    };
    let d = describe(kind);
    let b = synthesize(&schema, d);
    proof {
        lemma_synthesis_shape(b, schema, kind);
    }
    Ok(render(&b))
}

/// Emits the addition implementation for one record declaration.
pub fn derive_add(decl: &Decl) -> (r: Result<String, ExtractError>)
    ensures
        r is Ok <==> decl.body is Record,
        (r matches Ok(s) ==> s@ == derived_text(*decl, OpKind::Add)),
        (r matches Err(e) ==> e == ExtractError::NotARecord),
{
    complete(decl, OpKind::Add)
}

/// Emits the subtraction implementation for one record declaration.
pub fn derive_sub(decl: &Decl) -> (r: Result<String, ExtractError>)
    ensures
        r is Ok <==> decl.body is Record,
        (r matches Ok(s) ==> s@ == derived_text(*decl, OpKind::Sub)),
        (r matches Err(e) ==> e == ExtractError::NotARecord),
{
    complete(decl, OpKind::Sub)
}

/// Emits the multiplication implementation for one record declaration.
pub fn derive_mul(decl: &Decl) -> (r: Result<String, ExtractError>)
    ensures
        r is Ok <==> decl.body is Record,
        (r matches Ok(s) ==> s@ == derived_text(*decl, OpKind::Mul)),
        (r matches Err(e) ==> e == ExtractError::NotARecord),
{
    complete(decl, OpKind::Mul)
}

/// Emits the division implementation for one record declaration.
pub fn derive_div(decl: &Decl) -> (r: Result<String, ExtractError>)
    ensures
        r is Ok <==> decl.body is Record,
        (r matches Ok(s) ==> s@ == derived_text(*decl, OpKind::Div)),
        (r matches Err(e) ==> e == ExtractError::NotARecord),
{
    complete(decl, OpKind::Div)
}

/// Emits the in-place addition implementation for one record declaration.
pub fn derive_add_assign(decl: &Decl) -> (r: Result<String, ExtractError>)
    ensures
        r is Ok <==> decl.body is Record,
        (r matches Ok(s) ==> s@ == derived_text(*decl, OpKind::AddAssign)),
        (r matches Err(e) ==> e == ExtractError::NotARecord),
{
    complete(decl, OpKind::AddAssign)
}

/// Emits the in-place subtraction implementation for one record declaration.
pub fn derive_sub_assign(decl: &Decl) -> (r: Result<String, ExtractError>)
    ensures
        r is Ok <==> decl.body is Record,
        (r matches Ok(s) ==> s@ == derived_text(*decl, OpKind::SubAssign)),
        (r matches Err(e) ==> e == ExtractError::NotARecord),
{
    complete(decl, OpKind::SubAssign)
}

/// Emits the in-place multiplication implementation for one record declaration.
pub fn derive_mul_assign(decl: &Decl) -> (r: Result<String, ExtractError>)
    ensures
        r is Ok <==> decl.body is Record,
        (r matches Ok(s) ==> s@ == derived_text(*decl, OpKind::MulAssign)),
        (r matches Err(e) ==> e == ExtractError::NotARecord),
{
    complete(decl, OpKind::MulAssign)
}

/// Emits the in-place division implementation for one record declaration.
pub fn derive_div_assign(decl: &Decl) -> (r: Result<String, ExtractError>)
    ensures
        r is Ok <==> decl.body is Record,
        (r matches Ok(s) ==> s@ == derived_text(*decl, OpKind::DivAssign)),
        (r matches Err(e) ==> e == ExtractError::NotARecord),
{
    complete(decl, OpKind::DivAssign)
}

/// Emits the negation implementation for one record declaration.
pub fn derive_neg(decl: &Decl) -> (r: Result<String, ExtractError>)
    ensures
        r is Ok <==> decl.body is Record,
        (r matches Ok(s) ==> s@ == derived_text(*decl, OpKind::Neg)),
        (r matches Err(e) ==> e == ExtractError::NotARecord),
{
    complete(decl, OpKind::Neg)
}

/// Emits all nine implementations for one record declaration, in the
/// fixed bundle order, as a single emission. An extraction failure
/// aborts the whole bundle: either all nine blocks are emitted or none.
pub fn derive_all(decl: &Decl) -> (r: Result<String, ExtractError>)
    ensures
        r is Ok <==> decl.body is Record,
        (r matches Ok(s) ==> s@ == derived_all_text(*decl)),
        (r matches Err(e) ==> e == ExtractError::NotARecord),
{
    let schema = match extract(decl) {
        Ok(s) => s,
        Err(e) => {
            return Err(e);
        },
    };
    Ok(render_all(&schema))
}

} // verus!
