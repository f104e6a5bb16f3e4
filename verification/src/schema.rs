//! Schema extraction: normalizing a record declaration into a canonical
//! ordered field list.
//!
//! The external reader hands the generator a parsed declaration as plain
//! data (a [`Decl`]); extraction turns it into a [`Schema`], the only
//! shape the synthesizer works on. Declarations that are not records are
//! rejected with [`ExtractError::NotARecord`].

use vstd::prelude::*;
use crate::numeral::dec_seq;

verus! {

/// One member of a record: either a declared name or a zero-based
/// position assigned by declaration order.
#[derive(Debug)]
pub enum FieldId {
    Named(String),
    Index(usize),
}

impl Clone for FieldId {
    fn clone(&self) -> (res: Self)
        ensures
            res == self,
    {
        match self {
            FieldId::Named(n) => FieldId::Named(n.clone()),
            FieldId::Index(i) => FieldId::Index(*i),
        }
    }
}

impl FieldId {
    /// The identifier exactly as it is spliced into generated code:
    /// the name itself, or the position as an unsuffixed decimal literal.
    pub open spec fn text(self) -> Seq<char> {
        match self {
            FieldId::Named(n) => n@,
            FieldId::Index(i) => dec_seq(i as nat),
        }
    }
}

/// Renders a field identifier as generated code spells it.
pub fn field_id_text(f: &FieldId) -> (s: String)
    ensures
        s@ == f.text(),
{
    match f {
        FieldId::Named(n) => n.clone(),
        FieldId::Index(i) => crate::numeral::usize_numeral(*i),
    }
}

/// A record type's identity together with its fields in declaration
/// order. The order is semantically significant: it fixes the pairing
/// used for field-wise combination and is preserved exactly.
pub struct Schema {
    pub name: String,
    pub fields: Vec<FieldId>,
}

/// Pairwise distinctness of field identifiers.
pub open spec fn unique_fields(fields: Seq<FieldId>) -> bool {
    forall|i: int, j: int| 0 <= i < j < fields.len() ==> fields[i] != fields[j]
}

impl Schema {
    /// Field identifiers are distinct within one schema.
    pub open spec fn wf(self) -> bool {
        unique_fields(self.fields@)
    }
}

/// One field of a parsed record declaration: its declared name, or
/// `None` for a positional field.
pub struct DeclField {
    pub name: Option<String>,
}

/// Which kind of type a declaration introduces. Only `Record` can be
/// turned into a schema.
pub enum DeclBody {
    Record(Vec<DeclField>),
    Enum,
    Union,
}

/// A parsed type declaration, as the external reader exposes it.
pub struct Decl {
    pub name: String,
    pub body: DeclBody,
}

/// The single fatal failure of extraction.
#[derive(Clone, Copy, PartialEq, Eq, Structural, Debug)]
pub enum ExtractError {
    NotARecord,
}

/// The identifier a declared field receives: its name if it has one,
/// else its zero-based declaration position.
pub open spec fn decl_field_id(position: int, f: DeclField) -> FieldId {
    match f.name {
        Some(n) => FieldId::Named(n),
        None => FieldId::Index(position as usize),
    }
}

/// The canonical field list of a record declaration, in declaration order.
pub open spec fn decl_fields(fs: Seq<DeclField>) -> Seq<FieldId> {
    Seq::new(fs.len(), |i: int| decl_field_id(i, fs[i]))
}

/// Turns a declaration into a schema: the identifier of each field is
/// its declared name, or its position for positional fields, always in
/// declaration order. Fails, with `NotARecord`, exactly when the
/// declaration is not a record.
pub fn extract(decl: &Decl) -> (r: Result<Schema, ExtractError>)
    ensures
        match r {
            Ok(s) => decl.body matches DeclBody::Record(fs) && s.name == decl.name
                && s.fields@ == decl_fields(fs@),
            Err(e) => !(decl.body matches DeclBody::Record(_)) && e == ExtractError::NotARecord,
        },
{
    match &decl.body {
        DeclBody::Record(fs) => {
            let n = fs.len();
            let mut fields: Vec<FieldId> = Vec::new();
            for i in 0..n
                invariant
                    n == fs@.len(),
                    fields@ == decl_fields(fs@).take(i as int),
            {
                let fid = match &fs[i].name {
                    Some(nm) => FieldId::Named(nm.clone()),
                    None => FieldId::Index(i),
                };
                fields.push(fid);
                proof {
                    assert(decl_fields(fs@).take(i + 1)
                        =~= decl_fields(fs@).take(i as int).push(decl_field_id(i as int, fs@[i as int])));
                }
            }
            proof {
                assert(decl_fields(fs@).take(n as int) =~= decl_fields(fs@));
            }
            Ok(Schema { name: decl.name.clone(), fields })
        },
        _ => Err(ExtractError::NotARecord),
    }
}

/// Extraction keeps field identifiers distinct: positions are pairwise
/// distinct, a name never equals a position, and distinct declared
/// names stay distinct. So a declaration whose named fields carry
/// distinct names yields a well-formed schema.
pub proof fn lemma_extracted_fields_unique(fs: Seq<DeclField>)
    requires
        fs.len() <= usize::MAX,
        forall|i: int, j: int|
            0 <= i < j < fs.len() && fs[i].name is Some && fs[j].name is Some
                ==> fs[i].name != fs[j].name,
    ensures
        unique_fields(decl_fields(fs)),
{
    assert forall|i: int, j: int|
        0 <= i < j < fs.len() implies decl_fields(fs)[i] != decl_fields(fs)[j] by {
        assert(decl_fields(fs)[i] == decl_field_id(i, fs[i]));
        assert(decl_fields(fs)[j] == decl_field_id(j, fs[j]));
    }
}

} // verus!
