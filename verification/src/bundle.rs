//! The bundler: one implementation block per operation kind, for all
//! nine kinds in a fixed order, concatenated into a single emission.

use vstd::prelude::*;
use crate::ops::{OpKind, describe};
use crate::schema::{FieldId, Schema};
use crate::synth::{
    ImplBlock, impl_text, is_synthesis_of, kind_shape, lemma_concat_texts_snoc,
    lemma_synthesis_shape, concat_texts, render, synthesize,
};

verus! {

/// The fixed order in which a bundle emits the nine kinds. The order is
/// cosmetic — each block is self-contained — but it is kept fixed so
/// that output is reproducible.
pub open spec fn bundle_kinds() -> Seq<OpKind> {
    seq![
        OpKind::Add,
        OpKind::Sub,
        OpKind::Mul,
        OpKind::Div,
        OpKind::AddAssign,
        OpKind::SubAssign,
        OpKind::MulAssign,
        OpKind::DivAssign,
        OpKind::Neg,
    ]
}

fn kind_at(i: usize) -> (k: OpKind)
    requires
        i < 9,
    ensures
        k == bundle_kinds()[i as int],
{
    match i {
        0 => OpKind::Add,
        1 => OpKind::Sub,
        2 => OpKind::Mul,
        3 => OpKind::Div,
        4 => OpKind::AddAssign,
        5 => OpKind::SubAssign,
        6 => OpKind::MulAssign,
        7 => OpKind::DivAssign,
        _ => OpKind::Neg,
    }
}

/// Synthesizes one block per kind, all from the same schema, in the
/// fixed bundle order. There is no partial success: every block of the
/// bundle is produced, or the caller never had a schema to give.
pub fn synthesize_all(schema: &Schema) -> (blocks: Vec<ImplBlock>)
    ensures
        blocks@.len() == bundle_kinds().len(),
        forall|i: int|
            0 <= i < blocks@.len() ==> is_synthesis_of(
                #[trigger] blocks@[i],
                *schema,
                bundle_kinds()[i],
            ),
{
    let mut blocks: Vec<ImplBlock> = Vec::new();
    for i in 0..9usize
        invariant
            blocks@.len() == i,
            forall|j: int|
                0 <= j < i ==> is_synthesis_of(#[trigger] blocks@[j], *schema, bundle_kinds()[j]),
    {
        let kind = kind_at(i);
        let d = describe(kind);
        blocks.push(synthesize(schema, d));
    }
    blocks
}

/// The complete bundle text for one record: the rendering of each of
/// the nine kinds' blocks, concatenated in the fixed bundle order.
pub open spec fn bundle_text(name: Seq<char>, fields: Seq<FieldId>) -> Seq<char> {
    concat_texts(
        Seq::new(
            bundle_kinds().len(),
            |i: int| impl_text(kind_shape(name, fields, bundle_kinds()[i])),
        ),
    )
}

/// Renders the whole bundle for one schema.
pub fn render_all(schema: &Schema) -> (s: String)
    ensures
        s@ == bundle_text(schema.name@, schema.fields@),
{
    let ghost texts = Seq::new(
        bundle_kinds().len(),
        |i: int| impl_text(kind_shape(schema.name@, schema.fields@, bundle_kinds()[i])),
    );
    let blocks = synthesize_all(schema);
    let mut out = String::new();
    proof {
        assert(texts.take(0) =~= Seq::<Seq<char>>::empty());
        assert(out@ == concat_texts(texts.take(0)));
    }
    let n = blocks.len();
    for i in 0..n
        invariant
            n == blocks@.len() == texts.len(),
            forall|j: int|
                0 <= j < n ==> is_synthesis_of(#[trigger] blocks@[j], *schema, bundle_kinds()[j]),
            texts == Seq::new(
                bundle_kinds().len(),
                |k: int| impl_text(kind_shape(schema.name@, schema.fields@, bundle_kinds()[k])),
            ),
            out@ == concat_texts(texts.take(i as int)),
    {
        let piece = render(&blocks[i]);
        proof {
            lemma_synthesis_shape(blocks@[i as int], *schema, bundle_kinds()[i as int]);
            assert(piece@ == texts[i as int]);
        }
        out.append(piece.as_str());
        proof {
            assert(texts.take(i + 1) =~= texts.take(i as int).push(texts[i as int]));
            lemma_concat_texts_snoc(texts.take(i as int), texts[i as int]);
        }
    }
    proof {
        assert(texts.take(n as int) =~= texts);
    }
    out
}

} // verus!
