//! The synthesizer: from one schema and one operation descriptor to one
//! implementation block, and from a block to its exact source text.
//!
//! A block's text is pinned down to the byte by spec functions over an
//! [`ImplShape`], the fully abstract description of one generated
//! implementation. Every guarantee about generated code — field order,
//! the single conversion of the right-hand operand, negation touching
//! only `self` — is stated over that shape.

use vstd::prelude::*;
use crate::ops::{OpKind, OperationDescriptor, Symbol, symbol_text, symbol_str};
use crate::schema::{FieldId, Schema, field_id_text};

verus! {

/// One generated implementation block: the record's identity, the
/// descriptor that drove generation, and the fields to combine, in
/// declaration order.
pub struct ImplBlock {
    pub name: String,
    pub descriptor: OperationDescriptor,
    pub fields: Vec<FieldId>,
}

/// The abstract shape of one generated implementation: everything the
/// emitted text depends on, and nothing else.
#[verifier::ext_equal]
pub ghost struct ImplShape {
    pub name: Seq<char>,
    pub trait_name: Seq<char>,
    pub method_name: Seq<char>,
    pub symbol: Symbol,
    pub in_place: bool,
    pub has_alias: bool,
    pub unary: bool,
    pub fields: Seq<FieldId>,
}

impl ImplBlock {
    /// The shape this block renders as.
    pub open spec fn shape(self) -> ImplShape {
        ImplShape {
            name: self.name@,
            trait_name: self.descriptor.trait_name@,
            method_name: self.descriptor.method_name@,
            symbol: self.descriptor.symbol,
            in_place: self.descriptor.mutates_in_place,
            has_alias: self.descriptor.has_output_type_alias,
            unary: self.descriptor.kind is Neg,
            fields: self.fields@,
        }
    }
}

/// The shape that one kind gives one record: the table entry for the
/// kind applied to the record's name and fields.
pub open spec fn kind_shape(name: Seq<char>, fields: Seq<FieldId>, kind: OpKind) -> ImplShape {
    ImplShape {
        name,
        trait_name: kind.spec_trait_name(),
        method_name: kind.spec_method_name(),
        symbol: kind.spec_symbol(),
        in_place: kind.is_assign(),
        has_alias: kind.spec_has_alias(),
        unary: kind is Neg,
        fields,
    }
}

/// What `synthesize` promises: the block carries the schema's name and
/// its fields unchanged and in order, under the table's descriptor for
/// the requested kind.
pub open spec fn is_synthesis_of(b: ImplBlock, schema: Schema, kind: OpKind) -> bool {
    &&& b.descriptor.kind == kind
    &&& b.descriptor.wf()
    &&& b.name == schema.name
    &&& b.fields@ == schema.fields@
}

/// A block synthesized from a schema renders as the shape determined by
/// the schema and the kind alone.
pub proof fn lemma_synthesis_shape(b: ImplBlock, schema: Schema, kind: OpKind)
    requires
        is_synthesis_of(b, schema, kind),
    ensures
        b.shape() == kind_shape(schema.name@, schema.fields@, kind),
{
    assert(b.shape() =~= kind_shape(schema.name@, schema.fields@, kind));
}

/// Consumes a schema and a descriptor and produces the implementation
/// block for that operation on that record.
pub fn synthesize(schema: &Schema, descriptor: OperationDescriptor) -> (b: ImplBlock)
    requires
        descriptor.wf(),
    ensures
        is_synthesis_of(b, *schema, descriptor.kind),
{
    let n = schema.fields.len();
    let mut fields: Vec<FieldId> = Vec::new();
    for i in 0..n
        invariant
            n == schema.fields@.len(),
            fields@ == schema.fields@.take(i as int),
    {
        fields.push(schema.fields[i].clone());
        proof {
            assert(schema.fields@.take(i + 1)
                =~= schema.fields@.take(i as int).push(schema.fields@[i as int]));
        }
    }
    proof {
        assert(schema.fields@.take(n as int) =~= schema.fields@);
    }
    ImplBlock { name: schema.name.clone(), descriptor, fields }
}

/// The combining line for one field of a binary operation:
/// `self.f OP rhs.f`, keyed by the field's own identifier.
pub open spec fn field_line(f: FieldId, sym: Symbol) -> Seq<char> {
    "            "@ + f.text() + ": self."@ + f.text() + " "@ + symbol_text(sym) + " rhs."@
        + f.text() + ",\n"@
}

/// The line for one field of the negation body: built from `self` alone.
pub open spec fn neg_field_line(f: FieldId) -> Seq<char> {
    "            "@ + f.text() + ": -self."@ + f.text() + ",\n"@
}

/// The binary body lines, one per field, in declaration order.
pub open spec fn binary_field_lines(fs: Seq<FieldId>, sym: Symbol) -> Seq<char>
    decreases fs.len(),
{
    if fs.len() == 0 {
        Seq::empty()
    } else {
        field_line(fs[0], sym) + binary_field_lines(fs.drop_first(), sym)
    }
}

/// The negation body lines, one per field, in declaration order.
pub open spec fn neg_field_lines(fs: Seq<FieldId>) -> Seq<char>
    decreases fs.len(),
{
    if fs.len() == 0 {
        Seq::empty()
    } else {
        neg_field_line(fs[0]) + neg_field_lines(fs.drop_first())
    }
}

/// Concatenation of a list of text pieces, in order.
pub open spec fn concat_texts(ss: Seq<Seq<char>>) -> Seq<char>
    decreases ss.len(),
{
    if ss.len() == 0 {
        Seq::empty()
    } else {
        ss[0] + concat_texts(ss.drop_first())
    }
}

pub proof fn lemma_binary_lines_snoc(fs: Seq<FieldId>, f: FieldId, sym: Symbol)
    ensures
        binary_field_lines(fs.push(f), sym) == binary_field_lines(fs, sym) + field_line(f, sym),
    decreases fs.len(),
{
    if fs.len() == 0 {
        assert(fs.push(f)[0] == f);
        assert(fs.push(f).drop_first() =~= Seq::<FieldId>::empty());
        assert(binary_field_lines(Seq::<FieldId>::empty(), sym) == Seq::<char>::empty());
        assert(binary_field_lines(fs.push(f), sym)
            == field_line(f, sym) + Seq::<char>::empty());
        assert(binary_field_lines(fs.push(f), sym) =~= binary_field_lines(fs, sym) + field_line(f, sym));
    } else {
        lemma_binary_lines_snoc(fs.drop_first(), f, sym);
        assert(fs.push(f).drop_first() =~= fs.drop_first().push(f));
        assert(fs.push(f)[0] == fs[0]);
        assert(binary_field_lines(fs.push(f), sym)
            == field_line(fs[0], sym) + (binary_field_lines(fs.drop_first(), sym) + field_line(f, sym)));
        assert(field_line(fs[0], sym) + (binary_field_lines(fs.drop_first(), sym) + field_line(f, sym))
            =~= (field_line(fs[0], sym) + binary_field_lines(fs.drop_first(), sym)) + field_line(f, sym));
    }
}

pub proof fn lemma_neg_lines_snoc(fs: Seq<FieldId>, f: FieldId)
    ensures
        neg_field_lines(fs.push(f)) == neg_field_lines(fs) + neg_field_line(f),
    decreases fs.len(),
{
    if fs.len() == 0 {
        assert(fs.push(f)[0] == f);
        assert(fs.push(f).drop_first() =~= Seq::<FieldId>::empty());
        assert(neg_field_lines(Seq::<FieldId>::empty()) == Seq::<char>::empty());
        assert(neg_field_lines(fs.push(f)) == neg_field_line(f) + Seq::<char>::empty());
        assert(neg_field_lines(fs.push(f)) =~= neg_field_lines(fs) + neg_field_line(f));
    } else {
        lemma_neg_lines_snoc(fs.drop_first(), f);
        assert(fs.push(f).drop_first() =~= fs.drop_first().push(f));
        assert(fs.push(f)[0] == fs[0]);
        assert(neg_field_lines(fs.push(f))
            == neg_field_line(fs[0]) + (neg_field_lines(fs.drop_first()) + neg_field_line(f)));
        assert(neg_field_line(fs[0]) + (neg_field_lines(fs.drop_first()) + neg_field_line(f))
            =~= (neg_field_line(fs[0]) + neg_field_lines(fs.drop_first())) + neg_field_line(f));
    }
}

/// The implementation header: generic over any `T` convertible into the
/// record type for binary operations; plain for negation.
pub open spec fn impl_header(s: ImplShape) -> Seq<char> {
    if s.unary {
        "impl ::std::ops::Neg for "@ + s.name + " {\n"@
    } else {
        "impl<T: Into<"@ + s.name + ">> ::std::ops::"@ + s.trait_name + "<T> for "@ + s.name
            + " {\n"@
    }
}

/// The `Output` alias: declared by the four constructive binary kinds
/// through the descriptor flag, and by negation through its own shape.
pub open spec fn alias_text(s: ImplShape) -> Seq<char> {
    if s.has_alias || s.unary {
        "    type Output = Self;\n"@
    } else {
        Seq::empty()
    }
}

/// The method header of the generated implementation.
pub open spec fn method_header(s: ImplShape) -> Seq<char> {
    if s.unary {
        "    fn neg(self) -> Self::Output {\n"@
    } else if s.in_place {
        "    fn "@ + s.method_name + "(&mut self, rhs: T) {\n"@
    } else {
        "    fn "@ + s.method_name + "(self, rhs: T) -> Self::Output {\n"@
    }
}

/// The conversion statements in the method body: exactly one for every
/// binary operation, none for negation.
pub open spec fn conversion_stmts(s: ImplShape) -> Seq<Seq<char>> {
    if s.unary {
        Seq::empty()
    } else {
        seq!["        let rhs = rhs.into();\n"@]
    }
}

/// The start of the record literal; an in-place operation assigns the
/// fresh literal back onto `*self`.
pub open spec fn literal_open(s: ImplShape) -> Seq<char> {
    if s.in_place {
        "        *self = "@ + s.name + " {\n"@
    } else {
        "        "@ + s.name + " {\n"@
    }
}

/// The end of the record literal.
pub open spec fn literal_close(s: ImplShape) -> Seq<char> {
    if s.in_place {
        "        };\n"@
    } else {
        "        }\n"@
    }
}

/// The conversion statements concatenate to one statement for a binary
/// operation and to nothing for negation.
pub proof fn lemma_conversion_text(s: ImplShape)
    ensures
        concat_texts(conversion_stmts(s)) == if s.unary {
            Seq::<char>::empty()
        } else {
            "        let rhs = rhs.into();\n"@
        },
{
    if s.unary {
        assert(concat_texts(conversion_stmts(s)) =~= Seq::<char>::empty());
    } else {
        assert(conversion_stmts(s).drop_first() =~= Seq::<Seq<char>>::empty());
        assert(concat_texts(Seq::<Seq<char>>::empty()) == Seq::<char>::empty());
        assert(concat_texts(conversion_stmts(s)) =~= "        let rhs = rhs.into();\n"@);
    }
}

/// The body lines of the record literal, one per field, in order.
pub open spec fn body_field_lines(s: ImplShape) -> Seq<char> {
    if s.unary {
        neg_field_lines(s.fields)
    } else {
        binary_field_lines(s.fields, s.symbol)
    }
}

/// The full text of one generated implementation block.
pub open spec fn impl_text(s: ImplShape) -> Seq<char> {
    impl_header(s) + alias_text(s) + method_header(s) + concat_texts(conversion_stmts(s))
        + literal_open(s) + body_field_lines(s) + literal_close(s) + "    }\n"@ + "}\n"@
}

pub proof fn lemma_concat_texts_snoc(ss: Seq<Seq<char>>, s: Seq<char>)
    ensures
        concat_texts(ss.push(s)) == concat_texts(ss) + s,
    decreases ss.len(),
{
    if ss.len() == 0 {
        assert(ss.push(s)[0] == s);
        assert(ss.push(s).drop_first() =~= Seq::<Seq<char>>::empty());
        assert(concat_texts(Seq::<Seq<char>>::empty()) == Seq::<char>::empty());
        assert(concat_texts(ss.push(s)) == s + Seq::<char>::empty());
        assert(concat_texts(ss.push(s)) =~= concat_texts(ss) + s);
    } else {
        lemma_concat_texts_snoc(ss.drop_first(), s);
        assert(ss.push(s).drop_first() =~= ss.drop_first().push(s));
        assert(ss.push(s)[0] == ss[0]);
        assert(concat_texts(ss.push(s)) == ss[0] + (concat_texts(ss.drop_first()) + s));
        assert(ss[0] + (concat_texts(ss.drop_first()) + s)
            =~= (ss[0] + concat_texts(ss.drop_first())) + s);
    }
}

/// Field-order preservation (law): the body of a binary implementation
/// is exactly one combining line per field, and the i-th line is built
/// from the i-th declared field — `self.fi OP rhs.fi` — in declaration
/// order.
pub proof fn lemma_field_order(fs: Seq<FieldId>, sym: Symbol)
    ensures
        binary_field_lines(fs, sym) == concat_texts(
            Seq::new(fs.len(), |i: int| field_line(fs[i], sym)),
        ),
    decreases fs.len(),
{
    let lines = Seq::new(fs.len(), |i: int| field_line(fs[i], sym));
    if fs.len() == 0 {
        assert(concat_texts(lines) == Seq::<char>::empty());
    } else {
        lemma_field_order(fs.drop_first(), sym);
        assert(lines.drop_first()
            =~= Seq::new(fs.drop_first().len(), |i: int| field_line(fs.drop_first()[i], sym)));
        assert(lines[0] == field_line(fs[0], sym));
        assert(concat_texts(lines) == field_line(fs[0], sym)
            + binary_field_lines(fs.drop_first(), sym));
    }
}

/// The same, for negation: one line per field, the i-th built from the
/// i-th declared field of `self` alone.
pub proof fn lemma_neg_field_order(fs: Seq<FieldId>)
    ensures
        neg_field_lines(fs) == concat_texts(Seq::new(fs.len(), |i: int| neg_field_line(fs[i]))),
    decreases fs.len(),
{
    let lines = Seq::new(fs.len(), |i: int| neg_field_line(fs[i]));
    if fs.len() == 0 {
        assert(concat_texts(lines) == Seq::<char>::empty());
    } else {
        lemma_neg_field_order(fs.drop_first());
        assert(lines.drop_first()
            =~= Seq::new(fs.drop_first().len(), |i: int| neg_field_line(fs.drop_first()[i])));
        assert(lines[0] == neg_field_line(fs[0]));
        assert(concat_texts(lines) == neg_field_line(fs[0]) + neg_field_lines(fs.drop_first()));
    }
}

/// Single conversion (law): the method body of every generated binary
/// implementation holds exactly one conversion statement — the
/// right-hand operand is turned into the record type once, whatever the
/// field count — and the combining lines only read the converted value.
pub proof fn lemma_single_conversion(s: ImplShape)
    requires
        !s.unary,
    ensures
        conversion_stmts(s).len() == 1,
        conversion_stmts(s)[0] == "        let rhs = rhs.into();\n"@,
{
}

/// Negation has no conversion (law): the generated negation body holds
/// no conversion statement at all; each of its lines negates one field
/// of `self` and reads nothing else.
pub proof fn lemma_neg_no_conversion(s: ImplShape)
    requires
        s.unary,
    ensures
        conversion_stmts(s).len() == 0,
        body_field_lines(s) == neg_field_lines(s.fields),
{
}

/// Determinism: the emitted text is a function of the schema and the
/// requested kind alone — any two blocks synthesized from the same
/// schema and kind render byte-identically.
pub proof fn lemma_render_deterministic(b1: ImplBlock, b2: ImplBlock, schema: Schema, kind: OpKind)
    requires
        is_synthesis_of(b1, schema, kind),
        is_synthesis_of(b2, schema, kind),
    ensures
        impl_text(b1.shape()) == impl_text(b2.shape()),
{
    lemma_synthesis_shape(b1, schema, kind);
    lemma_synthesis_shape(b2, schema, kind);
}

fn push_binary_field_line(out: &mut String, f: &FieldId, sym: Symbol)
    ensures
        final(out)@ == old(out)@ + field_line(*f, sym),
{
    let ft = field_id_text(f);
    out.append("            ");
    out.append(ft.as_str());
    out.append(": self.");
    out.append(ft.as_str());
    out.append(" ");
    out.append(symbol_str(sym));
    out.append(" rhs.");
    out.append(ft.as_str());
    out.append(",\n");
    proof {
        assert(out@ =~= old(out)@ + field_line(*f, sym));
    }
}

fn push_neg_field_line(out: &mut String, f: &FieldId)
    ensures
        final(out)@ == old(out)@ + neg_field_line(*f),
{
    let ft = field_id_text(f);
    out.append("            ");
    out.append(ft.as_str());
    out.append(": -self.");
    out.append(ft.as_str());
    out.append(",\n");
    proof {
        assert(out@ =~= old(out)@ + neg_field_line(*f));
    }
}

fn push_binary_field_lines(out: &mut String, fields: &Vec<FieldId>, sym: Symbol)
    ensures
        final(out)@ == old(out)@ + binary_field_lines(fields@, sym),
{
    let ghost base = out@;
    proof {
        assert(base + binary_field_lines(fields@.take(0), sym) =~= base);
    }
    let n = fields.len();
    for i in 0..n
        invariant
            n == fields@.len(),
            out@ == base + binary_field_lines(fields@.take(i as int), sym),
    {
        push_binary_field_line(out, &fields[i], sym);
        proof {
            assert(fields@.take(i + 1) =~= fields@.take(i as int).push(fields@[i as int]));
            lemma_binary_lines_snoc(fields@.take(i as int), fields@[i as int], sym);
            assert(out@ =~= base + binary_field_lines(fields@.take(i + 1), sym));
        }
    }
    proof {
        assert(fields@.take(n as int) =~= fields@);
    }
}

fn push_neg_field_lines(out: &mut String, fields: &Vec<FieldId>)
    ensures
        final(out)@ == old(out)@ + neg_field_lines(fields@),
{
    let ghost base = out@;
    proof {
        assert(base + neg_field_lines(fields@.take(0)) =~= base);
    }
    let n = fields.len();
    for i in 0..n
        invariant
            n == fields@.len(),
            out@ == base + neg_field_lines(fields@.take(i as int)),
    {
        push_neg_field_line(out, &fields[i]);
        proof {
            assert(fields@.take(i + 1) =~= fields@.take(i as int).push(fields@[i as int]));
            lemma_neg_lines_snoc(fields@.take(i as int), fields@[i as int]);
            assert(out@ =~= base + neg_field_lines(fields@.take(i + 1)));
        }
    }
    proof {
        assert(fields@.take(n as int) =~= fields@);
    }
}

/// Renders one implementation block as source text. The result is a
/// pure function of the block's shape: byte-identical for equal shapes.
pub fn render(b: &ImplBlock) -> (s: String)
    ensures
        s@ == impl_text(b.shape()),
{
    let ghost sh = b.shape();
    let unary = match b.descriptor.kind {
        OpKind::Neg => true,
        _ => false,
    };
    let mut out = String::new();

    if unary {
        out.append("impl ::std::ops::Neg for ");
        out.append(b.name.as_str());
        out.append(" {\n");
    } else {
        out.append("impl<T: Into<");
        out.append(b.name.as_str());
        out.append(">> ::std::ops::");
        out.append(b.descriptor.trait_name.as_str());
        out.append("<T> for ");
        out.append(b.name.as_str());
        out.append(" {\n");
    }
    proof {
        assert(out@ =~= impl_header(sh));
    }

    if b.descriptor.has_output_type_alias || unary {
        out.append("    type Output = Self;\n");
    }
    proof {
        assert(out@ =~= impl_header(sh) + alias_text(sh));
    }

    if unary {
        out.append("    fn neg(self) -> Self::Output {\n");
    } else if b.descriptor.mutates_in_place {
        out.append("    fn ");
        out.append(b.descriptor.method_name.as_str());
        out.append("(&mut self, rhs: T) {\n");
    } else {
        out.append("    fn ");
        out.append(b.descriptor.method_name.as_str());
        out.append("(self, rhs: T) -> Self::Output {\n");
    }
    proof {
        assert(out@ =~= impl_header(sh) + alias_text(sh) + method_header(sh));
    }

    if !unary {
        out.append("        let rhs = rhs.into();\n");
    }
    proof {
        lemma_conversion_text(sh);
        assert(out@ =~= impl_header(sh) + alias_text(sh) + method_header(sh)
            + concat_texts(conversion_stmts(sh)));
    }

    if b.descriptor.mutates_in_place {
        out.append("        *self = ");
        out.append(b.name.as_str());
        out.append(" {\n");
    } else {
        out.append("        ");
        out.append(b.name.as_str());
        out.append(" {\n");
    }
    proof {
        assert(out@ =~= impl_header(sh) + alias_text(sh) + method_header(sh)
            + concat_texts(conversion_stmts(sh)) + literal_open(sh));
    }

    if unary {
        push_neg_field_lines(&mut out, &b.fields);
    } else {
        push_binary_field_lines(&mut out, &b.fields, b.descriptor.symbol);
    }

    if b.descriptor.mutates_in_place {
        out.append("        };\n");
    } else {
        out.append("        }\n");
    }
    out.append("    }\n");
    out.append("}\n");
    proof {
        assert(out@ =~= impl_text(sh));
    }
    out
}

} // verus!
