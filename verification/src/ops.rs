//! The operation descriptor table: the fixed nine-entry mapping from an
//! operation kind to its generation metadata.

use vstd::prelude::*;

verus! {

/// The nine operation kinds the generator understands: four constructive
/// binary operations, their four in-place variants, and unary negation.
#[derive(Clone, Copy, PartialEq, Eq, Structural, Debug)]
pub enum OpKind {
    Add,
    Sub,
    Mul,
    Div,
    AddAssign,
    SubAssign,
    MulAssign,
    DivAssign,
    Neg,
}

/// The per-field combining operator spliced between the two field
/// accesses (or, for `Minus` under negation, in front of one).
#[derive(Clone, Copy, PartialEq, Eq, Structural, Debug)]
pub enum Symbol {
    Plus,
    Minus,
    Star,
    Slash,
}

impl OpKind {
    /// True for the four in-place kinds.
    pub open spec fn is_assign(self) -> bool {
        match self {
            OpKind::AddAssign | OpKind::SubAssign | OpKind::MulAssign | OpKind::DivAssign => true,
            _ => false,
        }
    }

    /// True for the eight kinds that take a right-hand operand.
    pub open spec fn is_binary(self) -> bool {
        !(self is Neg)
    }

    /// The constructive counterpart of an in-place kind; any other kind
    /// is its own counterpart.
    pub open spec fn constructive(self) -> OpKind {
        match self {
            OpKind::AddAssign => OpKind::Add,
            OpKind::SubAssign => OpKind::Sub,
            OpKind::MulAssign => OpKind::Mul,
            OpKind::DivAssign => OpKind::Div,
            other => other,
        }
    }

    /// The trait the generated implementation satisfies.
    pub open spec fn spec_trait_name(self) -> Seq<char> {
        match self {
            OpKind::Add => "Add"@,
            OpKind::Sub => "Sub"@,
            OpKind::Mul => "Mul"@,
            OpKind::Div => "Div"@,
            OpKind::AddAssign => "AddAssign"@,
            OpKind::SubAssign => "SubAssign"@,
            OpKind::MulAssign => "MulAssign"@,
            OpKind::DivAssign => "DivAssign"@,
            OpKind::Neg => "Neg"@,
        }
    }

    /// The method of that trait.
    pub open spec fn spec_method_name(self) -> Seq<char> {
        match self {
            OpKind::Add => "add"@,
            OpKind::Sub => "sub"@,
            OpKind::Mul => "mul"@,
            OpKind::Div => "div"@,
            OpKind::AddAssign => "add_assign"@,
            OpKind::SubAssign => "sub_assign"@,
            OpKind::MulAssign => "mul_assign"@,
            OpKind::DivAssign => "div_assign"@,
            OpKind::Neg => "neg"@,
        }
    }

    /// The per-field combining operator.
    pub open spec fn spec_symbol(self) -> Symbol {
        match self {
            OpKind::Add | OpKind::AddAssign => Symbol::Plus,
            OpKind::Sub | OpKind::SubAssign | OpKind::Neg => Symbol::Minus,
            OpKind::Mul | OpKind::MulAssign => Symbol::Star,
            OpKind::Div | OpKind::DivAssign => Symbol::Slash,
        }
    }

    /// True only for the four constructive binary kinds, which declare
    /// their result type through an `Output` alias driven by the
    /// descriptor; negation declares the same alias through its own
    /// template shape instead.
    pub open spec fn spec_has_alias(self) -> bool {
        match self {
            OpKind::Add | OpKind::Sub | OpKind::Mul | OpKind::Div => true,
            _ => false,
        }
    }
}

/// The text of a combining operator as generated code spells it.
pub open spec fn symbol_text(sym: Symbol) -> Seq<char> {
    match sym {
        Symbol::Plus => "+"@,
        Symbol::Minus => "-"@,
        Symbol::Star => "*"@,
        Symbol::Slash => "/"@,
    }
}

/// Renders a combining operator.
pub fn symbol_str(sym: Symbol) -> (r: &'static str)
    ensures
        r@ == symbol_text(sym),
{
    match sym {
        Symbol::Plus => "+",
        Symbol::Minus => "-",
        Symbol::Star => "*",
        Symbol::Slash => "/",
    }
}

/// Generation metadata for one operation kind. Exactly nine descriptors
/// exist; they are only ever looked up through [`describe`], never
/// constructed at generation time.
pub struct OperationDescriptor {
    pub kind: OpKind,
    pub trait_name: String,
    pub method_name: String,
    pub symbol: Symbol,
    pub mutates_in_place: bool,
    pub has_output_type_alias: bool,
}

impl OperationDescriptor {
    /// The descriptor agrees with the fixed table entry for its kind.
    pub open spec fn wf(self) -> bool {
        &&& self.trait_name@ == self.kind.spec_trait_name()
        &&& self.method_name@ == self.kind.spec_method_name()
        &&& self.symbol == self.kind.spec_symbol()
        &&& self.mutates_in_place == self.kind.is_assign()
        &&& self.has_output_type_alias == self.kind.spec_has_alias()
    }
}

/// Total, side-effect-free lookup over the fixed nine-entry table: every
/// kind has exactly one entry, and the entry returned is the one for the
/// requested kind.
pub fn describe(kind: OpKind) -> (d: OperationDescriptor)
    ensures
        d.kind == kind,
        d.wf(),
{
    match kind {
        OpKind::Add => OperationDescriptor {
            kind,
            trait_name: "Add".to_owned(),
            method_name: "add".to_owned(),
            symbol: Symbol::Plus,
            mutates_in_place: false,
            has_output_type_alias: true,
        },
        OpKind::Sub => OperationDescriptor {
            kind,
            trait_name: "Sub".to_owned(),
            method_name: "sub".to_owned(),
            symbol: Symbol::Minus,
            mutates_in_place: false,
            has_output_type_alias: true,
        },
        OpKind::Mul => OperationDescriptor {
            kind,
            trait_name: "Mul".to_owned(),
            method_name: "mul".to_owned(),
            symbol: Symbol::Star,
            mutates_in_place: false,
            has_output_type_alias: true,
        },
        OpKind::Div => OperationDescriptor {
            kind,
            trait_name: "Div".to_owned(),
            method_name: "div".to_owned(),
            symbol: Symbol::Slash,
            mutates_in_place: false,
            has_output_type_alias: true,
        },
        OpKind::AddAssign => OperationDescriptor {
            kind,
            trait_name: "AddAssign".to_owned(),
            method_name: "add_assign".to_owned(),
            symbol: Symbol::Plus,
            mutates_in_place: true,
            has_output_type_alias: false,
        },
        OpKind::SubAssign => OperationDescriptor {
            kind,
            trait_name: "SubAssign".to_owned(),
            method_name: "sub_assign".to_owned(),
            symbol: Symbol::Minus,
            mutates_in_place: true,
            has_output_type_alias: false,
        },
        OpKind::MulAssign => OperationDescriptor {
            kind,
            trait_name: "MulAssign".to_owned(),
            method_name: "mul_assign".to_owned(),
            symbol: Symbol::Star,
            mutates_in_place: true,
            has_output_type_alias: false,
        },
        OpKind::DivAssign => OperationDescriptor {
            kind,
            trait_name: "DivAssign".to_owned(),
            method_name: "div_assign".to_owned(),
            symbol: Symbol::Slash,
            mutates_in_place: true,
            has_output_type_alias: false,
        },
        OpKind::Neg => OperationDescriptor {
            kind,
            trait_name: "Neg".to_owned(),
            method_name: "neg".to_owned(),
            symbol: Symbol::Minus,
            mutates_in_place: false,
            has_output_type_alias: false,
        },
    }
}

} // verus!
