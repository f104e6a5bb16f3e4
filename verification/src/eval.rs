//! The field-wise meaning of generated implementations.
//!
//! A generated binary method combines two records of the same shape
//! element by element; negation negates each field. This module states
//! that meaning over sequences of field values and provides executable
//! evaluators proved against it, so that what a generated block computes
//! can be stated, proved and tested without compiling emitted text.

use vstd::prelude::*;
use vstd::arithmetic::div_mod::{lemma_div_is_ordered_by_denominator, lemma_div_nonincreasing};
use crate::ops::{OpKind, Symbol};
use crate::schema::FieldId;
use crate::synth::{ImplShape, kind_shape};

verus! {

/// The magnitude of an integer.
pub open spec fn abs_val(a: int) -> nat {
    if a >= 0 {
        a as nat
    } else {
        (-a) as nat
    }
}

/// Integer division as the generated code's host language computes it:
/// the quotient of the magnitudes, carrying the sign of the exact
/// quotient (truncation toward zero).
pub open spec fn trunc_div(a: int, b: int) -> int
    recommends
        b != 0,
{
    if (a >= 0) == (b >= 0) {
        (abs_val(a) / abs_val(b)) as int
    } else {
        -((abs_val(a) / abs_val(b)) as int)
    }
}

/// The value of one combining operator on one pair of fields.
pub open spec fn sym_value(sym: Symbol, a: int, b: int) -> int {
    match sym {
        Symbol::Plus => a + b,
        Symbol::Minus => a - b,
        Symbol::Star => a * b,
        Symbol::Slash => trunc_div(a, b),
    }
}

/// The field values of a record, widened to mathematical integers.
pub open spec fn int_vals(v: Seq<i64>) -> Seq<int> {
    Seq::new(v.len(), |i: int| v[i] as int)
}

/// Field-wise combination of two equal-shape records, in field order.
pub open spec fn combined(sym: Symbol, lhs: Seq<int>, rhs: Seq<int>) -> Seq<int> {
    Seq::new(lhs.len(), |i: int| sym_value(sym, lhs[i], rhs[i]))
}

/// Field-wise negation of one record.
pub open spec fn negated(vals: Seq<int>) -> Seq<int> {
    Seq::new(vals.len(), |i: int| -vals[i])
}

/// What the method of a generated implementation computes: the value of
/// the fresh record literal it builds — returned by a constructive
/// operation, assigned onto the receiver by an in-place one.
pub open spec fn shape_result(s: ImplShape, lhs: Seq<int>, rhs: Seq<int>) -> Seq<int> {
    if s.unary {
        negated(lhs)
    } else {
        combined(s.symbol, lhs, rhs)
    }
}

/// Every pair of fields can be combined without leaving the field type's
/// range, and no divisor is zero.
pub open spec fn eval_ok(sym: Symbol, lhs: Seq<int>, rhs: Seq<int>) -> bool {
    &&& lhs.len() == rhs.len()
    &&& forall|i: int|
        0 <= i < lhs.len() ==> i64::MIN <= #[trigger] sym_value(sym, lhs[i], rhs[i]) <= i64::MAX
    &&& (sym is Slash ==> forall|i: int| 0 <= i < lhs.len() ==> rhs[i] != 0)
}

fn div_trunc_i64(a: i64, b: i64) -> (q: i64)
    requires
        b != 0,
        !(a == i64::MIN && b == -1),
    ensures
        q as int == trunc_div(a as int, b as int),
{
    let ua: u64 = if a >= 0 {
        a as u64
    } else {
        (-(a + 1)) as u64 + 1
    };
    let ub: u64 = if b >= 0 {
        b as u64
    } else {
        (-(b + 1)) as u64 + 1
    };
    proof {
        assert(ua as int == abs_val(a as int));
        assert(ub as int == abs_val(b as int));
    }
    let mag: u64 = ua / ub;
    proof {
        lemma_div_nonincreasing(ua as int, ub as int);
    }
    let negative = (a < 0) != (b < 0);
    if negative {
        if mag == 9223372036854775808u64 {
            i64::MIN
        } else {
            -(mag as i64)
        }
    } else {
        proof {
            if a == i64::MIN {
                assert(b < 0 && b != -1);
                assert(ub >= 2);
                lemma_div_is_ordered_by_denominator(ua as int, 2, ub as int);
                assert(ua as int / 2 == 0x4000_0000_0000_0000int);
            }
        }
        mag as i64
    }
}

fn apply_sym(sym: Symbol, a: i64, b: i64) -> (r: i64)
    requires
        i64::MIN <= sym_value(sym, a as int, b as int) <= i64::MAX,
        sym is Slash ==> b != 0,
    ensures
        r as int == sym_value(sym, a as int, b as int),
{
    match sym {
        Symbol::Plus => a + b,
        Symbol::Minus => a - b,
        Symbol::Star => a * b,
        Symbol::Slash => {
            proof {
                if a == i64::MIN && b == -1 {
                    assert(abs_val(a as int) == 0x8000_0000_0000_0000nat);
                    assert(abs_val(b as int) == 1nat);
                    vstd::arithmetic::div_mod::lemma_div_basics(0x8000_0000_0000_0000int);
                    assert((abs_val(a as int) / abs_val(b as int)) as int == 0x8000_0000_0000_0000int);
                }
            }
            div_trunc_i64(a, b)
        },
    }
}

/// Evaluates one generated binary method: combines the receiver's fields
/// with the (already converted) right-hand record's fields, pairwise and
/// in field order — the record literal a constructive operation returns.
pub fn combine_values(sym: Symbol, lhs: &Vec<i64>, rhs: &Vec<i64>) -> (r: Vec<i64>)
    requires
        eval_ok(sym, int_vals(lhs@), int_vals(rhs@)),
    ensures
        int_vals(r@) == combined(sym, int_vals(lhs@), int_vals(rhs@)),
{
    let n = lhs.len();
    let mut r: Vec<i64> = Vec::new();
    for i in 0..n
        invariant
            n == lhs@.len() == rhs@.len(),
            eval_ok(sym, int_vals(lhs@), int_vals(rhs@)),
            r@.len() == i,
            forall|j: int|
                0 <= j < i ==> #[trigger] r@[j] as int == sym_value(sym, lhs@[j] as int, rhs@[j] as int),
    {
        proof {
            assert(int_vals(lhs@)[i as int] == lhs@[i as int] as int);
            assert(int_vals(rhs@)[i as int] == rhs@[i as int] as int);
            assert(sym_value(sym, int_vals(lhs@)[i as int], int_vals(rhs@)[i as int])
                == sym_value(sym, lhs@[i as int] as int, rhs@[i as int] as int));
        }
        let v = apply_sym(sym, lhs[i], rhs[i]);
        r.push(v);
    }
    proof {
        assert(int_vals(r@) =~= combined(sym, int_vals(lhs@), int_vals(rhs@)));
    }
    r
}

/// Evaluates one generated in-place method: the receiver is overwritten,
/// as a whole, with exactly the record its constructive counterpart
/// would construct from the pre-state.
pub fn combine_in_place(sym: Symbol, lhs: &mut Vec<i64>, rhs: &Vec<i64>)
    requires
        eval_ok(sym, int_vals(old(lhs)@), int_vals(rhs@)),
    ensures
        int_vals(final(lhs)@) == combined(sym, int_vals(old(lhs)@), int_vals(rhs@)),
{
    let fresh = combine_values(sym, lhs, rhs);
    *lhs = fresh;
}

/// Evaluates the generated negation method: a new record whose fields
/// are the receiver's, each negated, in field order.
pub fn negate_values(lhs: &Vec<i64>) -> (r: Vec<i64>)
    requires
        forall|i: int| 0 <= i < lhs@.len() ==> #[trigger] lhs@[i] as int != i64::MIN,
    ensures
        int_vals(r@) == negated(int_vals(lhs@)),
{
    let n = lhs.len();
    let mut r: Vec<i64> = Vec::new();
    for i in 0..n
        invariant
            n == lhs@.len(),
            forall|j: int| 0 <= j < n ==> #[trigger] lhs@[j] as int != i64::MIN,
            r@.len() == i,
            forall|j: int| 0 <= j < i ==> #[trigger] r@[j] as int == -(lhs@[j] as int),
    {
        let v = -lhs[i];
        r.push(v);
    }
    proof {
        assert(int_vals(r@) =~= negated(int_vals(lhs@)));
    }
    r
}

/// In-place vs constructive (law): for every in-place kind, the
/// generated implementation mutates its receiver, its constructive
/// counterpart does not, and the record assigned onto the receiver is
/// exactly the record the counterpart would construct from the same
/// pre-state and the same converted right-hand operand.
pub proof fn lemma_in_place_matches_constructive(
    name: Seq<char>,
    fields: Seq<FieldId>,
    kind: OpKind,
    lhs: Seq<int>,
    rhs: Seq<int>,
)
    requires
        kind.is_assign(),
    ensures
        kind_shape(name, fields, kind).in_place,
        !kind_shape(name, fields, kind.constructive()).in_place,
        shape_result(kind_shape(name, fields, kind), lhs, rhs) == shape_result(
            kind_shape(name, fields, kind.constructive()),
            lhs,
            rhs,
        ),
{
}

/// Positional vs named equivalence (law): what a generated binary
/// implementation computes depends only on the operation kind and the
/// operand values, never on the record's name or on how its fields are
/// identified. In particular a positional record and a structurally
/// identical named record yield equal field values from equal inputs.
pub proof fn lemma_result_ignores_identifiers(
    name1: Seq<char>,
    fields1: Seq<FieldId>,
    name2: Seq<char>,
    fields2: Seq<FieldId>,
    kind: OpKind,
    lhs: Seq<int>,
    rhs: Seq<int>,
)
    ensures
        shape_result(kind_shape(name1, fields1, kind), lhs, rhs) == shape_result(
            kind_shape(name2, fields2, kind),
            lhs,
            rhs,
        ),
{
}

} // verus!
