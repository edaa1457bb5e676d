//! Constant folding over the modelled syntax.
//!
//! Resolution turns an expression into an optional 64-bit integer using a
//! table of previously recorded variable values. It never fails: any shape
//! or operand it cannot resolve yields no value. Arithmetic follows the
//! checked 64-bit semantics below; division truncates toward zero as the
//! script language does; bitwise operators work on the full 64-bit value;
//! shift amounts are masked to the low six bits; the complement operator is
//! the 64-bit complement. Truthiness is plain: zero is the one falsy number.
//!
//! Index resolution accepts a partial binary resolution: when exactly one
//! side of a binary expression resolves, that side's value serves as the
//! index. As a last resort it descends through call-argument lists and
//! member-expression objects looking for the first numeric or parseable
//! string literal. A value outside the unsigned 16-bit range never becomes
//! an index.

use vstd::prelude::*;
use crate::ast::{BinOp, Expr, LogOp, UnOp};
use crate::smap::{spec_get, SMap};
use crate::strutil::{parse_num_str, spec_parse_num};

verus! {

/// Whether a resolved number counts as true in a test position.
pub open spec fn spec_truthy(v: i64) -> bool {
    v != 0
}

/// Checked 64-bit addition.
pub open spec fn spec_add(l: i64, r: i64) -> Option<i64> {
    if i64::MIN <= l + r <= i64::MAX {
        Some((l + r) as i64)
    } else {
        None
    }
}

/// Checked 64-bit subtraction.
pub open spec fn spec_sub(l: i64, r: i64) -> Option<i64> {
    if i64::MIN <= l - r <= i64::MAX {
        Some((l - r) as i64)
    } else {
        None
    }
}

/// Checked 64-bit multiplication.
pub open spec fn spec_mul(l: i64, r: i64) -> Option<i64> {
    if i64::MIN <= l * r <= i64::MAX {
        Some((l * r) as i64)
    } else {
        None
    }
}

/// Magnitude of a 64-bit value, as a mathematical integer.
pub open spec fn spec_abs(l: i64) -> int {
    if l >= 0 {
        l as int
    } else {
        -(l as int)
    }
}

/// Division truncated toward zero; no value for a zero divisor or for the
/// one quotient that exceeds the 64-bit range.
pub open spec fn spec_div(l: i64, r: i64) -> Option<i64> {
    if r == 0 || (l == i64::MIN && r == -1) {
        None
    } else {
        let q = spec_abs(l) / spec_abs(r);
        if (l < 0) == (r < 0) {
            Some(q as i64)
        } else {
            Some((-q) as i64)
        }
    }
}

/// Remainder with the dividend's sign; no value for a zero divisor.
pub open spec fn spec_rem(l: i64, r: i64) -> Option<i64> {
    if r == 0 {
        None
    } else {
        let m = spec_abs(l) % spec_abs(r);
        if l < 0 {
            Some((-m) as i64)
        } else {
            Some(m as i64)
        }
    }
}

/// What one application of a foldable unary operator yields.
pub open spec fn spec_unary(op: UnOp, v: i64) -> Option<i64> {
    match op {
        UnOp::Minus => if v == i64::MIN {
            None
        } else {
            Some((-v) as i64)
        },
        UnOp::Plus => Some(v),
        UnOp::BitNot => Some((-v - 1) as i64),
        UnOp::LogicNot => if v == 0 {
            Some(1)
        } else {
            Some(0)
        },
        _ => None,
    }
}

/// What one application of a foldable binary operator yields. Comparison
/// and relational operators are never folded.
pub open spec fn spec_binary(op: BinOp, l: i64, r: i64) -> Option<i64> {
    match op {
        BinOp::Add => spec_add(l, r),
        BinOp::Sub => spec_sub(l, r),
        BinOp::Mul => spec_mul(l, r),
        BinOp::Div => spec_div(l, r),
        BinOp::Mod => spec_rem(l, r),
        BinOp::BitAnd => Some(l & r),
        BinOp::BitOr => Some(l | r),
        BinOp::BitXor => Some(l ^ r),
        BinOp::Shl => Some(l << (r & 63)),
        BinOp::Shr => Some(l >> (r & 63)),
        _ => None,
    }
}

/// What an expression resolves to under a variable table; no value wherever
/// the shape or an operand is not resolvable.
pub open spec fn spec_resolve(vars: Seq<(Seq<char>, i64)>, e: Expr) -> Option<i64>
    decreases e, 0int,
{
    match e {
        Expr::Num(v) => Some(v),
        Expr::Str(s) => spec_parse_num(s@),
        Expr::Ident(name) => spec_get(vars, name@),
        Expr::Paren(inner) => spec_resolve(vars, *inner),
        Expr::Sequence(items) => if items@.len() == 0 {
            None
        } else {
            spec_resolve(vars, items@.last())
        },
        Expr::Unary(op, arg) => match spec_resolve(vars, *arg) {
            Some(v) => spec_unary(op, v),
            None => None,
        },
        Expr::Binary(op, l, r) => match (spec_resolve(vars, *l), spec_resolve(vars, *r)) {
            (Some(lv), Some(rv)) => spec_binary(op, lv, rv),
            _ => None,
        },
        Expr::Logical(op, l, r) => {
            let lv = spec_resolve(vars, *l);
            let rv = spec_resolve(vars, *r);
            match op {
                LogOp::Or => match lv {
                    Some(v) => if spec_truthy(v) {
                        Some(v)
                    } else {
                        rv
                    },
                    None => rv,
                },
                LogOp::And => match lv {
                    Some(v) => if !spec_truthy(v) {
                        Some(v)
                    } else {
                        rv
                    },
                    None => None,
                },
                LogOp::Nullish => match lv {
                    Some(v) => Some(v),
                    None => rv,
                },
            }
        },
        Expr::Conditional(test, cons, alt) => match spec_resolve(vars, *test) {
            Some(t) => if spec_truthy(t) {
                spec_resolve(vars, *cons)
            } else {
                spec_resolve(vars, *alt)
            },
            None => None,
        },
        _ => None,
    }
}

/// First numeric or parseable string literal reachable by descending
/// through call-argument lists and member-expression objects.
pub open spec fn spec_first_lit(e: Expr) -> Option<i64>
    decreases e, 0int,
{
    match e {
        Expr::Num(v) => Some(v),
        Expr::Str(s) => spec_parse_num(s@),
        Expr::Call(_, args) => spec_first_lit_list(args@, 0),
        Expr::Computed(obj, _) => spec_first_lit(*obj),
        Expr::Member(obj, _) => spec_first_lit(*obj),
        _ => None,
    }
}

/// First literal found in `args` at or after position `i`.
pub open spec fn spec_first_lit_list(args: Seq<Expr>, i: int) -> Option<i64>
    decreases args, args.len() - i,
{
    if i < 0 || i >= args.len() {
        None
    } else {
        match spec_first_lit(args[i]) {
            Some(v) => Some(v),
            None => spec_first_lit_list(args, i + 1),
        }
    }
}

/// The opcode-slot index an expression yields: a full resolution, else the
/// single resolvable side of a binary expression, else the first literal
/// fallback; accepted only within the unsigned 16-bit range.
pub open spec fn spec_resolve_index(vars: Seq<(Seq<char>, i64)>, e: Expr) -> Option<u16> {
    let candidate = match spec_resolve(vars, e) {
        Some(v) => Some(v),
        None => match e {
            Expr::Binary(_, l, r) => match (spec_resolve(vars, *l), spec_resolve(vars, *r)) {
                (Some(lv), None) => Some(lv),
                (None, Some(rv)) => Some(rv),
                _ => spec_first_lit(e),
            },
            _ => spec_first_lit(e),
        },
    };
    match candidate {
        Some(v) => if 0 <= v <= u16::MAX {
            Some(v as u16)
        } else {
            None
        },
        None => None,
    }
}

/// Checked addition over the wide intermediate.
fn exec_add(l: i64, r: i64) -> (res: Option<i64>)
    ensures
        res == spec_add(l, r),
{
    let w: i128 = l as i128 + r as i128;
    if w >= i64::MIN as i128 && w <= i64::MAX as i128 {
        Some(w as i64)
    } else {
        None
    }
}

/// Checked subtraction over the wide intermediate.
fn exec_sub(l: i64, r: i64) -> (res: Option<i64>)
    ensures
        res == spec_sub(l, r),
{
    let w: i128 = l as i128 - r as i128;
    if w >= i64::MIN as i128 && w <= i64::MAX as i128 {
        Some(w as i64)
    } else {
        None
    }
}

/// Checked multiplication over the wide intermediate.
fn exec_mul(l: i64, r: i64) -> (res: Option<i64>)
    ensures
        res == spec_mul(l, r),
{
    proof {
        assert((l as int) * (r as int) <= 0x40000000000000000000000000000000
            && (l as int) * (r as int) >= -0x40000000000000000000000000000000)
            by (nonlinear_arith)
            requires
                -0x8000000000000000 <= l as int <= 0x7fffffffffffffff,
                -0x8000000000000000 <= r as int <= 0x7fffffffffffffff,
        ;
    }
    let w: i128 = l as i128 * r as i128;
    if w >= i64::MIN as i128 && w <= i64::MAX as i128 {
        Some(w as i64)
    } else {
        None
    }
}

/// Magnitude as an unsigned 64-bit value.
fn exec_abs(l: i64) -> (res: u64)
    ensures
        res == spec_abs(l),
{
    if l >= 0 {
        l as u64
    } else {
        (-(l + 1)) as u64 + 1
    }
}

/// Division truncated toward zero.
fn exec_div(l: i64, r: i64) -> (res: Option<i64>)
    ensures
        res == spec_div(l, r),
{
    if r == 0 || (l == i64::MIN && r == -1) {
        return None;
    }
    let la = exec_abs(l);
    let ra = exec_abs(r);
    let q = la / ra;
    proof {
        assert(la as int / ra as int <= la as int) by (nonlinear_arith)
            requires
                ra as int >= 1,
                la as int >= 0,
        ;
        if l == i64::MIN && r < 0 {
            assert(ra >= 2);
            assert(la as int / ra as int <= la as int / 2) by (nonlinear_arith)
                requires
                    ra as int >= 2,
                    la as int >= 0,
            ;
        }
    }
    if (l < 0) == (r < 0) {
        Some(q as i64)
    } else {
        if q >= 9223372036854775808u64 {
            Some(i64::MIN)
        } else {
            Some(0i64 - q as i64)
        }
    }
}

/// Remainder with the dividend's sign.
fn exec_rem(l: i64, r: i64) -> (res: Option<i64>)
    ensures
        res == spec_rem(l, r),
{
    if r == 0 {
        return None;
    }
    let la = exec_abs(l);
    let ra = exec_abs(r);
    let m = la % ra;
    if l < 0 {
        Some(0i64 - m as i64)
    } else {
        Some(m as i64)
    }
}

/// One foldable unary application.
fn exec_unary(op: UnOp, v: i64) -> (res: Option<i64>)
    ensures
        res == spec_unary(op, v),
{
    match op {
        UnOp::Minus => if v == i64::MIN {
            None
        } else {
            Some(-v)
        },
        UnOp::Plus => Some(v),
        UnOp::BitNot => if v >= 0 {
            Some(-v - 1)
        } else {
            Some(-(v + 1))
        },
        UnOp::LogicNot => if v == 0 {
            Some(1)
        } else {
            Some(0)
        },
        _ => None,
    }
}

/// One foldable binary application.
fn exec_binary(op: BinOp, l: i64, r: i64) -> (res: Option<i64>)
    ensures
        res == spec_binary(op, l, r),
{
    match op {
        BinOp::Add => exec_add(l, r),
        BinOp::Sub => exec_sub(l, r),
        BinOp::Mul => exec_mul(l, r),
        BinOp::Div => exec_div(l, r),
        BinOp::Mod => exec_rem(l, r),
        BinOp::BitAnd => Some(l & r),
        BinOp::BitOr => Some(l | r),
        BinOp::BitXor => Some(l ^ r),
        BinOp::Shl => {
            proof {
                assert(r & 63 >= 0 && r & 63 < 64) by (bit_vector);
            }
            Some(l << (r & 63))
        },
        BinOp::Shr => {
            proof {
                assert(r & 63 >= 0 && r & 63 < 64) by (bit_vector);
            }
            Some(l >> (r & 63))
        },
        _ => None,
    }
}

/// Resolves an expression to a number under the variable table, per
/// `spec_resolve`.
pub fn resolve_expr(vars: &SMap<i64>, e: &Expr) -> (res: Option<i64>)
    ensures
        res == spec_resolve(vars@, *e),
    decreases *e, 0int,
{
    match e {
        Expr::Num(v) => Some(*v),
        Expr::Str(s) => parse_num_str(s.as_str()),
        Expr::Ident(name) => vars.get(name.as_str()),
        Expr::Paren(inner) => resolve_expr(vars, inner),
        Expr::Sequence(items) => {
            let n = items.len();
            if n == 0 {
                None
            } else {
                resolve_expr(vars, &items[n - 1])
            }
        },
        Expr::Unary(op, arg) => match resolve_expr(vars, arg) {
            Some(v) => exec_unary(*op, v),
            None => None,
        },
        Expr::Binary(op, l, r) => {
            let lv = resolve_expr(vars, l);
            let rv = resolve_expr(vars, r);
            match (lv, rv) {
                (Some(lv), Some(rv)) => exec_binary(*op, lv, rv),
                _ => None,
            }
        },
        Expr::Logical(op, l, r) => {
            let lv = resolve_expr(vars, l);
            let rv = resolve_expr(vars, r);
            match op {
                LogOp::Or => match lv {
                    Some(v) => if v != 0 {
                        Some(v)
                    } else {
                        rv
                    },
                    None => rv,
                },
                LogOp::And => match lv {
                    Some(v) => if v == 0 {
                        Some(v)
                    } else {
                        rv
                    },
                    None => None,
                },
                LogOp::Nullish => match lv {
                    Some(v) => Some(v),
                    None => rv,
                },
            }
        },
        Expr::Conditional(test, cons, alt) => match resolve_expr(vars, test) {
            Some(t) => if t != 0 {
                resolve_expr(vars, cons)
            } else {
                resolve_expr(vars, alt)
            },
            None => None,
        },
        _ => None,
    }
}

/// First literal reachable by the last-resort descent, per
/// `spec_first_lit`.
pub fn first_lit(e: &Expr) -> (res: Option<i64>)
    ensures
        res == spec_first_lit(*e),
    decreases *e, 0int,
{
    match e {
        Expr::Num(v) => Some(*v),
        Expr::Str(s) => parse_num_str(s.as_str()),
        Expr::Call(_, args) => first_lit_args(args, 0),
        Expr::Computed(obj, _) => first_lit(obj),
        Expr::Member(obj, _) => first_lit(obj),
        _ => None,
    }
}

/// First literal found in `args` at or after position `from`, per
/// `spec_first_lit_list`.
fn first_lit_args(args: &Vec<Expr>, from: usize) -> (res: Option<i64>)
    ensures
        res == spec_first_lit_list(args@, from as int),
    decreases *args, args@.len() - from,
{
    if from >= args.len() {
        None
    } else {
        let v = first_lit(&args[from]);
        match v {
            Some(found) => Some(found),
            None => first_lit_args(args, from + 1),
        }
    }
}

/// Resolves an expression to an opcode-slot index, per
/// `spec_resolve_index`.
pub fn resolve_index(vars: &SMap<i64>, e: &Expr) -> (res: Option<u16>)
    ensures
        res == spec_resolve_index(vars@, *e),
{
    let direct = resolve_expr(vars, e);
    let candidate: Option<i64> = match direct {
        Some(v) => Some(v),
        None => match e {
            Expr::Binary(_, l, r) => {
                let lv = resolve_expr(vars, l);
                let rv = resolve_expr(vars, r);
                match (lv, rv) {
                    (Some(lv), None) => Some(lv),
                    (None, Some(rv)) => Some(rv),
                    _ => first_lit(e),
                }
            },
            _ => first_lit(e),
        },
    };
    match candidate {
        Some(v) => if 0 <= v && v <= u16::MAX as i64 {
            Some(v as u16)
        } else {
            None
        },
        None => None,
    }
}


/// Law: an expression referencing an identifier bound nowhere in the
/// variable table resolves to nothing; resolution is total, so the
/// surrounding traversal never aborts on it.
pub proof fn lemma_unknown_identifier_unresolved(vars: Seq<(Seq<char>, i64)>, name: String)
    requires
        spec_get(vars, name@) is None,
    ensures
        spec_resolve(vars, Expr::Ident(name)) is None,
{
}

} // verus!
