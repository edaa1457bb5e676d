//! Recovery of the byte-masking key expression and the call-paired offset.
//!
//! The key expression is the right side of the first assignment found
//! inside a `for` loop whose right side is a bitwise AND with the literal
//! 255: the fragment is retained for the external decoder to reuse, not
//! evaluated here. The offset is the numeric literal of the first binary
//! `+` or `^` expression pairing a non-zero literal with a call expression,
//! cast to 16-bit signed. Both searches take the first match in tree order
//! and look no further.

use vstd::prelude::*;
use crate::ast::{AssignTarget, BinOp, Declarator, Expr, Program, Stmt};

verus! {

/// Captured key-masking operations; retained for the external decoder.
#[derive(Debug, Clone, Copy, PartialEq, Eq, Default)]
pub struct KeyOperations {
    pub add: u32,
    pub multiply: u32,
}

/// Whether an expression is the byte-masking shape: a bitwise AND whose
/// right operand is the literal 255.
pub open spec fn spec_key_shape(e: Expr) -> bool {
    e matches Expr::Binary(BinOp::BitAnd, _, r) && *r matches Expr::Num(255)
}

/// A value cast to 16-bit signed, two's complement.
pub open spec fn spec_wrap_i16(v: i64) -> i16 {
    let m = (v as int) % 0x10000;
    if m >= 0x8000 {
        (m - 0x10000) as i16
    } else {
        m as i16
    }
}

/// The offset a binary node yields: a `+` or `^` pairing a non-zero
/// numeric literal with a call expression; the literal is cast to 16-bit
/// signed.
pub open spec fn spec_offset_of_node(e: Expr) -> Option<i16> {
    match e {
        Expr::Binary(op, l, r) => {
            if op == BinOp::Add || op == BinOp::BitXor {
                match (*l, *r) {
                    (Expr::Num(v), Expr::Call(_, _)) => if v != 0 {
                        Some(spec_wrap_i16(v))
                    } else {
                        None
                    },
                    (Expr::Call(_, _), Expr::Num(v)) => if v != 0 {
                        Some(spec_wrap_i16(v))
                    } else {
                        None
                    },
                    _ => None,
                }
            } else {
                None
            }
        },
        _ => None,
    }
}

/// Casts a value to 16-bit signed, per `spec_wrap_i16`.
fn wrap_i16(v: i64) -> (r: i16)
    ensures
        r == spec_wrap_i16(v),
{
    let la: u64 = if v >= 0 {
        v as u64
    } else {
        (-(v + 1)) as u64 + 1
    };
    let rm: u64 = la % 65536;
    let m: u64 = if v >= 0 {
        rm
    } else if rm == 0 {
        0
    } else {
        65536 - rm
    };
    proof {
        if v < 0 {
            assert(la as int == -(v as int));
            assert((v as int) % 0x10000 == (if (la as int) % 0x10000 == 0 {
                0int
            } else {
                0x10000 - (la as int) % 0x10000
            })) by (nonlinear_arith)
                requires
                    la as int == -(v as int),
                    la as int >= 0,
            ;
        }
        assert(m as int == (v as int) % 0x10000);
    }
    if m >= 32768 {
        (m as i64 - 65536) as i16
    } else {
        m as i16
    }
}

/// First key-expression capture in an expression, node first.
pub open spec fn key_in_expr(e: Expr, in_for: bool) -> Option<Expr>
    decreases e, 1int,
{
    let node = match e {
        Expr::Assign(_, rhs) => if in_for && spec_key_shape(*rhs) {
            Some(*rhs)
        } else {
            None
        },
        _ => None,
    };
    if node is Some {
        node
    } else {
        match e {
            Expr::Paren(inner) => key_in_expr(*inner, in_for),
            Expr::Sequence(items) => key_in_expr_list(items@, 0, in_for),
            Expr::Unary(_, arg) => key_in_expr(*arg, in_for),
            Expr::Binary(_, l, r) => key_first(
                key_in_expr(*l, in_for),
                key_in_expr(*r, in_for),
            ),
            Expr::Logical(_, l, r) => key_first(
                key_in_expr(*l, in_for),
                key_in_expr(*r, in_for),
            ),
            Expr::Conditional(t, c, a) => key_first(
                key_in_expr(*t, in_for),
                key_first(key_in_expr(*c, in_for), key_in_expr(*a, in_for)),
            ),
            Expr::Call(callee, args) => key_first(
                key_in_expr(*callee, in_for),
                key_in_expr_list(args@, 0, in_for),
            ),
            Expr::New(callee, args) => key_first(
                key_in_expr(*callee, in_for),
                key_in_expr_list(args@, 0, in_for),
            ),
            Expr::Computed(obj, idx) => key_first(
                key_in_expr(*obj, in_for),
                key_in_expr(*idx, in_for),
            ),
            Expr::Member(obj, _) => key_in_expr(*obj, in_for),
            Expr::Assign(target, value) => key_first(
                key_in_target(target, in_for),
                key_in_expr(*value, in_for),
            ),
            Expr::Array(items) => key_in_expr_list(items@, 0, in_for),
            Expr::Object(values) => key_in_expr_list(values@, 0, in_for),
            Expr::Function(f) => key_in_stmt_list(f.body@, 0, in_for),
            _ => None,
        }
    }
}

/// The earlier of two capture results.
pub open spec fn key_first(a: Option<Expr>, b: Option<Expr>) -> Option<Expr> {
    if a is Some {
        a
    } else {
        b
    }
}

/// First capture in an assignment target.
pub open spec fn key_in_target(t: AssignTarget, in_for: bool) -> Option<Expr>
    decreases t, 1int,
{
    match t {
        AssignTarget::Computed(obj, idx) => key_first(
            key_in_expr(*obj, in_for),
            key_in_expr(*idx, in_for),
        ),
        AssignTarget::Member(obj, _) => key_in_expr(*obj, in_for),
        _ => None,
    }
}

/// First capture in an expression list from `i` on.
pub open spec fn key_in_expr_list(items: Seq<Expr>, i: int, in_for: bool) -> Option<Expr>
    decreases items, items.len() - i, 0int,
{
    if i < 0 || i >= items.len() {
        None
    } else {
        key_first(key_in_expr(items[i], in_for), key_in_expr_list(items, i + 1, in_for))
    }
}

/// First capture in one statement.
pub open spec fn key_in_stmt(s: Stmt, in_for: bool) -> Option<Expr>
    decreases s, 1int,
{
    match s {
        Stmt::Expr(e) => key_in_expr(e, in_for),
        Stmt::Return(arg) => match arg {
            Some(e) => key_in_expr(e, in_for),
            None => None,
        },
        Stmt::If(test, then, alt) => key_first(
            key_in_expr(test, in_for),
            key_first(key_in_stmt_list(then@, 0, in_for), key_in_stmt_list(alt@, 0, in_for)),
        ),
        Stmt::Throw(e) => key_in_expr(e, in_for),
        Stmt::For(header, body) => key_first(
            key_in_stmt_list(header@, 0, true),
            key_in_stmt_list(body@, 0, true),
        ),
        Stmt::Decl(ds) => key_in_decl_list(ds@, 0, in_for),
        Stmt::Func(f) => key_in_stmt_list(f.body@, 0, in_for),
        Stmt::Block(items) => key_in_stmt_list(items@, 0, in_for),
        Stmt::Other => None,
    }
}

/// First capture in a statement list from `i` on.
pub open spec fn key_in_stmt_list(items: Seq<Stmt>, i: int, in_for: bool) -> Option<Expr>
    decreases items, items.len() - i, 0int,
{
    if i < 0 || i >= items.len() {
        None
    } else {
        key_first(key_in_stmt(items[i], in_for), key_in_stmt_list(items, i + 1, in_for))
    }
}

/// First capture in a declarator list from `i` on.
pub open spec fn key_in_decl_list(ds: Seq<Declarator>, i: int, in_for: bool) -> Option<Expr>
    decreases ds, ds.len() - i, 0int,
{
    if i < 0 || i >= ds.len() {
        None
    } else {
        let here = match ds[i].init {
            Some(e) => key_in_expr(e, in_for),
            None => None,
        };
        key_first(here, key_in_decl_list(ds, i + 1, in_for))
    }
}

/// First capture in a whole program.
pub open spec fn key_in_program(p: Program) -> Option<Expr> {
    key_in_stmt_list(p.body@, 0, false)
}

/// Whether an expression is the byte-masking shape.
fn is_key_shape(e: &Expr) -> (r: bool)
    ensures
        r == spec_key_shape(*e),
{
    match e {
        Expr::Binary(BinOp::BitAnd, _, rhs) => match &**rhs {
            Expr::Num(v) => *v == 255,
            _ => false,
        },
        _ => false,
    }
}

/// Finds the key expression in one expression, per `key_in_expr`.
fn key_expr_in_expr<'a>(e: &'a Expr, in_for: bool) -> (r: Option<&'a Expr>)
    ensures
        match r {
            Some(x) => key_in_expr(*e, in_for) == Some(*x),
            None => key_in_expr(*e, in_for) is None,
        },
    decreases *e, 1int,
{
    if let Expr::Assign(_, rhs) = e {
        if in_for && is_key_shape(rhs) {
            return Some(rhs);
        }
    }
    match e {
        Expr::Paren(inner) => key_expr_in_expr(inner, in_for),
        Expr::Sequence(items) => key_expr_in_expr_list(items, 0, in_for),
        Expr::Unary(_, arg) => key_expr_in_expr(arg, in_for),
        Expr::Binary(_, l, r) => match key_expr_in_expr(l, in_for) {
            Some(x) => Some(x),
            None => key_expr_in_expr(r, in_for),
        },
        Expr::Logical(_, l, r) => match key_expr_in_expr(l, in_for) {
            Some(x) => Some(x),
            None => key_expr_in_expr(r, in_for),
        },
        Expr::Conditional(t, c, a) => match key_expr_in_expr(t, in_for) {
            Some(x) => Some(x),
            None => match key_expr_in_expr(c, in_for) {
                Some(x) => Some(x),
                None => key_expr_in_expr(a, in_for),
            },
        },
        Expr::Call(callee, args) => match key_expr_in_expr(callee, in_for) {
            Some(x) => Some(x),
            None => key_expr_in_expr_list(args, 0, in_for),
        },
        Expr::New(callee, args) => match key_expr_in_expr(callee, in_for) {
            Some(x) => Some(x),
            None => key_expr_in_expr_list(args, 0, in_for),
        },
        Expr::Computed(obj, idx) => match key_expr_in_expr(obj, in_for) {
            Some(x) => Some(x),
            None => key_expr_in_expr(idx, in_for),
        },
        Expr::Member(obj, _) => key_expr_in_expr(obj, in_for),
        Expr::Assign(target, value) => match key_expr_in_target(target, in_for) {
            Some(x) => Some(x),
            None => key_expr_in_expr(value, in_for),
        },
        Expr::Array(items) => key_expr_in_expr_list(items, 0, in_for),
        Expr::Object(values) => key_expr_in_expr_list(values, 0, in_for),
        Expr::Function(f) => key_expr_in_stmt_list(&f.body, 0, in_for),
        _ => None,
    }
}

/// Finds the key expression under an assignment target.
fn key_expr_in_target<'a>(t: &'a AssignTarget, in_for: bool) -> (r: Option<&'a Expr>)
    ensures
        match r {
            Some(x) => key_in_target(*t, in_for) == Some(*x),
            None => key_in_target(*t, in_for) is None,
        },
    decreases *t, 1int,
{
    match t {
        AssignTarget::Computed(obj, idx) => match key_expr_in_expr(obj, in_for) {
            Some(x) => Some(x),
            None => key_expr_in_expr(idx, in_for),
        },
        AssignTarget::Member(obj, _) => key_expr_in_expr(obj, in_for),
        _ => None,
    }
}

/// Finds the key expression in an expression list from `from` on.
fn key_expr_in_expr_list<'a>(items: &'a Vec<Expr>, from: usize, in_for: bool) -> (r: Option<
    &'a Expr,
>)
    ensures
        match r {
            Some(x) => key_in_expr_list(items@, from as int, in_for) == Some(*x),
            None => key_in_expr_list(items@, from as int, in_for) is None,
        },
    decreases *items, items@.len() - from, 0int,
{
    if from >= items.len() {
        None
    } else {
        match key_expr_in_expr(&items[from], in_for) {
            Some(x) => Some(x),
            None => key_expr_in_expr_list(items, from + 1, in_for),
        }
    }
}

/// Finds the key expression in one statement.
fn key_expr_in_stmt<'a>(s: &'a Stmt, in_for: bool) -> (r: Option<&'a Expr>)
    ensures
        match r {
            Some(x) => key_in_stmt(*s, in_for) == Some(*x),
            None => key_in_stmt(*s, in_for) is None,
        },
    decreases *s, 1int,
{
    match s {
        Stmt::Expr(e) => key_expr_in_expr(e, in_for),
        Stmt::Return(arg) => match arg {
            Some(e) => key_expr_in_expr(e, in_for),
            None => None,
        },
        Stmt::If(test, then, alt) => match key_expr_in_expr(test, in_for) {
            Some(x) => Some(x),
            None => match key_expr_in_stmt_list(then, 0, in_for) {
                Some(x) => Some(x),
                None => key_expr_in_stmt_list(alt, 0, in_for),
            },
        },
        Stmt::Throw(e) => key_expr_in_expr(e, in_for),
        Stmt::For(header, body) => match key_expr_in_stmt_list(header, 0, true) {
            Some(x) => Some(x),
            None => key_expr_in_stmt_list(body, 0, true),
        },
        Stmt::Decl(ds) => key_expr_in_decl_list(ds, 0, in_for),
        Stmt::Func(f) => key_expr_in_stmt_list(&f.body, 0, in_for),
        Stmt::Block(items) => key_expr_in_stmt_list(items, 0, in_for),
        Stmt::Other => None,
    }
}

/// Finds the key expression in a statement list from `from` on.
fn key_expr_in_stmt_list<'a>(items: &'a Vec<Stmt>, from: usize, in_for: bool) -> (r: Option<
    &'a Expr,
>)
    ensures
        match r {
            Some(x) => key_in_stmt_list(items@, from as int, in_for) == Some(*x),
            None => key_in_stmt_list(items@, from as int, in_for) is None,
        },
    decreases *items, items@.len() - from, 0int,
{
    if from >= items.len() {
        None
    } else {
        match key_expr_in_stmt(&items[from], in_for) {
            Some(x) => Some(x),
            None => key_expr_in_stmt_list(items, from + 1, in_for),
        }
    }
}

/// Finds the key expression in a declarator list from `from` on.
fn key_expr_in_decl_list<'a>(ds: &'a Vec<Declarator>, from: usize, in_for: bool) -> (r: Option<
    &'a Expr,
>)
    ensures
        match r {
            Some(x) => key_in_decl_list(ds@, from as int, in_for) == Some(*x),
            None => key_in_decl_list(ds@, from as int, in_for) is None,
        },
    decreases *ds, ds@.len() - from, 0int,
{
    if from >= ds.len() {
        None
    } else {
        let here = match &ds[from].init {
            Some(e) => key_expr_in_expr(e, in_for),
            None => None,
        };
        match here {
            Some(x) => Some(x),
            None => key_expr_in_decl_list(ds, from + 1, in_for),
        }
    }
}

/// Finds the byte-masking key expression of a whole program, per
/// `key_in_program`.
pub fn find_key_expr<'a>(p: &'a Program) -> (r: Option<&'a Expr>)
    ensures
        match r {
            Some(x) => key_in_program(*p) == Some(*x),
            None => key_in_program(*p) is None,
        },
{
    key_expr_in_stmt_list(&p.body, 0, false)
}

/// First offset in an expression, node first.
pub open spec fn offset_in_expr(e: Expr) -> Option<i16>
    decreases e, 1int,
{
    let node = spec_offset_of_node(e);
    if node is Some {
        node
    } else {
        match e {
            Expr::Paren(inner) => offset_in_expr(*inner),
            Expr::Sequence(items) => offset_in_expr_list(items@, 0),
            Expr::Unary(_, arg) => offset_in_expr(*arg),
            Expr::Binary(_, l, r) => off_first(offset_in_expr(*l), offset_in_expr(*r)),
            Expr::Logical(_, l, r) => off_first(offset_in_expr(*l), offset_in_expr(*r)),
            Expr::Conditional(t, c, a) => off_first(
                offset_in_expr(*t),
                off_first(offset_in_expr(*c), offset_in_expr(*a)),
            ),
            Expr::Call(callee, args) => off_first(
                offset_in_expr(*callee),
                offset_in_expr_list(args@, 0),
            ),
            Expr::New(callee, args) => off_first(
                offset_in_expr(*callee),
                offset_in_expr_list(args@, 0),
            ),
            Expr::Computed(obj, idx) => off_first(offset_in_expr(*obj), offset_in_expr(*idx)),
            Expr::Member(obj, _) => offset_in_expr(*obj),
            Expr::Assign(target, value) => off_first(
                offset_in_target(target),
                offset_in_expr(*value),
            ),
            Expr::Array(items) => offset_in_expr_list(items@, 0),
            Expr::Object(values) => offset_in_expr_list(values@, 0),
            Expr::Function(f) => offset_in_stmt_list(f.body@, 0),
            _ => None,
        }
    }
}

/// The earlier of two offset results.
pub open spec fn off_first(a: Option<i16>, b: Option<i16>) -> Option<i16> {
    if a is Some {
        a
    } else {
        b
    }
}

/// First offset in an assignment target.
pub open spec fn offset_in_target(t: AssignTarget) -> Option<i16>
    decreases t, 1int,
{
    match t {
        AssignTarget::Computed(obj, idx) => off_first(offset_in_expr(*obj), offset_in_expr(*idx)),
        AssignTarget::Member(obj, _) => offset_in_expr(*obj),
        _ => None,
    }
}

/// First offset in an expression list from `i` on.
pub open spec fn offset_in_expr_list(items: Seq<Expr>, i: int) -> Option<i16>
    decreases items, items.len() - i, 0int,
{
    if i < 0 || i >= items.len() {
        None
    } else {
        off_first(offset_in_expr(items[i]), offset_in_expr_list(items, i + 1))
    }
}

/// First offset in one statement.
pub open spec fn offset_in_stmt(s: Stmt) -> Option<i16>
    decreases s, 1int,
{
    match s {
        Stmt::Expr(e) => offset_in_expr(e),
        Stmt::Return(arg) => match arg {
            Some(e) => offset_in_expr(e),
            None => None,
        },
        Stmt::If(test, then, alt) => off_first(
            offset_in_expr(test),
            off_first(offset_in_stmt_list(then@, 0), offset_in_stmt_list(alt@, 0)),
        ),
        Stmt::Throw(e) => offset_in_expr(e),
        Stmt::For(header, body) => off_first(
            offset_in_stmt_list(header@, 0),
            offset_in_stmt_list(body@, 0),
        ),
        Stmt::Decl(ds) => offset_in_decl_list(ds@, 0),
        Stmt::Func(f) => offset_in_stmt_list(f.body@, 0),
        Stmt::Block(items) => offset_in_stmt_list(items@, 0),
        Stmt::Other => None,
    }
}

/// First offset in a statement list from `i` on.
pub open spec fn offset_in_stmt_list(items: Seq<Stmt>, i: int) -> Option<i16>
    decreases items, items.len() - i, 0int,
{
    if i < 0 || i >= items.len() {
        None
    } else {
        off_first(offset_in_stmt(items[i]), offset_in_stmt_list(items, i + 1))
    }
}

/// First offset in a declarator list from `i` on.
pub open spec fn offset_in_decl_list(ds: Seq<Declarator>, i: int) -> Option<i16>
    decreases ds, ds.len() - i, 0int,
{
    if i < 0 || i >= ds.len() {
        None
    } else {
        let here = match ds[i].init {
            Some(e) => offset_in_expr(e),
            None => None,
        };
        off_first(here, offset_in_decl_list(ds, i + 1))
    }
}

/// First offset in a whole program.
pub open spec fn offset_in_program(p: Program) -> Option<i16> {
    offset_in_stmt_list(p.body@, 0)
}

/// The offset a single binary node yields, per `spec_offset_of_node`.
fn offset_of_node(e: &Expr) -> (r: Option<i16>)
    ensures
        r == spec_offset_of_node(*e),
{
    match e {
        Expr::Binary(op, l, r) => {
            if *op == BinOp::Add || *op == BinOp::BitXor {
                match (&**l, &**r) {
                    (Expr::Num(v), Expr::Call(_, _)) => {
                        if *v != 0 {
                            Some(wrap_i16(*v))
                        } else {
                            None
                        }
                    },
                    (Expr::Call(_, _), Expr::Num(v)) => {
                        if *v != 0 {
                            Some(wrap_i16(*v))
                        } else {
                            None
                        }
                    },
                    _ => None,
                }
            } else {
                None
            }
        },
        _ => None,
    }
}

/// Finds the offset in one expression, per `offset_in_expr`.
fn offset_expr(e: &Expr) -> (r: Option<i16>)
    ensures
        r == offset_in_expr(*e),
    decreases *e, 1int,
{
    let node = offset_of_node(e);
    if node.is_some() {
        return node;
    }
    match e {
        Expr::Paren(inner) => offset_expr(inner),
        Expr::Sequence(items) => offset_expr_list(items, 0),
        Expr::Unary(_, arg) => offset_expr(arg),
        Expr::Binary(_, l, r) => match offset_expr(l) {
            Some(x) => Some(x),
            None => offset_expr(r),
        },
        Expr::Logical(_, l, r) => match offset_expr(l) {
            Some(x) => Some(x),
            None => offset_expr(r),
        },
        Expr::Conditional(t, c, a) => match offset_expr(t) {
            Some(x) => Some(x),
            None => match offset_expr(c) {
                Some(x) => Some(x),
                None => offset_expr(a),
            },
        },
        Expr::Call(callee, args) => match offset_expr(callee) {
            Some(x) => Some(x),
            None => offset_expr_list(args, 0),
        },
        Expr::New(callee, args) => match offset_expr(callee) {
            Some(x) => Some(x),
            None => offset_expr_list(args, 0),
        },
        Expr::Computed(obj, idx) => match offset_expr(obj) {
            Some(x) => Some(x),
            None => offset_expr(idx),
        },
        Expr::Member(obj, _) => offset_expr(obj),
        Expr::Assign(target, value) => match offset_target(target) {
            Some(x) => Some(x),
            None => offset_expr(value),
        },
        Expr::Array(items) => offset_expr_list(items, 0),
        Expr::Object(values) => offset_expr_list(values, 0),
        Expr::Function(f) => offset_stmt_list(&f.body, 0),
        _ => None,
    }
}

/// Finds the offset under an assignment target.
fn offset_target(t: &AssignTarget) -> (r: Option<i16>)
    ensures
        r == offset_in_target(*t),
    decreases *t, 1int,
{
    match t {
        AssignTarget::Computed(obj, idx) => match offset_expr(obj) {
            Some(x) => Some(x),
            None => offset_expr(idx),
        },
        AssignTarget::Member(obj, _) => offset_expr(obj),
        _ => None,
    }
}

/// Finds the offset in an expression list from `from` on.
fn offset_expr_list(items: &Vec<Expr>, from: usize) -> (r: Option<i16>)
    ensures
        r == offset_in_expr_list(items@, from as int),
    decreases *items, items@.len() - from, 0int,
{
    if from >= items.len() {
        None
    } else {
        match offset_expr(&items[from]) {
            Some(x) => Some(x),
            None => offset_expr_list(items, from + 1),
        }
    }
}

/// Finds the offset in one statement.
fn offset_stmt(s: &Stmt) -> (r: Option<i16>)
    ensures
        r == offset_in_stmt(*s),
    decreases *s, 1int,
{
    match s {
        Stmt::Expr(e) => offset_expr(e),
        Stmt::Return(arg) => match arg {
            Some(e) => offset_expr(e),
            None => None,
        },
        Stmt::If(test, then, alt) => match offset_expr(test) {
            Some(x) => Some(x),
            None => match offset_stmt_list(then, 0) {
                Some(x) => Some(x),
                None => offset_stmt_list(alt, 0),
            },
        },
        Stmt::Throw(e) => offset_expr(e),
        Stmt::For(header, body) => match offset_stmt_list(header, 0) {
            Some(x) => Some(x),
            None => offset_stmt_list(body, 0),
        },
        Stmt::Decl(ds) => offset_decl_list(ds, 0),
        Stmt::Func(f) => offset_stmt_list(&f.body, 0),
        Stmt::Block(items) => offset_stmt_list(items, 0),
        Stmt::Other => None,
    }
}

/// Finds the offset in a statement list from `from` on.
fn offset_stmt_list(items: &Vec<Stmt>, from: usize) -> (r: Option<i16>)
    ensures
        r == offset_in_stmt_list(items@, from as int),
    decreases *items, items@.len() - from, 0int,
{
    if from >= items.len() {
        None
    } else {
        match offset_stmt(&items[from]) {
            Some(x) => Some(x),
            None => offset_stmt_list(items, from + 1),
        }
    }
}

/// Finds the offset in a declarator list from `from` on.
fn offset_decl_list(ds: &Vec<Declarator>, from: usize) -> (r: Option<i16>)
    ensures
        r == offset_in_decl_list(ds@, from as int),
    decreases *ds, ds@.len() - from, 0int,
{
    if from >= ds.len() {
        None
    } else {
        let here = match &ds[from].init {
            Some(e) => offset_expr(e),
            None => None,
        };
        match here {
            Some(x) => Some(x),
            None => offset_decl_list(ds, from + 1),
        }
    }
}

/// Finds the call-paired offset of a whole program, per
/// `offset_in_program`.
pub fn find_offset(p: &Program) -> (r: Option<i16>)
    ensures
        r == offset_in_program(*p),
{
    offset_stmt_list(&p.body, 0)
}

} // verus!
