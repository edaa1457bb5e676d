//! Operand and test extraction from handler bodies.
//!
//! One combined pass over a handler's statements collects, in tree order:
//! the test list — for every equality comparison, the value of its numeric
//! literal side — and the flat bits list — every other numeric literal in
//! the unsigned 16-bit range, with later occurrences of the constants-table
//! index dropped. The inside of an equality comparison contributes no bits:
//! its literal is the test, not an operand.
//!
//! Swap detection serves the binary classifier: along a conditional chain,
//! each candidate's consequent is searched for two plain identifier
//! assignments of symmetric shape, collected by the assignment-target
//! extractor.

use vstd::prelude::*;
use crate::ast::{AssignTarget, BinOp, Declarator, Expr, Stmt};
use crate::strutil::str_eq;

verus! {

/// The extraction state: collected operand bits and test values.
#[verifier::ext_equal]
pub struct ExtractState {
    pub bits: Seq<u16>,
    pub tests: Seq<u16>,
}

/// Whether an operator is an equality comparison.
pub open spec fn spec_is_eq_op(op: BinOp) -> bool {
    op == BinOp::Eq || op == BinOp::StrictEq
}

/// The test value of a comparison: the numeric-literal side, left first.
pub open spec fn spec_test_val(l: Expr, r: Expr) -> Option<u16> {
    match l {
        Expr::Num(v) => if 0 <= v <= u16::MAX {
            Some(v as u16)
        } else {
            None
        },
        _ => match r {
            Expr::Num(v) => if 0 <= v <= u16::MAX {
                Some(v as u16)
            } else {
                None
            },
            _ => None,
        },
    }
}

/// State after seeing one numeric literal as an operand.
pub open spec fn ex_on_num(st: ExtractState, constants: u16, v: i64) -> ExtractState {
    if 0 <= v <= u16::MAX {
        if v == constants && st.bits.contains(constants) {
            st
        } else {
            ExtractState { bits: st.bits.push(v as u16), ..st }
        }
    } else {
        st
    }
}

/// State after walking one expression, node first, children in order.
pub open spec fn ex_expr(st: ExtractState, c: u16, e: Expr) -> ExtractState
    decreases e, 1int,
{
    match e {
        Expr::Num(v) => ex_on_num(st, c, v),
        Expr::Str(_) => st,
        Expr::Ident(_) => st,
        Expr::Paren(inner) => ex_expr(st, c, *inner),
        Expr::Sequence(items) => ex_expr_list(st, c, items@, 0),
        Expr::Unary(_, arg) => ex_expr(st, c, *arg),
        Expr::Binary(op, l, r) => if spec_is_eq_op(op) {
            match spec_test_val(*l, *r) {
                Some(t) => ExtractState { tests: st.tests.push(t), ..st },
                None => st,
            }
        } else {
            ex_expr(ex_expr(st, c, *l), c, *r)
        },
        Expr::Logical(_, l, r) => ex_expr(ex_expr(st, c, *l), c, *r),
        Expr::Conditional(t, cons, alt) => ex_expr(ex_expr(ex_expr(st, c, *t), c, *cons), c, *alt),
        Expr::Call(callee, args) => ex_expr_list(ex_expr(st, c, *callee), c, args@, 0),
        Expr::New(callee, args) => ex_expr_list(ex_expr(st, c, *callee), c, args@, 0),
        Expr::Computed(obj, idx) => ex_expr(ex_expr(st, c, *obj), c, *idx),
        Expr::Member(obj, _) => ex_expr(st, c, *obj),
        Expr::Assign(target, value) => ex_expr(ex_target(st, c, target), c, *value),
        Expr::Array(items) => ex_expr_list(st, c, items@, 0),
        Expr::Object(values) => ex_expr_list(st, c, values@, 0),
        Expr::Function(f) => ex_stmt_list(st, c, f.body@, 0),
        Expr::Other => st,
    }
}

/// State after walking an assignment target.
pub open spec fn ex_target(st: ExtractState, c: u16, t: AssignTarget) -> ExtractState
    decreases t, 1int,
{
    match t {
        AssignTarget::Ident(_) => st,
        AssignTarget::Computed(obj, idx) => ex_expr(ex_expr(st, c, *obj), c, *idx),
        AssignTarget::Member(obj, _) => ex_expr(st, c, *obj),
        AssignTarget::Other => st,
    }
}

/// State after walking an expression list from `i` on.
pub open spec fn ex_expr_list(st: ExtractState, c: u16, items: Seq<Expr>, i: int) -> ExtractState
    decreases items, items.len() - i,
{
    if i < 0 || i >= items.len() {
        st
    } else {
        ex_expr_list(ex_expr(st, c, items[i]), c, items, i + 1)
    }
}

/// State after walking one statement.
pub open spec fn ex_stmt(st: ExtractState, c: u16, s: Stmt) -> ExtractState
    decreases s, 1int,
{
    match s {
        Stmt::Expr(e) => ex_expr(st, c, e),
        Stmt::Return(arg) => match arg {
            Some(e) => ex_expr(st, c, e),
            None => st,
        },
        Stmt::If(test, then, alt) => ex_stmt_list(
            ex_stmt_list(ex_expr(st, c, test), c, then@, 0),
            c,
            alt@,
            0,
        ),
        Stmt::Throw(e) => ex_expr(st, c, e),
        Stmt::For(header, body) => ex_stmt_list(ex_stmt_list(st, c, header@, 0), c, body@, 0),
        Stmt::Decl(ds) => ex_decl_list(st, c, ds@, 0),
        Stmt::Func(f) => ex_stmt_list(st, c, f.body@, 0),
        Stmt::Block(items) => ex_stmt_list(st, c, items@, 0),
        Stmt::Other => st,
    }
}

/// State after walking a statement list from `i` on.
pub open spec fn ex_stmt_list(st: ExtractState, c: u16, items: Seq<Stmt>, i: int) -> ExtractState
    decreases items, items.len() - i,
{
    if i < 0 || i >= items.len() {
        st
    } else {
        ex_stmt_list(ex_stmt(st, c, items[i]), c, items, i + 1)
    }
}

/// State after walking a declarator list from `i` on.
pub open spec fn ex_decl_list(st: ExtractState, c: u16, ds: Seq<Declarator>, i: int) -> ExtractState
    decreases ds, ds.len() - i,
{
    if i < 0 || i >= ds.len() {
        st
    } else {
        let st1 = match ds[i].init {
            Some(e) => ex_expr(st, c, e),
            None => st,
        };
        ex_decl_list(st1, c, ds, i + 1)
    }
}

/// The empty extraction state.
pub open spec fn ex_empty() -> ExtractState {
    ExtractState { bits: Seq::empty(), tests: Seq::empty() }
}

/// The extractor: collected bits and tests, with the constants-table index
/// whose repetitions are dropped.
pub struct Extractor {
    pub constants: u16,
    pub bits: Vec<u16>,
    pub tests: Vec<u16>,
}

impl View for Extractor {
    type V = ExtractState;

    open spec fn view(&self) -> ExtractState {
        ExtractState { bits: self.bits@, tests: self.tests@ }
    }
}

/// Whether a bits vector holds a value.
fn bits_contains(v: &Vec<u16>, x: u16) -> (r: bool)
    ensures
        r == v@.contains(x),
{
    let n = v.len();
    let mut i: usize = 0;
    while i < n
        invariant
            i <= n,
            n == v@.len(),
            forall|j: int| 0 <= j < i ==> v@[j] != x,
        decreases n - i,
    {
        if v[i] == x {
            proof {
                assert(v@[i as int] == x);
            }
            return true;
        }
        i = i + 1;
    }
    proof {
        assert(!v@.contains(x));
    }
    false
}

impl Extractor {
    /// An extractor with nothing collected.
    pub fn new(constants: u16) -> (r: Self)
        ensures
            r@ =~= ex_empty(),
            r.constants == constants,
    {
        Extractor { constants, bits: Vec::new(), tests: Vec::new() }
    }

    /// Applies the operand rule for one numeric literal.
    fn on_num(&mut self, v: i64)
        ensures
            final(self)@ =~= ex_on_num(old(self)@, old(self).constants, v),
            final(self).constants == old(self).constants,
    {
        if v >= 0 && v <= 65535 {
            let w = v as u16;
            if w == self.constants && bits_contains(&self.bits, self.constants) {
            } else {
                self.bits.push(w);
            }
        }
    }

    /// Walks one expression, per `ex_expr`.
    pub fn visit_expr(&mut self, e: &Expr)
        ensures
            final(self)@ =~= ex_expr(old(self)@, old(self).constants, *e),
            final(self).constants == old(self).constants,
        decreases *e, 1int,
    {
        match e {
            Expr::Num(v) => self.on_num(*v),
            Expr::Str(_) => {},
            Expr::Ident(_) => {},
            Expr::Paren(inner) => self.visit_expr(inner),
            Expr::Sequence(items) => self.visit_expr_list(items, 0),
            Expr::Unary(_, arg) => self.visit_expr(arg),
            Expr::Binary(op, l, r) => {
                if *op == BinOp::Eq || *op == BinOp::StrictEq {
                    let tv: Option<i64> = match &**l {
                        Expr::Num(v) => Some(*v),
                        _ => match &**r {
                            Expr::Num(v) => Some(*v),
                            _ => None,
                        },
                    };
                    match tv {
                        Some(v) => {
                            if v >= 0 && v <= 65535 {
                                self.tests.push(v as u16);
                            }
                        },
                        None => {},
                    }
                } else {
                    self.visit_expr(l);
                    self.visit_expr(r);
                }
            },
            Expr::Logical(_, l, r) => {
                self.visit_expr(l);
                self.visit_expr(r);
            },
            Expr::Conditional(t, c, a) => {
                self.visit_expr(t);
                self.visit_expr(c);
                self.visit_expr(a);
            },
            Expr::Call(callee, args) => {
                self.visit_expr(callee);
                self.visit_expr_list(args, 0);
            },
            Expr::New(callee, args) => {
                self.visit_expr(callee);
                self.visit_expr_list(args, 0);
            },
            Expr::Computed(obj, idx) => {
                self.visit_expr(obj);
                self.visit_expr(idx);
            },
            Expr::Member(obj, _) => self.visit_expr(obj),
            Expr::Assign(target, value) => {
                self.visit_target(target);
                self.visit_expr(value);
            },
            Expr::Array(items) => self.visit_expr_list(items, 0),
            Expr::Object(values) => self.visit_expr_list(values, 0),
            Expr::Function(f) => self.visit_stmt_list(&f.body, 0),
            Expr::Other => {},
        }
    }

    /// Walks an assignment target, per `ex_target`.
    fn visit_target(&mut self, t: &AssignTarget)
        ensures
            final(self)@ =~= ex_target(old(self)@, old(self).constants, *t),
            final(self).constants == old(self).constants,
        decreases *t, 1int,
    {
        match t {
            AssignTarget::Ident(_) => {},
            AssignTarget::Computed(obj, idx) => {
                self.visit_expr(obj);
                self.visit_expr(idx);
            },
            AssignTarget::Member(obj, _) => self.visit_expr(obj),
            AssignTarget::Other => {},
        }
    }

    /// Walks an expression list from `from` on, per `ex_expr_list`.
    fn visit_expr_list(&mut self, items: &Vec<Expr>, from: usize)
        ensures
            final(self)@ =~= ex_expr_list(old(self)@, old(self).constants, items@, from as int),
            final(self).constants == old(self).constants,
        decreases *items, items@.len() - from,
    {
        if from < items.len() {
            self.visit_expr(&items[from]);
            self.visit_expr_list(items, from + 1);
        }
    }

    /// Walks one statement, per `ex_stmt`.
    pub fn visit_stmt(&mut self, s: &Stmt)
        ensures
            final(self)@ =~= ex_stmt(old(self)@, old(self).constants, *s),
            final(self).constants == old(self).constants,
        decreases *s, 1int,
    {
        match s {
            Stmt::Expr(e) => self.visit_expr(e),
            Stmt::Return(arg) => match arg {
                Some(e) => self.visit_expr(e),
                None => {},
            },
            Stmt::If(test, then, alt) => {
                self.visit_expr(test);
                self.visit_stmt_list(then, 0);
                self.visit_stmt_list(alt, 0);
            },
            Stmt::Throw(e) => self.visit_expr(e),
            Stmt::For(header, body) => {
                self.visit_stmt_list(header, 0);
                self.visit_stmt_list(body, 0);
            },
            Stmt::Decl(ds) => self.visit_decl_list(ds, 0),
            Stmt::Func(f) => self.visit_stmt_list(&f.body, 0),
            Stmt::Block(items) => self.visit_stmt_list(items, 0),
            Stmt::Other => {},
        }
    }

    /// Walks a statement list from `from` on, per `ex_stmt_list`.
    pub fn visit_stmt_list(&mut self, items: &Vec<Stmt>, from: usize)
        ensures
            final(self)@ =~= ex_stmt_list(old(self)@, old(self).constants, items@, from as int),
            final(self).constants == old(self).constants,
        decreases *items, items@.len() - from,
    {
        if from < items.len() {
            self.visit_stmt(&items[from]);
            self.visit_stmt_list(items, from + 1);
        }
    }

    /// Walks a declarator list from `from` on, per `ex_decl_list`.
    fn visit_decl_list(&mut self, ds: &Vec<Declarator>, from: usize)
        ensures
            final(self)@ =~= ex_decl_list(old(self)@, old(self).constants, ds@, from as int),
            final(self).constants == old(self).constants,
        decreases *ds, ds@.len() - from,
    {
        if from < ds.len() {
            match &ds[from].init {
                Some(e) => self.visit_expr(e),
                None => {},
            }
            self.visit_decl_list(ds, from + 1);
        }
    }
}

/// Plain identifier-to-identifier assignment pairs in an expression: the
/// assignment-target extractor feeding swap detection.
pub open spec fn spec_assign_pairs(e: Expr) -> Seq<(String, String)>
    decreases e, 1int,
{
    match e {
        Expr::Paren(inner) => spec_assign_pairs(*inner),
        Expr::Sequence(items) => spec_assign_pairs_list(items@, 0),
        Expr::Binary(_, l, r) => spec_assign_pairs(*l) + spec_assign_pairs(*r),
        Expr::Logical(_, l, r) => spec_assign_pairs(*l) + spec_assign_pairs(*r),
        Expr::Assign(target, value) => {
            let here = match target {
                AssignTarget::Ident(x) => match *value {
                    Expr::Ident(y) => seq![(x, y)],
                    _ => Seq::empty(),
                },
                _ => Seq::empty(),
            };
            here + spec_assign_pairs(*value)
        },
        _ => Seq::empty(),
    }
}

/// Assignment pairs of an expression list from `i` on.
pub open spec fn spec_assign_pairs_list(items: Seq<Expr>, i: int) -> Seq<(String, String)>
    decreases items, items.len() - i,
{
    if i < 0 || i >= items.len() {
        Seq::empty()
    } else {
        spec_assign_pairs(items[i]) + spec_assign_pairs_list(items, i + 1)
    }
}

/// Whether the pair list holds a symmetric pair of two distinct names.
pub open spec fn spec_has_symmetric(ps: Seq<(String, String)>) -> bool {
    exists|i: int, j: int|
        0 <= i < ps.len() && 0 <= j < ps.len() && (#[trigger] ps[i]).0@ == (
        #[trigger] ps[j]).1@ && ps[i].1@ == ps[j].0@ && ps[i].0@ != ps[i].1@
}

/// Swap flags along a conditional chain: one flag per candidate, true when
/// the candidate's consequent holds a symmetric assignment pair.
pub open spec fn spec_chain_swaps(e: Expr) -> Seq<bool>
    decreases e,
{
    match e {
        Expr::Conditional(_, cons, alt) => seq![
            spec_has_symmetric(spec_assign_pairs(*cons)),
        ] + spec_chain_swaps(*alt),
        Expr::Paren(inner) => spec_chain_swaps(*inner),
        _ => Seq::empty(),
    }
}

/// Collects assignment pairs of one expression, per `spec_assign_pairs`.
fn assign_pairs(out: &mut Vec<(String, String)>, e: &Expr)
    ensures
        final(out)@ == old(out)@ + spec_assign_pairs(*e),
    decreases *e, 1int,
{
    match e {
        Expr::Paren(inner) => assign_pairs(out, inner),
        Expr::Sequence(items) => assign_pairs_list(out, items, 0),
        Expr::Binary(_, l, r) => {
            assign_pairs(out, l);
            assign_pairs(out, r);
            proof {
                assert(old(out)@ + (spec_assign_pairs(*e->Binary_1) + spec_assign_pairs(
                    *e->Binary_2,
                )) =~= (old(out)@ + spec_assign_pairs(*e->Binary_1)) + spec_assign_pairs(
                    *e->Binary_2,
                ));
            }
        },
        Expr::Logical(_, l, r) => {
            assign_pairs(out, l);
            assign_pairs(out, r);
            proof {
                assert(old(out)@ + (spec_assign_pairs(*e->Logical_1) + spec_assign_pairs(
                    *e->Logical_2,
                )) =~= (old(out)@ + spec_assign_pairs(*e->Logical_1)) + spec_assign_pairs(
                    *e->Logical_2,
                ));
            }
        },
        Expr::Assign(target, value) => {
            if let AssignTarget::Ident(x) = target {
                if let Expr::Ident(y) = &**value {
                    out.push((x.clone(), y.clone()));
                    proof {
                        assert(out@ =~= old(out)@ + seq![(*x, *y)]);
                    }
                    assign_pairs(out, value);
                    proof {
                        assert(spec_assign_pairs(*e) =~= seq![(*x, *y)] + spec_assign_pairs(
                            *(*value),
                        ));
                        assert((old(out)@ + seq![(*x, *y)]) + spec_assign_pairs(*(*value)) =~= old(
                            out,
                        )@ + (seq![(*x, *y)] + spec_assign_pairs(*(*value))));
                    }
                    return ;
                }
            }
            assign_pairs(out, value);
            proof {
                assert(spec_assign_pairs(*e) =~= Seq::<(String, String)>::empty()
                    + spec_assign_pairs(*(*value)));
                assert(old(out)@ + (Seq::<(String, String)>::empty() + spec_assign_pairs(
                    *(*value),
                )) =~= old(out)@ + spec_assign_pairs(*(*value)));
            }
        },
        _ => {
            proof {
                assert(old(out)@ + Seq::<(String, String)>::empty() =~= old(out)@);
            }
        },
    }
}

/// Collects assignment pairs of a list from `from` on.
fn assign_pairs_list(out: &mut Vec<(String, String)>, items: &Vec<Expr>, from: usize)
    ensures
        final(out)@ == old(out)@ + spec_assign_pairs_list(items@, from as int),
    decreases *items, items@.len() - from,
{
    if from < items.len() {
        assign_pairs(out, &items[from]);
        assign_pairs_list(out, items, from + 1);
        proof {
            assert(old(out)@ + (spec_assign_pairs(items@[from as int]) + spec_assign_pairs_list(
                items@,
                from + 1,
            )) =~= (old(out)@ + spec_assign_pairs(items@[from as int])) + spec_assign_pairs_list(
                items@,
                from + 1,
            ));
        }
    } else {
        proof {
            assert(old(out)@ + Seq::<(String, String)>::empty() =~= old(out)@);
        }
    }
}

/// Whether a pair list holds a symmetric pair, per `spec_has_symmetric`.
fn has_symmetric(ps: &Vec<(String, String)>) -> (r: bool)
    ensures
        r == spec_has_symmetric(ps@),
{
    let n = ps.len();
    let mut i: usize = 0;
    while i < n
        invariant
            i <= n,
            n == ps@.len(),
            forall|a: int, b: int|
                0 <= a < i && 0 <= b < n ==> !((#[trigger] ps@[a]).0@ == (#[trigger] ps@[b]).1@
                    && ps@[a].1@ == ps@[b].0@ && ps@[a].0@ != ps@[a].1@),
        decreases n - i,
    {
        let mut j: usize = 0;
        while j < n
            invariant
                i < n,
                n == ps@.len(),
                forall|b: int|
                    0 <= b < j ==> !((#[trigger] ps@[i as int]).0@ == ps@[b].1@ && ps@[
                        i as int].1@ == ps@[b].0@ && ps@[i as int].0@ != ps@[i as int].1@),
            decreases n - j,
        {
            if str_eq(ps[i].0.as_str(), ps[j].1.as_str()) && str_eq(
                ps[i].1.as_str(),
                ps[j].0.as_str(),
            ) && !str_eq(ps[i].0.as_str(), ps[i].1.as_str()) {
                proof {
                    let a = i as int;
                    let b = j as int;
                    assert(ps@[a].0@ == ps@[b].1@ && ps@[a].1@ == ps@[b].0@ && ps@[a].0@
                        != ps@[a].1@);
                }
                return true;
            }
            j = j + 1;
        }
        i = i + 1;
    }
    false
}

/// Swap flags along a conditional chain, per `spec_chain_swaps`.
pub fn chain_swaps(e: &Expr) -> (r: Vec<bool>)
    ensures
        r@ == spec_chain_swaps(*e),
    decreases *e,
{
    match e {
        Expr::Conditional(_, cons, alt) => {
            let mut ps: Vec<(String, String)> = Vec::new();
            assign_pairs(&mut ps, cons);
            proof {
                assert(Seq::<(String, String)>::empty() + spec_assign_pairs(*e->Conditional_1)
                    =~= spec_assign_pairs(*e->Conditional_1));
            }
            let flag = has_symmetric(&ps);
            let mut rest = chain_swaps(alt);
            let mut out: Vec<bool> = Vec::new();
            out.push(flag);
            out.append(&mut rest);
            proof {
                assert(out@ =~= seq![flag] + spec_chain_swaps(*e->Conditional_2));
            }
            out
        },
        Expr::Paren(inner) => chain_swaps(inner),
        _ => Vec::new(),
    }
}

} // verus!
