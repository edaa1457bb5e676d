//! Locating the dispatcher and building the opcode-index mapping.
//!
//! One pass over the tree keeps a running state: a variable table fed by
//! declarations and plain assignments, the function-name-to-index mapping,
//! the constants-table index, the key byte, and a raw-bits capture per
//! index used later only for fallback matching.
//!
//! Any function whose body has more than fifty top-level statements is the
//! dispatcher, whatever its declared name, and its effective name is the
//! fixed sentinel. Mapping discovery fires on assignments to a computed
//! member with a resolvable index: a right side naming a function records
//! the mapping; an array literal records the constants-table index and,
//! when its fourth element is numeric, the key byte; any other right side
//! inside the dispatcher is an orphan mapping credited to the dispatcher
//! itself. Indices equal to the marker or separator token, or above 1000,
//! are parse noise and are never recorded. Whenever the right side is an
//! array literal, its element values are captured verbatim as raw bits for
//! that index, whether or not the index was accepted as a mapping.

use vstd::prelude::*;
use vstd::string::StringExecFns;
use crate::ast::{AssignTarget, Declarator, Expr, FunctionDef, Program, Stmt, UnOp};
use crate::bits::{MARKER_A, SEPARATOR};
use crate::fold::{resolve_expr, resolve_index, spec_resolve, spec_resolve_index};
use crate::itable::tget;
use crate::smap::{sm_insert, SMap};
use crate::strutil::{parse_num_str, spec_parse_num};

verus! {

/// A body longer than this many top-level statements is the dispatcher.
pub const DISPATCHER_THRESHOLD: usize = 50;

/// Indices above this value are parse noise.
pub const NOISE_INDEX_MAX: u16 = 1000;

/// Whether an index is a sentinel or noise value, never recorded.
pub open spec fn spec_is_noise_index(i: u16) -> bool {
    i == MARKER_A || i == SEPARATOR || i > NOISE_INDEX_MAX
}

/// Whether an index is a sentinel or noise value.
pub fn is_noise_index(i: u16) -> (r: bool)
    ensures
        r == spec_is_noise_index(i),
{
    i == MARKER_A || i == SEPARATOR || i > NOISE_INDEX_MAX
}

/// The scan state, at the level of views.
#[verifier::ext_equal]
pub struct FnScan {
    pub is_big: bool,
    pub constants: u16,
    pub key: Option<u16>,
    pub dispatcher: Seq<char>,
    pub functions: Seq<(Seq<char>, u16)>,
    pub variables: Seq<(Seq<char>, i64)>,
    pub raw: Seq<(u16, Seq<u16>)>,
}

/// The value an array element contributes to a raw-bits capture: a numeric
/// literal, a parseable string literal, or a negated numeric literal.
pub open spec fn spec_elem_val(e: Expr) -> Option<int> {
    match e {
        Expr::Num(v) => Some(v as int),
        Expr::Str(s) => match spec_parse_num(s@) {
            Some(v) => Some(v as int),
            None => None,
        },
        Expr::Unary(UnOp::Minus, inner) => match *inner {
            Expr::Num(v) => Some(-(v as int)),
            _ => None,
        },
        _ => None,
    }
}

/// Raw bits captured from array elements at or after `i`: each in-range
/// element value, in order.
pub open spec fn spec_capture_bits(items: Seq<Expr>, i: int) -> Seq<u16>
    decreases items.len() - i,
{
    if i < 0 || i >= items.len() {
        Seq::empty()
    } else {
        let rest = spec_capture_bits(items, i + 1);
        match spec_elem_val(items[i]) {
            Some(v) => if 0 <= v <= u16::MAX {
                seq![v as u16] + rest
            } else {
                rest
            },
            None => rest,
        }
    }
}

/// The function name an assignment's right side resolves to: an identifier
/// directly, or through one level of call-argument, sequence or
/// parenthesis unwrapping.
pub open spec fn spec_fn_name(e: Expr) -> Option<String>
    decreases e,
{
    match e {
        Expr::Ident(n) => Some(n),
        Expr::Call(_, args) => if args@.len() > 0 {
            match args@[0] {
                Expr::Ident(n) => Some(n),
                _ => None,
            }
        } else {
            None
        },
        Expr::Sequence(items) => if items@.len() == 0 {
            None
        } else {
            spec_fn_name(items@.last())
        },
        Expr::Paren(inner) => spec_fn_name(*inner),
        _ => None,
    }
}

/// State after seeing a function node: the dispatcher flag follows the
/// body size, and a dispatcher records the sentinel name.
pub open spec fn ff_on_function(m: FnScan, f: FunctionDef) -> FnScan {
    if f.body@.len() > DISPATCHER_THRESHOLD {
        FnScan { is_big: true, dispatcher: "VM_ENTRY"@, ..m }
    } else {
        FnScan { is_big: false, ..m }
    }
}

/// State after recording one declarator's resolved initializer.
pub open spec fn ff_on_declarator(m: FnScan, d: Declarator) -> FnScan {
    match (d.name, d.init) {
        (Some(n), Some(e)) => match spec_resolve(m.variables, e) {
            Some(v) => FnScan { variables: sm_insert(m.variables, n@, v), ..m },
            None => m,
        },
        _ => m,
    }
}

/// State after recording a declaration's declarators from `i` on.
pub open spec fn ff_record_decls(m: FnScan, ds: Seq<Declarator>, i: int) -> FnScan
    decreases ds.len() - i,
{
    if i < 0 || i >= ds.len() {
        m
    } else {
        ff_record_decls(ff_on_declarator(m, ds[i]), ds, i + 1)
    }
}

/// State after the mapping-discovery step of one assignment node.
pub open spec fn ff_on_assign(m: FnScan, t: AssignTarget, value: Expr) -> FnScan {
    let m1 = match t {
        AssignTarget::Ident(n) => match spec_resolve(m.variables, value) {
            Some(v) => FnScan { variables: sm_insert(m.variables, n@, v), ..m },
            None => m,
        },
        _ => m,
    };
    if !(m1.is_big && t matches AssignTarget::Computed(_, _)) {
        m1
    } else {
        let idx = t->Computed_1;
        match spec_resolve_index(m1.variables, *idx) {
            Some(i) => {
                let m2 = match value {
                    Expr::Array(elems) => if tget(m1.raw, i) is Some {
                        m1
                    } else {
                        FnScan { raw: m1.raw.push((i, spec_capture_bits(elems@, 0))), ..m1 }
                    },
                    _ => m1,
                };
                if spec_is_noise_index(i) {
                    m2
                } else {
                    match spec_fn_name(value) {
                        Some(n) => FnScan {
                            functions: sm_insert(m2.functions, n@, i),
                            ..m2
                        },
                        None => match value {
                            Expr::Array(elems) => {
                                let key = if elems@.len() >= 4 && (elems@[3] matches Expr::Num(
                                    k,
                                ) && 0 <= k <= u16::MAX) {
                                    Some(elems@[3]->Num_0 as u16)
                                } else {
                                    m2.key
                                };
                                FnScan { constants: i, key, ..m2 }
                            },
                            _ => if m2.dispatcher.len() > 0 {
                                FnScan {
                                    functions: sm_insert(m2.functions, m2.dispatcher, i),
                                    ..m2
                                }
                            } else {
                                m2
                            },
                        },
                    }
                }
            },
            None => m1,
        }
    }
}

/// State after walking one expression, node first, children in order.
pub open spec fn ff_expr(m: FnScan, e: Expr) -> FnScan
    decreases e, 2int,
{
    match e {
        Expr::Num(_) => m,
        Expr::Str(_) => m,
        Expr::Ident(_) => m,
        Expr::Paren(inner) => ff_expr(m, *inner),
        Expr::Sequence(items) => ff_expr_list(m, items@, 0),
        Expr::Unary(_, arg) => ff_expr(m, *arg),
        Expr::Binary(_, l, r) => ff_expr(ff_expr(m, *l), *r),
        Expr::Logical(_, l, r) => ff_expr(ff_expr(m, *l), *r),
        Expr::Conditional(t, c, a) => ff_expr(ff_expr(ff_expr(m, *t), *c), *a),
        Expr::Call(callee, args) => ff_expr_list(ff_expr(m, *callee), args@, 0),
        Expr::New(callee, args) => ff_expr_list(ff_expr(m, *callee), args@, 0),
        Expr::Computed(obj, idx) => ff_expr(ff_expr(m, *obj), *idx),
        Expr::Member(obj, _) => ff_expr(m, *obj),
        Expr::Assign(target, value) => ff_expr(
            ff_target(ff_on_assign(m, target, *value), target),
            *value,
        ),
        Expr::Array(items) => ff_expr_list(m, items@, 0),
        Expr::Object(values) => ff_expr_list(m, values@, 0),
        Expr::Function(f) => ff_stmt_list(ff_on_function(m, *f), f.body@, 0),
        Expr::Other => m,
    }
}

/// State after walking an assignment target's subexpressions.
pub open spec fn ff_target(m: FnScan, t: AssignTarget) -> FnScan
    decreases t, 2int,
{
    match t {
        AssignTarget::Ident(_) => m,
        AssignTarget::Computed(obj, idx) => ff_expr(ff_expr(m, *obj), *idx),
        AssignTarget::Member(obj, _) => ff_expr(m, *obj),
        AssignTarget::Other => m,
    }
}

/// State after walking the expressions of a list from `i` on.
pub open spec fn ff_expr_list(m: FnScan, items: Seq<Expr>, i: int) -> FnScan
    decreases items, items.len() - i,
{
    if i < 0 || i >= items.len() {
        m
    } else {
        ff_expr_list(ff_expr(m, items[i]), items, i + 1)
    }
}

/// State after walking one statement.
pub open spec fn ff_stmt(m: FnScan, s: Stmt) -> FnScan
    decreases s, 2int,
{
    match s {
        Stmt::Expr(e) => ff_expr(m, e),
        Stmt::Return(arg) => match arg {
            Some(e) => ff_expr(m, e),
            None => m,
        },
        Stmt::If(test, then, alt) => ff_stmt_list(ff_stmt_list(ff_expr(m, test), then@, 0), alt@, 0),
        Stmt::Throw(e) => ff_expr(m, e),
        Stmt::For(header, body) => ff_stmt_list(ff_stmt_list(m, header@, 0), body@, 0),
        Stmt::Decl(ds) => ff_decl_walk(ff_record_decls(m, ds@, 0), ds@, 0),
        Stmt::Func(f) => ff_stmt_list(ff_on_function(m, f), f.body@, 0),
        Stmt::Block(items) => ff_stmt_list(m, items@, 0),
        Stmt::Other => m,
    }
}

/// State after walking the statements of a list from `i` on.
pub open spec fn ff_stmt_list(m: FnScan, items: Seq<Stmt>, i: int) -> FnScan
    decreases items, items.len() - i,
{
    if i < 0 || i >= items.len() {
        m
    } else {
        ff_stmt_list(ff_stmt(m, items[i]), items, i + 1)
    }
}

/// State after walking the declarator initializers from `i` on.
pub open spec fn ff_decl_walk(m: FnScan, ds: Seq<Declarator>, i: int) -> FnScan
    decreases ds, ds.len() - i,
{
    if i < 0 || i >= ds.len() {
        m
    } else {
        let m1 = match ds[i].init {
            Some(e) => ff_expr(m, e),
            None => m,
        };
        ff_decl_walk(m1, ds, i + 1)
    }
}

/// The empty scan state.
pub open spec fn ff_empty() -> FnScan {
    FnScan {
        is_big: false,
        constants: 0,
        key: None,
        dispatcher: Seq::empty(),
        functions: Seq::empty(),
        variables: Seq::empty(),
        raw: Seq::empty(),
    }
}

/// State after scanning a whole program from the empty state.
pub open spec fn ff_program(p: Program) -> FnScan {
    ff_stmt_list(ff_empty(), p.body@, 0)
}

/// The function classifier's result: dispatcher flag and name, the opcode
/// index mapping, the constants-table index, the key byte, the variable
/// table, and the raw-bits captures.
pub struct FindFunctions {
    pub is_big_function: bool,
    pub constants: u16,
    pub key: Option<u16>,
    pub function_with_opcodes: String,
    pub functions: SMap<u16>,
    pub variables: SMap<i64>,
    pub raw_bits: Vec<(u16, Vec<u16>)>,
}

impl View for FindFunctions {
    type V = FnScan;

    open spec fn view(&self) -> FnScan {
        FnScan {
            is_big: self.is_big_function,
            constants: self.constants,
            key: self.key,
            dispatcher: self.function_with_opcodes@,
            functions: self.functions@,
            variables: self.variables@,
            raw: self.raw_bits@.map_values(|p: (u16, Vec<u16>)| (p.0, p.1@)),
        }
    }
}

/// Captures raw bits from array elements, per `spec_capture_bits`.
fn capture_bits(items: &Vec<Expr>) -> (r: Vec<u16>)
    ensures
        r@ == spec_capture_bits(items@, 0),
{
    let n = items.len();
    let mut out: Vec<u16> = Vec::new();
    let mut i: usize = 0;
    proof {
        assert(Seq::<u16>::empty() + spec_capture_bits(items@, 0) =~= spec_capture_bits(
            items@,
            0,
        ));
    }
    while i < n
        invariant
            i <= n,
            n == items@.len(),
            spec_capture_bits(items@, 0) == out@ + spec_capture_bits(items@, i as int),
        decreases n - i,
    {
        let v: Option<i64> = match &items[i] {
            Expr::Num(v) => Some(*v),
            Expr::Str(s) => parse_num_str(s.as_str()),
            Expr::Unary(UnOp::Minus, inner) => match &**inner {
                Expr::Num(v) => {
                    if *v >= -65535 && *v <= 0 {
                        Some(-*v)
                    } else {
                        proof {
                            assert(!(0 <= -(*v as int) <= u16::MAX));
                        }
                        None
                    }
                },
                _ => None,
            },
            _ => None,
        };
        let ghost pre = out@;
        match v {
            Some(v) => {
                if 0 <= v && v <= 65535 {
                    out.push(v as u16);
                    proof {
                        match spec_elem_val(items@[i as int]) {
                            Some(sv) => {
                                assert(sv == v as int);
                                assert(pre + (seq![v as u16] + spec_capture_bits(
                                    items@,
                                    i + 1,
                                )) =~= out@ + spec_capture_bits(items@, i + 1));
                            },
                            None => {
                                assert(false);
                            },
                        }
                    }
                } else {
                    proof {
                        assert(spec_capture_bits(items@, i as int) == spec_capture_bits(
                            items@,
                            i + 1,
                        ));
                    }
                }
            },
            None => {},
        }
        i = i + 1;
    }
    proof {
        assert(spec_capture_bits(items@, n as int) =~= Seq::<u16>::empty());
        assert(out@ + Seq::<u16>::empty() =~= out@);
    }
    out
}

/// The right side's function name, per `spec_fn_name`.
fn fn_name_of(e: &Expr) -> (r: Option<&String>)
    ensures
        match r {
            Some(n) => spec_fn_name(*e) == Some(*n),
            None => spec_fn_name(*e) is None,
        },
    decreases *e,
{
    match e {
        Expr::Ident(n) => Some(n),
        Expr::Call(_, args) => {
            if args.len() > 0 {
                match &args[0] {
                    Expr::Ident(n) => Some(n),
                    _ => None,
                }
            } else {
                None
            }
        },
        Expr::Sequence(items) => {
            let n = items.len();
            if n == 0 {
                None
            } else {
                fn_name_of(&items[n - 1])
            }
        },
        Expr::Paren(inner) => fn_name_of(inner),
        _ => None,
    }
}

impl FindFunctions {
    /// The empty scan result.
    pub fn new() -> (r: Self)
        ensures
            r@ == ff_empty(),
    {
        let r = FindFunctions {
            is_big_function: false,
            constants: 0,
            key: None,
            function_with_opcodes: String::new(),
            functions: SMap::new(),
            variables: SMap::new(),
            raw_bits: Vec::new(),
        };
        proof {
            assert(r@.functions =~= ff_empty().functions);
            assert(r@.variables =~= ff_empty().variables);
            assert(r@.raw =~= ff_empty().raw);
            assert(r@.dispatcher =~= ff_empty().dispatcher);
        }
        r
    }

    /// Records a raw-bits capture for an index not yet captured.
    fn record_raw(&mut self, idx: u16, bits: Vec<u16>)
        ensures
            final(self)@ == (FnScan {
                raw: if tget(old(self)@.raw, idx) is Some {
                    old(self)@.raw
                } else {
                    old(self)@.raw.push((idx, bits@))
                },
                ..old(self)@
            }),
    {
        let n = self.raw_bits.len();
        let mut i: usize = 0;
        while i < n
            invariant
                i <= n,
                n == self.raw_bits@.len(),
                *self == *old(self),
                forall|j: int| 0 <= j < i ==> (#[trigger] self.raw_bits@[j]).0 != idx,
            decreases n - i,
        {
            if self.raw_bits[i].0 == idx {
                proof {
                    assert(self@.raw[i as int].0 == idx);
                    crate::itable::lemma_tget_present(self@.raw, idx, i as int);
                    assert(final(self)@ =~= FnScan { raw: old(self)@.raw, ..old(self)@ });
                }
                return ;
            }
            i = i + 1;
        }
        proof {
            assert forall|j: int| 0 <= j < self@.raw.len() implies (#[trigger] self@.raw[j]).0
                != idx by {
                assert(self@.raw[j].0 == self.raw_bits@[j].0);
            }
            crate::itable::lemma_tget_absent(self@.raw, idx);
        }
        self.raw_bits.push((idx, bits));
        proof {
            assert(self@.raw =~= old(self)@.raw.push((idx, bits@)));
            assert(final(self)@ =~= FnScan {
                raw: old(self)@.raw.push((idx, bits@)),
                ..old(self)@
            });
        }
    }

    /// Applies the function-node rule: a body of more than fifty statements
    /// is the dispatcher regardless of its declared name.
    fn visit_function_node(&mut self, f: &FunctionDef)
        ensures
            final(self)@ =~= ff_on_function(old(self)@, *f),
            f.body@.len() > DISPATCHER_THRESHOLD ==> final(self)@.is_big,
            f.body@.len() > DISPATCHER_THRESHOLD ==> final(self)@.dispatcher == "VM_ENTRY"@,
    {
        if f.body.len() > DISPATCHER_THRESHOLD {
            self.is_big_function = true;
            self.function_with_opcodes = String::from_str("VM_ENTRY");
        } else {
            self.is_big_function = false;
        }
    }

    /// Applies the assignment-node rules: variable recording and mapping
    /// discovery, per `ff_on_assign`.
    fn visit_assign_node(&mut self, t: &AssignTarget, value: &Expr)
        ensures
            final(self)@ =~= ff_on_assign(old(self)@, *t, *value),
    {
        if let AssignTarget::Ident(n) = t {
            match resolve_expr(&self.variables, value) {
                Some(v) => {
                    let name = n.clone();
                    self.variables.insert(name, v);
                },
                None => {},
            }
        }
        if self.is_big_function {
            if let AssignTarget::Computed(_, idx) = t {
                match resolve_index(&self.variables, idx) {
                    Some(i) => {
                        if let Expr::Array(elems) = value {
                            let bits = capture_bits(elems);
                            self.record_raw(i, bits);
                        }
                        if !is_noise_index(i) {
                            match fn_name_of(value) {
                                Some(n) => {
                                    let name = n.clone();
                                    self.functions.insert(name, i);
                                },
                                None => {
                                    if let Expr::Array(elems) = value {
                                        self.constants = i;
                                        if elems.len() >= 4 {
                                            if let Expr::Num(k) = &elems[3] {
                                                if *k >= 0 && *k <= 65535 {
                                                    self.key = Some(*k as u16);
                                                }
                                            }
                                        }
                                    } else {
                                        if !self.function_with_opcodes.as_str().is_empty() {
                                            let d = self.function_with_opcodes.clone();
                                            self.functions.insert(d, i);
                                        }
                                    }
                                },
                            }
                        }
                    },
                    None => {},
                }
            }
        }
    }

    /// Records declarators' resolved initializers from `from` on, per
    /// `ff_record_decls`.
    fn visit_decl_record(&mut self, ds: &Vec<Declarator>, from: usize)
        ensures
            final(self)@ =~= ff_record_decls(old(self)@, ds@, from as int),
        decreases ds@.len() - from,
    {
        if from < ds.len() {
            match (&ds[from].name, &ds[from].init) {
                (Some(n), Some(e)) => {
                    match resolve_expr(&self.variables, e) {
                        Some(v) => {
                            let name = n.clone();
                            self.variables.insert(name, v);
                        },
                        None => {},
                    }
                },
                _ => {},
            }
            self.visit_decl_record(ds, from + 1);
        }
    }

    /// Walks one expression, per `ff_expr`.
    fn visit_expr(&mut self, e: &Expr)
        ensures
            final(self)@ =~= ff_expr(old(self)@, *e),
        decreases *e, 2int,
    {
        match e {
            Expr::Num(_) => {},
            Expr::Str(_) => {},
            Expr::Ident(_) => {},
            Expr::Paren(inner) => self.visit_expr(inner),
            Expr::Sequence(items) => self.visit_expr_list(items, 0),
            Expr::Unary(_, arg) => self.visit_expr(arg),
            Expr::Binary(_, l, r) => {
                self.visit_expr(l);
                self.visit_expr(r);
            },
            Expr::Logical(_, l, r) => {
                self.visit_expr(l);
                self.visit_expr(r);
            },
            Expr::Conditional(t, c, a) => {
                self.visit_expr(t);
                self.visit_expr(c);
                self.visit_expr(a);
            },
            Expr::Call(callee, args) => {
                self.visit_expr(callee);
                self.visit_expr_list(args, 0);
            },
            Expr::New(callee, args) => {
                self.visit_expr(callee);
                self.visit_expr_list(args, 0);
            },
            Expr::Computed(obj, idx) => {
                self.visit_expr(obj);
                self.visit_expr(idx);
            },
            Expr::Member(obj, _) => self.visit_expr(obj),
            Expr::Assign(target, value) => {
                self.visit_assign_node(target, value);
                self.visit_target(target);
                self.visit_expr(value);
            },
            Expr::Array(items) => self.visit_expr_list(items, 0),
            Expr::Object(values) => self.visit_expr_list(values, 0),
            Expr::Function(f) => {
                self.visit_function_node(f);
                self.visit_stmt_list(&f.body, 0);
            },
            Expr::Other => {},
        }
    }

    /// Walks an assignment target's subexpressions, per `ff_target`.
    fn visit_target(&mut self, t: &AssignTarget)
        ensures
            final(self)@ =~= ff_target(old(self)@, *t),
        decreases *t, 2int,
    {
        match t {
            AssignTarget::Ident(_) => {},
            AssignTarget::Computed(obj, idx) => {
                self.visit_expr(obj);
                self.visit_expr(idx);
            },
            AssignTarget::Member(obj, _) => self.visit_expr(obj),
            AssignTarget::Other => {},
        }
    }

    /// Walks an expression list from `from` on, per `ff_expr_list`.
    fn visit_expr_list(&mut self, items: &Vec<Expr>, from: usize)
        ensures
            final(self)@ =~= ff_expr_list(old(self)@, items@, from as int),
        decreases *items, items@.len() - from,
    {
        if from < items.len() {
            self.visit_expr(&items[from]);
            self.visit_expr_list(items, from + 1);
        }
    }

    /// Walks one statement, per `ff_stmt`.
    fn visit_stmt(&mut self, s: &Stmt)
        ensures
            final(self)@ =~= ff_stmt(old(self)@, *s),
        decreases *s, 2int,
    {
        match s {
            Stmt::Expr(e) => self.visit_expr(e),
            Stmt::Return(arg) => match arg {
                Some(e) => self.visit_expr(e),
                None => {},
            },
            Stmt::If(test, then, alt) => {
                self.visit_expr(test);
                self.visit_stmt_list(then, 0);
                self.visit_stmt_list(alt, 0);
            },
            Stmt::Throw(e) => self.visit_expr(e),
            Stmt::For(header, body) => {
                self.visit_stmt_list(header, 0);
                self.visit_stmt_list(body, 0);
            },
            Stmt::Decl(ds) => {
                self.visit_decl_record(ds, 0);
                self.visit_decl_walk(ds, 0);
            },
            Stmt::Func(f) => {
                self.visit_function_node(f);
                self.visit_stmt_list(&f.body, 0);
            },
            Stmt::Block(items) => self.visit_stmt_list(items, 0),
            Stmt::Other => {},
        }
    }

    /// Walks a statement list from `from` on, per `ff_stmt_list`.
    fn visit_stmt_list(&mut self, items: &Vec<Stmt>, from: usize)
        ensures
            final(self)@ =~= ff_stmt_list(old(self)@, items@, from as int),
        decreases *items, items@.len() - from,
    {
        if from < items.len() {
            self.visit_stmt(&items[from]);
            self.visit_stmt_list(items, from + 1);
        }
    }

    /// Walks declarator initializers from `from` on, per `ff_decl_walk`.
    fn visit_decl_walk(&mut self, ds: &Vec<Declarator>, from: usize)
        ensures
            final(self)@ =~= ff_decl_walk(old(self)@, ds@, from as int),
        decreases *ds, ds@.len() - from,
    {
        if from < ds.len() {
            match &ds[from].init {
                Some(e) => self.visit_expr(e),
                None => {},
            }
            self.visit_decl_walk(ds, from + 1);
        }
    }

    /// The raw bits captured for an index, when any were.
    pub fn get_bits_for_index(&self, idx: u16) -> (r: Option<&Vec<u16>>)
        ensures
            match r {
                Some(b) => tget(self@.raw, idx) == Some(b@),
                None => tget(self@.raw, idx) is None,
            },
    {
        let n = self.raw_bits.len();
        let mut i: usize = 0;
        while i < n
            invariant
                i <= n,
                n == self.raw_bits@.len(),
                forall|j: int| 0 <= j < i ==> (#[trigger] self.raw_bits@[j]).0 != idx,
            decreases n - i,
        {
            if self.raw_bits[i].0 == idx {
                proof {
                    assert(self@.raw[i as int] == (self.raw_bits@[i as int].0, self.raw_bits@[
                        i as int].1@));
                    assert forall|j: int| 0 <= j < i implies (#[trigger] self@.raw[j]).0
                        != idx by {
                        assert(self@.raw[j].0 == self.raw_bits@[j].0);
                    }
                    crate::itable::lemma_tget_present(self@.raw, idx, i as int);
                }
                return Some(&self.raw_bits[i].1);
            }
            i = i + 1;
        }
        proof {
            assert forall|j: int| 0 <= j < self@.raw.len() implies (#[trigger] self@.raw[j]).0
                != idx by {
                assert(self@.raw[j].0 == self.raw_bits@[j].0);
            }
            crate::itable::lemma_tget_absent(self@.raw, idx);
        }
        None
    }
}

/// Scans a whole program, per `ff_program`.
pub fn scan_functions(p: &Program) -> (r: FindFunctions)
    ensures
        r@ =~= ff_program(*p),
{
    let mut ff = FindFunctions::new();
    ff.visit_stmt_list(&p.body, 0);
    ff
}

} // verus!
