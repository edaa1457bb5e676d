//! Classifying each claimed handler body into a tagged instruction.
//!
//! The pass walks the tree with the pending function pool built by the
//! function classifier. A function whose effective name is still pending
//! claims its opcode slot and is classified: the dispatcher itself gets a
//! fixed default instruction; otherwise the body's last one or two
//! statements decide. A next-to-last conditional or if-statement yields a
//! test list whose count is dispatched against the operator enumeration
//! cardinalities; a next-to-last register-to-register copy is a swap; the
//! last statement's shape decides the remaining kinds. A body matching no
//! recognized shape claims its slot without writing an instruction — an
//! accepted gap, not an error.

use vstd::prelude::*;
use vstd::string::StrSliceExecFns;
use vstd::string::StringExecFns;
use crate::ast::{AssignTarget, Declarator, Expr, FunctionDef, Program, Stmt};
use crate::extract::{chain_swaps, ex_empty, ex_expr, ex_stmt, ex_stmt_list, spec_chain_swaps,
    Extractor};
use crate::functions::DISPATCHER_THRESHOLD;
use crate::itable::{t_insert, tab_insert, tget};
use crate::opcodes::{binary_operator_at, heap_type_at, literal_type_at, spec_binary_operator_at,
    spec_heap_type_at, spec_literal_type_at, spec_unary_operator_at, unary_operator_at,
    BinaryOpcode, ClosureOpcode, ClosureTest, DefaultOpcode, HeapType, LiteralType,
    NewLiteralOpcode, NewLiteralTest, Opcode, UnaryOpcode, BINARY_OPERATOR_COUNT,
    HEAP_TYPE_COUNT, LITERAL_TYPE_COUNT, UNARY_OPERATOR_COUNT};
use crate::smap::{sm_remove, spec_get, SMap};
use crate::strutil::str_eq;

verus! {

/// An instruction at the level of views.
#[verifier::ext_equal]
pub enum OpcodeModel {
    ArrayPush(Seq<u16>),
    Throw(Seq<u16>),
    Bind(Seq<u16>),
    RegisterVMFunction(Seq<u16>),
    Binary { bits: Seq<u16>, operator: crate::opcodes::BinaryOperator, swap: bool },
    Unary { bits: Seq<u16>, operator: crate::opcodes::UnaryOperator },
    NewLiteral { bits: Seq<u16>, tests: Seq<(u16, (Seq<u16>, LiteralType))> },
    NewObject(Seq<u16>),
    Pop(Seq<u16>),
    SetProperty(Seq<u16>),
    GetProperty(Seq<u16>),
    SplicePop(Seq<u16>),
    CallFuncNoContext(Seq<u16>),
    SwapRegister(Seq<u16>),
    NewArray(Seq<u16>),
    Jump(Seq<u16>),
    JumpIf(Seq<u16>),
    Move(Seq<u16>),
    Call(Seq<u16>),
    Heap { bits: Seq<u16>, closures: Seq<(u16, (Seq<u16>, HeapType))> },
}

/// The view of one instruction.
pub open spec fn opcode_model(op: Opcode) -> OpcodeModel {
    match op {
        Opcode::ArrayPush(o) => OpcodeModel::ArrayPush(o.bits@),
        Opcode::Throw(o) => OpcodeModel::Throw(o.bits@),
        Opcode::Bind(o) => OpcodeModel::Bind(o.bits@),
        Opcode::RegisterVMFunction(o) => OpcodeModel::RegisterVMFunction(o.bits@),
        Opcode::Binary(o) => OpcodeModel::Binary {
            bits: o.bits@,
            operator: o.operator,
            swap: o.swap,
        },
        Opcode::Unary(o) => OpcodeModel::Unary { bits: o.bits@, operator: o.operator },
        Opcode::NewLiteral(o) => OpcodeModel::NewLiteral {
            bits: o.bits@,
            tests: o.tests@.map_values(
                |p: (u16, NewLiteralTest)| (p.0, (p.1.bits@, p.1.type_)),
            ),
        },
        Opcode::NewObject(o) => OpcodeModel::NewObject(o.bits@),
        Opcode::Pop(o) => OpcodeModel::Pop(o.bits@),
        Opcode::SetProperty(o) => OpcodeModel::SetProperty(o.bits@),
        Opcode::GetProperty(o) => OpcodeModel::GetProperty(o.bits@),
        Opcode::SplicePop(o) => OpcodeModel::SplicePop(o.bits@),
        Opcode::CallFuncNoContext(o) => OpcodeModel::CallFuncNoContext(o.bits@),
        Opcode::SwapRegister(o) => OpcodeModel::SwapRegister(o.bits@),
        Opcode::NewArray(o) => OpcodeModel::NewArray(o.bits@),
        Opcode::Jump(o) => OpcodeModel::Jump(o.bits@),
        Opcode::JumpIf(o) => OpcodeModel::JumpIf(o.bits@),
        Opcode::Move(o) => OpcodeModel::Move(o.bits@),
        Opcode::Call(o) => OpcodeModel::Call(o.bits@),
        Opcode::Heap(o) => OpcodeModel::Heap {
            bits: o.bits@,
            closures: o.closures@.map_values(
                |p: (u16, ClosureTest)| (p.0, (p.1.bits@, p.1.closure_type)),
            ),
        },
    }
}

/// The classifier state, at the level of views.
#[verifier::ext_equal]
pub struct OpScan {
    pub constants: u16,
    pub functions: Seq<(Seq<char>, u16)>,
    pub opcodes: Seq<(u16, OpcodeModel)>,
    pub create_function_ident: Seq<char>,
    pub window_register: u16,
}

/// The smaller of two lengths.
pub open spec fn spec_min(a: int, b: int) -> int {
    if a <= b {
        a
    } else {
        b
    }
}

/// Unary classification: per enumerant, one test value claims a slot with
/// two operand bits drained in order.
pub open spec fn handle_unary(
    ops: Seq<(u16, OpcodeModel)>,
    tests: Seq<u16>,
    bits: Seq<u16>,
    k: int,
) -> Seq<(u16, OpcodeModel)>
    decreases spec_min(UNARY_OPERATOR_COUNT as int, tests.len() as int) - k,
{
    if k < 0 || k >= spec_min(UNARY_OPERATOR_COUNT as int, tests.len() as int) {
        ops
    } else {
        let lo = spec_min(2 * k, bits.len() as int);
        let hi = spec_min(2 * k + 2, bits.len() as int);
        let op = OpcodeModel::Unary {
            bits: bits.subrange(lo, hi),
            operator: spec_unary_operator_at(k),
        };
        handle_unary(t_insert(ops, tests[k], op), tests, bits, k + 1)
    }
}

/// Binary classification: per enumerant, one test value claims a slot with
/// up to three operand bits and one swap flag.
pub open spec fn handle_binary(
    ops: Seq<(u16, OpcodeModel)>,
    tests: Seq<u16>,
    bits: Seq<u16>,
    swaps: Seq<bool>,
    k: int,
) -> Seq<(u16, OpcodeModel)>
    decreases spec_min(BINARY_OPERATOR_COUNT as int, tests.len() as int) - k,
{
    if k < 0 || k >= spec_min(BINARY_OPERATOR_COUNT as int, tests.len() as int) {
        ops
    } else {
        let lo = spec_min(3 * k, bits.len() as int);
        let hi = spec_min(3 * k + 3, bits.len() as int);
        let op = OpcodeModel::Binary {
            bits: bits.subrange(lo, hi),
            operator: spec_binary_operator_at(k),
            swap: if k < swaps.len() {
                swaps[k]
            } else {
                false
            },
        };
        handle_binary(t_insert(ops, tests[k], op), tests, bits, swaps, k + 1)
    }
}

/// Whether a literal kind consumes one operand bit.
pub open spec fn lit_takes_one(k: int) -> bool {
    k == 6 || k == 7 || k == 9 || k == 10
}

/// Literal classification: the per-kind test map, consuming one bit for
/// the single-operand kinds and all remaining bits for the last kind.
pub open spec fn lit_tests(
    acc: Seq<(u16, (Seq<u16>, LiteralType))>,
    tests: Seq<u16>,
    bits: Seq<u16>,
    k: int,
    pos: int,
) -> Seq<(u16, (Seq<u16>, LiteralType))>
    decreases spec_min(LITERAL_TYPE_COUNT as int, tests.len() as int) - k,
{
    if k < 0 || k >= spec_min(LITERAL_TYPE_COUNT as int, tests.len() as int) {
        acc
    } else {
        let kind = spec_literal_type_at(k);
        let chunk = if k == 11 {
            bits.subrange(spec_min(pos, bits.len() as int), bits.len() as int)
        } else if lit_takes_one(k) && pos < bits.len() {
            seq![bits[pos]]
        } else {
            Seq::empty()
        };
        let pos2 = if k == 11 {
            bits.len() as int
        } else if lit_takes_one(k) && pos < bits.len() {
            pos + 1
        } else {
            pos
        };
        lit_tests(t_insert(acc, tests[k], (chunk, kind)), tests, bits, k + 1, pos2)
    }
}

/// The literal instruction for a twelve-test body.
pub open spec fn lit_opcode(tests: Seq<u16>, bits: Seq<u16>) -> OpcodeModel {
    let shared = bits.subrange(0, spec_min(2, bits.len() as int));
    OpcodeModel::NewLiteral {
        bits: shared,
        tests: lit_tests(Seq::empty(), tests, bits, 0, spec_min(2, bits.len() as int)),
    }
}

/// Heap classification: the per-kind closure map, consuming one bit for
/// each kind but the parameterless one.
pub open spec fn heap_closures(
    acc: Seq<(u16, (Seq<u16>, HeapType))>,
    tests: Seq<u16>,
    bits: Seq<u16>,
    k: int,
    pos: int,
) -> Seq<(u16, (Seq<u16>, HeapType))>
    decreases spec_min(HEAP_TYPE_COUNT as int, tests.len() as int) - k,
{
    if k < 0 || k >= spec_min(HEAP_TYPE_COUNT as int, tests.len() as int) {
        acc
    } else {
        let kind = spec_heap_type_at(k);
        let chunk = if kind == HeapType::Init {
            Seq::<u16>::empty()
        } else if pos < bits.len() {
            seq![bits[pos]]
        } else {
            Seq::empty()
        };
        let pos2 = if kind == HeapType::Init {
            pos
        } else if pos < bits.len() {
            pos + 1
        } else {
            pos
        };
        heap_closures(t_insert(acc, tests[k], (chunk, kind)), tests, bits, k + 1, pos2)
    }
}

/// The heap instruction for a three-test body.
pub open spec fn heap_opcode(tests: Seq<u16>, bits: Seq<u16>) -> OpcodeModel {
    let first = if bits.len() > 0 {
        bits[0]
    } else {
        0u16
    };
    OpcodeModel::Heap {
        bits: seq![first],
        closures: heap_closures(
            Seq::empty(),
            tests,
            bits,
            0,
            spec_min(1, bits.len() as int),
        ),
    }
}

/// Dispatch purely on the count of collected tests against the enum
/// cardinalities, in precedence order.
pub open spec fn process_by_count(
    ops: Seq<(u16, OpcodeModel)>,
    reg: u16,
    tests: Seq<u16>,
    bits: Seq<u16>,
    swaps: Seq<bool>,
) -> Seq<(u16, OpcodeModel)> {
    let n = tests.len() as int;
    if n == UNARY_OPERATOR_COUNT {
        handle_unary(ops, tests, bits, 0)
    } else if n == LITERAL_TYPE_COUNT {
        t_insert(ops, reg, lit_opcode(tests, bits))
    } else if n == BINARY_OPERATOR_COUNT || n == BINARY_OPERATOR_COUNT - 1 {
        handle_binary(ops, tests, bits, swaps, 0)
    } else if n == HEAP_TYPE_COUNT {
        t_insert(ops, reg, heap_opcode(tests, bits))
    } else {
        ops
    }
}

/// Whether a body has the dynamic function-construction shape: a final
/// return of a computed member on a static member with a binary index,
/// preceded by an assignment statement.
pub open spec fn spec_is_cfi_shape(body: Seq<Stmt>) -> bool {
    if body.len() < 2 {
        false
    } else {
        match body.last() {
            Stmt::Return(arg) => match arg {
                Some(e) => match e {
                    Expr::Computed(obj, idx) => {
                        &&& *obj matches Expr::Member(_, _)
                        &&& *idx matches Expr::Binary(_, _, _)
                        &&& match body[body.len() - 2] {
                            Stmt::Expr(e2) => e2 matches Expr::Assign(_, _),
                            _ => false,
                        }
                    },
                    _ => false,
                },
                None => false,
            },
            _ => false,
        }
    }
}

/// Whether an expression is a member access of either kind.
pub open spec fn spec_is_member(e: Expr) -> bool {
    e matches Expr::Computed(_, _) || e matches Expr::Member(_, _)
}

/// The classification of the last statement of a claimed body: the shape
/// of an assignment to a computed member decides the instruction kind.
pub open spec fn tail_action(
    ops: Seq<(u16, OpcodeModel)>,
    reg: u16,
    body: Seq<Stmt>,
    plain: Seq<u16>,
) -> Seq<(u16, OpcodeModel)> {
    match body.last() {
        Stmt::Expr(e) => match e {
            Expr::Assign(target, value) => match target {
                AssignTarget::Computed(_, tgt_idx) => match *value {
                    Expr::Call(callee, args) => {
                        let ops1 = if args@.len() > 0 && !spec_is_member(args@[0]) {
                            t_insert(ops, reg, OpcodeModel::SplicePop(plain))
                        } else {
                            ops
                        };
                        let ops2 = match *callee {
                            Expr::Computed(_, prop) => match *prop {
                                Expr::Str(s) => if s@ == "push"@ {
                                    t_insert(ops1, reg, OpcodeModel::ArrayPush(plain))
                                } else {
                                    ops1
                                },
                                _ => ops1,
                            },
                            _ => ops1,
                        };
                        match *callee {
                            Expr::Computed(obj2, prop) => match (*obj2, *prop) {
                                (Expr::Ident(o), Expr::Str(s)) => if s@ == "bind"@ {
                                    if o@.len() == 1 {
                                        t_insert(ops2, reg, OpcodeModel::Bind(plain))
                                    } else if o@.len() == 2 {
                                        t_insert(
                                            ops2,
                                            reg,
                                            OpcodeModel::RegisterVMFunction(plain),
                                        )
                                    } else {
                                        ops2
                                    }
                                } else if s@ == "pop"@ {
                                    t_insert(ops2, reg, OpcodeModel::Pop(plain))
                                } else {
                                    ops2
                                },
                                _ => ops2,
                            },
                            _ => ops2,
                        }
                    },
                    Expr::Object(_) => t_insert(ops, reg, OpcodeModel::NewObject(plain)),
                    Expr::Computed(obj_r, _) => match *obj_r {
                        Expr::Ident(_) => t_insert(ops, reg, OpcodeModel::GetProperty(plain)),
                        _ => t_insert(ops, reg, OpcodeModel::SetProperty(plain)),
                    },
                    Expr::New(_, _) => t_insert(ops, reg, OpcodeModel::CallFuncNoContext(plain)),
                    Expr::Array(_) => t_insert(ops, reg, OpcodeModel::NewArray(plain)),
                    Expr::Ident(_) => if *tgt_idx matches Expr::Num(_) {
                        t_insert(ops, reg, OpcodeModel::Jump(plain))
                    } else {
                        let is_move = if body.len() >= 2 {
                            match body[body.len() - 2] {
                                Stmt::Expr(e2) => match e2 {
                                    Expr::Assign(t2, _) => t2 matches AssignTarget::Ident(_),
                                    _ => false,
                                },
                                _ => false,
                            }
                        } else {
                            false
                        };
                        if is_move {
                            t_insert(ops, reg, OpcodeModel::Move(plain))
                        } else {
                            t_insert(ops, reg, OpcodeModel::SetProperty(plain))
                        }
                    },
                    Expr::Conditional(_, _, _) => t_insert(ops, reg, OpcodeModel::Call(plain)),
                    _ => t_insert(ops, reg, OpcodeModel::SetProperty(plain)),
                },
                _ => ops,
            },
            Expr::Logical(_, _, _) => t_insert(ops, reg, OpcodeModel::JumpIf(plain)),
            _ => ops,
        },
        Stmt::Throw(_) => t_insert(ops, reg, OpcodeModel::Throw(plain)),
        _ => ops,
    }
}

/// The classification of the next-to-last statement: a conditional chain
/// or if-statement dispatches on its test count; a raw register copy is a
/// swap.
pub open spec fn mid_action(
    ops: Seq<(u16, OpcodeModel)>,
    c: u16,
    reg: u16,
    body: Seq<Stmt>,
    plain: Seq<u16>,
) -> Seq<(u16, OpcodeModel)> {
    match body[body.len() - 2] {
        Stmt::Expr(e) => match e {
            Expr::Conditional(_, _, _) => {
                let st = ex_expr(ex_empty(), c, e);
                process_by_count(ops, reg, st.tests, st.bits, spec_chain_swaps(e))
            },
            Expr::Assign(target, value) => match target {
                AssignTarget::Computed(_, _) => match *value {
                    Expr::Computed(_, _) => t_insert(ops, reg, OpcodeModel::SwapRegister(plain)),
                    _ => ops,
                },
                _ => ops,
            },
            _ => ops,
        },
        Stmt::If(_, _, _) => {
            let st = ex_stmt(ex_empty(), c, body[body.len() - 2]);
            process_by_count(ops, reg, st.tests, plain, Seq::empty())
        },
        _ => ops,
    }
}

/// State after seeing a function node: the effective name claims its slot
/// from the pending pool and the body is classified.
pub open spec fn op_on_function(m: OpScan, f: FunctionDef) -> OpScan {
    let big = f.body@.len() > DISPATCHER_THRESHOLD;
    let name: Option<Seq<char>> = if big {
        Some("VM_ENTRY"@)
    } else {
        match f.name {
            Some(n) => Some(n@),
            None => None,
        }
    };
    match name {
        None => m,
        Some(nm) => {
            if f.body@.len() == 0 {
                m
            } else {
                let body = f.body@;
                let m1 = if spec_is_cfi_shape(body) {
                    OpScan { create_function_ident: nm, ..m }
                } else {
                    m
                };
                match spec_get(m1.functions, nm) {
                    None => m1,
                    Some(reg) => {
                        let m2 = OpScan { functions: sm_remove(m1.functions, nm), ..m1 };
                        if big {
                            OpScan {
                                opcodes: t_insert(
                                    m2.opcodes,
                                    reg,
                                    OpcodeModel::SetProperty(Seq::empty()),
                                ),
                                ..m2
                            }
                        } else {
                            let plain = ex_stmt_list(ex_empty(), m2.constants, body, 0).bits;
                            let ops1 = if body.len() >= 2 {
                                mid_action(m2.opcodes, m2.constants, reg, body, plain)
                            } else {
                                m2.opcodes
                            };
                            OpScan { opcodes: tail_action(ops1, reg, body, plain), ..m2 }
                        }
                    },
                }
            }
        },
    }
}

/// State after seeing an assignment node: a call assigned to a pending
/// name claims that name's slot as the window register.
pub open spec fn op_on_assign(m: OpScan, t: AssignTarget, value: Expr) -> OpScan {
    match t {
        AssignTarget::Ident(n) => match value {
            Expr::Call(_, _) => match spec_get(m.functions, n@) {
                Some(reg) => OpScan {
                    functions: sm_remove(m.functions, n@),
                    window_register: reg,
                    ..m
                },
                None => m,
            },
            _ => m,
        },
        _ => m,
    }
}

/// State after walking one expression, node first, children in order.
pub open spec fn op_expr(m: OpScan, e: Expr) -> OpScan
    decreases e, 1int,
{
    match e {
        Expr::Num(_) => m,
        Expr::Str(_) => m,
        Expr::Ident(_) => m,
        Expr::Paren(inner) => op_expr(m, *inner),
        Expr::Sequence(items) => op_expr_list(m, items@, 0),
        Expr::Unary(_, arg) => op_expr(m, *arg),
        Expr::Binary(_, l, r) => op_expr(op_expr(m, *l), *r),
        Expr::Logical(_, l, r) => op_expr(op_expr(m, *l), *r),
        Expr::Conditional(t, c, a) => op_expr(op_expr(op_expr(m, *t), *c), *a),
        Expr::Call(callee, args) => op_expr_list(op_expr(m, *callee), args@, 0),
        Expr::New(callee, args) => op_expr_list(op_expr(m, *callee), args@, 0),
        Expr::Computed(obj, idx) => op_expr(op_expr(m, *obj), *idx),
        Expr::Member(obj, _) => op_expr(m, *obj),
        Expr::Assign(target, value) => op_expr(
            op_target(op_on_assign(m, target, *value), target),
            *value,
        ),
        Expr::Array(items) => op_expr_list(m, items@, 0),
        Expr::Object(values) => op_expr_list(m, values@, 0),
        Expr::Function(f) => op_stmt_list(op_on_function(m, *f), f.body@, 0),
        Expr::Other => m,
    }
}

/// State after walking an assignment target.
pub open spec fn op_target(m: OpScan, t: AssignTarget) -> OpScan
    decreases t, 1int,
{
    match t {
        AssignTarget::Ident(_) => m,
        AssignTarget::Computed(obj, idx) => op_expr(op_expr(m, *obj), *idx),
        AssignTarget::Member(obj, _) => op_expr(m, *obj),
        AssignTarget::Other => m,
    }
}

/// State after walking an expression list from `i` on.
pub open spec fn op_expr_list(m: OpScan, items: Seq<Expr>, i: int) -> OpScan
    decreases items, items.len() - i,
{
    if i < 0 || i >= items.len() {
        m
    } else {
        op_expr_list(op_expr(m, items[i]), items, i + 1)
    }
}

/// State after walking one statement.
pub open spec fn op_stmt(m: OpScan, s: Stmt) -> OpScan
    decreases s, 1int,
{
    match s {
        Stmt::Expr(e) => op_expr(m, e),
        Stmt::Return(arg) => match arg {
            Some(e) => op_expr(m, e),
            None => m,
        },
        Stmt::If(test, then, alt) => op_stmt_list(op_stmt_list(op_expr(m, test), then@, 0), alt@, 0),
        Stmt::Throw(e) => op_expr(m, e),
        Stmt::For(header, body) => op_stmt_list(op_stmt_list(m, header@, 0), body@, 0),
        Stmt::Decl(ds) => op_decl_list(m, ds@, 0),
        Stmt::Func(f) => op_stmt_list(op_on_function(m, f), f.body@, 0),
        Stmt::Block(items) => op_stmt_list(m, items@, 0),
        Stmt::Other => m,
    }
}

/// State after walking a statement list from `i` on.
pub open spec fn op_stmt_list(m: OpScan, items: Seq<Stmt>, i: int) -> OpScan
    decreases items, items.len() - i,
{
    if i < 0 || i >= items.len() {
        m
    } else {
        op_stmt_list(op_stmt(m, items[i]), items, i + 1)
    }
}

/// State after walking a declarator list from `i` on.
pub open spec fn op_decl_list(m: OpScan, ds: Seq<Declarator>, i: int) -> OpScan
    decreases ds, ds.len() - i,
{
    if i < 0 || i >= ds.len() {
        m
    } else {
        let m1 = match ds[i].init {
            Some(e) => op_expr(m, e),
            None => m,
        };
        op_decl_list(m1, ds, i + 1)
    }
}

/// The classifier's starting state over a pending pool.
pub open spec fn op_start(constants: u16, functions: Seq<(Seq<char>, u16)>) -> OpScan {
    OpScan {
        constants,
        functions,
        opcodes: Seq::empty(),
        create_function_ident: Seq::empty(),
        window_register: 0,
    }
}

/// State after walking a whole program.
pub open spec fn op_program(m0: OpScan, p: Program) -> OpScan {
    op_stmt_list(m0, p.body@, 0)
}

/// A key-preserving value map over an index-keyed view.
pub open spec fn map_kv<V, W>(s: Seq<(u16, V)>, f: spec_fn(V) -> W) -> Seq<(u16, W)> {
    s.map_values(|p: (u16, V)| (p.0, f(p.1)))
}

/// Mapping values commutes with binding.
pub proof fn lemma_map_t_insert<V, W>(s: Seq<(u16, V)>, k: u16, v: V, f: spec_fn(V) -> W)
    ensures
        map_kv(t_insert(s, k, v), f) =~= t_insert(map_kv(s, f), k, f(v)),
    decreases s.len(),
{
    if s.len() == 0 {
        assert(map_kv(t_insert(s, k, v), f) =~= seq![(k, f(v))]);
        assert(t_insert(map_kv(s, f), k, f(v)) =~= seq![(k, f(v))]);
    } else if s[0].0 == k {
        assert(map_kv(s, f)[0].0 == k);
        assert(map_kv(t_insert(s, k, v), f) =~= seq![(k, f(v))] + map_kv(s.skip(1), f));
        assert(map_kv(s, f).skip(1) =~= map_kv(s.skip(1), f));
    } else {
        lemma_map_t_insert(s.skip(1), k, v, f);
        assert(map_kv(s, f)[0].0 != k);
        assert(map_kv(t_insert(s, k, v), f) =~= seq![map_kv(s, f)[0]] + map_kv(
            t_insert(s.skip(1), k, v),
            f,
        ));
        assert(map_kv(s, f).skip(1) =~= map_kv(s.skip(1), f));
    }
}

/// Mapping values commutes with lookup.
pub proof fn lemma_map_tget<V, W>(s: Seq<(u16, V)>, k: u16, f: spec_fn(V) -> W)
    ensures
        tget(map_kv(s, f), k) == match tget(s, k) {
            Some(v) => Some(f(v)),
            None => None::<W>,
        },
    decreases s.len(),
{
    if s.len() == 0 {
    } else {
        assert(map_kv(s, f)[0] == (s[0].0, f(s[0].1)));
        assert(map_kv(s, f).skip(1) =~= map_kv(s.skip(1), f));
        lemma_map_tget(s.skip(1), k, f);
    }
}

/// The view of an instruction table.
pub open spec fn table_view(s: Seq<(u16, Opcode)>) -> Seq<(u16, OpcodeModel)> {
    map_kv(s, |op: Opcode| opcode_model(op))
}

/// The view of a literal test table.
pub open spec fn lit_view(s: Seq<(u16, NewLiteralTest)>) -> Seq<(u16, (Seq<u16>, LiteralType))> {
    map_kv(s, |t: NewLiteralTest| (t.bits@, t.type_))
}

/// The view of a closure table.
pub open spec fn closure_view(s: Seq<(u16, ClosureTest)>) -> Seq<(u16, (Seq<u16>, HeapType))> {
    map_kv(s, |t: ClosureTest| (t.bits@, t.closure_type))
}

/// Copies the `lo..hi` run of a bits vector.
fn sub_bits(bits: &Vec<u16>, lo: usize, hi: usize) -> (r: Vec<u16>)
    requires
        lo <= hi <= bits@.len(),
    ensures
        r@ == bits@.subrange(lo as int, hi as int),
{
    let mut out: Vec<u16> = Vec::new();
    let mut i: usize = lo;
    while i < hi
        invariant
            lo <= i <= hi <= bits@.len(),
            out@ =~= bits@.subrange(lo as int, i as int),
        decreases hi - i,
    {
        out.push(bits[i]);
        proof {
            assert(out@ =~= bits@.subrange(lo as int, i + 1));
        }
        i = i + 1;
    }
    proof {
        assert(out@ =~= bits@.subrange(lo as int, hi as int));
    }
    out
}

/// The classifier: the pending pool, the table under construction, the
/// dynamic function-construction helper's name, and the window register.
pub struct OpcodeParser {
    pub constants: u16,
    pub functions: SMap<u16>,
    pub opcodes: Vec<(u16, Opcode)>,
    pub create_function_ident: String,
    pub window_register: u16,
}

impl View for OpcodeParser {
    type V = OpScan;

    open spec fn view(&self) -> OpScan {
        OpScan {
            constants: self.constants,
            functions: self.functions@,
            opcodes: table_view(self.opcodes@),
            create_function_ident: self.create_function_ident@,
            window_register: self.window_register,
        }
    }
}

/// Whether a body has the dynamic function-construction shape.
fn is_cfi_shape(body: &Vec<Stmt>) -> (r: bool)
    ensures
        r == spec_is_cfi_shape(body@),
{
    let n = body.len();
    if n < 2 {
        return false;
    }
    match &body[n - 1] {
        Stmt::Return(arg) => match arg {
            Some(e) => match e {
                Expr::Computed(obj, idx) => {
                    let a = matches!(&**obj, Expr::Member(_, _));
                    let b = matches!(&**idx, Expr::Binary(_, _, _));
                    let c = match &body[n - 2] {
                        Stmt::Expr(e2) => matches!(e2, Expr::Assign(_, _)),
                        _ => false,
                    };
                    a && b && c
                },
                _ => false,
            },
            None => false,
        },
        _ => false,
    }
}

impl OpcodeParser {
    /// A classifier over a pending pool, with an empty table.
    pub fn new(constants: u16, functions: SMap<u16>) -> (r: Self)
        ensures
            r@ =~= op_start(constants, functions@),
    {
        let r = OpcodeParser {
            constants,
            functions,
            opcodes: Vec::new(),
            create_function_ident: String::new(),
            window_register: 0,
        };
        proof {
            assert(table_view(r.opcodes@) =~= Seq::<(u16, OpcodeModel)>::empty());
        }
        r
    }

    /// Binds one slot of the table.
    fn insert_op(&mut self, k: u16, v: Opcode)
        ensures
            final(self)@ =~= (OpScan {
                opcodes: t_insert(old(self)@.opcodes, k, opcode_model(v)),
                ..old(self)@
            }),
    {
        proof {
            lemma_map_t_insert(self.opcodes@, k, v, |op: Opcode| opcode_model(op));
        }
        tab_insert(&mut self.opcodes, k, v);
    }

    /// The instruction bound to a slot, when one is.
    pub fn get_opcode(&self, k: u16) -> (r: Option<&Opcode>)
        ensures
            match r {
                Some(op) => tget(self@.opcodes, k) == Some(opcode_model(*op)),
                None => tget(self@.opcodes, k) is None,
            },
    {
        proof {
            lemma_map_tget(self.opcodes@, k, |op: Opcode| opcode_model(op));
        }
        crate::itable::tab_get(&self.opcodes, k)
    }

    /// Runs the unary handler, per `handle_unary`.
    fn run_unary(&mut self, tests: &Vec<u16>, bits: &Vec<u16>)
        ensures
            final(self)@ =~= (OpScan {
                opcodes: handle_unary(old(self)@.opcodes, tests@, bits@, 0),
                ..old(self)@
            }),
    {
        let count = if tests.len() < UNARY_OPERATOR_COUNT {
            tests.len()
        } else {
            UNARY_OPERATOR_COUNT
        };
        let mut k: usize = 0;
        while k < count
            invariant
                k <= count,
                count == spec_min(UNARY_OPERATOR_COUNT as int, tests@.len() as int),
                self.constants == old(self).constants,
                self@.functions == old(self)@.functions,
                self@.create_function_ident == old(self)@.create_function_ident,
                self@.window_register == old(self)@.window_register,
                handle_unary(old(self)@.opcodes, tests@, bits@, 0) == handle_unary(
                    self@.opcodes,
                    tests@,
                    bits@,
                    k as int,
                ),
            decreases count - k,
        {
            let n = bits.len();
            let lo = if 2 * k < n {
                2 * k
            } else {
                n
            };
            let hi = if 2 * k + 2 < n {
                2 * k + 2
            } else {
                n
            };
            let chunk = sub_bits(bits, lo, hi);
            let op = Opcode::Unary(UnaryOpcode { bits: chunk, operator: unary_operator_at(k) });
            self.insert_op(tests[k], op);
            k = k + 1;
        }
    }

    /// Runs the binary handler, per `handle_binary`.
    fn run_binary(&mut self, tests: &Vec<u16>, bits: &Vec<u16>, swaps: &Vec<bool>)
        ensures
            final(self)@ =~= (OpScan {
                opcodes: handle_binary(old(self)@.opcodes, tests@, bits@, swaps@, 0),
                ..old(self)@
            }),
    {
        let count = if tests.len() < BINARY_OPERATOR_COUNT {
            tests.len()
        } else {
            BINARY_OPERATOR_COUNT
        };
        let mut k: usize = 0;
        while k < count
            invariant
                k <= count,
                count == spec_min(BINARY_OPERATOR_COUNT as int, tests@.len() as int),
                self.constants == old(self).constants,
                self@.functions == old(self)@.functions,
                self@.create_function_ident == old(self)@.create_function_ident,
                self@.window_register == old(self)@.window_register,
                handle_binary(old(self)@.opcodes, tests@, bits@, swaps@, 0) == handle_binary(
                    self@.opcodes,
                    tests@,
                    bits@,
                    swaps@,
                    k as int,
                ),
            decreases count - k,
        {
            let n = bits.len();
            let lo = if 3 * k < n {
                3 * k
            } else {
                n
            };
            let hi = if 3 * k + 3 < n {
                3 * k + 3
            } else {
                n
            };
            let chunk = sub_bits(bits, lo, hi);
            let swap = if k < swaps.len() {
                swaps[k]
            } else {
                false
            };
            let op = Opcode::Binary(
                BinaryOpcode { bits: chunk, operator: binary_operator_at(k), swap },
            );
            self.insert_op(tests[k], op);
            k = k + 1;
        }
    }

    /// Runs the literal handler, per `lit_opcode`.
    fn run_literal(&mut self, reg: u16, tests: &Vec<u16>, bits: &Vec<u16>)
        ensures
            final(self)@ =~= (OpScan {
                opcodes: t_insert(old(self)@.opcodes, reg, lit_opcode(tests@, bits@)),
                ..old(self)@
            }),
    {
        let n = bits.len();
        let shared_hi = if 2 < n {
            2
        } else {
            n
        };
        let shared = sub_bits(bits, 0, shared_hi);
        let count = if tests.len() < LITERAL_TYPE_COUNT {
            tests.len()
        } else {
            LITERAL_TYPE_COUNT
        };
        let mut tmap: Vec<(u16, NewLiteralTest)> = Vec::new();
        let mut pos: usize = shared_hi;
        let mut k: usize = 0;
        proof {
            assert(lit_view(tmap@) =~= Seq::<(u16, (Seq<u16>, LiteralType))>::empty());
        }
        while k < count
            invariant
                k <= count,
                pos <= n,
                n == bits@.len(),
                count == spec_min(LITERAL_TYPE_COUNT as int, tests@.len() as int),
                lit_tests(Seq::empty(), tests@, bits@, 0, spec_min(2, bits@.len() as int))
                    == lit_tests(lit_view(tmap@), tests@, bits@, k as int, pos as int),
            decreases count - k,
        {
            let kind = literal_type_at(k);
            let chunk: Vec<u16>;
            if k == 11 {
                chunk = sub_bits(bits, pos, n);
                pos = n;
            } else if (k == 6 || k == 7 || k == 9 || k == 10) && pos < n {
                chunk = sub_bits(bits, pos, pos + 1);
                proof {
                    assert(chunk@ =~= seq![bits@[pos as int]]);
                }
                pos = pos + 1;
            } else {
                chunk = Vec::new();
                proof {
                    assert(chunk@ =~= Seq::<u16>::empty());
                }
            }
            proof {
                lemma_map_t_insert(
                    tmap@,
                    tests@[k as int],
                    NewLiteralTest { bits: chunk, type_: kind },
                    |t: NewLiteralTest| (t.bits@, t.type_),
                );
            }
            tab_insert(&mut tmap, tests[k], NewLiteralTest { bits: chunk, type_: kind });
            k = k + 1;
        }
        let op = Opcode::NewLiteral(NewLiteralOpcode { bits: shared, tests: tmap });
        proof {
            assert(op->NewLiteral_0.tests@.map_values(
                |p: (u16, NewLiteralTest)| (p.0, (p.1.bits@, p.1.type_)),
            ) =~= lit_view(op->NewLiteral_0.tests@));
            assert(opcode_model(op) =~= lit_opcode(tests@, bits@));
        }
        self.insert_op(reg, op);
    }

    /// Runs the heap handler, per `heap_opcode`.
    fn run_heap(&mut self, reg: u16, tests: &Vec<u16>, bits: &Vec<u16>)
        ensures
            final(self)@ =~= (OpScan {
                opcodes: t_insert(old(self)@.opcodes, reg, heap_opcode(tests@, bits@)),
                ..old(self)@
            }),
    {
        let n = bits.len();
        let first: u16 = if n > 0 {
            bits[0]
        } else {
            0
        };
        let count = if tests.len() < HEAP_TYPE_COUNT {
            tests.len()
        } else {
            HEAP_TYPE_COUNT
        };
        let mut cmap: Vec<(u16, ClosureTest)> = Vec::new();
        let mut pos: usize = if n > 0 {
            1
        } else {
            0
        };
        let mut k: usize = 0;
        proof {
            assert(closure_view(cmap@) =~= Seq::<(u16, (Seq<u16>, HeapType))>::empty());
        }
        while k < count
            invariant
                k <= count,
                pos <= n,
                n == bits@.len(),
                count == spec_min(HEAP_TYPE_COUNT as int, tests@.len() as int),
                heap_closures(Seq::empty(), tests@, bits@, 0, spec_min(1, bits@.len() as int))
                    == heap_closures(closure_view(cmap@), tests@, bits@, k as int, pos as int),
            decreases count - k,
        {
            let kind = heap_type_at(k);
            let chunk: Vec<u16>;
            if matches!(kind, HeapType::Init) {
                chunk = Vec::new();
                proof {
                    assert(chunk@ =~= Seq::<u16>::empty());
                }
            } else if pos < n {
                chunk = sub_bits(bits, pos, pos + 1);
                proof {
                    assert(chunk@ =~= seq![bits@[pos as int]]);
                }
                pos = pos + 1;
            } else {
                chunk = Vec::new();
                proof {
                    assert(chunk@ =~= Seq::<u16>::empty());
                }
            }
            proof {
                lemma_map_t_insert(
                    cmap@,
                    tests@[k as int],
                    ClosureTest { bits: chunk, closure_type: kind },
                    |t: ClosureTest| (t.bits@, t.closure_type),
                );
            }
            tab_insert(&mut cmap, tests[k], ClosureTest { bits: chunk, closure_type: kind });
            k = k + 1;
        }
        let mut shared: Vec<u16> = Vec::new();
        shared.push(first);
        proof {
            assert(shared@ =~= seq![
                if bits@.len() > 0 {
                    bits@[0]
                } else {
                    0u16
                },
            ]);
        }
        let op = Opcode::Heap(ClosureOpcode { bits: shared, closures: cmap });
        proof {
            assert(op->Heap_0.closures@.map_values(
                |p: (u16, ClosureTest)| (p.0, (p.1.bits@, p.1.closure_type)),
            ) =~= closure_view(op->Heap_0.closures@));
            assert(opcode_model(op) =~= heap_opcode(tests@, bits@));
        }
        self.insert_op(reg, op);
    }

    /// Dispatches on the collected test count, per `process_by_count`.
    fn process_by_test_count(
        &mut self,
        reg: u16,
        tests: &Vec<u16>,
        bits: &Vec<u16>,
        swaps: &Vec<bool>,
    )
        ensures
            final(self)@ =~= (OpScan {
                opcodes: process_by_count(old(self)@.opcodes, reg, tests@, bits@, swaps@),
                ..old(self)@
            }),
    {
        let n = tests.len();
        if n == UNARY_OPERATOR_COUNT {
            self.run_unary(tests, bits);
        } else if n == LITERAL_TYPE_COUNT {
            self.run_literal(reg, tests, bits);
        } else if n == BINARY_OPERATOR_COUNT || n == BINARY_OPERATOR_COUNT - 1 {
            self.run_binary(tests, bits, swaps);
        } else if n == HEAP_TYPE_COUNT {
            self.run_heap(reg, tests, bits);
        }
    }
}

/// Whether an expression is a member access of either kind.
fn is_member(e: &Expr) -> (r: bool)
    ensures
        r == spec_is_member(*e),
{
    matches!(e, Expr::Computed(_, _)) || matches!(e, Expr::Member(_, _))
}

/// A fresh copy of the plain bits for one instruction.
fn mk_bits(plain: &Vec<u16>) -> (r: Vec<u16>)
    ensures
        r@ == plain@,
{
    let r = sub_bits(plain, 0, plain.len());
    proof {
        assert(plain@.subrange(0, plain@.len() as int) =~= plain@);
    }
    r
}

impl OpcodeParser {
    /// Applies the next-to-last-statement rules, per `mid_action`.
    fn apply_mid(&mut self, reg: u16, body: &Vec<Stmt>, plain: &Vec<u16>)
        requires
            body@.len() >= 2,
        ensures
            final(self)@ =~= (OpScan {
                opcodes: mid_action(old(self)@.opcodes, old(self)@.constants, reg, body@, plain@),
                ..old(self)@
            }),
    {
        let n = body.len();
        match &body[n - 2] {
            Stmt::Expr(e) => match e {
                Expr::Conditional(_, _, _) => {
                    let mut ex = Extractor::new(self.constants);
                    ex.visit_expr(e);
                    let swaps = chain_swaps(e);
                    self.process_by_test_count(reg, &ex.tests, &ex.bits, &swaps);
                },
                Expr::Assign(target, value) => {
                    if matches!(target, AssignTarget::Computed(_, _)) && matches!(
                        &**value,
                        Expr::Computed(_, _),
                    ) {
                        let op = Opcode::SwapRegister(DefaultOpcode { bits: mk_bits(plain) });
                        proof {
                            assert(opcode_model(op) =~= OpcodeModel::SwapRegister(plain@));
                        }
                        self.insert_op(reg, op);
                    }
                },
                _ => {},
            },
            Stmt::If(_, _, _) => {
                let mut ex = Extractor::new(self.constants);
                ex.visit_stmt(&body[n - 2]);
                let swaps: Vec<bool> = Vec::new();
                proof {
                    assert(swaps@ =~= Seq::<bool>::empty());
                }
                self.process_by_test_count(reg, &ex.tests, plain, &swaps);
            },
            _ => {},
        }
    }

    /// Applies the last-statement rules, per `tail_action`.
    fn apply_tail(&mut self, reg: u16, body: &Vec<Stmt>, plain: &Vec<u16>)
        requires
            body@.len() >= 1,
        ensures
            final(self)@ =~= (OpScan {
                opcodes: tail_action(old(self)@.opcodes, reg, body@, plain@),
                ..old(self)@
            }),
    {
        let n = body.len();
        match &body[n - 1] {
            Stmt::Expr(e) => match e {
                Expr::Assign(target, value) => {
                    if let AssignTarget::Computed(_, tgt_idx) = target {
                        match &**value {
                            Expr::Call(callee, args) => {
                                if args.len() > 0 && !is_member(&args[0]) {
                                    let op = Opcode::SplicePop(
                                        DefaultOpcode { bits: mk_bits(plain) },
                                    );
                                    proof {
                                        assert(opcode_model(op) =~= OpcodeModel::SplicePop(
                                            plain@,
                                        ));
                                    }
                                    self.insert_op(reg, op);
                                }
                                if let Expr::Computed(_, prop) = &**callee {
                                    if let Expr::Str(s) = &**prop {
                                        if str_eq(s.as_str(), "push") {
                                            let op = Opcode::ArrayPush(
                                                DefaultOpcode { bits: mk_bits(plain) },
                                            );
                                            proof {
                                                assert(opcode_model(op)
                                                    =~= OpcodeModel::ArrayPush(plain@));
                                            }
                                            self.insert_op(reg, op);
                                        }
                                    }
                                }
                                if let Expr::Computed(obj2, prop) = &**callee {
                                    if let Expr::Ident(o) = &**obj2 {
                                        if let Expr::Str(s) = &**prop {
                                            if str_eq(s.as_str(), "bind") {
                                                let ol = o.as_str().unicode_len();
                                                if ol == 1 {
                                                    let op = Opcode::Bind(
                                                        DefaultOpcode { bits: mk_bits(plain) },
                                                    );
                                                    proof {
                                                        assert(opcode_model(op)
                                                            =~= OpcodeModel::Bind(plain@));
                                                    }
                                                    self.insert_op(reg, op);
                                                } else if ol == 2 {
                                                    let op = Opcode::RegisterVMFunction(
                                                        DefaultOpcode { bits: mk_bits(plain) },
                                                    );
                                                    proof {
                                                        assert(opcode_model(op)
                                                            =~= OpcodeModel::RegisterVMFunction(
                                                            plain@,
                                                        ));
                                                    }
                                                    self.insert_op(reg, op);
                                                }
                                            } else if str_eq(s.as_str(), "pop") {
                                                let op = Opcode::Pop(
                                                    DefaultOpcode { bits: mk_bits(plain) },
                                                );
                                                proof {
                                                    assert(opcode_model(op) =~= OpcodeModel::Pop(
                                                        plain@,
                                                    ));
                                                }
                                                self.insert_op(reg, op);
                                            }
                                        }
                                    }
                                }
                            },
                            Expr::Object(_) => {
                                let op = Opcode::NewObject(DefaultOpcode { bits: mk_bits(plain) });
                                proof {
                                    assert(opcode_model(op) =~= OpcodeModel::NewObject(plain@));
                                }
                                self.insert_op(reg, op);
                            },
                            Expr::Computed(obj_r, _) => {
                                if matches!(&**obj_r, Expr::Ident(_)) {
                                    let op = Opcode::GetProperty(
                                        DefaultOpcode { bits: mk_bits(plain) },
                                    );
                                    proof {
                                        assert(opcode_model(op) =~= OpcodeModel::GetProperty(
                                            plain@,
                                        ));
                                    }
                                    self.insert_op(reg, op);
                                } else {
                                    let op = Opcode::SetProperty(
                                        DefaultOpcode { bits: mk_bits(plain) },
                                    );
                                    proof {
                                        assert(opcode_model(op) =~= OpcodeModel::SetProperty(
                                            plain@,
                                        ));
                                    }
                                    self.insert_op(reg, op);
                                }
                            },
                            Expr::New(_, _) => {
                                let op = Opcode::CallFuncNoContext(
                                    DefaultOpcode { bits: mk_bits(plain) },
                                );
                                proof {
                                    assert(opcode_model(op) =~= OpcodeModel::CallFuncNoContext(
                                        plain@,
                                    ));
                                }
                                self.insert_op(reg, op);
                            },
                            Expr::Array(_) => {
                                let op = Opcode::NewArray(DefaultOpcode { bits: mk_bits(plain) });
                                proof {
                                    assert(opcode_model(op) =~= OpcodeModel::NewArray(plain@));
                                }
                                self.insert_op(reg, op);
                            },
                            Expr::Ident(_) => {
                                if matches!(&**tgt_idx, Expr::Num(_)) {
                                    let op = Opcode::Jump(DefaultOpcode { bits: mk_bits(plain) });
                                    proof {
                                        assert(opcode_model(op) =~= OpcodeModel::Jump(plain@));
                                    }
                                    self.insert_op(reg, op);
                                } else {
                                    let is_move = if n >= 2 {
                                        match &body[n - 2] {
                                            Stmt::Expr(e2) => match e2 {
                                                Expr::Assign(t2, _) => matches!(
                                                    t2,
                                                    AssignTarget::Ident(_),
                                                ),
                                                _ => false,
                                            },
                                            _ => false,
                                        }
                                    } else {
                                        false
                                    };
                                    if is_move {
                                        let op = Opcode::Move(
                                            DefaultOpcode { bits: mk_bits(plain) },
                                        );
                                        proof {
                                            assert(opcode_model(op) =~= OpcodeModel::Move(
                                                plain@,
                                            ));
                                        }
                                        self.insert_op(reg, op);
                                    } else {
                                        let op = Opcode::SetProperty(
                                            DefaultOpcode { bits: mk_bits(plain) },
                                        );
                                        proof {
                                            assert(opcode_model(op) =~= OpcodeModel::SetProperty(
                                                plain@,
                                            ));
                                        }
                                        self.insert_op(reg, op);
                                    }
                                }
                            },
                            Expr::Conditional(_, _, _) => {
                                let op = Opcode::Call(DefaultOpcode { bits: mk_bits(plain) });
                                proof {
                                    assert(opcode_model(op) =~= OpcodeModel::Call(plain@));
                                }
                                self.insert_op(reg, op);
                            },
                            _ => {
                                let op = Opcode::SetProperty(
                                    DefaultOpcode { bits: mk_bits(plain) },
                                );
                                proof {
                                    assert(opcode_model(op) =~= OpcodeModel::SetProperty(plain@));
                                }
                                self.insert_op(reg, op);
                            },
                        }
                    }
                },
                Expr::Logical(_, _, _) => {
                    let op = Opcode::JumpIf(DefaultOpcode { bits: mk_bits(plain) });
                    proof {
                        assert(opcode_model(op) =~= OpcodeModel::JumpIf(plain@));
                    }
                    self.insert_op(reg, op);
                },
                _ => {},
            },
            Stmt::Throw(_) => {
                let op = Opcode::Throw(DefaultOpcode { bits: mk_bits(plain) });
                proof {
                    assert(opcode_model(op) =~= OpcodeModel::Throw(plain@));
                }
                self.insert_op(reg, op);
            },
            _ => {},
        }
    }

    /// Applies the function-node rules, per `op_on_function`.
    fn visit_function_node(&mut self, f: &FunctionDef)
        ensures
            final(self)@ =~= op_on_function(old(self)@, *f),
    {
        let big = f.body.len() > DISPATCHER_THRESHOLD;
        if !big && f.name.is_none() {
            return ;
        }
        if f.body.len() == 0 {
            return ;
        }
        if is_cfi_shape(&f.body) {
            if big {
                self.create_function_ident = String::from_str("VM_ENTRY");
            } else {
                match &f.name {
                    Some(n) => {
                        self.create_function_ident = n.clone();
                    },
                    None => {
                        proof {
                            assert(false);
                        }
                    },
                }
            }
        }
        let claimed = if big {
            self.functions.remove_key("VM_ENTRY")
        } else {
            match &f.name {
                Some(n) => self.functions.remove_key(n.as_str()),
                None => None,
            }
        };
        let reg = match claimed {
            Some(r) => r,
            None => {
                proof {
                    if big {
                        crate::smap::lemma_remove_noop(old(self)@.functions, "VM_ENTRY"@);
                    } else {
                        crate::smap::lemma_remove_noop(
                            old(self)@.functions,
                            f.name->Some_0@,
                        );
                    }
                }
                return ;
            },
        };
        if big {
            let op = Opcode::SetProperty(DefaultOpcode { bits: Vec::new() });
            proof {
                assert(opcode_model(op) =~= OpcodeModel::SetProperty(Seq::<u16>::empty()));
            }
            self.insert_op(reg, op);
            return ;
        }
        let mut ex = Extractor::new(self.constants);
        ex.visit_stmt_list(&f.body, 0);
        let plain = ex.bits;
        if f.body.len() >= 2 {
            self.apply_mid(reg, &f.body, &plain);
        }
        self.apply_tail(reg, &f.body, &plain);
    }

    /// Applies the assignment-node rule, per `op_on_assign`.
    fn visit_assign_node(&mut self, t: &AssignTarget, value: &Expr)
        ensures
            final(self)@ =~= op_on_assign(old(self)@, *t, *value),
    {
        if let AssignTarget::Ident(n) = t {
            if matches!(value, Expr::Call(_, _)) {
                match self.functions.remove_key(n.as_str()) {
                    Some(reg) => {
                        self.window_register = reg;
                    },
                    None => {
                        proof {
                            crate::smap::lemma_remove_noop(old(self)@.functions, n@);
                        }
                    },
                }
            }
        }
    }

    /// Walks one expression, per `op_expr`.
    fn visit_expr(&mut self, e: &Expr)
        ensures
            final(self)@ =~= op_expr(old(self)@, *e),
        decreases *e, 1int,
    {
        match e {
            Expr::Num(_) => {},
            Expr::Str(_) => {},
            Expr::Ident(_) => {},
            Expr::Paren(inner) => self.visit_expr(inner),
            Expr::Sequence(items) => self.visit_expr_list(items, 0),
            Expr::Unary(_, arg) => self.visit_expr(arg),
            Expr::Binary(_, l, r) => {
                self.visit_expr(l);
                self.visit_expr(r);
            },
            Expr::Logical(_, l, r) => {
                self.visit_expr(l);
                self.visit_expr(r);
            },
            Expr::Conditional(t, c, a) => {
                self.visit_expr(t);
                self.visit_expr(c);
                self.visit_expr(a);
            },
            Expr::Call(callee, args) => {
                self.visit_expr(callee);
                self.visit_expr_list(args, 0);
            },
            Expr::New(callee, args) => {
                self.visit_expr(callee);
                self.visit_expr_list(args, 0);
            },
            Expr::Computed(obj, idx) => {
                self.visit_expr(obj);
                self.visit_expr(idx);
            },
            Expr::Member(obj, _) => self.visit_expr(obj),
            Expr::Assign(target, value) => {
                self.visit_assign_node(target, value);
                self.visit_target(target);
                self.visit_expr(value);
            },
            Expr::Array(items) => self.visit_expr_list(items, 0),
            Expr::Object(values) => self.visit_expr_list(values, 0),
            Expr::Function(f) => {
                self.visit_function_node(f);
                self.visit_stmt_list(&f.body, 0);
            },
            Expr::Other => {},
        }
    }

    /// Walks an assignment target, per `op_target`.
    fn visit_target(&mut self, t: &AssignTarget)
        ensures
            final(self)@ =~= op_target(old(self)@, *t),
        decreases *t, 1int,
    {
        match t {
            AssignTarget::Ident(_) => {},
            AssignTarget::Computed(obj, idx) => {
                self.visit_expr(obj);
                self.visit_expr(idx);
            },
            AssignTarget::Member(obj, _) => self.visit_expr(obj),
            AssignTarget::Other => {},
        }
    }

    /// Walks an expression list from `from` on, per `op_expr_list`.
    fn visit_expr_list(&mut self, items: &Vec<Expr>, from: usize)
        ensures
            final(self)@ =~= op_expr_list(old(self)@, items@, from as int),
        decreases *items, items@.len() - from,
    {
        if from < items.len() {
            self.visit_expr(&items[from]);
            self.visit_expr_list(items, from + 1);
        }
    }

    /// Walks one statement, per `op_stmt`.
    fn visit_stmt(&mut self, s: &Stmt)
        ensures
            final(self)@ =~= op_stmt(old(self)@, *s),
        decreases *s, 1int,
    {
        match s {
            Stmt::Expr(e) => self.visit_expr(e),
            Stmt::Return(arg) => match arg {
                Some(e) => self.visit_expr(e),
                None => {},
            },
            Stmt::If(test, then, alt) => {
                self.visit_expr(test);
                self.visit_stmt_list(then, 0);
                self.visit_stmt_list(alt, 0);
            },
            Stmt::Throw(e) => self.visit_expr(e),
            Stmt::For(header, body) => {
                self.visit_stmt_list(header, 0);
                self.visit_stmt_list(body, 0);
            },
            Stmt::Decl(ds) => self.visit_decl_list(ds, 0),
            Stmt::Func(f) => {
                self.visit_function_node(f);
                self.visit_stmt_list(&f.body, 0);
            },
            Stmt::Block(items) => self.visit_stmt_list(items, 0),
            Stmt::Other => {},
        }
    }

    /// Walks a statement list from `from` on, per `op_stmt_list`.
    fn visit_stmt_list(&mut self, items: &Vec<Stmt>, from: usize)
        ensures
            final(self)@ =~= op_stmt_list(old(self)@, items@, from as int),
        decreases *items, items@.len() - from,
    {
        if from < items.len() {
            self.visit_stmt(&items[from]);
            self.visit_stmt_list(items, from + 1);
        }
    }

    /// Walks a declarator list from `from` on, per `op_decl_list`.
    fn visit_decl_list(&mut self, ds: &Vec<Declarator>, from: usize)
        ensures
            final(self)@ =~= op_decl_list(old(self)@, ds@, from as int),
        decreases *ds, ds@.len() - from,
    {
        if from < ds.len() {
            match &ds[from].init {
                Some(e) => self.visit_expr(e),
                None => {},
            }
            self.visit_decl_list(ds, from + 1);
        }
    }
}

/// Classifies a whole program over a pending pool, per `op_program`.
pub fn parse_opcodes(constants: u16, functions: SMap<u16>, p: &Program) -> (r: OpcodeParser)
    ensures
        r@ =~= op_program(op_start(constants, functions@), *p),
{
    let mut op = OpcodeParser::new(constants, functions);
    op.visit_stmt_list(&p.body, 0);
    op
}


/// Whether a body's last statement assigns a member call with the "push"
/// property to a computed-member target.
pub open spec fn spec_push_tail(body: Seq<Stmt>) -> bool {
    if body.len() == 0 {
        false
    } else {
        match body.last() {
            Stmt::Expr(e) => match e {
                Expr::Assign(target, value) => match target {
                    AssignTarget::Computed(_, _) => match *value {
                        Expr::Call(callee, _) => match *callee {
                            Expr::Computed(_, prop) => match *prop {
                                Expr::Str(sp) => sp@ == "push"@,
                                _ => false,
                            },
                            _ => false,
                        },
                        _ => false,
                    },
                    _ => false,
                },
                _ => false,
            },
            _ => false,
        }
    }
}

/// Law: a body ending in a member call with the string-literal property
/// "push", assigned to a computed-member target, classifies its slot as an
/// array push whose bits are the plain extraction over the body.
pub proof fn lemma_push_tail_classifies(
    ops: Seq<(u16, OpcodeModel)>,
    reg: u16,
    body: Seq<Stmt>,
    plain: Seq<u16>,
)
    requires
        spec_push_tail(body),
    ensures
        tget(tail_action(ops, reg, body, plain), reg) == Some(OpcodeModel::ArrayPush(plain)),
{
    reveal_strlit("push");
    reveal_strlit("bind");
    reveal_strlit("pop");
    match body.last() {
        Stmt::Expr(e) => match e {
            Expr::Assign(target, value) => match *value {
                Expr::Call(callee, args) => match *callee {
                    Expr::Computed(obj2, prop) => {
                        let ops1 = if args@.len() > 0 && !spec_is_member(args@[0]) {
                            t_insert(ops, reg, OpcodeModel::SplicePop(plain))
                        } else {
                            ops
                        };
                        let ops2 = t_insert(ops1, reg, OpcodeModel::ArrayPush(plain));
                        crate::itable::lemma_t_insert_get(
                            ops1,
                            reg,
                            OpcodeModel::ArrayPush(plain),
                            reg,
                        );
                        match (*obj2, *prop) {
                            (Expr::Ident(o), Expr::Str(sp)) => {
                                assert(sp@ == "push"@);
                                assert(sp@[0] == 'p' && "bind"@[0] == 'b');
                                assert(sp@.len() == 4 && "pop"@.len() == 3);
                                assert(sp@ != "bind"@);
                                assert(sp@ != "pop"@);
                            },
                            _ => {},
                        }
                    },
                    _ => {},
                },
                _ => {},
            },
            _ => {},
        },
        _ => {},
    }
}

/// Whether a body's last statement assigns a plain identifier to a
/// computed-member target; `numeric` selects a numeric target index.
pub open spec fn spec_ident_tail(body: Seq<Stmt>, numeric: bool) -> bool {
    if body.len() == 0 {
        false
    } else {
        match body.last() {
            Stmt::Expr(e) => match e {
                Expr::Assign(target, value) => match target {
                    AssignTarget::Computed(_, tgt_idx) => match *value {
                        Expr::Ident(_) => if numeric {
                            *tgt_idx matches Expr::Num(_)
                        } else {
                            !(*tgt_idx matches Expr::Num(_))
                        },
                        _ => false,
                    },
                    _ => false,
                },
                _ => false,
            },
            _ => false,
        }
    }
}

/// Whether a body's next-to-last statement assigns to a plain identifier.
pub open spec fn spec_prior_ident_assign(body: Seq<Stmt>) -> bool {
    if body.len() < 2 {
        false
    } else {
        match body[body.len() - 2] {
            Stmt::Expr(e2) => match e2 {
                Expr::Assign(t2, _) => t2 matches AssignTarget::Ident(_),
                _ => false,
            },
            _ => false,
        }
    }
}

/// Law: a body ending in an identifier assigned to a computed-member
/// target with a numeric-literal index classifies its slot as a jump; the
/// same shape with a non-numeric index after an identifier assignment
/// classifies as a move. Either way the bits are the plain extraction.
pub proof fn lemma_jump_and_move_tails(
    ops: Seq<(u16, OpcodeModel)>,
    reg: u16,
    body: Seq<Stmt>,
    plain: Seq<u16>,
)
    ensures
        spec_ident_tail(body, true) ==> tget(tail_action(ops, reg, body, plain), reg) == Some(
            OpcodeModel::Jump(plain),
        ),
        spec_ident_tail(body, false) && spec_prior_ident_assign(body) ==> tget(
            tail_action(ops, reg, body, plain),
            reg,
        ) == Some(OpcodeModel::Move(plain)),
{
    if spec_ident_tail(body, true) {
        crate::itable::lemma_t_insert_get(ops, reg, OpcodeModel::Jump(plain), reg);
    }
    if spec_ident_tail(body, false) && spec_prior_ident_assign(body) {
        crate::itable::lemma_t_insert_get(ops, reg, OpcodeModel::Move(plain), reg);
    }
}

/// Law: a function whose body exceeds the dispatcher threshold is treated
/// as the dispatcher whatever its declared name, anonymous included: it
/// claims the sentinel's pending slot and its entry is the fixed default
/// instruction with empty bits.
pub proof fn lemma_dispatcher_claims_default(m: OpScan, f: FunctionDef)
    requires
        f.body@.len() > DISPATCHER_THRESHOLD,
        spec_get(m.functions, "VM_ENTRY"@) is Some,
    ensures
        op_on_function(m, f).functions == sm_remove(m.functions, "VM_ENTRY"@),
        tget(
            op_on_function(m, f).opcodes,
            spec_get(m.functions, "VM_ENTRY"@)->Some_0,
        ) == Some(OpcodeModel::SetProperty(Seq::empty())),
{
    let reg = spec_get(m.functions, "VM_ENTRY"@)->Some_0;
    crate::itable::lemma_t_insert_get(
        m.opcodes,
        reg,
        OpcodeModel::SetProperty(Seq::empty()),
        reg,
    );
}


/// Law: a pending handler ending in a member call with the "push"
/// property claims its slot as an array push. The handler's name leaves
/// the pending pool, and the claimed slot carries an array-push
/// instruction whose bits are the plain extraction over the whole body.
pub proof fn lemma_push_handler_claims(m: OpScan, f: FunctionDef)
    requires
        f.name is Some,
        f.body@.len() <= DISPATCHER_THRESHOLD,
        spec_get(m.functions, f.name->Some_0@) is Some,
        spec_push_tail(f.body@),
    ensures
        op_on_function(m, f).functions == sm_remove(m.functions, f.name->Some_0@),
        tget(
            op_on_function(m, f).opcodes,
            spec_get(m.functions, f.name->Some_0@)->Some_0,
        ) == Some(
            OpcodeModel::ArrayPush(ex_stmt_list(ex_empty(), m.constants, f.body@, 0).bits),
        ),
{
    let nm = f.name->Some_0@;
    let reg = spec_get(m.functions, nm)->Some_0;
    let body = f.body@;
    let plain = ex_stmt_list(ex_empty(), m.constants, body, 0).bits;
    let m1 = if spec_is_cfi_shape(body) {
        OpScan { create_function_ident: nm, ..m }
    } else {
        m
    };
    let ops1 = if body.len() >= 2 {
        mid_action(m1.opcodes, m1.constants, reg, body, plain)
    } else {
        m1.opcodes
    };
    lemma_push_tail_classifies(ops1, reg, body, plain);
}

} // verus!
