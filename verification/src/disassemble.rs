//! Composing the passes and reconciling unmapped names.
//!
//! One run scans the program for functions, payloads, the key expression
//! and the offset, classifies every claimed handler, and then reconciles:
//! each recorded function name resolves to its index directly when the
//! table holds it; a name whose direct lookup fails is aliased through
//! normalized-bit equality against the table's entries; what remains is
//! reported unresolved. Every attempt leaves a diagnostic event, and the
//! run returns a possibly partial bundle rather than failing on partial
//! coverage. It fails only when the initial payload string, the key
//! expression, or the key byte is entirely absent.

use vstd::prelude::*;
use crate::ast::{Expr, Program};
use crate::bits::{normalize_bits, spec_normalize};
use crate::functions::{ff_program, is_noise_index, scan_functions, spec_is_noise_index};
use crate::itable::{t_insert, tab_insert, tget};
use crate::magic_bits::{map_kv, lemma_map_t_insert, op_program, op_start, parse_opcodes,
    table_view, OpcodeModel};
use crate::opcodes::spec_opcode_bits;
use crate::offset::{find_key_expr, find_offset, key_in_program, offset_in_program};
use crate::opcodes::Opcode;
use crate::vm::{scan_payloads, sv_program, ScriptVisitor};

verus! {

/// A fatal failure: the named artifact is entirely absent.
#[derive(Debug, Clone, Copy, PartialEq, Eq, Structural)]
pub enum DisassemblyError {
    MissingInitialPayload,
    MissingKeyExpression,
    MissingKeyByte,
}

/// One reconciliation event.
#[derive(Debug, Clone, PartialEq, Eq)]
pub enum DiagEvent {
    /// The name's index is a sentinel or noise value; the mapping was dropped.
    SkippedNoiseIndex { name: String, index: u16 },
    /// The name was aliased to an index through normalized-bit equality.
    FallbackResolved { name: String, index: u16 },
    /// The name stays permanently unmapped.
    Unresolved { name: String, index: u16 },
}

/// One reconciliation event, at the level of views.
#[verifier::ext_equal]
pub enum DiagModel {
    Skipped(Seq<char>, u16),
    Fallback(Seq<char>, u16),
    Unresolved(Seq<char>, u16),
}

/// The view of one event.
pub open spec fn diag_view(d: DiagEvent) -> DiagModel {
    match d {
        DiagEvent::SkippedNoiseIndex { name, index } => DiagModel::Skipped(name@, index),
        DiagEvent::FallbackResolved { name, index } => DiagModel::Fallback(name@, index),
        DiagEvent::Unresolved { name, index } => DiagModel::Unresolved(name@, index),
    }
}

/// The operand bits an instruction view carries.
pub open spec fn model_bits(m: OpcodeModel) -> Seq<u16> {
    match m {
        OpcodeModel::ArrayPush(b) => b,
        OpcodeModel::Throw(b) => b,
        OpcodeModel::Bind(b) => b,
        OpcodeModel::RegisterVMFunction(b) => b,
        OpcodeModel::Binary { bits, .. } => bits,
        OpcodeModel::Unary { bits, .. } => bits,
        OpcodeModel::NewLiteral { bits, .. } => bits,
        OpcodeModel::NewObject(b) => b,
        OpcodeModel::Pop(b) => b,
        OpcodeModel::SetProperty(b) => b,
        OpcodeModel::GetProperty(b) => b,
        OpcodeModel::SplicePop(b) => b,
        OpcodeModel::CallFuncNoContext(b) => b,
        OpcodeModel::SwapRegister(b) => b,
        OpcodeModel::NewArray(b) => b,
        OpcodeModel::Jump(b) => b,
        OpcodeModel::JumpIf(b) => b,
        OpcodeModel::Move(b) => b,
        OpcodeModel::Call(b) => b,
        OpcodeModel::Heap { bits, .. } => bits,
    }
}

/// First-match lookup over the normalized-bits map view.
pub open spec fn nm_get(s: Seq<(Seq<u16>, u16)>, k: Seq<u16>) -> Option<u16>
    decreases s.len(),
{
    if s.len() == 0 {
        None
    } else if s[0].0 == k {
        Some(s[0].1)
    } else {
        nm_get(s.skip(1), k)
    }
}

/// Lookup finds the first matching normalized key.
proof fn lemma_nm_get_present(s: Seq<(Seq<u16>, u16)>, k: Seq<u16>, i: int)
    requires
        0 <= i < s.len(),
        s[i].0 == k,
        forall|j: int| 0 <= j < i ==> (#[trigger] s[j]).0 != k,
    ensures
        nm_get(s, k) == Some(s[i].1),
    decreases i,
{
    if i > 0 {
        lemma_nm_get_present(s.skip(1), k, i - 1);
    }
}

/// Lookup misses when no normalized key matches.
proof fn lemma_nm_get_absent(s: Seq<(Seq<u16>, u16)>, k: Seq<u16>)
    requires
        forall|j: int| 0 <= j < s.len() ==> (#[trigger] s[j]).0 != k,
    ensures
        nm_get(s, k) == None::<u16>,
    decreases s.len(),
{
    if s.len() > 0 {
        lemma_nm_get_absent(s.skip(1), k);
    }
}

/// The view of the normalized-bits map.
pub open spec fn nm_view(s: Seq<(Vec<u16>, u16)>) -> Seq<(Seq<u16>, u16)> {
    s.map_values(|p: (Vec<u16>, u16)| (p.0@, p.1))
}

/// The normalized map after considering the table entries from `i` on:
/// each entry whose bits normalize to something non-empty binds its
/// normal form to its index, first binding wins.
pub open spec fn nm_build(
    acc: Seq<(Seq<u16>, u16)>,
    ops: Seq<(u16, OpcodeModel)>,
    i: int,
) -> Seq<(Seq<u16>, u16)>
    decreases ops.len() - i,
{
    if i < 0 || i >= ops.len() {
        acc
    } else {
        let norm = spec_normalize(model_bits(ops[i].1));
        let acc2 = if norm.len() == 0 {
            acc
        } else if nm_get(acc, norm) is Some {
            acc
        } else {
            acc.push((norm, ops[i].0))
        };
        nm_build(acc2, ops, i + 1)
    }
}

/// One recorded name's reconciliation: a noise index is dropped with an
/// event; a name whose index the table holds resolves directly; otherwise
/// its captured raw bits, normalized, are matched against the normalized
/// map, aliasing the name on a hit and reporting it unresolved on a miss.
pub open spec fn rec_step(
    map: Seq<(u16, Seq<char>)>,
    dias: Seq<DiagModel>,
    nm: Seq<(Seq<u16>, u16)>,
    ops: Seq<(u16, OpcodeModel)>,
    raw: Seq<(u16, Seq<u16>)>,
    name: Seq<char>,
    idx: u16,
) -> (Seq<(u16, Seq<char>)>, Seq<DiagModel>) {
    if spec_is_noise_index(idx) {
        (map, dias.push(DiagModel::Skipped(name, idx)))
    } else if tget(ops, idx) is Some {
        (t_insert(map, idx, name), dias)
    } else {
        match tget(raw, idx) {
            Some(bits) => {
                let norm = spec_normalize(bits);
                match nm_get(nm, norm) {
                    Some(m) => (t_insert(map, m, name), dias.push(DiagModel::Fallback(name, m))),
                    None => (map, dias.push(DiagModel::Unresolved(name, idx))),
                }
            },
            None => (map, dias.push(DiagModel::Unresolved(name, idx))),
        }
    }
}

/// The name map and diagnostics after reconciling the recorded names from
/// `i` on; each name is reconciled exactly once, in recording order.
pub open spec fn rec_all(
    map: Seq<(u16, Seq<char>)>,
    dias: Seq<DiagModel>,
    nm: Seq<(Seq<u16>, u16)>,
    ops: Seq<(u16, OpcodeModel)>,
    raw: Seq<(u16, Seq<u16>)>,
    fns: Seq<(Seq<char>, u16)>,
    i: int,
) -> (Seq<(u16, Seq<char>)>, Seq<DiagModel>)
    decreases fns.len() - i,
{
    if i < 0 || i >= fns.len() {
        (map, dias)
    } else {
        let (map2, dias2) = rec_step(map, dias, nm, ops, raw, fns[i].0, fns[i].1);
        rec_all(map2, dias2, nm, ops, raw, fns, i + 1)
    }
}

/// Law: direct resolution. A recorded name whose index is no noise value
/// and is held by the table is bound to its own index, with no event.
pub proof fn lemma_direct_resolution(
    map: Seq<(u16, Seq<char>)>,
    dias: Seq<DiagModel>,
    nm: Seq<(Seq<u16>, u16)>,
    ops: Seq<(u16, OpcodeModel)>,
    raw: Seq<(u16, Seq<u16>)>,
    name: Seq<char>,
    idx: u16,
)
    requires
        !spec_is_noise_index(idx),
        tget(ops, idx) is Some,
    ensures
        rec_step(map, dias, nm, ops, raw, name, idx).0 == t_insert(map, idx, name),
        tget(rec_step(map, dias, nm, ops, raw, name, idx).0, idx) == Some(name),
        rec_step(map, dias, nm, ops, raw, name, idx).1 == dias,
{
    crate::itable::lemma_t_insert_get(map, idx, name, idx);
}

/// Law: fallback aliasing. A recorded name whose index is no noise value,
/// whose direct lookup fails, and whose captured raw bits normalize-equal
/// a normal form the match map binds to index `j`, is aliased to `j` —
/// bound to it in the name map — and exactly one fallback-resolved event
/// naming it is appended; nothing is thrown.
pub proof fn lemma_fallback_aliasing(
    map: Seq<(u16, Seq<char>)>,
    dias: Seq<DiagModel>,
    nm: Seq<(Seq<u16>, u16)>,
    ops: Seq<(u16, OpcodeModel)>,
    raw: Seq<(u16, Seq<u16>)>,
    name: Seq<char>,
    idx: u16,
)
    requires
        !spec_is_noise_index(idx),
        tget(ops, idx) is None,
        tget(raw, idx) is Some,
        nm_get(nm, spec_normalize(tget(raw, idx)->Some_0)) is Some,
    ensures
        ({
            let j = nm_get(nm, spec_normalize(tget(raw, idx)->Some_0))->Some_0;
            &&& rec_step(map, dias, nm, ops, raw, name, idx).0 == t_insert(map, j, name)
            &&& tget(rec_step(map, dias, nm, ops, raw, name, idx).0, j) == Some(name)
            &&& rec_step(map, dias, nm, ops, raw, name, idx).1 == dias.push(
                DiagModel::Fallback(name, j),
            )
        }),
{
    let j = nm_get(nm, spec_normalize(tget(raw, idx)->Some_0))->Some_0;
    crate::itable::lemma_t_insert_get(map, j, name, j);
}

/// Everything one disassembly run recovers, handed to the external
/// bytecode executor.
pub struct DisassemblyBundle<'a> {
    /// The opcode table, one instruction per claimed slot.
    pub opcode_table: Vec<(u16, Opcode)>,
    /// The captured byte-masking expression fragment.
    pub key_expr: &'a Expr,
    /// The key byte from the constants array literal.
    pub key_byte: u16,
    /// The call-paired offset constant, zero when none was found.
    pub offset: i16,
    /// The initial payload string.
    pub initial_vm_payload: String,
    /// The dynamic function-construction helper's name.
    pub create_function_ident: String,
    /// The dispatcher's effective name.
    pub dispatcher_name: String,
    /// The window register claimed by a call assignment.
    pub window_register: u16,
    /// Index-to-name resolution, direct and fallback.
    pub function_to_opcode_index: Vec<(u16, String)>,
    /// The payload strings beside the initial one.
    pub payloads: ScriptVisitor,
    /// The reconciliation trace.
    pub diagnostics: Vec<DiagEvent>,
}

/// Whether two bit vectors hold the same values.
fn bits_eq(a: &Vec<u16>, b: &Vec<u16>) -> (r: bool)
    ensures
        r == (a@ == b@),
{
    let n = a.len();
    if n != b.len() {
        proof {
            assert(a@ != b@);
        }
        return false;
    }
    let mut i: usize = 0;
    while i < n
        invariant
            i <= n,
            n == a@.len(),
            n == b@.len(),
            forall|j: int| 0 <= j < i ==> a@[j] == b@[j],
        decreases n - i,
    {
        if a[i] != b[i] {
            return false;
        }
        i = i + 1;
    }
    proof {
        assert(a@ =~= b@);
    }
    true
}

/// First-match lookup in the normalized map.
fn nm_lookup(nm: &Vec<(Vec<u16>, u16)>, k: &Vec<u16>) -> (r: Option<u16>)
    ensures
        r == nm_get(nm_view(nm@), k@),
{
    let n = nm.len();
    let mut i: usize = 0;
    while i < n
        invariant
            i <= n,
            n == nm@.len(),
            forall|j: int| 0 <= j < i ==> (#[trigger] nm_view(nm@)[j]).0 != k@,
        decreases n - i,
    {
        if bits_eq(&nm[i].0, k) {
            proof {
                assert(nm_view(nm@)[i as int].0 == k@);
                lemma_nm_get_present(nm_view(nm@), k@, i as int);
            }
            return Some(nm[i].1);
        }
        proof {
            assert(nm_view(nm@)[i as int].0 == nm@[i as int].0@);
        }
        i = i + 1;
    }
    proof {
        lemma_nm_get_absent(nm_view(nm@), k@);
    }
    None
}

/// Builds the normalized-bits map of a table, per `nm_build`.
fn build_normalized(ops: &Vec<(u16, Opcode)>) -> (r: Vec<(Vec<u16>, u16)>)
    ensures
        nm_view(r@) == nm_build(Seq::empty(), table_view(ops@), 0),
{
    let n = ops.len();
    let mut out: Vec<(Vec<u16>, u16)> = Vec::new();
    let mut i: usize = 0;
    proof {
        assert(nm_view(out@) =~= Seq::<(Seq<u16>, u16)>::empty());
    }
    while i < n
        invariant
            i <= n,
            n == ops@.len(),
            nm_build(Seq::empty(), table_view(ops@), 0) == nm_build(
                nm_view(out@),
                table_view(ops@),
                i as int,
            ),
        decreases n - i,
    {
        let norm = normalize_bits(ops[i].1.bits().as_slice());
        proof {
            assert(model_bits(table_view(ops@)[i as int].1) == spec_opcode_bits(
                ops@[i as int].1,
            ));
        }
        if norm.len() > 0 {
            if nm_lookup(&out, &norm).is_none() {
                let idx = ops[i].0;
                let ghost pre = out@;
                out.push((norm, idx));
                proof {
                    assert(nm_view(out@) =~= nm_view(pre).push((norm@, idx)));
                }
            }
        }
        i = i + 1;
    }
    out
}

/// Reconciles every recorded name against the table, per `rec_all`.
fn reconcile(
    fns: &Vec<(String, u16)>,
    nm: &Vec<(Vec<u16>, u16)>,
    ops: &Vec<(u16, Opcode)>,
    ff: &crate::functions::FindFunctions,
) -> (r: (Vec<(u16, String)>, Vec<DiagEvent>))
    requires
        fns@ == ff.functions.entries@,
    ensures
        (map_kv(r.0@, |s: String| s@), r.1@.map_values(|d: DiagEvent| diag_view(d))) == rec_all(
            Seq::empty(),
            Seq::empty(),
            nm_view(nm@),
            table_view(ops@),
            ff@.raw,
            ff@.functions,
            0,
        ),
{
    let n = fns.len();
    let mut map: Vec<(u16, String)> = Vec::new();
    let mut dias: Vec<DiagEvent> = Vec::new();
    let mut i: usize = 0;
    proof {
        assert(map_kv(map@, |s: String| s@) =~= Seq::<(u16, Seq<char>)>::empty());
        assert(dias@.map_values(|d: DiagEvent| diag_view(d)) =~= Seq::<DiagModel>::empty());
        assert(ff@.functions =~= fns@.map_values(|p: (String, u16)| (p.0@, p.1)));
    }
    while i < n
        invariant
            i <= n,
            n == fns@.len(),
            fns@ == ff.functions.entries@,
            ff@.functions == fns@.map_values(|p: (String, u16)| (p.0@, p.1)),
            rec_all(
                Seq::empty(),
                Seq::empty(),
                nm_view(nm@),
                table_view(ops@),
                ff@.raw,
                ff@.functions,
                0,
            ) == rec_all(
                map_kv(map@, |s: String| s@),
                dias@.map_values(|d: DiagEvent| diag_view(d)),
                nm_view(nm@),
                table_view(ops@),
                ff@.raw,
                ff@.functions,
                i as int,
            ),
        decreases n - i,
    {
        let name = fns[i].0.clone();
        let idx = fns[i].1;
        proof {
            assert(ff@.functions[i as int] == (fns@[i as int].0@, fns@[i as int].1));
        }
        let ghost dview0 = dias@.map_values(|d: DiagEvent| diag_view(d));
        let ghost mview0 = map_kv(map@, |s: String| s@);
        if is_noise_index(idx) {
            dias.push(DiagEvent::SkippedNoiseIndex { name, index: idx });
            proof {
                assert(dias@.map_values(|d: DiagEvent| diag_view(d)) =~= dview0.push(
                    DiagModel::Skipped(fns@[i as int].0@, idx),
                ));
            }
        } else {
            proof {
                crate::magic_bits::lemma_map_tget(
                    ops@,
                    idx,
                    |op: Opcode| crate::magic_bits::opcode_model(op),
                );
            }
            if crate::itable::tab_contains(ops, idx) {
                proof {
                    lemma_map_t_insert(map@, idx, name, |s: String| s@);
                }
                tab_insert(&mut map, idx, name);
            } else {
                match ff.get_bits_for_index(idx) {
                    Some(raw_bits) => {
                        let norm = normalize_bits(raw_bits.as_slice());
                        match nm_lookup(nm, &norm) {
                            Some(m) => {
                                let name2 = name.clone();
                                proof {
                                    lemma_map_t_insert(map@, m, name, |s: String| s@);
                                }
                                tab_insert(&mut map, m, name);
                                dias.push(DiagEvent::FallbackResolved { name: name2, index: m });
                                proof {
                                    assert(dias@.map_values(|d: DiagEvent| diag_view(d))
                                        =~= dview0.push(
                                        DiagModel::Fallback(fns@[i as int].0@, m),
                                    ));
                                }
                            },
                            None => {
                                dias.push(DiagEvent::Unresolved { name, index: idx });
                                proof {
                                    assert(dias@.map_values(|d: DiagEvent| diag_view(d))
                                        =~= dview0.push(
                                        DiagModel::Unresolved(fns@[i as int].0@, idx),
                                    ));
                                }
                            },
                        }
                    },
                    None => {
                        dias.push(DiagEvent::Unresolved { name, index: idx });
                        proof {
                            assert(dias@.map_values(|d: DiagEvent| diag_view(d)) =~= dview0.push(
                                DiagModel::Unresolved(fns@[i as int].0@, idx),
                            ));
                        }
                    },
                }
            }
        }
        i = i + 1;
    }
    (map, dias)
}

/// Runs every pass over one program and reconciles the results, failing
/// only on a missing initial payload, key expression, or key byte, in
/// that order of precedence.
pub fn disassemble<'a>(p: &'a Program) -> (r: Result<DisassemblyBundle<'a>, DisassemblyError>)
    ensures
        (r matches Err(e) && e == DisassemblyError::MissingInitialPayload) <==> sv_program(
            *p,
        ).initial_vm is None,
        (r matches Err(e) && e == DisassemblyError::MissingKeyExpression) <==> (sv_program(
            *p,
        ).initial_vm is Some && key_in_program(*p) is None),
        (r matches Err(e) && e == DisassemblyError::MissingKeyByte) <==> (sv_program(
            *p,
        ).initial_vm is Some && key_in_program(*p) is Some && ff_program(*p).key is None),
        r matches Ok(b) ==> {
            let ff = ff_program(*p);
            let scan = op_program(op_start(ff.constants, ff.functions), *p);
            let nm = nm_build(Seq::empty(), scan.opcodes, 0);
            let rec = rec_all(
                Seq::empty(),
                Seq::empty(),
                nm,
                scan.opcodes,
                ff.raw,
                ff.functions,
                0,
            );
            &&& table_view(b.opcode_table@) == scan.opcodes
            &&& key_in_program(*p) == Some(*b.key_expr)
            &&& ff.key == Some(b.key_byte)
            &&& b.offset == (match offset_in_program(*p) {
                Some(o) => o,
                None => 0i16,
            })
            &&& sv_program(*p).initial_vm == Some(b.initial_vm_payload)
            &&& b.create_function_ident@ == scan.create_function_ident
            &&& b.window_register == scan.window_register
            &&& b.dispatcher_name@ == ff.dispatcher
            &&& b.payloads == sv_program(*p)
            &&& map_kv(b.function_to_opcode_index@, |s: String| s@) == rec.0
            &&& b.diagnostics@.map_values(|d: DiagEvent| diag_view(d)) == rec.1
        },
{
    let ff = scan_functions(p);
    let sv = scan_payloads(p);
    let offset = match find_offset(p) {
        Some(o) => o,
        None => 0,
    };
    let key_expr_opt = find_key_expr(p);
    let parser = parse_opcodes(ff.constants, ff.functions.duplicate(), p);
    let nm = build_normalized(&parser.opcodes);
    let (map, dias) = reconcile(&ff.functions.entries, &nm, &parser.opcodes, &ff);
    let initial = match &sv.initial_vm {
        Some(s) => s.clone(),
        None => {
            return Err(DisassemblyError::MissingInitialPayload);
        },
    };
    let key_expr = match key_expr_opt {
        Some(e) => e,
        None => {
            return Err(DisassemblyError::MissingKeyExpression);
        },
    };
    let key_byte = match ff.key {
        Some(k) => k,
        None => {
            return Err(DisassemblyError::MissingKeyByte);
        },
    };
    Ok(
        DisassemblyBundle {
            opcode_table: parser.opcodes,
            key_expr,
            key_byte,
            offset,
            initial_vm_payload: initial,
            create_function_ident: parser.create_function_ident,
            dispatcher_name: ff.function_with_opcodes,
            window_register: parser.window_register,
            function_to_opcode_index: map,
            payloads: sv,
            diagnostics: dias,
        },
    )
}

} // verus!
