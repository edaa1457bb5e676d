use vm_recovery::ast::{AssignTarget, BinOp, Declarator, Expr, FunctionDef, LogOp, Program, Stmt,
    UnOp};
use vm_recovery::bits::normalize_bits;
use vm_recovery::disassemble::{disassemble, DiagEvent, DisassemblyError};
use vm_recovery::fold::{first_lit, resolve_expr, resolve_index};
use vm_recovery::functions::scan_functions;
use vm_recovery::magic_bits::parse_opcodes;
use vm_recovery::opcodes::{BinaryOperator, HeapType, LiteralType, Opcode, UnaryOperator};
use vm_recovery::smap::SMap;
use vm_recovery::vm::scan_payloads;
use vm_recovery::offset::{find_key_expr, find_offset};

fn id(s: &str) -> Expr {
    Expr::Ident(s.to_string())
}

fn num(v: i64) -> Expr {
    Expr::Num(v)
}

fn st(s: &str) -> Expr {
    Expr::Str(s.to_string())
}

fn bx(e: Expr) -> Box<Expr> {
    Box::new(e)
}

fn bin(op: BinOp, l: Expr, r: Expr) -> Expr {
    Expr::Binary(op, bx(l), bx(r))
}

fn assign_computed(obj: Expr, idx: Expr, value: Expr) -> Stmt {
    Stmt::Expr(Expr::Assign(AssignTarget::Computed(bx(obj), bx(idx)), bx(value)))
}

fn func(name: &str, body: Vec<Stmt>) -> Stmt {
    Stmt::Func(FunctionDef { name: Some(name.to_string()), body })
}

fn filler_stmts(n: usize) -> Vec<Stmt> {
    let mut v = Vec::new();
    for _ in 0..n {
        v.push(Stmt::Other);
    }
    v
}

#[test]
fn normalize_strips_marker_runs_and_separators() {
    assert_eq!(normalize_bits(&[195, 188, 195, 188, 5, 127, 6]), vec![5, 6]);
    assert_eq!(normalize_bits(&[195, 7]), vec![195, 7]);
}

#[test]
fn normalize_is_idempotent_on_typical_input() {
    let raw = vec![195, 188, 9, 127, 195, 188, 3, 195];
    let once = normalize_bits(&raw);
    let twice = normalize_bits(&once);
    assert_eq!(once, twice);
    assert_eq!(once, vec![9, 3, 195]);
}

#[test]
fn normalize_second_pass_strips_created_adjacency() {
    // Stripping the separator creates a fresh marker pair, which only the
    // next pass removes.
    let raw = vec![195, 127, 188];
    let once = normalize_bits(&raw);
    assert_eq!(once, vec![195, 188]);
    let twice = normalize_bits(&once);
    assert_eq!(twice, Vec::<u16>::new());
}

#[test]
fn folding_arithmetic() {
    let vars: SMap<i64> = SMap::new();
    // 2 + 3 * 4
    let e = bin(BinOp::Add, num(2), bin(BinOp::Mul, num(3), num(4)));
    assert_eq!(resolve_expr(&vars, &e), Some(14));
    // 10 & 255
    let e = bin(BinOp::BitAnd, num(10), num(255));
    assert_eq!(resolve_expr(&vars, &e), Some(10));
    // !0
    let e = Expr::Unary(UnOp::LogicNot, bx(num(0)));
    assert_eq!(resolve_expr(&vars, &e), Some(1));
    // 1 ?? 2
    let e = Expr::Logical(LogOp::Nullish, bx(num(1)), bx(num(2)));
    assert_eq!(resolve_expr(&vars, &e), Some(1));
}

#[test]
fn folding_unknown_identifier_is_unresolved() {
    let vars: SMap<i64> = SMap::new();
    let e = bin(BinOp::Add, id("mystery"), num(1));
    assert_eq!(resolve_expr(&vars, &e), None);
}

#[test]
fn folding_string_literals_truncate() {
    let vars: SMap<i64> = SMap::new();
    assert_eq!(resolve_expr(&vars, &st("3.5")), Some(3));
    assert_eq!(resolve_expr(&vars, &st("-12")), Some(-12));
    assert_eq!(resolve_expr(&vars, &st("boom")), None);
}

#[test]
fn folding_division_and_remainder_truncate_toward_zero() {
    let vars: SMap<i64> = SMap::new();
    assert_eq!(resolve_expr(&vars, &bin(BinOp::Div, num(-7), num(2))), Some(-3));
    assert_eq!(resolve_expr(&vars, &bin(BinOp::Mod, num(-7), num(2))), Some(-1));
    assert_eq!(resolve_expr(&vars, &bin(BinOp::Div, num(7), num(0))), None);
}

#[test]
fn index_resolution_takes_single_resolvable_side() {
    let vars: SMap<i64> = SMap::new();
    let e = bin(BinOp::Add, id("reg"), num(17));
    assert_eq!(resolve_index(&vars, &e), Some(17));
}

#[test]
fn index_resolution_descends_to_first_literal() {
    let vars: SMap<i64> = SMap::new();
    let e = Expr::Call(bx(id("f")), vec![id("x"), num(23)]);
    assert_eq!(first_lit(&e), Some(23));
    assert_eq!(resolve_index(&vars, &e), Some(23));
}

#[test]
fn dispatcher_detected_by_size_even_anonymous() {
    let mut body = filler_stmts(51);
    body.push(Stmt::Other);
    let p = Program { body: vec![Stmt::Func(FunctionDef { name: None, body })] };
    let ff = scan_functions(&p);
    assert!(ff.is_big_function);
    assert_eq!(ff.function_with_opcodes, "VM_ENTRY".to_string());
}

#[test]
fn small_function_is_not_dispatcher() {
    let p = Program {
        body: vec![Stmt::Func(FunctionDef { name: Some("tiny".to_string()), body: filler_stmts(3) })],
    };
    let ff = scan_functions(&p);
    assert!(!ff.is_big_function);
    assert_eq!(ff.function_with_opcodes, String::new());
}

/// A dispatcher body holding the given mapping assignments plus filler.
fn dispatcher_with(mut mappings: Vec<Stmt>) -> Stmt {
    let mut body = Vec::new();
    body.append(&mut mappings);
    while body.len() < 60 {
        body.push(Stmt::Other);
    }
    Stmt::Func(FunctionDef { name: None, body })
}

#[test]
fn mapping_discovery_records_names_constants_and_key() {
    let d = dispatcher_with(vec![
        assign_computed(id("d"), num(1), id("h1")),
        assign_computed(id("d"), num(4), Expr::Array(vec![num(9), num(8), num(7), num(77)])),
        assign_computed(id("d"), num(195), id("noise")),
    ]);
    let p = Program { body: vec![d] };
    let ff = scan_functions(&p);
    assert_eq!(ff.functions.get("h1"), Some(1));
    assert_eq!(ff.functions.get("noise"), None);
    assert_eq!(ff.constants, 4);
    assert_eq!(ff.key, Some(77));
    assert_eq!(ff.get_bits_for_index(4), Some(&vec![9, 8, 7, 77]));
}

#[test]
fn array_push_tail_classifies_with_plain_bits() {
    // h1 ends in a[7] = b["push"](5): member call with the push property.
    let tail = assign_computed(
        id("a"),
        num(7),
        Expr::Call(bx(Expr::Computed(bx(id("b")), bx(st("push")))), vec![num(5)]),
    );
    let d = dispatcher_with(vec![assign_computed(id("d"), num(1), id("h1"))]);
    let p = Program { body: vec![d, func("h1", vec![tail])] };
    let ff = scan_functions(&p);
    let parser = parse_opcodes(ff.constants, ff.functions.duplicate(), &p);
    match parser.get_opcode(1) {
        Some(Opcode::ArrayPush(o)) => assert_eq!(o.bits, vec![7, 5]),
        other => panic!("expected an array push, got {:?}", other),
    }
}

#[test]
fn jump_and_move_tails() {
    // a[3] = m with a numeric index classifies as a jump.
    let d = dispatcher_with(vec![
        assign_computed(id("d"), num(1), id("h1")),
        assign_computed(id("d"), num(2), id("h2")),
    ]);
    let jump_tail = assign_computed(id("a"), num(3), id("m"));
    // a[x] = m after an identifier assignment classifies as a move.
    let pre = Stmt::Expr(Expr::Assign(AssignTarget::Ident("x".to_string()), bx(num(4))));
    let move_tail = assign_computed(id("a"), id("x"), id("m"));
    let p = Program {
        body: vec![d, func("h1", vec![jump_tail]), func("h2", vec![pre, move_tail])],
    };
    let ff = scan_functions(&p);
    let parser = parse_opcodes(ff.constants, ff.functions.duplicate(), &p);
    assert!(matches!(parser.get_opcode(1), Some(Opcode::Jump(_))));
    match parser.get_opcode(2) {
        Some(Opcode::Move(o)) => assert_eq!(o.bits, vec![4]),
        other => panic!("expected a move, got {:?}", other),
    }
}

#[test]
fn unary_chain_classifies_per_test_count() {
    // Five equality tests next to last: one unary opcode per enumerant,
    // keyed by the test values, two bits each.
    let mut cond = Expr::Other;
    for t in [15i64, 14, 13, 12, 11] {
        cond = Expr::Conditional(
            bx(bin(BinOp::StrictEq, id("c"), num(t))),
            bx(Expr::Assign(
                AssignTarget::Computed(bx(id("r")), bx(num(200 + t))),
                bx(num(300 + t)),
            )),
            bx(cond),
        );
    }
    let body = vec![
        Stmt::Expr(cond),
        assign_computed(id("a"), id("z"), Expr::Other),
    ];
    let d = dispatcher_with(vec![assign_computed(id("d"), num(9), id("h1"))]);
    let p = Program { body: vec![d, func("h1", body)] };
    let ff = scan_functions(&p);
    let parser = parse_opcodes(ff.constants, ff.functions.duplicate(), &p);
    // Chain order is outermost first: tests 11, 12, 13, 14, 15.
    match parser.get_opcode(11) {
        Some(Opcode::Unary(o)) => {
            assert_eq!(o.operator, UnaryOperator::TypeOf);
            assert_eq!(o.bits, vec![211, 311]);
        },
        other => panic!("expected a unary opcode, got {:?}", other),
    }
    match parser.get_opcode(15) {
        Some(Opcode::Unary(o)) => {
            assert_eq!(o.operator, UnaryOperator::BitwiseNot);
            assert_eq!(o.bits, vec![215, 315]);
        },
        other => panic!("expected a unary opcode, got {:?}", other),
    }
}

#[test]
fn payload_scan_classifies_by_length() {
    let initial: String = "i".repeat(400);
    let main: String = "m".repeat(1200);
    let main2: String = "n".repeat(1500);
    let mut charset: String = "c".repeat(62);
    charset.push_str("$-+");
    let p = Program {
        body: vec![
            Stmt::Expr(Expr::Call(bx(id("run")), vec![st(&main)])),
            Stmt::Expr(Expr::Call(bx(id("boot")), vec![st(&initial)])),
            Stmt::Expr(Expr::Call(bx(id("run")), vec![st(&main2)])),
            Stmt::Expr(st(&charset)),
            Stmt::Expr(st("/segment00:segment11:segment22/")),
        ],
    };
    let sv = scan_payloads(&p);
    assert_eq!(sv.initial_vm, Some(initial));
    assert_eq!(sv.main_vm, Some(main2));
    assert_eq!(sv.compressor_charset, Some(charset));
    assert_eq!(sv.init_argument, Some("/segment00:segment11:segment22/".to_string()));
}

#[test]
fn payload_call_requires_identifier_callee() {
    // A member-callee call is not a payload site, whatever its argument.
    let decoy: String = "d".repeat(400);
    let real: String = "i".repeat(450);
    let p = Program {
        body: vec![
            Stmt::Expr(Expr::Call(
                bx(Expr::Member(bx(id("a")), "b".to_string())),
                vec![st(&decoy)],
            )),
            Stmt::Expr(Expr::Call(bx(id("boot")), vec![st(&real)])),
        ],
    };
    let sv = scan_payloads(&p);
    assert_eq!(sv.initial_vm, Some(real));
}

#[test]
fn init_argument_rejects_branch_marker_and_wrong_segments() {
    let p = Program {
        body: vec![
            Stmt::Expr(st("/seg0:seg1:seg2/b/x0000/")),
            Stmt::Expr(st("/seg0:seg1:seg2:seg3-0000/")),
        ],
    };
    let sv = scan_payloads(&p);
    assert_eq!(sv.init_argument, None);
}

#[test]
fn key_expression_and_offset_are_found() {
    let key_rhs = bin(BinOp::BitAnd, id("k"), num(255));
    let for_body = vec![Stmt::Expr(Expr::Assign(
        AssignTarget::Ident("v".to_string()),
        bx(key_rhs),
    ))];
    let off = bin(BinOp::BitXor, num(42), Expr::Call(bx(id("now")), vec![]));
    let p = Program {
        body: vec![Stmt::For(vec![], for_body), Stmt::Expr(off)],
    };
    assert_eq!(find_key_expr(&p), Some(&bin(BinOp::BitAnd, id("k"), num(255))));
    assert_eq!(find_offset(&p), Some(42));
}

#[test]
fn key_expression_outside_for_loop_is_ignored() {
    let key_rhs = bin(BinOp::BitAnd, id("k"), num(255));
    let p = Program {
        body: vec![Stmt::Expr(Expr::Assign(AssignTarget::Ident("v".to_string()), bx(key_rhs)))],
    };
    assert_eq!(find_key_expr(&p), None);
}

#[test]
fn offset_literal_is_cast_to_sixteen_bits() {
    let wide = bin(BinOp::Add, num(65541), Expr::Call(bx(id("f")), vec![]));
    let p = Program { body: vec![Stmt::Expr(wide)] };
    assert_eq!(find_offset(&p), Some(5));
    let high = bin(BinOp::BitXor, num(40000), Expr::Call(bx(id("f")), vec![]));
    let p = Program { body: vec![Stmt::Expr(high)] };
    assert_eq!(find_offset(&p), Some(-25536));
    // A non-zero literal that wraps to zero still claims the offset.
    let wrapped = bin(BinOp::Add, num(65536), Expr::Call(bx(id("f")), vec![]));
    let p = Program { body: vec![Stmt::Expr(wrapped)] };
    assert_eq!(find_offset(&p), Some(0));
}

#[test]
fn offset_takes_first_match() {
    let off1 = bin(BinOp::Add, Expr::Call(bx(id("f")), vec![]), num(-9));
    let off2 = bin(BinOp::BitXor, num(42), Expr::Call(bx(id("g")), vec![]));
    let p = Program { body: vec![Stmt::Expr(off1), Stmt::Expr(off2)] };
    assert_eq!(find_offset(&p), Some(-9));
}

/// A full fixture: dispatcher, three recognizable handlers, payload, key
/// expression, offset and key byte.
fn fixture_program() -> Program {
    let initial: String = "i".repeat(400);
    let d = dispatcher_with(vec![
        assign_computed(id("d"), num(1), id("h1")),
        assign_computed(id("d"), num(2), id("h2")),
        assign_computed(id("d"), num(3), id("h3")),
        assign_computed(id("d"), num(4), Expr::Array(vec![num(9), num(8), num(7), num(77)])),
        assign_computed(id("d"), num(9), Expr::Other),
    ]);
    let h1 = func(
        "h1",
        vec![assign_computed(
            id("a"),
            num(7),
            Expr::Call(bx(Expr::Computed(bx(id("b")), bx(st("push")))), vec![num(5)]),
        )],
    );
    let h2 = func("h2", vec![assign_computed(id("a"), num(3), id("m"))]);
    let h3 = func("h3", vec![Stmt::Throw(num(6))]);
    let key_stmt = Stmt::For(
        vec![],
        vec![Stmt::Expr(Expr::Assign(
            AssignTarget::Ident("v".to_string()),
            bx(bin(BinOp::BitAnd, id("k"), num(255))),
        ))],
    );
    let off_stmt = Stmt::Expr(bin(BinOp::Add, num(42), Expr::Call(bx(id("now")), vec![])));
    let payload_stmt = Stmt::Expr(Expr::Call(bx(id("boot")), vec![st(&initial)]));
    Program { body: vec![d, h1, h2, h3, key_stmt, off_stmt, payload_stmt] }
}

#[test]
fn end_to_end_fixture_yields_expected_table() {
    let p = fixture_program();
    let b = disassemble(&p).expect("fixture should disassemble");
    // Three handlers plus the dispatcher's own fixed default entry.
    assert_eq!(b.opcode_table.len(), 4);
    let find = |k: u16| b.opcode_table.iter().find(|e| e.0 == k).map(|e| &e.1);
    match find(1) {
        Some(Opcode::ArrayPush(o)) => assert_eq!(o.bits, vec![7, 5]),
        other => panic!("expected an array push, got {:?}", other),
    }
    match find(2) {
        Some(Opcode::Jump(o)) => assert_eq!(o.bits, vec![3]),
        other => panic!("expected a jump, got {:?}", other),
    }
    match find(3) {
        Some(Opcode::Throw(o)) => assert_eq!(o.bits, vec![6]),
        other => panic!("expected a throw, got {:?}", other),
    }
    match find(9) {
        Some(Opcode::SetProperty(o)) => assert!(o.bits.is_empty()),
        other => panic!("expected the dispatcher default, got {:?}", other),
    }
    assert_eq!(b.key_byte, 77);
    assert_eq!(b.offset, 42);
    assert_eq!(b.dispatcher_name, "VM_ENTRY".to_string());
    assert_eq!(b.initial_vm_payload.len(), 400);
    assert_eq!(b.key_expr, &bin(BinOp::BitAnd, id("k"), num(255)));
    // Direct resolution maps each handler index to its name.
    let named = |k: u16| {
        b.function_to_opcode_index.iter().find(|e| e.0 == k).map(|e| e.1.clone())
    };
    assert_eq!(named(1), Some("h1".to_string()));
    assert_eq!(named(2), Some("h2".to_string()));
    assert_eq!(named(3), Some("h3".to_string()));
}

#[test]
fn fallback_aliasing_reports_one_event() {
    let initial: String = "i".repeat(400);
    let d = dispatcher_with(vec![
        assign_computed(id("d"), num(1), id("h1")),
        // Raw capture at 50, then a name mapped to 50 with no handler body.
        assign_computed(id("d"), num(50), Expr::Array(vec![
            num(195),
            num(188),
            num(3),
            num(77),
        ])),
        assign_computed(id("d"), num(50), id("ghost_fn")),
    ]);
    // h1's plain bits normalize to [3, 77], equal to the captured bits'
    // normal form.
    let h1 = func(
        "h1",
        vec![
            Stmt::Expr(bin(BinOp::Add, num(3), num(77))),
            assign_computed(id("a"), id("z"), Expr::Object(vec![])),
        ],
    );
    let key_stmt = Stmt::For(
        vec![],
        vec![Stmt::Expr(Expr::Assign(
            AssignTarget::Ident("v".to_string()),
            bx(bin(BinOp::BitAnd, id("k"), num(255))),
        ))],
    );
    let payload_stmt = Stmt::Expr(Expr::Call(bx(id("boot")), vec![st(&initial)]));
    let p = Program { body: vec![d, h1, key_stmt, payload_stmt] };
    let b = disassemble(&p).expect("fixture should disassemble");
    let fallbacks: Vec<&DiagEvent> = b
        .diagnostics
        .iter()
        .filter(|d| matches!(d, DiagEvent::FallbackResolved { .. }))
        .collect();
    assert_eq!(fallbacks.len(), 1);
    match fallbacks[0] {
        DiagEvent::FallbackResolved { name, index } => {
            assert_eq!(name, &"ghost_fn".to_string());
            assert_eq!(*index, 1);
        },
        _ => unreachable!(),
    }
    let named = |k: u16| {
        b.function_to_opcode_index.iter().find(|e| e.0 == k).map(|e| e.1.clone())
    };
    assert_eq!(named(1), Some("ghost_fn".to_string()));
}

#[test]
fn missing_artifacts_fail_in_order() {
    let p = Program { body: vec![] };
    assert_eq!(disassemble(&p).err(), Some(DisassemblyError::MissingInitialPayload));

    let initial: String = "i".repeat(400);
    let payload = Stmt::Expr(Expr::Call(bx(id("boot")), vec![st(&initial)]));
    let p = Program { body: vec![payload] };
    assert_eq!(disassemble(&p).err(), Some(DisassemblyError::MissingKeyExpression));

    let payload = Stmt::Expr(Expr::Call(bx(id("boot")), vec![st(&initial)]));
    let key_stmt = Stmt::For(
        vec![],
        vec![Stmt::Expr(Expr::Assign(
            AssignTarget::Ident("v".to_string()),
            bx(bin(BinOp::BitAnd, id("k"), num(255))),
        ))],
    );
    let p = Program { body: vec![payload, key_stmt] };
    assert_eq!(disassemble(&p).err(), Some(DisassemblyError::MissingKeyByte));
}

#[test]
fn noise_indices_are_never_recorded() {
    let initial: String = "i".repeat(400);
    let d = dispatcher_with(vec![
        assign_computed(id("d"), num(4), Expr::Array(vec![num(1), num(2), num(3), num(77)])),
        assign_computed(id("d"), bin(BinOp::Add, id("r"), num(127)), id("sep_fn")),
    ]);
    let key_stmt = Stmt::For(
        vec![],
        vec![Stmt::Expr(Expr::Assign(
            AssignTarget::Ident("v".to_string()),
            bx(bin(BinOp::BitAnd, id("k"), num(255))),
        ))],
    );
    let payload_stmt = Stmt::Expr(Expr::Call(bx(id("boot")), vec![st(&initial)]));
    let p = Program { body: vec![d, key_stmt, payload_stmt] };
    let ff = scan_functions(&p);
    // The one-sided binary resolution yields 127, which is noise: the
    // mapping is never recorded.
    assert_eq!(ff.functions.get("sep_fn"), None);
}

#[test]
fn operator_tokens() {
    assert_eq!(UnaryOperator::BitwiseNot.get_operator(), "~");
    assert_eq!(UnaryOperator::TypeOf.get_operator(), "typeof");
    assert_eq!(BinaryOperator::UnsignedRightShift.get_operator(), ">>>");
    assert_eq!(BinaryOperator::InstanceOf.get_operator(), "instanceof");
    assert_eq!(BinaryOperator::Addition.get_operator(), "+");
}

#[test]
fn literal_and_heap_kinds_exist() {
    assert_eq!(vm_recovery::opcodes::LITERAL_TYPE_COUNT, 12);
    assert_eq!(vm_recovery::opcodes::HEAP_TYPE_COUNT, 3);
    assert!(matches!(LiteralType::Regexp, LiteralType::Regexp));
    assert!(matches!(HeapType::Setter, HeapType::Setter));
}

#[test]
fn declaration_initializers_feed_the_variable_table() {
    let d = dispatcher_with(vec![
        Stmt::Decl(vec![Declarator {
            name: Some("k".to_string()),
            init: Some(bin(BinOp::Mul, num(2), num(3))),
        }]),
        assign_computed(id("d"), id("k"), id("h1")),
    ]);
    let p = Program { body: vec![d] };
    let ff = scan_functions(&p);
    assert_eq!(ff.variables.get("k"), Some(6));
    assert_eq!(ff.functions.get("h1"), Some(6));
}

/// A handler whose next-to-last statement is a conditional chain of `n`
/// equality tests, candidate `k` testing `100 + k` and holding the given
/// consequent, wrapped as a claimed function.
fn chain_handler(name: &str, consequents: Vec<Expr>) -> Stmt {
    let mut cond = Expr::Other;
    for (k, cons) in consequents.into_iter().enumerate().rev() {
        cond = Expr::Conditional(
            bx(bin(BinOp::StrictEq, id("t"), num(100 + k as i64))),
            bx(cons),
            bx(cond),
        );
    }
    let body = vec![Stmt::Expr(cond), Stmt::Return(None)];
    func(name, body)
}

#[test]
fn binary_chain_classifies_with_swap_detection() {
    // Nineteen candidates; the first one's consequent swaps two registers.
    let mut consequents = Vec::new();
    for k in 0..19i64 {
        let mut parts = Vec::new();
        if k == 0 {
            parts.push(Expr::Assign(AssignTarget::Ident("x".to_string()), bx(id("y"))));
            parts.push(Expr::Assign(AssignTarget::Ident("y".to_string()), bx(id("x"))));
        } else {
            parts.push(Expr::Assign(AssignTarget::Ident("x".to_string()), bx(id("y"))));
        }
        parts.push(num(500 + 3 * k));
        parts.push(num(501 + 3 * k));
        parts.push(num(502 + 3 * k));
        consequents.push(Expr::Sequence(parts));
    }
    let d = dispatcher_with(vec![assign_computed(id("d"), num(30), id("h1"))]);
    let p = Program { body: vec![d, chain_handler("h1", consequents)] };
    let ff = scan_functions(&p);
    let parser = parse_opcodes(ff.constants, ff.functions.duplicate(), &p);
    match parser.get_opcode(100) {
        Some(Opcode::Binary(o)) => {
            assert_eq!(o.operator, BinaryOperator::Addition);
            assert_eq!(o.bits, vec![500, 501, 502]);
            assert!(o.swap);
        },
        other => panic!("expected a binary opcode, got {:?}", other),
    }
    match parser.get_opcode(118) {
        Some(Opcode::Binary(o)) => {
            assert_eq!(o.operator, BinaryOperator::In);
            assert_eq!(o.bits, vec![554, 555, 556]);
            assert!(!o.swap);
        },
        other => panic!("expected a binary opcode, got {:?}", other),
    }
}

#[test]
fn heap_chain_builds_closure_map() {
    let consequents = vec![
        Expr::Sequence(vec![num(9)]),
        Expr::Sequence(vec![num(8)]),
        Expr::Sequence(vec![num(7)]),
    ];
    let d = dispatcher_with(vec![assign_computed(id("d"), num(31), id("h1"))]);
    let p = Program { body: vec![d, chain_handler("h1", consequents)] };
    let ff = scan_functions(&p);
    let parser = parse_opcodes(ff.constants, ff.functions.duplicate(), &p);
    match parser.get_opcode(31) {
        Some(Opcode::Heap(o)) => {
            assert_eq!(o.bits, vec![9]);
            let closure = |t: u16| o.closures.iter().find(|e| e.0 == t).map(|e| e.1.clone());
            let c0 = closure(100).unwrap();
            assert_eq!(c0.closure_type, HeapType::Setter);
            assert_eq!(c0.bits, vec![8]);
            let c1 = closure(101).unwrap();
            assert_eq!(c1.closure_type, HeapType::Get);
            assert_eq!(c1.bits, vec![7]);
            let c2 = closure(102).unwrap();
            assert_eq!(c2.closure_type, HeapType::Init);
            assert!(c2.bits.is_empty());
        },
        other => panic!("expected a heap opcode, got {:?}", other),
    }
}

#[test]
fn literal_chain_distributes_bits_per_kind() {
    let mut consequents = Vec::new();
    for k in 0..12usize {
        let parts: Vec<Expr> = match k {
            0 => vec![num(1), num(2)],
            6 => vec![num(3)],
            7 => vec![num(4)],
            9 => vec![num(5)],
            10 => vec![num(6)],
            11 => vec![num(7), num(8)],
            _ => vec![id("noop")],
        };
        consequents.push(Expr::Sequence(parts));
    }
    let d = dispatcher_with(vec![assign_computed(id("d"), num(32), id("h1"))]);
    let p = Program { body: vec![d, chain_handler("h1", consequents)] };
    let ff = scan_functions(&p);
    let parser = parse_opcodes(ff.constants, ff.functions.duplicate(), &p);
    match parser.get_opcode(32) {
        Some(Opcode::NewLiteral(o)) => {
            assert_eq!(o.bits, vec![1, 2]);
            let entry = |t: u16| o.tests.iter().find(|e| e.0 == t).map(|e| e.1.clone());
            let integer = entry(106).unwrap();
            assert_eq!(integer.type_, LiteralType::Integer);
            assert_eq!(integer.bits, vec![3]);
            let string = entry(107).unwrap();
            assert_eq!(string.type_, LiteralType::String);
            assert_eq!(string.bits, vec![4]);
            let null = entry(100).unwrap();
            assert_eq!(null.type_, LiteralType::Null);
            assert!(null.bits.is_empty());
            let copy_state = entry(109).unwrap();
            assert_eq!(copy_state.type_, LiteralType::CopyState);
            assert_eq!(copy_state.bits, vec![5]);
            let array = entry(110).unwrap();
            assert_eq!(array.type_, LiteralType::Array);
            assert_eq!(array.bits, vec![6]);
            let regexp = entry(111).unwrap();
            assert_eq!(regexp.type_, LiteralType::Regexp);
            assert_eq!(regexp.bits, vec![7, 8]);
        },
        other => panic!("expected a literal opcode, got {:?}", other),
    }
}
