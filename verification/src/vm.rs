//! Locating the virtual machine's payload strings.
//!
//! One pass over the tree looks at two kinds of site. A call expression
//! with a plain identifier callee whose first argument is a string literal
//! is classified by that string's length in characters: at least 1000
//! characters is the main payload (the last such match wins, as the main
//! payload may appear more than once); 300 to 999 characters is the
//! initial payload when none has been recorded yet (the first match wins).
//! The callee's name is deliberately ignored, as it is unstable across
//! builds; only its shape is required. Independently, every string literal is
//! tested as a candidate compressor charset (exactly 65 characters holding
//! '$', '-' and '+') or initialization argument (more than 20 characters,
//! slash-delimited, exactly three colon-separated segments, and free of the
//! "/b/" marker); for both, the last match wins.

use vstd::prelude::*;
use vstd::string::StrSliceExecFns;
use crate::ast::{AssignTarget, Declarator, Expr, Program, Stmt};
use crate::strutil::{contains_char, contains_substr, count_char, spec_contains_substr,
    spec_count_char};

verus! {

/// Shortest main payload, in characters.
pub const MAIN_PAYLOAD_MIN: usize = 1000;

/// Shortest initial payload, in characters.
pub const INITIAL_PAYLOAD_MIN: usize = 300;

/// The payload strings recovered from one script.
#[derive(Debug, Clone, PartialEq, Eq)]
pub struct ScriptVisitor {
    pub initial_vm: Option<String>,
    pub main_vm: Option<String>,
    pub compressor_charset: Option<String>,
    pub init_argument: Option<String>,
}

/// Whether a string is a compressor charset candidate.
pub open spec fn spec_is_charset(s: Seq<char>) -> bool {
    s.len() == 65 && s.contains('$') && s.contains('-') && s.contains('+')
}

/// Whether a string is an initialization-argument candidate.
pub open spec fn spec_is_init_argument(s: Seq<char>) -> bool {
    &&& s.len() > 20
    &&& s[0] == '/'
    &&& s.last() == '/'
    &&& spec_count_char(s, ':') == 2
    &&& !spec_contains_substr(s, "/b/"@)
}

/// State after seeing one string literal.
pub open spec fn sv_on_str(st: ScriptVisitor, s: String) -> ScriptVisitor {
    let st1 = if spec_is_charset(s@) {
        ScriptVisitor { compressor_charset: Some(s), ..st }
    } else {
        st
    };
    if spec_is_init_argument(s@) {
        ScriptVisitor { init_argument: Some(s), ..st1 }
    } else {
        st1
    }
}

/// State after seeing one call expression: a payload site has a plain
/// identifier callee — whose name is ignored — and a string first argument.
pub open spec fn sv_on_call(st: ScriptVisitor, callee: Expr, args: Seq<Expr>) -> ScriptVisitor {
    if callee matches Expr::Ident(_) && args.len() >= 1 && args[0] is Str {
        let s = args[0]->Str_0;
        if s@.len() >= MAIN_PAYLOAD_MIN {
            ScriptVisitor { main_vm: Some(s), ..st }
        } else if INITIAL_PAYLOAD_MIN <= s@.len() && st.initial_vm is None {
            ScriptVisitor { initial_vm: Some(s), ..st }
        } else {
            st
        }
    } else {
        st
    }
}

/// State after walking one expression, node first, children in order.
pub open spec fn sv_expr(st: ScriptVisitor, e: Expr) -> ScriptVisitor
    decreases e, 0int,
{
    match e {
        Expr::Num(_) => st,
        Expr::Str(s) => sv_on_str(st, s),
        Expr::Ident(_) => st,
        Expr::Paren(inner) => sv_expr(st, *inner),
        Expr::Sequence(items) => sv_expr_list(st, items@, 0),
        Expr::Unary(_, arg) => sv_expr(st, *arg),
        Expr::Binary(_, l, r) => sv_expr(sv_expr(st, *l), *r),
        Expr::Logical(_, l, r) => sv_expr(sv_expr(st, *l), *r),
        Expr::Conditional(t, c, a) => sv_expr(sv_expr(sv_expr(st, *t), *c), *a),
        Expr::Call(callee, args) => sv_expr_list(
            sv_expr(sv_on_call(st, *callee, args@), *callee),
            args@,
            0,
        ),
        Expr::New(callee, args) => sv_expr_list(sv_expr(st, *callee), args@, 0),
        Expr::Computed(obj, idx) => sv_expr(sv_expr(st, *obj), *idx),
        Expr::Member(obj, _) => sv_expr(st, *obj),
        Expr::Assign(target, value) => sv_expr(sv_target(st, target), *value),
        Expr::Array(items) => sv_expr_list(st, items@, 0),
        Expr::Object(values) => sv_expr_list(st, values@, 0),
        Expr::Function(f) => sv_stmt_list(st, f.body@, 0),
        Expr::Other => st,
    }
}

/// State after walking an assignment target.
pub open spec fn sv_target(st: ScriptVisitor, t: AssignTarget) -> ScriptVisitor
    decreases t, 0int,
{
    match t {
        AssignTarget::Ident(_) => st,
        AssignTarget::Computed(obj, idx) => sv_expr(sv_expr(st, *obj), *idx),
        AssignTarget::Member(obj, _) => sv_expr(st, *obj),
        AssignTarget::Other => st,
    }
}

/// State after walking the expressions of a list from position `i` on.
pub open spec fn sv_expr_list(st: ScriptVisitor, items: Seq<Expr>, i: int) -> ScriptVisitor
    decreases items, items.len() - i,
{
    if i < 0 || i >= items.len() {
        st
    } else {
        sv_expr_list(sv_expr(st, items[i]), items, i + 1)
    }
}

/// State after walking one statement.
pub open spec fn sv_stmt(st: ScriptVisitor, s: Stmt) -> ScriptVisitor
    decreases s, 0int,
{
    match s {
        Stmt::Expr(e) => sv_expr(st, e),
        Stmt::Return(arg) => match arg {
            Some(e) => sv_expr(st, e),
            None => st,
        },
        Stmt::If(test, then, alt) => sv_stmt_list(
            sv_stmt_list(sv_expr(st, test), then@, 0),
            alt@,
            0,
        ),
        Stmt::Throw(e) => sv_expr(st, e),
        Stmt::For(header, body) => sv_stmt_list(sv_stmt_list(st, header@, 0), body@, 0),
        Stmt::Decl(ds) => sv_decl_list(st, ds@, 0),
        Stmt::Func(f) => sv_stmt_list(st, f.body@, 0),
        Stmt::Block(items) => sv_stmt_list(st, items@, 0),
        Stmt::Other => st,
    }
}

/// State after walking the statements of a list from position `i` on.
pub open spec fn sv_stmt_list(st: ScriptVisitor, items: Seq<Stmt>, i: int) -> ScriptVisitor
    decreases items, items.len() - i,
{
    if i < 0 || i >= items.len() {
        st
    } else {
        sv_stmt_list(sv_stmt(st, items[i]), items, i + 1)
    }
}

/// State after walking the declarators of a declaration from `i` on.
pub open spec fn sv_decl_list(st: ScriptVisitor, ds: Seq<Declarator>, i: int) -> ScriptVisitor
    decreases ds, ds.len() - i,
{
    if i < 0 || i >= ds.len() {
        st
    } else {
        let st1 = match ds[i].init {
            Some(e) => sv_expr(st, e),
            None => st,
        };
        sv_decl_list(st1, ds, i + 1)
    }
}

/// State after scanning a whole program from the empty state.
pub open spec fn sv_program(p: Program) -> ScriptVisitor {
    sv_stmt_list(
        ScriptVisitor {
            initial_vm: None,
            main_vm: None,
            compressor_charset: None,
            init_argument: None,
        },
        p.body@,
        0,
    )
}

impl ScriptVisitor {
    /// The empty result, before any site has been seen.
    pub fn new() -> (r: Self)
        ensures
            r.initial_vm is None,
            r.main_vm is None,
            r.compressor_charset is None,
            r.init_argument is None,
    {
        ScriptVisitor { initial_vm: None, main_vm: None, compressor_charset: None, init_argument: None }
    }

    /// Applies the string-literal rules.
    fn visit_str(&mut self, s: &String)
        ensures
            *final(self) == sv_on_str(*old(self), *s),
    {
        let n = s.as_str().unicode_len();
        if n == 65 && contains_char(s.as_str(), '$') && contains_char(s.as_str(), '-')
            && contains_char(s.as_str(), '+') {
            self.compressor_charset = Some(s.clone());
        }
        if n > 20 && s.as_str().get_char(0) == '/' && s.as_str().get_char(n - 1) == '/'
            && count_char(s.as_str(), ':') == 2 && !contains_substr(s.as_str(), "/b/") {
            self.init_argument = Some(s.clone());
        }
    }

    /// Applies the call-site payload rules.
    fn visit_call_args(&mut self, callee: &Expr, args: &Vec<Expr>)
        ensures
            *final(self) == sv_on_call(*old(self), *callee, args@),
    {
        if matches!(callee, Expr::Ident(_)) && args.len() >= 1 {
            if let Expr::Str(s) = &args[0] {
                let n = s.as_str().unicode_len();
                if n >= MAIN_PAYLOAD_MIN {
                    self.main_vm = Some(s.clone());
                } else if n >= INITIAL_PAYLOAD_MIN && self.initial_vm.is_none() {
                    self.initial_vm = Some(s.clone());
                }
            }
        }
    }

    /// Walks one expression, per `sv_expr`.
    fn visit_expr(&mut self, e: &Expr)
        ensures
            *final(self) == sv_expr(*old(self), *e),
        decreases *e, 0int,
    {
        match e {
            Expr::Num(_) => {},
            Expr::Str(s) => self.visit_str(s),
            Expr::Ident(_) => {},
            Expr::Paren(inner) => self.visit_expr(inner),
            Expr::Sequence(items) => self.visit_expr_list(items, 0),
            Expr::Unary(_, arg) => self.visit_expr(arg),
            Expr::Binary(_, l, r) => {
                self.visit_expr(l);
                self.visit_expr(r);
            },
            Expr::Logical(_, l, r) => {
                self.visit_expr(l);
                self.visit_expr(r);
            },
            Expr::Conditional(t, c, a) => {
                self.visit_expr(t);
                self.visit_expr(c);
                self.visit_expr(a);
            },
            Expr::Call(callee, args) => {
                self.visit_call_args(callee, args);
                self.visit_expr(callee);
                self.visit_expr_list(args, 0);
            },
            Expr::New(callee, args) => {
                self.visit_expr(callee);
                self.visit_expr_list(args, 0);
            },
            Expr::Computed(obj, idx) => {
                self.visit_expr(obj);
                self.visit_expr(idx);
            },
            Expr::Member(obj, _) => self.visit_expr(obj),
            Expr::Assign(target, value) => {
                self.visit_target(target);
                self.visit_expr(value);
            },
            Expr::Array(items) => self.visit_expr_list(items, 0),
            Expr::Object(values) => self.visit_expr_list(values, 0),
            Expr::Function(f) => self.visit_stmt_list(&f.body, 0),
            Expr::Other => {},
        }
    }

    /// Walks an assignment target, per `sv_target`.
    fn visit_target(&mut self, t: &AssignTarget)
        ensures
            *final(self) == sv_target(*old(self), *t),
        decreases *t, 0int,
    {
        match t {
            AssignTarget::Ident(_) => {},
            AssignTarget::Computed(obj, idx) => {
                self.visit_expr(obj);
                self.visit_expr(idx);
            },
            AssignTarget::Member(obj, _) => self.visit_expr(obj),
            AssignTarget::Other => {},
        }
    }

    /// Walks an expression list from `from` on, per `sv_expr_list`.
    fn visit_expr_list(&mut self, items: &Vec<Expr>, from: usize)
        ensures
            *final(self) == sv_expr_list(*old(self), items@, from as int),
        decreases *items, items@.len() - from,
    {
        if from < items.len() {
            self.visit_expr(&items[from]);
            self.visit_expr_list(items, from + 1);
        }
    }

    /// Walks one statement, per `sv_stmt`.
    fn visit_stmt(&mut self, s: &Stmt)
        ensures
            *final(self) == sv_stmt(*old(self), *s),
        decreases *s, 0int,
    {
        match s {
            Stmt::Expr(e) => self.visit_expr(e),
            Stmt::Return(arg) => match arg {
                Some(e) => self.visit_expr(e),
                None => {},
            },
            Stmt::If(test, then, alt) => {
                self.visit_expr(test);
                self.visit_stmt_list(then, 0);
                self.visit_stmt_list(alt, 0);
            },
            Stmt::Throw(e) => self.visit_expr(e),
            Stmt::For(header, body) => {
                self.visit_stmt_list(header, 0);
                self.visit_stmt_list(body, 0);
            },
            Stmt::Decl(ds) => self.visit_decl_list(ds, 0),
            Stmt::Func(f) => self.visit_stmt_list(&f.body, 0),
            Stmt::Block(items) => self.visit_stmt_list(items, 0),
            Stmt::Other => {},
        }
    }

    /// Walks a statement list from `from` on, per `sv_stmt_list`.
    fn visit_stmt_list(&mut self, items: &Vec<Stmt>, from: usize)
        ensures
            *final(self) == sv_stmt_list(*old(self), items@, from as int),
        decreases *items, items@.len() - from,
    {
        if from < items.len() {
            self.visit_stmt(&items[from]);
            self.visit_stmt_list(items, from + 1);
        }
    }

    /// Walks a declarator list from `from` on, per `sv_decl_list`.
    fn visit_decl_list(&mut self, ds: &Vec<Declarator>, from: usize)
        ensures
            *final(self) == sv_decl_list(*old(self), ds@, from as int),
        decreases *ds, ds@.len() - from,
    {
        if from < ds.len() {
            match &ds[from].init {
                Some(e) => self.visit_expr(e),
                None => {},
            }
            self.visit_decl_list(ds, from + 1);
        }
    }
}

/// Scans a whole program for payload strings, per `sv_program`.
pub fn scan_payloads(p: &Program) -> (r: ScriptVisitor)
    ensures
        r == sv_program(*p),
{
    let mut sv = ScriptVisitor::new();
    sv.visit_stmt_list(&p.body, 0);
    sv
}

} // verus!
