//! Challenge-page options.
//!
//! The fields a challenge page carries, and their recovery from the page's
//! configuration object. Producing the page's syntax tree and fetching the
//! document belong to outside collaborators; what the engine owns is the
//! collection of candidate strings from the target object — the one whose
//! values carry a site key or the challenge host — and the classification
//! of those candidates into fields. The page payload is the longest long
//! candidate; its embedded version signature, found by an outside pattern
//! search, picks the challenge hash among the rest; field shapes decide
//! the others. Lengths are counted in characters.

use vstd::prelude::*;
use vstd::string::StrSliceExecFns;
use vstd::string::StringExecFns;
use crate::ast::{AssignTarget, Declarator, Expr, Program, Stmt};
use crate::strutil::{contains_char, contains_substr, spec_contains_substr, str_eq};

verus! {

/// The options recovered from one challenge page.
#[derive(Debug, Clone, PartialEq, Eq)]
pub struct CloudflareChallengeOptions {
    pub c_type: String,
    pub cv_id: String,
    pub c_arg: String,
    pub zone: String,
    pub api_v_id: String,
    pub widget_id: String,
    pub site_key: String,
    pub api_mode: String,
    pub api_size: String,
    pub api_rcv: String,
    pub reset_src: String,
    pub c_ray: String,
    pub ch: String,
    pub md: String,
    pub time: String,
    pub iss_ua: String,
    pub ip: String,
    pub turnstile_u: String,
}

impl Default for CloudflareChallengeOptions {
    /// All fields empty.
    fn default() -> (r: Self)
        ensures
            r.c_arg@.len() == 0,
            r.zone@.len() == 0,
            r.widget_id@.len() == 0,
            r.site_key@.len() == 0,
            r.api_mode@.len() == 0,
            r.c_ray@.len() == 0,
            r.ch@.len() == 0,
            r.turnstile_u@.len() == 0,
            r.c_type@.len() == 0,
            r.cv_id@.len() == 0,
            r.api_v_id@.len() == 0,
            r.api_size@.len() == 0,
            r.api_rcv@.len() == 0,
            r.reset_src@.len() == 0,
            r.md@.len() == 0,
            r.time@.len() == 0,
            r.iss_ua@.len() == 0,
            r.ip@.len() == 0,
    {
        CloudflareChallengeOptions {
            c_type: String::new(),
            cv_id: String::new(),
            c_arg: String::new(),
            zone: String::new(),
            api_v_id: String::new(),
            widget_id: String::new(),
            site_key: String::new(),
            api_mode: String::new(),
            api_size: String::new(),
            api_rcv: String::new(),
            reset_src: String::new(),
            c_ray: String::new(),
            ch: String::new(),
            md: String::new(),
            time: String::new(),
            iss_ua: String::new(),
            ip: String::new(),
            turnstile_u: String::new(),
        }
    }
}

impl CloudflareChallengeOptions {
    /// The interactivity marker: an empty value exactly when the document
    /// holds the challenge-timeout token, and nothing otherwise.
    pub fn extract_turnstile_u(html: &str) -> (r: Option<String>)
        ensures
            (r is Some) == spec_contains_substr(html@, "chlTimeoutMs"@),
            r matches Some(s) ==> s@.len() == 0,
    {
        if contains_substr(html, "chlTimeoutMs") {
            Some(String::new())
        } else {
            None
        }
    }
}

/// Whether a string marks its object as the configuration target: a long
/// site-key shape or the challenge host.
pub open spec fn spec_is_target_val(s: Seq<char>) -> bool {
    (s.len() > 20 && s.len() >= 3 && s.subrange(0, 3) == "0x4"@) || spec_contains_substr(
        s,
        "challenges.cloudflare.com"@,
    )
}

/// Whether any string value of an object marks it as the target.
pub open spec fn spec_obj_is_target(values: Seq<Expr>) -> bool {
    exists|i: int|
        0 <= i < values.len() && ((#[trigger] values[i]) matches Expr::Str(v)
            && spec_is_target_val(v@))
}

/// The string values of an object, in order, from `i` on.
pub open spec fn spec_obj_strs(values: Seq<Expr>, i: int) -> Seq<String>
    decreases values.len() - i,
{
    if i < 0 || i >= values.len() {
        Seq::empty()
    } else {
        let rest = spec_obj_strs(values, i + 1);
        match values[i] {
            Expr::Str(v) => seq![v] + rest,
            _ => rest,
        }
    }
}

/// Candidates after walking one expression, node first, children in order.
pub open spec fn cand_expr(acc: Seq<String>, e: Expr) -> Seq<String>
    decreases e, 1int,
{
    match e {
        Expr::Paren(inner) => cand_expr(acc, *inner),
        Expr::Sequence(items) => cand_expr_list(acc, items@, 0),
        Expr::Unary(_, arg) => cand_expr(acc, *arg),
        Expr::Binary(_, l, r) => cand_expr(cand_expr(acc, *l), *r),
        Expr::Logical(_, l, r) => cand_expr(cand_expr(acc, *l), *r),
        Expr::Conditional(t, c, a) => cand_expr(cand_expr(cand_expr(acc, *t), *c), *a),
        Expr::Call(callee, args) => cand_expr_list(cand_expr(acc, *callee), args@, 0),
        Expr::New(callee, args) => cand_expr_list(cand_expr(acc, *callee), args@, 0),
        Expr::Computed(obj, idx) => cand_expr(cand_expr(acc, *obj), *idx),
        Expr::Member(obj, _) => cand_expr(acc, *obj),
        Expr::Assign(target, value) => cand_expr(cand_target(acc, target), *value),
        Expr::Array(items) => cand_expr_list(acc, items@, 0),
        Expr::Object(values) => {
            let acc2 = if spec_obj_is_target(values@) {
                acc + spec_obj_strs(values@, 0)
            } else {
                acc
            };
            cand_expr_list(acc2, values@, 0)
        },
        Expr::Function(f) => cand_stmt_list(acc, f.body@, 0),
        _ => acc,
    }
}

/// Candidates after walking an assignment target.
pub open spec fn cand_target(acc: Seq<String>, t: AssignTarget) -> Seq<String>
    decreases t, 1int,
{
    match t {
        AssignTarget::Computed(obj, idx) => cand_expr(cand_expr(acc, *obj), *idx),
        AssignTarget::Member(obj, _) => cand_expr(acc, *obj),
        _ => acc,
    }
}

/// Candidates after walking an expression list from `i` on.
pub open spec fn cand_expr_list(acc: Seq<String>, items: Seq<Expr>, i: int) -> Seq<String>
    decreases items, items.len() - i,
{
    if i < 0 || i >= items.len() {
        acc
    } else {
        cand_expr_list(cand_expr(acc, items[i]), items, i + 1)
    }
}

/// Candidates after walking one statement.
pub open spec fn cand_stmt(acc: Seq<String>, s: Stmt) -> Seq<String>
    decreases s, 1int,
{
    match s {
        Stmt::Expr(e) => cand_expr(acc, e),
        Stmt::Return(arg) => match arg {
            Some(e) => cand_expr(acc, e),
            None => acc,
        },
        Stmt::If(test, then, alt) => cand_stmt_list(
            cand_stmt_list(cand_expr(acc, test), then@, 0),
            alt@,
            0,
        ),
        Stmt::Throw(e) => cand_expr(acc, e),
        Stmt::For(header, body) => cand_stmt_list(cand_stmt_list(acc, header@, 0), body@, 0),
        Stmt::Decl(ds) => cand_decl_list(acc, ds@, 0),
        Stmt::Func(f) => cand_stmt_list(acc, f.body@, 0),
        Stmt::Block(items) => cand_stmt_list(acc, items@, 0),
        Stmt::Other => acc,
    }
}

/// Candidates after walking a statement list from `i` on.
pub open spec fn cand_stmt_list(acc: Seq<String>, items: Seq<Stmt>, i: int) -> Seq<String>
    decreases items, items.len() - i,
{
    if i < 0 || i >= items.len() {
        acc
    } else {
        cand_stmt_list(cand_stmt(acc, items[i]), items, i + 1)
    }
}

/// Candidates after walking a declarator list from `i` on.
pub open spec fn cand_decl_list(acc: Seq<String>, ds: Seq<Declarator>, i: int) -> Seq<String>
    decreases ds, ds.len() - i,
{
    if i < 0 || i >= ds.len() {
        acc
    } else {
        let acc1 = match ds[i].init {
            Some(e) => cand_expr(acc, e),
            None => acc,
        };
        cand_decl_list(acc1, ds, i + 1)
    }
}

/// Whether a string marks its object as the target.
fn is_target_val(s: &String) -> (r: bool)
    ensures
        r == spec_is_target_val(s@),
{
    let n = s.as_str().unicode_len();
    if n > 20 && n >= 3 {
        let head = s.as_str().substring_char(0, 3);
        if str_eq(head, "0x4") {
            return true;
        }
    }
    contains_substr(s.as_str(), "challenges.cloudflare.com")
}

impl CloudflareChallengeOptions {
    /// Collects the candidate strings of the page's configuration objects,
    /// in tree order.
    pub fn collect_candidates(p: &Program) -> (r: Vec<String>)
        ensures
            r@ == cand_stmt_list(Seq::empty(), p.body@, 0),
    {
        let mut out: Vec<String> = Vec::new();
        collect_stmt_list(&mut out, &p.body, 0);
        proof {
            assert(Seq::<String>::empty() + cand_stmt_list(Seq::empty(), p.body@, 0)
                =~= cand_stmt_list(Seq::empty(), p.body@, 0));
        }
        out
    }
}

/// Collects candidates of one expression, per `cand_expr`.
fn collect_expr(out: &mut Vec<String>, e: &Expr)
    ensures
        final(out)@ == cand_expr(old(out)@, *e),
    decreases *e, 1int,
{
    match e {
        Expr::Paren(inner) => collect_expr(out, inner),
        Expr::Sequence(items) => collect_expr_list(out, items, 0),
        Expr::Unary(_, arg) => collect_expr(out, arg),
        Expr::Binary(_, l, r) => {
            collect_expr(out, l);
            collect_expr(out, r);
        },
        Expr::Logical(_, l, r) => {
            collect_expr(out, l);
            collect_expr(out, r);
        },
        Expr::Conditional(t, c, a) => {
            collect_expr(out, t);
            collect_expr(out, c);
            collect_expr(out, a);
        },
        Expr::Call(callee, args) => {
            collect_expr(out, callee);
            collect_expr_list(out, args, 0);
        },
        Expr::New(callee, args) => {
            collect_expr(out, callee);
            collect_expr_list(out, args, 0);
        },
        Expr::Computed(obj, idx) => {
            collect_expr(out, obj);
            collect_expr(out, idx);
        },
        Expr::Member(obj, _) => collect_expr(out, obj),
        Expr::Assign(target, value) => {
            collect_target(out, target);
            collect_expr(out, value);
        },
        Expr::Array(items) => collect_expr_list(out, items, 0),
        Expr::Object(values) => {
            let n = values.len();
            let mut found = false;
            let mut i: usize = 0;
            while i < n
                invariant
                    i <= n,
                    n == values@.len(),
                    found == exists|j: int|
                        0 <= j < i && ((#[trigger] values@[j]) matches Expr::Str(v)
                            && spec_is_target_val(v@)),
                decreases n - i,
            {
                if !found {
                    if let Expr::Str(v) = &values[i] {
                        if is_target_val(v) {
                            found = true;
                        }
                    }
                }
                i = i + 1;
            }
            if found {
                collect_obj_strs(out, values, 0);
            }
            collect_expr_list(out, values, 0);
        },
        Expr::Function(f) => collect_stmt_list(out, &f.body, 0),
        _ => {},
    }
}

/// Appends an object's string values from `from` on, per `spec_obj_strs`.
fn collect_obj_strs(out: &mut Vec<String>, values: &Vec<Expr>, from: usize)
    ensures
        final(out)@ == old(out)@ + spec_obj_strs(values@, from as int),
    decreases values@.len() - from,
{
    if from < values.len() {
        if let Expr::Str(v) = &values[from] {
            out.push(v.clone());
        }
        collect_obj_strs(out, values, from + 1);
        proof {
            match values@[from as int] {
                Expr::Str(v) => {
                    assert((old(out)@ + seq![v]) + spec_obj_strs(values@, from + 1) =~= old(out)@
                        + (seq![v] + spec_obj_strs(values@, from + 1)));
                },
                _ => {},
            }
        }
    } else {
        proof {
            assert(old(out)@ + Seq::<String>::empty() =~= old(out)@);
        }
    }
}

/// Collects candidates under an assignment target, per `cand_target`.
fn collect_target(out: &mut Vec<String>, t: &AssignTarget)
    ensures
        final(out)@ == cand_target(old(out)@, *t),
    decreases *t, 1int,
{
    match t {
        AssignTarget::Computed(obj, idx) => {
            collect_expr(out, obj);
            collect_expr(out, idx);
        },
        AssignTarget::Member(obj, _) => collect_expr(out, obj),
        _ => {},
    }
}

/// Collects candidates of an expression list from `from` on.
fn collect_expr_list(out: &mut Vec<String>, items: &Vec<Expr>, from: usize)
    ensures
        final(out)@ == cand_expr_list(old(out)@, items@, from as int),
    decreases *items, items@.len() - from,
{
    if from < items.len() {
        collect_expr(out, &items[from]);
        collect_expr_list(out, items, from + 1);
    }
}

/// Collects candidates of one statement, per `cand_stmt`.
fn collect_stmt(out: &mut Vec<String>, s: &Stmt)
    ensures
        final(out)@ == cand_stmt(old(out)@, *s),
    decreases *s, 1int,
{
    match s {
        Stmt::Expr(e) => collect_expr(out, e),
        Stmt::Return(arg) => match arg {
            Some(e) => collect_expr(out, e),
            None => {},
        },
        Stmt::If(test, then, alt) => {
            collect_expr(out, test);
            collect_stmt_list(out, then, 0);
            collect_stmt_list(out, alt, 0);
        },
        Stmt::Throw(e) => collect_expr(out, e),
        Stmt::For(header, body) => {
            collect_stmt_list(out, header, 0);
            collect_stmt_list(out, body, 0);
        },
        Stmt::Decl(ds) => collect_decl_list(out, ds, 0),
        Stmt::Func(f) => collect_stmt_list(out, &f.body, 0),
        Stmt::Block(items) => collect_stmt_list(out, items, 0),
        Stmt::Other => {},
    }
}

/// Collects candidates of a statement list from `from` on.
fn collect_stmt_list(out: &mut Vec<String>, items: &Vec<Stmt>, from: usize)
    ensures
        final(out)@ == cand_stmt_list(old(out)@, items@, from as int),
    decreases *items, items@.len() - from,
{
    if from < items.len() {
        collect_stmt(out, &items[from]);
        collect_stmt_list(out, items, from + 1);
    }
}

/// Collects candidates of a declarator list from `from` on.
fn collect_decl_list(out: &mut Vec<String>, ds: &Vec<Declarator>, from: usize)
    ensures
        final(out)@ == cand_decl_list(old(out)@, ds@, from as int),
    decreases *ds, ds@.len() - from,
{
    if from < ds.len() {
        match &ds[from].init {
            Some(e) => collect_expr(out, e),
            None => {},
        }
        collect_decl_list(out, ds, from + 1);
    }
}

/// The pattern of a payload version signature: a timestamp and a dotted
/// version between dashes.
pub const VERSION_SIG_PATTERN: &'static str = "-\\d+-\\d+(\\.\\d+)+-";

/// What the outside pattern search returns on a pattern and haystack: the
/// leftmost match, a function of the two strings alone; nothing when the
/// pattern is invalid or never matches.
pub uninterp spec fn regex_find(pattern: Seq<char>, hay: Seq<char>) -> Option<Seq<char>>;

/// Relies on `regex::Regex::new` and `regex::Regex::find`: compiling a
/// pattern and taking the leftmost match depend on the two strings alone.
#[verifier::external_body]
fn re_find(pattern: &str, hay: &str) -> (r: Option<String>)
    ensures
        match r {
            Some(s) => regex_find(pattern@, hay@) == Some(s@),
            None => regex_find(pattern@, hay@) is None,
        },
{
    regex::Regex::new(pattern).ok().and_then(|re| re.find(hay)).map(|m| m.as_str().to_string())
}

/// The classified fields, at the level of views. Fields the candidate
/// rules never touch are not represented.
#[verifier::ext_equal]
pub struct CcView {
    pub c_arg: Seq<char>,
    pub site_key: Seq<char>,
    pub c_ray: Seq<char>,
    pub zone: Seq<char>,
    pub widget_id: Seq<char>,
    pub api_mode: Seq<char>,
    pub ch: Seq<char>,
}

/// Whether a character is an ASCII hexadecimal digit.
pub open spec fn spec_is_hexd(c: char) -> bool {
    (48 <= c as u32 <= 57) || (97 <= c as u32 <= 102) || (65 <= c as u32 <= 70)
}

/// Whether every character is an ASCII hexadecimal digit.
pub open spec fn spec_all_hexd(s: Seq<char>) -> bool {
    forall|i: int| 0 <= i < s.len() ==> spec_is_hexd(#[trigger] s[i])
}

/// Whether a character is an ASCII letter or digit.
pub open spec fn spec_is_alnum(c: char) -> bool {
    (48 <= c as u32 <= 57) || (97 <= c as u32 <= 122) || (65 <= c as u32 <= 90)
}

/// Whether every character is an ASCII letter or digit.
pub open spec fn spec_all_alnum(s: Seq<char>) -> bool {
    forall|i: int| 0 <= i < s.len() ==> spec_is_alnum(#[trigger] s[i])
}

/// The longest candidate view at or after `i`, later ties winning, against
/// a best so far.
pub open spec fn spec_longest(cands: Seq<Seq<char>>, i: int, best: Seq<char>) -> Seq<char>
    decreases cands.len() - i,
{
    if i < 0 || i >= cands.len() {
        best
    } else {
        let best2 = if cands[i].len() >= best.len() {
            cands[i]
        } else {
            best
        };
        spec_longest(cands, i + 1, best2)
    }
}

/// One candidate's classification against the state so far.
pub open spec fn cc_step(o: CcView, sig: Option<Seq<char>>, v: Seq<char>) -> CcView {
    if v == o.c_arg {
        o
    } else if v.len() >= 3 && v.subrange(0, 3) == "0x4"@ && v.len() < 35 {
        CcView { site_key: v, ..o }
    } else if v.len() == 16 && spec_all_hexd(v) {
        CcView { c_ray: v, ..o }
    } else if spec_contains_substr(v, "cloudflare.com"@) {
        CcView { zone: v, ..o }
    } else if v.len() == 5 && spec_all_alnum(v) {
        CcView { widget_id: v, ..o }
    } else if v == "managed"@ || v == "non-interactive"@ || v == "invisible"@ {
        CcView { api_mode: v, ..o }
    } else {
        match sig {
            Some(sg) => if o.ch.len() == 0 && spec_contains_substr(v, sg) && v.len() > 50 {
                CcView { ch: v, ..o }
            } else {
                o
            },
            None => o,
        }
    }
}

/// The state after classifying the candidates from `i` on.
pub open spec fn cc_fold(o: CcView, sig: Option<Seq<char>>, cands: Seq<Seq<char>>, i: int) -> CcView
    decreases cands.len() - i,
{
    if i < 0 || i >= cands.len() {
        o
    } else {
        cc_fold(cc_step(o, sig, cands[i]), sig, cands, i + 1)
    }
}

/// The first fallback challenge-hash candidate at or after `i`: not the
/// payload, between 51 and 499 characters, not starting with a zero, and
/// holding a dash or a dot.
pub open spec fn cc_fallback(cands: Seq<Seq<char>>, c_arg: Seq<char>, i: int) -> Option<Seq<char>>
    decreases cands.len() - i,
{
    if i < 0 || i >= cands.len() {
        None
    } else {
        let v = cands[i];
        if v != c_arg && 50 < v.len() < 500 && v[0] != '0' && (v.contains('-') || v.contains('.')) {
            Some(v)
        } else {
            cc_fallback(cands, c_arg, i + 1)
        }
    }
}

/// Position of the first occurrence of `c`, or the length if none.
pub open spec fn spec_char_pos(s: Seq<char>, c: char) -> int
    decreases s.len(),
{
    if s.len() == 0 {
        0
    } else if s[0] == c {
        0
    } else {
        1 + spec_char_pos(s.skip(1), c)
    }
}

/// The empty classification state.
pub open spec fn cc_empty() -> CcView {
    CcView {
        c_arg: Seq::empty(),
        site_key: Seq::empty(),
        c_ray: Seq::empty(),
        zone: Seq::empty(),
        widget_id: Seq::empty(),
        api_mode: Seq::empty(),
        ch: Seq::empty(),
    }
}

/// What classifying a candidate list yields: the payload, the shaped
/// fields, and the challenge hash cut at its first dash.
pub open spec fn spec_map_candidates(cands: Seq<Seq<char>>) -> CcView {
    let longest = spec_longest(cands, 0, Seq::empty());
    let c_arg: Seq<char> = if longest.len() > 100 {
        longest
    } else {
        Seq::empty()
    };
    let sig = if c_arg.len() > 0 {
        regex_find(VERSION_SIG_PATTERN@, c_arg)
    } else {
        None
    };
    let o1 = cc_fold(CcView { c_arg, ..cc_empty() }, sig, cands, 0);
    let ch1 = if o1.ch.len() == 0 {
        match cc_fallback(cands, c_arg, 0) {
            Some(v) => v,
            None => o1.ch,
        }
    } else {
        o1.ch
    };
    let ch2 = ch1.subrange(0, spec_char_pos(ch1, '-'));
    CcView { ch: ch2, ..o1 }
}

/// The view of a recovered options record.
pub open spec fn cc_view(o: CloudflareChallengeOptions) -> CcView {
    CcView {
        c_arg: o.c_arg@,
        site_key: o.site_key@,
        c_ray: o.c_ray@,
        zone: o.zone@,
        widget_id: o.widget_id@,
        api_mode: o.api_mode@,
        ch: o.ch@,
    }
}

/// Whether every character is an ASCII hexadecimal digit.
fn all_hexd(s: &str) -> (r: bool)
    ensures
        r == spec_all_hexd(s@),
{
    let n = s.unicode_len();
    let mut i: usize = 0;
    while i < n
        invariant
            i <= n,
            n == s@.len(),
            forall|j: int| 0 <= j < i ==> spec_is_hexd(#[trigger] s@[j]),
        decreases n - i,
    {
        let c = s.get_char(i) as u32;
        if !((48 <= c && c <= 57) || (97 <= c && c <= 102) || (65 <= c && c <= 70)) {
            proof {
                assert(!spec_is_hexd(s@[i as int]));
            }
            return false;
        }
        i = i + 1;
    }
    true
}

/// Whether every character is an ASCII letter or digit.
fn all_alnum(s: &str) -> (r: bool)
    ensures
        r == spec_all_alnum(s@),
{
    let n = s.unicode_len();
    let mut i: usize = 0;
    while i < n
        invariant
            i <= n,
            n == s@.len(),
            forall|j: int| 0 <= j < i ==> spec_is_alnum(#[trigger] s@[j]),
        decreases n - i,
    {
        let c = s.get_char(i) as u32;
        if !((48 <= c && c <= 57) || (97 <= c && c <= 122) || (65 <= c && c <= 90)) {
            proof {
                assert(!spec_is_alnum(s@[i as int]));
            }
            return false;
        }
        i = i + 1;
    }
    true
}

/// Position of the first occurrence of `c`, per `spec_char_pos`.
fn char_pos(s: &str, c: char) -> (r: usize)
    ensures
        r == spec_char_pos(s@, c),
        r <= s@.len(),
{
    let n = s.unicode_len();
    let mut pos: usize = n;
    let mut i: usize = 0;
    while i < n
        invariant
            i <= n,
            n == s@.len(),
            pos == n || (pos < i && s@[pos as int] == c),
            pos == n ==> forall|j: int| 0 <= j < i ==> s@[j] != c,
            pos < n ==> forall|j: int| 0 <= j < pos ==> s@[j] != c,
        decreases n - i,
    {
        if pos == n && s.get_char(i) == c {
            pos = i;
        }
        i = i + 1;
    }
    proof {
        lemma_char_pos(s@, c, pos as int);
    }
    pos
}

/// `spec_char_pos` is the first position holding the character.
proof fn lemma_char_pos(s: Seq<char>, c: char, p: int)
    requires
        0 <= p <= s.len(),
        forall|j: int| 0 <= j < p ==> s[j] != c,
        p < s.len() ==> s[p] == c,
    ensures
        spec_char_pos(s, c) == p,
    decreases s.len(),
{
    if s.len() == 0 {
    } else if s[0] == c {
    } else {
        lemma_char_pos(s.skip(1), c, p - 1);
    }
}

impl CloudflareChallengeOptions {
    /// Classifies the collected candidates into fields, per
    /// `spec_map_candidates`; the fields the rules never touch stay empty.
    pub fn map_candidates(candidates: &Vec<String>) -> (r: CloudflareChallengeOptions)
        ensures
            cc_view(r) == spec_map_candidates(candidates@.map_values(|s: String| s@)),
            r.turnstile_u@.len() == 0,
    {
        let ghost cv = candidates@.map_values(|s: String| s@);
        let n = candidates.len();
        // The payload: the longest candidate, later ties winning.
        let mut best = String::new();
        let mut i: usize = 0;
        while i < n
            invariant
                i <= n,
                n == candidates@.len(),
                cv == candidates@.map_values(|s: String| s@),
                spec_longest(cv, 0, Seq::empty()) == spec_longest(cv, i as int, best@),
            decreases n - i,
        {
            proof {
                assert(cv[i as int] == candidates@[i as int]@);
            }
            if candidates[i].as_str().unicode_len() >= best.as_str().unicode_len() {
                best = candidates[i].clone();
            }
            i = i + 1;
        }
        let c_arg = if best.as_str().unicode_len() > 100 {
            best
        } else {
            String::new()
        };
        let mut o = CloudflareChallengeOptions { c_arg, ..Default::default() };
        let ghost o0 = cc_view(o);
        proof {
            assert(o0 =~= (CcView {
                c_arg: if spec_longest(cv, 0, Seq::empty()).len() > 100 {
                    spec_longest(cv, 0, Seq::empty())
                } else {
                    Seq::empty()
                },
                ..cc_empty()
            }));
        }
        let sig: Option<String> = if o.c_arg.as_str().unicode_len() > 0 {
            re_find(VERSION_SIG_PATTERN, o.c_arg.as_str())
        } else {
            None
        };
        let ghost sigv: Option<Seq<char>> = match &sig {
            Some(s) => Some(s@),
            None => None,
        };
        proof {
            assert(sigv == (if o0.c_arg.len() > 0 {
                regex_find(VERSION_SIG_PATTERN@, o0.c_arg)
            } else {
                None::<Seq<char>>
            }));
        }
        // Shape rules, one candidate at a time.
        let mut k: usize = 0;
        while k < n
            invariant
                k <= n,
                n == candidates@.len(),
                cv == candidates@.map_values(|s: String| s@),
                sigv == (match &sig {
                    Some(s) => Some(s@),
                    None => None::<Seq<char>>,
                }),
                cc_fold(o0, sigv, cv, 0) == cc_fold(cc_view(o), sigv, cv, k as int),
                cc_view(o).c_arg == o0.c_arg,
                o.turnstile_u@.len() == 0,
            decreases n - k,
        {
            let ghost pre = cc_view(o);
            proof {
                assert(cv[k as int] == candidates@[k as int]@);
            }
            let v = &candidates[k];
            let vn = v.as_str().unicode_len();
            if str_eq(v.as_str(), o.c_arg.as_str()) {
            } else if vn >= 3 && str_eq(v.as_str().substring_char(0, 3), "0x4") && vn < 35 {
                o.site_key = v.clone();
            } else if vn == 16 && all_hexd(v.as_str()) {
                o.c_ray = v.clone();
            } else if contains_substr(v.as_str(), "cloudflare.com") {
                o.zone = v.clone();
            } else if vn == 5 && all_alnum(v.as_str()) {
                o.widget_id = v.clone();
            } else if str_eq(v.as_str(), "managed") || str_eq(v.as_str(), "non-interactive")
                || str_eq(v.as_str(), "invisible") {
                o.api_mode = v.clone();
            } else {
                match &sig {
                    Some(sg) => {
                        if o.ch.as_str().unicode_len() == 0 && contains_substr(
                            v.as_str(),
                            sg.as_str(),
                        ) && vn > 50 {
                            o.ch = v.clone();
                        }
                    },
                    None => {},
                }
            }
            proof {
                assert(cc_view(o) =~= cc_step(pre, sigv, cv[k as int]));
            }
            k = k + 1;
        }
        let ghost o1 = cc_view(o);
        // Challenge-hash fallback.
        if o.ch.as_str().unicode_len() == 0 {
            let mut fb: Option<String> = None;
            let mut t: usize = 0;
            while t < n
                invariant
                    t <= n,
                    n == candidates@.len(),
                    cv == candidates@.map_values(|s: String| s@),
                    fb is None ==> cc_fallback(cv, o.c_arg@, 0) == cc_fallback(
                        cv,
                        o.c_arg@,
                        t as int,
                    ),
                    fb matches Some(s) ==> cc_fallback(cv, o.c_arg@, 0) == Some(s@),
                decreases n - t,
            {
                if fb.is_none() {
                    proof {
                        assert(cv[t as int] == candidates@[t as int]@);
                    }
                    let v = &candidates[t];
                    let vn = v.as_str().unicode_len();
                    if !str_eq(v.as_str(), o.c_arg.as_str()) && 50 < vn && vn < 500
                        && v.as_str().get_char(0) != '0' && (contains_char(v.as_str(), '-')
                        || contains_char(v.as_str(), '.')) {
                        fb = Some(v.clone());
                    }
                }
                t = t + 1;
            }
            match fb {
                Some(s) => {
                    o.ch = s;
                },
                None => {},
            }
        }
        // Cut the hash at its first dash.
        let pos = char_pos(o.ch.as_str(), '-');
        let cut = String::from_str(o.ch.as_str().substring_char(0, pos));
        o.ch = cut;
        proof {
            let longest = spec_longest(cv, 0, Seq::empty());
            let ca: Seq<char> = if longest.len() > 100 {
                longest
            } else {
                Seq::empty()
            };
            assert(o0.c_arg == ca);
            let sgs = if ca.len() > 0 {
                regex_find(VERSION_SIG_PATTERN@, ca)
            } else {
                None::<Seq<char>>
            };
            assert(sigv == sgs);
            let o1s = cc_fold(CcView { c_arg: ca, ..cc_empty() }, sgs, cv, 0);
            assert(o0 =~= (CcView { c_arg: ca, ..cc_empty() }));
            assert(o1 == o1s);
            assert(cc_view(o) =~= spec_map_candidates(cv));
        }
        o
    }
}

/// The pattern of a challenge-hash assignment in the orchestrate body.
pub const ORCH_CH_PATTERN: &'static str =
    "window\\._cf_chl_opt\\.cH\\s*=\\s*[\"']([a-zA-Z0-9_-]{20,})[\"']";

/// The pattern of a flow address carrying the challenge hash.
pub const ORCH_FLOW_PATTERN: &'static str = "/flow/ov1[^/]*/[a-f0-9]{16}/([a-zA-Z0-9_-]{20,})";

/// The pattern of a quoted address field.
pub const ORCH_URL_PATTERN: &'static str = "[\"']url[\"']\\s*:\\s*[\"']([^\"']+)[\"']";

/// What the outside pattern search returns as the first capture group: a
/// function of the pattern and haystack alone; nothing when the pattern is
/// invalid, never matches, or captures nothing.
pub uninterp spec fn regex_capture1(pattern: Seq<char>, hay: Seq<char>) -> Option<Seq<char>>;

/// Relies on `regex::Regex::new` and `regex::Regex::captures`: compiling a
/// pattern and taking the leftmost match's first capture group depend on
/// the two strings alone.
#[verifier::external_body]
fn re_capture1(pattern: &str, hay: &str) -> (r: Option<String>)
    ensures
        match r {
            Some(s) => regex_capture1(pattern@, hay@) == Some(s@),
            None => regex_capture1(pattern@, hay@) is None,
        },
{
    regex::Regex::new(pattern)
        .ok()
        .and_then(|re| re.captures(hay))
        .and_then(|c| c.get(1))
        .map(|m| m.as_str().to_string())
}

/// What the orchestrate response yields: the challenge hash from its
/// direct assignment, else from the flow address; the quoted address field
/// only when no flow address matched.
pub open spec fn spec_orchestrate(text: Seq<char>) -> (Seq<char>, Seq<char>) {
    let ch0: Seq<char> = match regex_capture1(ORCH_CH_PATTERN@, text) {
        Some(c) => c,
        None => Seq::empty(),
    };
    match regex_capture1(ORCH_FLOW_PATTERN@, text) {
        Some(c) => if ch0.len() == 0 {
            (c, Seq::empty())
        } else {
            (ch0, Seq::empty())
        },
        None => match regex_capture1(ORCH_URL_PATTERN@, text) {
            Some(u) => (ch0, u),
            None => (ch0, Seq::empty()),
        },
    }
}

impl CloudflareChallengeOptions {
    /// Extracts the challenge hash and follow-up address from the
    /// orchestrate response, per `spec_orchestrate`; either may be empty.
    pub fn extract_from_orchestrate(orchestrate_text: &str) -> (r: (String, String))
        ensures
            (r.0@, r.1@) == spec_orchestrate(orchestrate_text@),
    {
        let mut ch: String = match re_capture1(ORCH_CH_PATTERN, orchestrate_text) {
            Some(c) => c,
            None => String::new(),
        };
        let mut url = String::new();
        match re_capture1(ORCH_FLOW_PATTERN, orchestrate_text) {
            Some(c) => {
                if ch.as_str().unicode_len() == 0 {
                    ch = c;
                }
            },
            None => {
                match re_capture1(ORCH_URL_PATTERN, orchestrate_text) {
                    Some(u) => {
                        url = u;
                    },
                    None => {},
                }
            },
        }
        (ch, url)
    }
}

/// First position at or after `i` where `pat` occurs.
pub open spec fn spec_find_from(s: Seq<char>, pat: Seq<char>, i: int) -> Option<int>
    decreases s.len() + 1 - i,
{
    if i < 0 || i + pat.len() > s.len() {
        None
    } else if s.subrange(i, i + pat.len() as int) == pat {
        Some(i)
    } else {
        spec_find_from(s, pat, i + 1)
    }
}

/// Last position at or before `i` where `pat` occurs.
pub open spec fn spec_rfind_upto(s: Seq<char>, pat: Seq<char>, i: int) -> Option<int>
    decreases i,
{
    if i < 0 || i + pat.len() > s.len() {
        if i <= 0 {
            None
        } else {
            spec_rfind_upto(s, pat, i - 1)
        }
    } else if s.subrange(i, i + pat.len() as int) == pat {
        Some(i)
    } else if i == 0 {
        None
    } else {
        spec_rfind_upto(s, pat, i - 1)
    }
}

/// The character span of the script that holds the configuration marker:
/// from just past the enclosing script tag's closing bracket to the
/// closing script tag, when the marker occurs at all.
pub open spec fn spec_script_span(s: Seq<char>) -> Option<(int, int)> {
    match spec_find_from(s, "_cf_chl_opt"@, 0) {
        None => None,
        Some(k) => {
            let end = match spec_find_from(s, "</script>"@, k) {
                Some(e) => e,
                None => s.len() as int,
            };
            let tag = match spec_rfind_upto(s, "<script"@, k) {
                Some(t) => t,
                None => 0,
            };
            let start = match spec_find_from_char(s, '>', tag, k) {
                Some(g) => g + 1,
                None => tag,
            };
            Some((start, end))
        },
    }
}

/// First position of `c` in `[i, hi)`.
pub open spec fn spec_find_from_char(s: Seq<char>, c: char, i: int, hi: int) -> Option<int>
    decreases hi - i,
{
    if i < 0 || i >= hi || i >= s.len() {
        None
    } else if s[i] == c {
        Some(i)
    } else {
        spec_find_from_char(s, c, i + 1, hi)
    }
}

/// Whether `pat` matches `s` at position `i`.
fn matches_at(s: &str, pat: &str, i: usize) -> (r: bool)
    requires
        i + pat@.len() <= s@.len(),
    ensures
        r == (s@.subrange(i as int, i + pat@.len() as int) == pat@),
{
    let m = pat.unicode_len();
    let n = s.unicode_len();
    let mut j: usize = 0;
    while j < m
        invariant
            j <= m,
            m == pat@.len(),
            n == s@.len(),
            i + m <= n,
            forall|t: int| 0 <= t < j ==> s@[i + t] == pat@[t],
        decreases m - j,
    {
        if s.get_char(i + j) != pat.get_char(j) {
            proof {
                assert(s@.subrange(i as int, i + pat@.len() as int)[j as int] == s@[i + j]);
            }
            return false;
        }
        j = j + 1;
    }
    proof {
        assert(s@.subrange(i as int, i + pat@.len() as int) =~= pat@);
    }
    true
}

/// First occurrence of `pat` at or after `from`, per `spec_find_from`.
fn find_from(s: &str, pat: &str, from: usize) -> (r: Option<usize>)
    ensures
        match r {
            Some(i) => spec_find_from(s@, pat@, from as int) == Some(i as int) && i
                <= s@.len(),
            None => spec_find_from(s@, pat@, from as int) is None,
        },
    decreases s@.len() - from,
{
    let n = s.unicode_len();
    let m = pat.unicode_len();
    if from > n {
        return None;
    }
    if m > n - from {
        return None;
    }
    if m == 0 {
        proof {
            assert(s@.subrange(from as int, from as int) =~= pat@);
        }
        return Some(from);
    }
    if matches_at(s, pat, from) {
        Some(from)
    } else {
        find_from(s, pat, from + 1)
    }
}

/// Last occurrence of `pat` at or before `upto`, per `spec_rfind_upto`.
fn rfind_upto(s: &str, pat: &str, upto: usize) -> (r: Option<usize>)
    ensures
        match r {
            Some(i) => spec_rfind_upto(s@, pat@, upto as int) == Some(i as int),
            None => spec_rfind_upto(s@, pat@, upto as int) is None,
        },
    decreases upto,
{
    let n = s.unicode_len();
    let m = pat.unicode_len();
    if upto > n || m > n - upto {
        if upto == 0 {
            return None;
        }
        return rfind_upto(s, pat, upto - 1);
    }
    if matches_at(s, pat, upto) {
        Some(upto)
    } else if upto == 0 {
        None
    } else {
        rfind_upto(s, pat, upto - 1)
    }
}

/// First occurrence of `c` in `[from, hi)`, per `spec_find_from_char`.
fn find_char_between(s: &str, c: char, from: usize, hi: usize) -> (r: Option<usize>)
    ensures
        match r {
            Some(i) => spec_find_from_char(s@, c, from as int, hi as int) == Some(i as int) && i
                < hi,
            None => spec_find_from_char(s@, c, from as int, hi as int) is None,
        },
    decreases hi - from,
{
    if from >= hi || from >= s.unicode_len() {
        return None;
    }
    if s.get_char(from) == c {
        Some(from)
    } else {
        find_char_between(s, c, from + 1, hi)
    }
}

impl CloudflareChallengeOptions {
    /// The character span of the configuration script in a document, per
    /// `spec_script_span`; nothing when the marker is absent.
    pub fn script_span(html: &str) -> (r: Option<(usize, usize)>)
        ensures
            match r {
                Some(p) => spec_script_span(html@) == Some((p.0 as int, p.1 as int)),
                None => spec_script_span(html@) is None,
            },
    {
        let k = match find_from(html, "_cf_chl_opt", 0) {
            Some(k) => k,
            None => {
                return None;
            },
        };
        let end = match find_from(html, "</script>", k) {
            Some(e) => e,
            None => html.unicode_len(),
        };
        let tag = match rfind_upto(html, "<script", k) {
            Some(t) => t,
            None => 0,
        };
        let start = match find_char_between(html, '>', tag, k) {
            Some(g) => g + 1,
            None => tag,
        };
        Some((start, end))
    }
}

/// The pattern of a quoted challenge hash beginning with a dot.
pub const RX_CH_PATTERN: &'static str = "['\"](\\.[a-zA-Z0-9_-]{30,})['\"]";

/// The pattern of a quoted long payload.
pub const RX_CARG_PATTERN: &'static str = "['\"]([a-zA-Z0-9_\\-.]{500,})['\"]";

/// The pattern of a hash segment in a solve address.
pub const URL_CH_PATTERN: &'static str = "/ch/([a-zA-Z0-9_-]{20,})/";

impl CloudflareChallengeOptions {
    /// The loose document fallback: the challenge hash and payload are the
    /// first quoted strings of their shapes, and every other field stays
    /// empty.
    pub fn parse_with_regex(html: &str) -> (r: CloudflareChallengeOptions)
        ensures
            r.ch@ == (match regex_capture1(RX_CH_PATTERN@, html@) {
                Some(c) => c,
                None => Seq::<char>::empty(),
            }),
            r.c_arg@ == (match regex_capture1(RX_CARG_PATTERN@, html@) {
                Some(c) => c,
                None => Seq::<char>::empty(),
            }),
            r.site_key@.len() == 0,
            r.zone@.len() == 0,
            r.c_ray@.len() == 0,
            r.widget_id@.len() == 0,
            r.api_mode@.len() == 0,
            r.turnstile_u@.len() == 0,
    {
        let mut o = CloudflareChallengeOptions::default();
        match re_capture1(RX_CH_PATTERN, html) {
            Some(c) => {
                o.ch = c;
            },
            None => {},
        }
        match re_capture1(RX_CARG_PATTERN, html) {
            Some(c) => {
                o.c_arg = c;
            },
            None => {},
        }
        o
    }

    /// The challenge hash a solve address itself carries, when it does.
    pub fn extract_or_generate_ch(solve_url: &str) -> (r: Option<String>)
        ensures
            match r {
                Some(c) => regex_capture1(URL_CH_PATTERN@, solve_url@) == Some(c@),
                None => regex_capture1(URL_CH_PATTERN@, solve_url@) is None,
            },
    {
        re_capture1(URL_CH_PATTERN, solve_url)
    }
}


/// Whether tree-derived options are complete enough to stand: they carry
/// both a site key and a payload.
pub open spec fn spec_ast_options_complete(o: Option<CloudflareChallengeOptions>) -> bool {
    match o {
        Some(x) => x.site_key@.len() > 0 && x.c_arg@.len() > 0,
        None => false,
    }
}

impl CloudflareChallengeOptions {
    /// The document-level decision: tree-derived options stand when they
    /// are complete, and the loose document fallback decides otherwise.
    pub fn resolve_page_options(
        ast_options: Option<CloudflareChallengeOptions>,
        html: &str,
    ) -> (r: CloudflareChallengeOptions)
        ensures
            spec_ast_options_complete(ast_options) ==> r == ast_options->Some_0,
            !spec_ast_options_complete(ast_options) ==> {
                &&& r.ch@ == (match regex_capture1(RX_CH_PATTERN@, html@) {
                    Some(c) => c,
                    None => Seq::<char>::empty(),
                })
                &&& r.c_arg@ == (match regex_capture1(RX_CARG_PATTERN@, html@) {
                    Some(c) => c,
                    None => Seq::<char>::empty(),
                })
                &&& r.site_key@.len() == 0
                &&& r.zone@.len() == 0
                &&& r.c_ray@.len() == 0
                &&& r.widget_id@.len() == 0
                &&& r.api_mode@.len() == 0
                &&& r.turnstile_u@.len() == 0
            },
    {
        match ast_options {
            Some(o) => {
                if !o.site_key.as_str().is_empty() && !o.c_arg.as_str().is_empty() {
                    return o;
                }
            },
            None => {},
        }
        CloudflareChallengeOptions::parse_with_regex(html)
    }
}

} // verus!
