//! Hoisting keeps the order of evaluation.
use vstd::prelude::*;
use crate::ast::{
    BinaryOp, Block, ElseBranch, Expr, ExprKind, FieldInit, FunctionItem, MapItem, MatchArm, Stmt, StmtKind, StringPart,
};
use crate::list::List;
use crate::session::Sess;
use crate::span::Span;

verus! {

// -- what runs ------------------------------------------------------------------------

/// The operations of `e` in the order in which evaluation reaches them, each by
/// its span. Reading a name, a literal or a field is none, and neither is putting
/// values together.
pub open spec fn run(e: Expr) -> Seq<Span>
    decreases e, 0int,
{
    match e.kind {
        ExprKind::Continue => seq![e.span],
        ExprKind::Await { expr, .. } => run(*expr).push(e.span),
        ExprKind::Spawn { expr, .. } => run(*expr).push(e.span),
        ExprKind::Try { expr, .. } => run(*expr).push(e.span),
        ExprKind::Cast { expr, .. } => run(*expr).push(e.span),
        ExprKind::Unary { operand, .. } => run(*operand).push(e.span),
        ExprKind::Ref { expr, .. } => run(*expr).push(e.span),
        ExprKind::Deref { expr, .. } => run(*expr).push(e.span),
        ExprKind::Paren(x) => run(*x),
        ExprKind::Field { receiver, .. } => run(*receiver),
        ExprKind::TupleIndex { receiver, .. } => run(*receiver),
        ExprKind::Return(v) => run_opt(v).push(e.span),
        ExprKind::Break(v) => run_opt(v).push(e.span),
        ExprKind::Binary { left, right, .. } => (run(*left) + run(*right)).push(e.span),
        ExprKind::Index { receiver, index } => (run(*receiver) + run(*index)).push(e.span),
        ExprKind::Call { callee, args, trailing_closure, .. } => (run(*callee) + run_list(args) + run_opt(
            trailing_closure,
        )).push(e.span),
        ExprKind::Tuple(es) => run_list(es),
        ExprKind::List(es) => run_list(es),
        ExprKind::StructLit { fields, spread, .. } => run_fields(fields) + run_opt(spread),
        ExprKind::MapLit(items) => run_entries(items),
        ExprKind::Str(lit) => run_holes(lit.parts),
        ExprKind::If { cond, then_block, else_branch } => run(*cond).push(e.span) + run_block(then_block) + run_else(
            else_branch,
        ),
        ExprKind::Match { scrutinee, arms } => run(*scrutinee).push(e.span) + run_arms(arms),
        ExprKind::Block(b) => run_block(b),
        ExprKind::AsyncBlock(b) => run_block(b),
        ExprKind::Loop(b) => seq![e.span] + run_block(b),
        ExprKind::While { cond, body } => seq![e.span] + run(*cond) + run_block(body),
        ExprKind::For { iter, body, .. } => run(*iter).push(e.span) + run_block(body),
        ExprKind::Closure { body, .. } => run(*body),
        ExprKind::AnonFn(f) => run_function(*f),
        _ => Seq::empty(),
    }
}

pub open spec fn run_opt(e: Option<Box<Expr>>) -> Seq<Span>
    decreases e, 0int,
{
    match e {
        Some(x) => run(*x),
        None => Seq::empty(),
    }
}

pub open spec fn run_list(l: List<Expr>) -> Seq<Span>
    decreases l, 0int,
{
    match l {
        List::Nil => Seq::empty(),
        List::Cons(h, t) => run(*h) + run_list(*t),
    }
}

pub open spec fn run_fields(l: List<FieldInit>) -> Seq<Span>
    decreases l, 0int,
{
    match l {
        List::Nil => Seq::empty(),
        List::Cons(h, t) => (match h.value {
            Some(v) => run(v),
            None => Seq::empty(),
        }) + run_fields(*t),
    }
}

pub open spec fn run_entries(l: List<MapItem>) -> Seq<Span>
    decreases l, 0int,
{
    match l {
        List::Nil => Seq::empty(),
        List::Cons(h, t) => (match *h {
            MapItem::Entry { key, value, .. } => run(*key) + run(*value),
            MapItem::Spread(x) => run(*x),
        }) + run_entries(*t),
    }
}

pub open spec fn run_holes(l: List<StringPart>) -> Seq<Span>
    decreases l, 0int,
{
    match l {
        List::Nil => Seq::empty(),
        List::Cons(h, t) => (match *h {
            StringPart::Expr(x) => run(x),
            _ => Seq::empty(),
        }) + run_holes(*t),
    }
}

pub open spec fn run_guard(g: Option<Expr>) -> Seq<Span>
    decreases g, 0int,
{
    match g {
        Some(x) => run(x),
        None => Seq::empty(),
    }
}

pub open spec fn run_arms(l: List<MatchArm>) -> Seq<Span>
    decreases l, 0int,
{
    match l {
        List::Nil => Seq::empty(),
        List::Cons(h, t) => run_guard(h.guard) + run(h.body) + run_arms(*t),
    }
}

pub open spec fn run_else(e: Option<ElseBranch>) -> Seq<Span>
    decreases e, 0int,
{
    match e {
        Some(ElseBranch::If(x)) => run(*x),
        Some(ElseBranch::Block(b)) => run_block(b),
        None => Seq::empty(),
    }
}

pub open spec fn run_block(b: Block) -> Seq<Span>
    decreases b, 0int,
{
    run_stmts(b.stmts) + run_opt(b.trailing)
}

pub open spec fn run_stmts(l: List<Stmt>) -> Seq<Span>
    decreases l, 0int,
{
    match l {
        List::Nil => Seq::empty(),
        List::Cons(h, t) => run_stmt(*h) + run_stmts(*t),
    }
}

/// Declaring an item runs nothing.
pub open spec fn run_stmt(x: Stmt) -> Seq<Span>
    decreases x, 0int,
{
    match x.kind {
        StmtKind::Var(v) => run(v.init),
        StmtKind::Assign { target, value } => (run_target(target) + run(value)).push(x.span),
        StmtKind::Expr(e) => run(e),
        StmtKind::Item(_) => Seq::empty(),
    }
}

pub open spec fn run_function(f: FunctionItem) -> Seq<Span>
    decreases f, 0int,
{
    match f.body {
        Some(b) => run_block(b),
        None => Seq::empty(),
    }
}

/// What runs before a store to `e`: what the place is made of. The place itself is
/// reached when the value is stored.
pub open spec fn run_target(e: Expr) -> Seq<Span>
    decreases e,
{
    match e.kind {
        ExprKind::Paren(x) => run_target(*x),
        ExprKind::Index { receiver, index } => run(*receiver) + run(*index),
        ExprKind::Deref { expr, .. } => run(*expr),
        _ => run(e),
    }
}

// -- that it is kept --------------------------------------------------------------------------

/// What stays in place runs nothing, or nothing is bound in front of it for what
/// comes later.
pub open spec fn passes(stays: Seq<Span>, later: List<Stmt>) -> bool {
    stays.len() == 0 || run_stmts(later).len() == 0
}

/// The bindings and then the expression run what `e` runs, in the same order.
pub open spec fn runs_as(e: Expr, r: (Sess, List<Stmt>, Expr)) -> bool {
    run_stmts(r.1) + run(r.2) == run(e)
}

#[verifier::opaque]
pub open spec fn form_runs_as(e: Expr, r: (Sess, List<Stmt>, ExprKind)) -> bool {
    runs_as(e, (r.0, r.1, Expr { kind: r.2, span: e.span }))
}

proof fn lemma_run_append(a: List<Stmt>, b: List<Stmt>)
    ensures
        run_stmts(a.then_list(b)) == run_stmts(a) + run_stmts(b),
    decreases a,
{
    match a {
        List::Nil => {
            assert(Seq::<Span>::empty() + run_stmts(b) =~= run_stmts(b));
        },
        List::Cons(h, t) => {
            lemma_run_append(*t, b);
            assert(run_stmt(*h) + (run_stmts(*t) + run_stmts(b)) =~= (run_stmt(*h) + run_stmts(*t)) + run_stmts(b));
        },
    }
}

proof fn lemma_run_snoc(a: List<Stmt>, x: Stmt)
    ensures
        run_stmts(a.snoc(x)) == run_stmts(a) + run_stmt(x),
    decreases a,
{
    reveal_with_fuel(run_stmts, 2);
    match a {
        List::Nil => {
            assert(run_stmt(x) + Seq::<Span>::empty() =~= Seq::<Span>::empty() + run_stmt(x));
        },
        List::Cons(h, t) => {
            lemma_run_snoc(*t, x);
            assert(run_stmt(*h) + (run_stmts(*t) + run_stmt(x)) =~= (run_stmt(*h) + run_stmts(*t)) + run_stmt(x));
        },
    }
}

/// Two operands, of which the first is not overtaken.
proof fn lemma_two(pre1: List<Stmt>, x: Seq<Span>, pre2: List<Stmt>, y: Seq<Span>, a: Seq<Span>, b: Seq<Span>)
    requires
        run_stmts(pre1) + x == a,
        run_stmts(pre2) + y == b,
        passes(x, pre2),
    ensures
        run_stmts(pre1.then_list(pre2)) + (x + y) == a + b,
{
    lemma_run_append(pre1, pre2);
    let p = run_stmts(pre1);
    let q = run_stmts(pre2);
    if x.len() == 0 {
        assert((p + q) + (x + y) =~= (p + x) + (q + y));
    } else {
        assert(q =~= Seq::<Span>::empty());
        assert((p + q) + (x + y) =~= (p + x) + (q + y));
    }
}

proof fn lemma_hoisted(s: Sess, pre: List<Stmt>, x: Expr)
    ensures
        ({
            let (_, stmt, read) = crate::anf::hoisted(s, x);
            run_stmts(pre.snoc(stmt)) + run(read) == run_stmts(pre) + run(x) && run(read).len() == 0
        }),
{
    let (_, stmt, read) = crate::anf::hoisted(s, x);
    lemma_run_snoc(pre, stmt);
    assert(run(read) =~= Seq::<Span>::empty());
    assert(run_stmt(stmt) == run(x));
    assert((run_stmts(pre) + run(x)) + Seq::<Span>::empty() =~= run_stmts(pre) + run(x));
}

proof fn lemma_nil(x: Seq<Span>)
    ensures
        run_stmts(List::Nil) + x == x,
{
    assert(Seq::<Span>::empty() + x =~= x);
}

proof fn lemma_push(p: Seq<Span>, x: Seq<Span>, y: Span)
    ensures
        p + x.push(y) == (p + x).push(y),
{
    assert(p + x.push(y) =~= (p + x).push(y));
}

proof fn lemma_loop(p: Seq<Span>, x: Seq<Span>, y: Span, z: Seq<Span>)
    ensures
        p + (x.push(y) + z) == (p + x).push(y) + z,
{
    assert(p + (x.push(y) + z) =~= (p + x).push(y) + z);
}

proof fn lemma_rewritten(s: Sess, e: Expr)
    ensures
        runs_as(e, crate::anf::rewritten(s, e)),
    decreases e, 2int,
{
    reveal(form_runs_as);
    lemma_kind(s, e);
}

proof fn lemma_kind(s: Sess, e: Expr)
    ensures
        form_runs_as(e, crate::anf::rewritten_kind(s, e)),
    decreases e, 1int,
{
    match e.kind {
        ExprKind::Await { .. } | ExprKind::Spawn { .. } | ExprKind::Paren { .. } => lemma_whole(s, e),
        ExprKind::Try { .. } | ExprKind::Cast { .. } | ExprKind::Unary { .. } => lemma_checked(s, e),
        ExprKind::Ref { .. } | ExprKind::Deref { .. } => lemma_reference(s, e),
        ExprKind::Field { .. } | ExprKind::TupleIndex { .. } => lemma_part(s, e),
        ExprKind::Return { .. } | ExprKind::Break { .. } => lemma_exit(s, e),
        ExprKind::Binary { .. } => lemma_binary(s, e),
        ExprKind::Index { .. } => lemma_index(s, e),
        ExprKind::Call { .. } => lemma_call(s, e),
        ExprKind::Tuple { .. } | ExprKind::List { .. } | ExprKind::MapLit { .. } | ExprKind::Str { .. } => lemma_elements(
            s,
            e,
        ),
        ExprKind::StructLit { .. } => lemma_struct_lit(s, e),
        ExprKind::If { .. } => lemma_if(s, e),
        ExprKind::Match { .. } => lemma_match(s, e),
        ExprKind::For { .. } => lemma_for(s, e),
        ExprKind::Closure { .. } => lemma_closure(s, e),
        ExprKind::AnonFn(_) => lemma_anon_fn_form(s, e),
        ExprKind::Block(_) => lemma_block_form(s, e),
        ExprKind::Loop(_) => lemma_loop_form(s, e),
        ExprKind::AsyncBlock(_) => lemma_async_block(s, e),
        ExprKind::While { .. } => lemma_while(s, e),
        _ => lemma_leaf(s, e),
    }
}

proof fn lemma_anon_fn_form(s: Sess, e: Expr)
    requires
        e.kind is AnonFn,
    ensures
        form_runs_as(e, crate::anf::rewritten_control(s, e)),
    decreases e, 0int,
{
    reveal(form_runs_as);
    let f = *e.kind->AnonFn_0;
    lemma_anon_fn(s, f, e.span);
    assert(crate::anf::rewritten_control(s, e).2 == crate::anf::anon_fn_closure(s, f).1);
    lemma_nil(run(e));
}

proof fn lemma_block_form(s: Sess, e: Expr)
    requires
        e.kind is Block,
    ensures
        form_runs_as(e, crate::anf::rewritten_control(s, e)),
    decreases e, 0int,
{
    reveal(form_runs_as);
    let b = e.kind->Block_0;
    law_order_kept(s, b);
    let b1 = crate::anf::processed(s, b).1;
    assert(crate::anf::rewritten_control(s, e).2 == ExprKind::Block(b1));
    lemma_nil(run(e));
}

proof fn lemma_loop_form(s: Sess, e: Expr)
    requires
        e.kind is Loop,
    ensures
        form_runs_as(e, crate::anf::rewritten_control(s, e)),
    decreases e, 0int,
{
    reveal(form_runs_as);
    let b = e.kind->Loop_0;
    law_order_kept(s, b);
    let b1 = crate::anf::processed(s, b).1;
    assert(crate::anf::rewritten_control(s, e).2 == ExprKind::Loop(b1));
    lemma_nil(run(e));
}

proof fn lemma_async_block(s: Sess, e: Expr)
    requires
        e.kind is AsyncBlock,
    ensures
        form_runs_as(e, crate::anf::rewritten_control(s, e)),
    decreases e, 0int,
{
    reveal(form_runs_as);
    let b = e.kind->AsyncBlock_0;
    law_order_kept(s, b);
    let b1 = crate::anf::processed(s, b).1;
    assert(crate::anf::rewritten_control(s, e).2 == ExprKind::AsyncBlock(b1));
    lemma_nil(run(e));
}

proof fn lemma_while(s: Sess, e: Expr)
    requires
        e.kind is While,
    ensures
        form_runs_as(e, crate::anf::rewritten_control(s, e)),
    decreases e, 0int,
{
    reveal(form_runs_as);
    law_order_kept(s, e.kind->While_body);
    lemma_nil(run(e));
}

proof fn lemma_leaf(s: Sess, e: Expr)
    requires
        crate::suspend::is_leaf(e),
    ensures
        form_runs_as(e, crate::anf::rewritten_control(s, e)),
{
    reveal(form_runs_as);
    assert(crate::anf::rewritten_control(s, e) == (s, List::<Stmt>::Nil, e.kind));
    assert(Expr { kind: e.kind, span: e.span } == e);
    lemma_nil(run(e));
}

proof fn lemma_whole(s: Sess, e: Expr)
    requires
        e.kind is Await || e.kind is Spawn || e.kind is Paren,
    ensures
        form_runs_as(e, crate::anf::rewritten_prefix(s, e)),
    decreases e, 0int,
{
    reveal(form_runs_as);
    match e.kind {
        ExprKind::Await { expr, .. } => {
            lemma_atomized(s, *expr);
            let (_, pre, x) = crate::anf::atomized(s, *expr);
            lemma_push(run_stmts(pre), run(x), e.span);
        },
        ExprKind::Spawn { expr, .. } => {
            lemma_atomized(s, *expr);
            let (_, pre, x) = crate::anf::atomized(s, *expr);
            lemma_push(run_stmts(pre), run(x), e.span);
        },
        ExprKind::Paren(x) => lemma_rewritten(s, *x),
        _ => {},
    }
}

proof fn lemma_checked(s: Sess, e: Expr)
    requires
        e.kind is Try || e.kind is Cast || e.kind is Unary,
    ensures
        form_runs_as(e, crate::anf::rewritten_prefix(s, e)),
    decreases e, 0int,
{
    reveal(form_runs_as);
    match e.kind {
        ExprKind::Try { expr, .. } => {
            lemma_atomized(s, *expr);
            let (_, pre, x) = crate::anf::atomized(s, *expr);
            lemma_push(run_stmts(pre), run(x), e.span);
        },
        ExprKind::Cast { expr, .. } => {
            lemma_atomized(s, *expr);
            let (_, pre, x) = crate::anf::atomized(s, *expr);
            lemma_push(run_stmts(pre), run(x), e.span);
        },
        ExprKind::Unary { operand, .. } => {
            lemma_atomized(s, *operand);
            let (_, pre, x) = crate::anf::atomized(s, *operand);
            lemma_push(run_stmts(pre), run(x), e.span);
        },
        _ => {},
    }
}

proof fn lemma_reference(s: Sess, e: Expr)
    requires
        e.kind is Ref || e.kind is Deref,
    ensures
        form_runs_as(e, crate::anf::rewritten_prefix(s, e)),
    decreases e, 0int,
{
    reveal(form_runs_as);
    match e.kind {
        ExprKind::Ref { expr, .. } => {
            lemma_atomized(s, *expr);
            let (_, pre, x) = crate::anf::atomized(s, *expr);
            lemma_push(run_stmts(pre), run(x), e.span);
        },
        ExprKind::Deref { expr, .. } => {
            lemma_atomized(s, *expr);
            let (_, pre, x) = crate::anf::atomized(s, *expr);
            lemma_push(run_stmts(pre), run(x), e.span);
        },
        _ => {},
    }
}

proof fn lemma_part(s: Sess, e: Expr)
    requires
        e.kind is Field || e.kind is TupleIndex,
    ensures
        form_runs_as(e, crate::anf::rewritten_prefix(s, e)),
    decreases e, 0int,
{
    reveal(form_runs_as);
    match e.kind {
        ExprKind::Field { receiver, .. } => lemma_atomized(s, *receiver),
        ExprKind::TupleIndex { receiver, .. } => lemma_atomized(s, *receiver),
        _ => {},
    }
}

proof fn lemma_exit(s: Sess, e: Expr)
    requires
        e.kind is Return || e.kind is Break,
    ensures
        form_runs_as(e, crate::anf::rewritten_prefix(s, e)),
    decreases e, 0int,
{
    reveal(form_runs_as);
    match e.kind {
        ExprKind::Return(v) => {
            lemma_opt_tail(s, v);
            let (_, pre, x) = crate::anf::opt_tail(s, v);
            lemma_push(run_stmts(pre), run_opt(x), e.span);
        },
        ExprKind::Break(v) => {
            lemma_opt_tail(s, v);
            let (_, pre, x) = crate::anf::opt_tail(s, v);
            lemma_push(run_stmts(pre), run_opt(x), e.span);
        },
        _ => {},
    }
}

proof fn lemma_binary(s: Sess, e: Expr)
    requires
        e.kind is Binary,
    ensures
        form_runs_as(e, crate::anf::rewritten_operands(s, e)),
    decreases e, 0int,
{
    reveal(form_runs_as);
    match e.kind {
        ExprKind::Binary { op, left, right, .. } => {
            if op == BinaryOp::And || op == BinaryOp::Or {
                lemma_atomized(s, *left);
                let (s1, pre, l) = crate::anf::atomized(s, *left);
                let (_, pre2, x) = crate::anf::rewritten(s1, *right);
                lemma_rewritten(s1, *right);
                if pre2 is Nil {
                    lemma_nil(run(x));
                }
                let r = crate::anf::isolated(s1, *right).1;
                assert(run(r) == run(*right));
                assert(run_stmts(pre) + (run(l) + run(r)) =~= (run_stmts(pre) + run(l)) + run(r));
                lemma_push(run_stmts(pre), run(l) + run(r), e.span);
            } else {
                let all = crate::anf::stays(*left) || crate::anf::stays(*right);
                let first = all || crate::anf::leaves(*right);
                lemma_operand(s, *left, first);
                let (s1, pre1, l) = crate::anf::operand(s, *left, first);
                lemma_operand(s1, *right, all);
                let (_, pre2, r) = crate::anf::operand(s1, *right, all);
                lemma_operand_passes(s, *left, first, s1, *right, all);
                lemma_two(pre1, run(l), pre2, run(r), run(*left), run(*right));
                lemma_push(run_stmts(pre1.then_list(pre2)), run(l) + run(r), e.span);
            }
        },
        _ => {},
    }
}

proof fn lemma_index(s: Sess, e: Expr)
    requires
        e.kind is Index,
    ensures
        form_runs_as(e, crate::anf::rewritten_operands(s, e)),
    decreases e, 0int,
{
    reveal(form_runs_as);
    match e.kind {
        ExprKind::Index { receiver, index } => {
            let all = crate::anf::stays(*receiver) || crate::anf::stays(*index);
            let first = all || crate::anf::leaves(*index);
            lemma_operand(s, *receiver, first);
            let (s1, pre1, r) = crate::anf::operand(s, *receiver, first);
            lemma_operand(s1, *index, all);
            let (_, pre2, i) = crate::anf::operand(s1, *index, all);
            lemma_operand_passes(s, *receiver, first, s1, *index, all);
            lemma_two(pre1, run(r), pre2, run(i), run(*receiver), run(*index));
            lemma_push(run_stmts(pre1.then_list(pre2)), run(r) + run(i), e.span);
        },
        _ => {},
    }
}

proof fn lemma_elements(s: Sess, e: Expr)
    requires
        e.kind is Tuple || e.kind is List || e.kind is MapLit || e.kind is Str,
    ensures
        form_runs_as(e, crate::anf::rewritten_operands(s, e)),
    decreases e, 0int,
{
    reveal(form_runs_as);
    match e.kind {
        ExprKind::Tuple(es) => lemma_operands(s, es, crate::anf::any_stays(es)),
        ExprKind::List(es) => lemma_operands(s, es, crate::anf::any_stays(es)),
        ExprKind::MapLit(items) => lemma_entry_operands(s, items, crate::anf::any_entry_stays(items)),
        ExprKind::Str(lit) => lemma_hole_operands(s, lit.parts, crate::anf::any_hole_stays(lit.parts)),
        _ => {},
    }
}

proof fn lemma_struct_lit(s: Sess, e: Expr)
    requires
        e.kind is StructLit,
    ensures
        form_runs_as(e, crate::anf::rewritten_operands(s, e)),
    decreases e, 0int,
{
    reveal(form_runs_as);
    match e.kind {
        ExprKind::StructLit { fields, spread, .. } => {
            let all = crate::anf::any_field_stays(fields) || crate::anf::opt_stays(spread);
            let later = crate::anf::opt_leaves(spread);
            lemma_field_operands(s, fields, all, later);
            let (s1, pre1, fs) = crate::anf::field_operands(s, fields, all, later);
            match spread {
                Some(x) => {
                    lemma_operand(s1, *x, all);
                    let (_, pre2, x1) = crate::anf::operand(s1, *x, all);
                    if all || later {
                        lemma_fields_bound(s, fields, all, later);
                    } else {
                        crate::suspend::lemma_operand(s1, *x, all);
                    }
                    lemma_two(pre1, run_fields(fs), pre2, run(x1), run_fields(fields), run(*x));
                    assert(run_opt(Some(Box::new(x1))) == run(x1));
                    assert(run_opt(spread) == run(*x));
                },
                None => {
                    assert(run_opt(None) =~= Seq::<Span>::empty());
                    assert(run_stmts(pre1) + (run_fields(fs) + run_opt(None)) =~= run_fields(fields) + run_opt(None));
                },
            }
        },
        _ => {},
    }
}

proof fn lemma_call(s: Sess, e: Expr)
    requires
        e.kind is Call,
    ensures
        form_runs_as(e, crate::anf::rewritten_operands(s, e)),
    decreases e, 0int,
{
    reveal(form_runs_as);
    match e.kind {
        ExprKind::Call { callee, args, trailing_closure, .. } => {
            lemma_opt_scope(s, trailing_closure);
            let (s0, tc) = crate::anf::opt_scope(s, trailing_closure);
            match callee.kind {
                ExprKind::Field { receiver, name } => {
                    let all = crate::anf::stays(*receiver) || crate::anf::any_stays(args);
                    let first = all || crate::anf::any_leaves(args);
                    lemma_operand(s0, *receiver, first);
                    let (s1, pre1, r) = crate::anf::operand(s0, *receiver, first);
                    lemma_operands(s1, args, all);
                    let (_, pre2, a) = crate::anf::operands(s1, args, all);
                    lemma_operands_pass(s0, *receiver, first, s1, args, all);
                    lemma_two(pre1, run(r), pre2, run_list(a), run(*receiver), run_list(args));
                    let c = Expr { kind: ExprKind::Field { receiver: Box::new(r), name }, span: callee.span };
                    assert(run(c) == run(r));
                    assert(run(*callee) == run(*receiver));
                    lemma_call_end(pre1.then_list(pre2), run(r) + run_list(a), run_opt(tc), e.span);
                },
                _ => {
                    let all = crate::anf::any_stays(args);
                    let first = crate::anf::stays(*callee) || all || crate::anf::any_leaves(args);
                    lemma_operand(s0, *callee, first);
                    let (s1, pre1, c) = crate::anf::operand(s0, *callee, first);
                    lemma_operands(s1, args, all);
                    let (_, pre2, a) = crate::anf::operands(s1, args, all);
                    lemma_operands_pass(s0, *callee, first, s1, args, all);
                    lemma_two(pre1, run(c), pre2, run_list(a), run(*callee), run_list(args));
                    lemma_call_end(pre1.then_list(pre2), run(c) + run_list(a), run_opt(tc), e.span);
                },
            }
        },
        _ => {},
    }
}

proof fn lemma_call_end(pre: List<Stmt>, x: Seq<Span>, y: Seq<Span>, z: Span)
    ensures
        run_stmts(pre) + (x + y).push(z) == ((run_stmts(pre) + x) + y).push(z),
{
    assert(run_stmts(pre) + (x + y).push(z) =~= ((run_stmts(pre) + x) + y).push(z));
}

proof fn lemma_if(s: Sess, e: Expr)
    requires
        e.kind is If,
    ensures
        form_runs_as(e, crate::anf::rewritten_control(s, e)),
    decreases e, 0int,
{
    reveal(form_runs_as);
    match e.kind {
        ExprKind::If { cond, then_block, else_branch } => {
            lemma_atomized(s, *cond);
            let (s1, pre, c) = crate::anf::atomized(s, *cond);
            law_order_kept(s1, then_block);
            let (s2, b) = crate::anf::processed(s1, then_block);
            lemma_else(s2, else_branch);
            let eb = crate::anf::processed_else(s2, else_branch).1;
            assert(run_stmts(pre) + (run(c).push(e.span) + run_block(b) + run_else(eb)) =~= (run_stmts(pre) + run(
                c,
            )).push(e.span) + run_block(b) + run_else(eb));
        },
        _ => {},
    }
}

proof fn lemma_match(s: Sess, e: Expr)
    requires
        e.kind is Match,
    ensures
        form_runs_as(e, crate::anf::rewritten_control(s, e)),
    decreases e, 0int,
{
    reveal(form_runs_as);
    match e.kind {
        ExprKind::Match { scrutinee, arms } => {
            lemma_atomized(s, *scrutinee);
            let (s1, pre, x) = crate::anf::atomized(s, *scrutinee);
            lemma_arms(s1, arms);
            let a = crate::anf::rewritten_arms(s1, arms).1;
            lemma_loop(run_stmts(pre), run(x), e.span, run_arms(a));
        },
        _ => {},
    }
}

proof fn lemma_for(s: Sess, e: Expr)
    requires
        e.kind is For,
    ensures
        form_runs_as(e, crate::anf::rewritten_control(s, e)),
    decreases e, 0int,
{
    reveal(form_runs_as);
    match e.kind {
        ExprKind::For { in_async, iter, body, .. } => {
            law_order_kept(s, body);
            let (s1, b) = crate::anf::processed(s, body);
            if in_async && !crate::anf::is_place(*iter) {
                lemma_rewritten(s1, *iter);
                let (s2, pre, x) = crate::anf::rewritten(s1, *iter);
                lemma_hoisted(s2, pre, x);
                let (_, stmt, read) = crate::anf::hoisted(s2, x);
                lemma_loop(run_stmts(pre.snoc(stmt)), run(read), e.span, run_block(b));
            } else {
                lemma_atomized(s1, *iter);
                let (_, pre, x) = crate::anf::atomized(s1, *iter);
                lemma_loop(run_stmts(pre), run(x), e.span, run_block(b));
            }
        },
        _ => {},
    }
}

proof fn lemma_closure(s: Sess, e: Expr)
    requires
        e.kind is Closure,
    ensures
        form_runs_as(e, crate::anf::rewritten_control(s, e)),
    decreases e, 0int,
{
    reveal(form_runs_as);
    match e.kind {
        ExprKind::Closure { is_async, body, .. } => {
            if is_async {
                let s1 = s.hoist_span_used();
                lemma_rewritten(s1.hoist_span_used(), *body);
                let (_, pre, x) = crate::anf::rewritten(s1.hoist_span_used(), *body);
                let block = Block { stmts: pre, trailing: Some(Box::new(x)), span: s.hoist_spans.span() };
                assert(run_opt(block.trailing) == run(x));
                assert(run_block(block) == run(*body));
                let ab = Expr { kind: ExprKind::AsyncBlock(block), span: s1.hoist_spans.span() };
                assert(run(ab) == run_block(block));
                lemma_nil(run(*body));
            } else {
                lemma_scope(s, *body);
                lemma_nil(run(*body));
            }
        },
        _ => {},
    }
}

proof fn lemma_run_body(b: Block, span: Span)
    ensures
        run(Expr { kind: ExprKind::Block(b), span }) == run_block(b),
{
}

proof fn lemma_run_wrapped(body: Expr, block_span: Span, span: Span)
    ensures
        ({
            let inner = Block { stmts: List::Nil, trailing: Some(Box::new(body)), span: block_span };
            run(Expr { kind: ExprKind::AsyncBlock(inner), span }) == run(body)
        }),
{
    let inner = Block { stmts: List::Nil, trailing: Some(Box::new(body)), span: block_span };
    assert(run_opt(inner.trailing) == run(body));
    lemma_nil(run(body));
    assert(run_block(inner) == run(body));
}

proof fn lemma_run_closure(kind: ExprKind, span: Span)
    requires
        kind is Closure,
    ensures
        run(Expr { kind, span }) == run(*kind->Closure_body),
{
}

proof fn lemma_anon_fn(s: Sess, f: FunctionItem, span: Span)
    ensures
        run(Expr { kind: crate::anf::anon_fn_closure(s, f).1, span }) == run_function(f),
    decreases f, 1int,
{
    let kind = crate::anf::anon_fn_closure(s, f).1;
    match (f.generics, f.body) {
        (None, Some(block)) => {
            let body_span = s.hoist_spans.span();
            let s0 = s.hoist_span_used();
            if f.is_async {
                let s1 = s0.hoist_span_used();
                law_order_kept(s1.hoist_span_used(), block);
                let b = crate::anf::processed(s1.hoist_span_used(), block).1;
                let body = Expr { kind: ExprKind::Block(b), span: body_span };
                lemma_run_body(b, body_span);
                lemma_run_wrapped(body, s0.hoist_spans.span(), s1.hoist_spans.span());
                lemma_run_closure(kind, span);
            } else {
                law_order_kept(s0, block);
                lemma_run_body(crate::anf::processed(s0, block).1, body_span);
                lemma_run_closure(kind, span);
            }
        },
        _ => lemma_generic_fn(s, f, span),
    }
}

proof fn lemma_generic_fn(s: Sess, f: FunctionItem, span: Span)
    requires
        f.generics is Some || f.body is None,
    ensures
        run(Expr { kind: ExprKind::AnonFn(Box::new(crate::anf::processed_function(s, f).1)), span }) == run_function(f),
    decreases f, 0int,
{
    let f1 = crate::anf::processed_function(s, f).1;
    match f.body {
        Some(block) => {
            law_order_kept(s, block);
            assert(run_function(f1) == run_function(f));
        },
        None => {
            assert(run_function(f1) == run_function(f));
        },
    }
    assert(run(Expr { kind: ExprKind::AnonFn(Box::new(f1)), span }) == run_function(f1));
}

proof fn lemma_atomized(s: Sess, e: Expr)
    ensures
        runs_as(e, crate::anf::atomized(s, e)),
    decreases e, 3int,
{
    lemma_rewritten(s, e);
    let (s1, pre, x) = crate::anf::rewritten(s, e);
    if crate::anf::awaits(x) {
        lemma_hoisted(s1, pre, x);
    }
}

proof fn lemma_operand(s: Sess, e: Expr, bind: bool)
    ensures
        runs_as(e, crate::anf::operand(s, e, bind)),
    decreases e, 3int,
{
    lemma_rewritten(s, e);
    let (s1, pre, x) = crate::anf::rewritten(s, e);
    if bind && !crate::anf::is_atomic(x) {
        lemma_hoisted(s1, pre, x);
    }
}

/// A bound operand runs nothing where it stands.
proof fn lemma_bound_operand(s: Sess, e: Expr)
    ensures
        run(crate::anf::operand(s, e, true).2).len() == 0,
{
    crate::suspend::lemma_operand(s, e, true);
}

proof fn lemma_operand_passes(s: Sess, a: Expr, first: bool, s1: Sess, b: Expr, bind: bool)
    requires
        first || (!bind && !crate::anf::leaves(b)),
        crate::anf::stays(b) ==> bind,
    ensures
        passes(run(crate::anf::operand(s, a, first).2), crate::anf::operand(s1, b, bind).1),
{
    if first {
        lemma_bound_operand(s, a);
    } else {
        crate::suspend::lemma_operand(s1, b, bind);
    }
}

proof fn lemma_operands_pass(s: Sess, a: Expr, first: bool, s1: Sess, l: List<Expr>, all: bool)
    requires
        first || (!all && !crate::anf::any_leaves(l)),
        crate::anf::any_stays(l) ==> all,
    ensures
        passes(run(crate::anf::operand(s, a, first).2), crate::anf::operands(s1, l, all).1),
{
    if first {
        lemma_bound_operand(s, a);
    } else {
        crate::suspend::lemma_operands(s1, l, all);
    }
}

/// Fields that are all bound run nothing where they stand.
proof fn lemma_fields_bound(s: Sess, l: List<FieldInit>, all: bool, later: bool)
    requires
        all || later,
    ensures
        run_fields(crate::anf::field_operands(s, l, all, later).2).len() == 0,
    decreases l,
{
    match l {
        List::Nil => {},
        List::Cons(h, t) => match h.value {
            Some(v) => {
                lemma_bound_operand(s, v);
                lemma_fields_bound(crate::anf::operand(s, v, true).0, *t, all, later);
            },
            None => lemma_fields_bound(s, *t, all, later),
        },
    }
}

proof fn lemma_operands(s: Sess, l: List<Expr>, all: bool)
    requires
        crate::anf::any_stays(l) ==> all,
    ensures
        run_stmts(crate::anf::operands(s, l, all).1) + run_list(crate::anf::operands(s, l, all).2) == run_list(l),
    decreases l, 0int,
{
    match l {
        List::Nil => lemma_nil(Seq::empty()),
        List::Cons(h, t) => {
            let first = all || crate::anf::any_leaves(*t);
            lemma_operand(s, *h, first);
            let (s1, pre1, x) = crate::anf::operand(s, *h, first);
            lemma_operands(s1, *t, all);
            let (_, pre2, xs) = crate::anf::operands(s1, *t, all);
            lemma_operands_pass(s, *h, first, s1, *t, all);
            lemma_two(pre1, run(x), pre2, run_list(xs), run(*h), run_list(*t));
        },
    }
}

proof fn lemma_field_operands(s: Sess, l: List<FieldInit>, all: bool, later: bool)
    requires
        crate::anf::any_field_stays(l) ==> all,
    ensures
        run_stmts(crate::anf::field_operands(s, l, all, later).1) + run_fields(
            crate::anf::field_operands(s, l, all, later).2,
        ) == run_fields(l),
    decreases l, 0int,
{
    match l {
        List::Nil => lemma_nil(Seq::empty()),
        List::Cons(h, t) => match h.value {
            Some(v) => {
                let first = all || later || crate::anf::any_field_leaves(*t);
                lemma_operand(s, v, first);
                let (s1, pre1, x) = crate::anf::operand(s, v, first);
                lemma_field_operands(s1, *t, all, later);
                let (_, pre2, xs) = crate::anf::field_operands(s1, *t, all, later);
                if first {
                    lemma_bound_operand(s, v);
                } else {
                    crate::suspend::lemma_field_operands(s1, *t, all, later);
                }
                lemma_two(pre1, run(x), pre2, run_fields(xs), run(v), run_fields(*t));
            },
            None => {
                lemma_field_operands(s, *t, all, later);
                let (_, pre2, xs) = crate::anf::field_operands(s, *t, all, later);
                assert(run_stmts(pre2) + (Seq::<Span>::empty() + run_fields(xs)) =~= Seq::<Span>::empty() + run_fields(
                    *t,
                ));
            },
        },
    }
}

proof fn lemma_entry_operands(s: Sess, l: List<MapItem>, all: bool)
    requires
        crate::anf::any_entry_stays(l) ==> all,
    ensures
        run_stmts(crate::anf::entry_operands(s, l, all).1) + run_entries(crate::anf::entry_operands(s, l, all).2)
            == run_entries(l),
    decreases l, 0int,
{
    match l {
        List::Nil => lemma_nil(Seq::empty()),
        List::Cons(h, t) => match *h {
            MapItem::Entry { key, value, .. } => {
                let later = crate::anf::any_entry_leaves(*t);
                let first = all || crate::anf::leaves(*value) || later;
                lemma_operand(s, *key, first);
                let (s1, pre1, k) = crate::anf::operand(s, *key, first);
                lemma_operand(s1, *value, all || later);
                let (s2, pre2, v) = crate::anf::operand(s1, *value, all || later);
                lemma_entry_operands(s2, *t, all);
                let (_, pre3, xs) = crate::anf::entry_operands(s2, *t, all);
                lemma_operand_passes(s, *key, first, s1, *value, all || later);
                if all || later {
                    lemma_bound_operand(s, *key);
                    lemma_bound_operand(s1, *value);
                } else {
                    crate::suspend::lemma_entry_operands(s2, *t, all);
                }
                lemma_two(pre1, run(k), pre2, run(v), run(*key), run(*value));
                lemma_two(
                    pre1.then_list(pre2),
                    run(k) + run(v),
                    pre3,
                    run_entries(xs),
                    run(*key) + run(*value),
                    run_entries(*t),
                );
            },
            MapItem::Spread(x) => {
                let first = all || crate::anf::any_entry_leaves(*t);
                lemma_operand(s, *x, first);
                let (s1, pre1, x1) = crate::anf::operand(s, *x, first);
                lemma_entry_operands(s1, *t, all);
                let (_, pre2, xs) = crate::anf::entry_operands(s1, *t, all);
                if first {
                    lemma_bound_operand(s, *x);
                } else {
                    crate::suspend::lemma_entry_operands(s1, *t, all);
                }
                lemma_two(pre1, run(x1), pre2, run_entries(xs), run(*x), run_entries(*t));
            },
        },
    }
}

proof fn lemma_hole_operands(s: Sess, l: List<StringPart>, all: bool)
    requires
        crate::anf::any_hole_stays(l) ==> all,
    ensures
        run_stmts(crate::anf::hole_operands(s, l, all).1) + run_holes(crate::anf::hole_operands(s, l, all).2)
            == run_holes(l),
    decreases l, 0int,
{
    match l {
        List::Nil => lemma_nil(Seq::empty()),
        List::Cons(h, t) => match *h {
            StringPart::Expr(x) => {
                let first = all || crate::anf::any_hole_leaves(*t);
                lemma_operand(s, x, first);
                let (s1, pre1, x1) = crate::anf::operand(s, x, first);
                lemma_hole_operands(s1, *t, all);
                let (_, pre2, xs) = crate::anf::hole_operands(s1, *t, all);
                if first {
                    lemma_bound_operand(s, x);
                } else {
                    crate::suspend::lemma_hole_operands(s1, *t, all);
                }
                lemma_two(pre1, run(x1), pre2, run_holes(xs), run(x), run_holes(*t));
            },
            _ => {
                lemma_hole_operands(s, *t, all);
                let (_, pre2, xs) = crate::anf::hole_operands(s, *t, all);
                assert(run_stmts(pre2) + (Seq::<Span>::empty() + run_holes(xs)) =~= Seq::<Span>::empty() + run_holes(
                    *t,
                ));
            },
        },
    }
}

proof fn lemma_opt_tail(s: Sess, e: Option<Box<Expr>>)
    ensures
        run_stmts(crate::anf::opt_tail(s, e).1) + run_opt(crate::anf::opt_tail(s, e).2) == run_opt(e),
    decreases e, 0int,
{
    match e {
        Some(x) => lemma_rewritten(s, *x),
        None => lemma_nil(Seq::empty()),
    }
}

proof fn lemma_scope(s: Sess, e: Expr)
    ensures
        run(crate::anf::scope(s, e).1) == run(e),
    decreases e, 3int,
{
    lemma_rewritten(s, e);
    let (s1, pre, x) = crate::anf::rewritten(s, e);
    if pre is Nil {
        lemma_nil(run(x));
    } else {
        let b = Block { stmts: pre, trailing: Some(Box::new(x)), span: s1.hoist_spans.span() };
        assert(run_opt(b.trailing) == run(x));
        assert(run_block(b) == run(e));
    }
}

proof fn lemma_opt_scope(s: Sess, e: Option<Box<Expr>>)
    ensures
        run_opt(crate::anf::opt_scope(s, e).1) == run_opt(e),
    decreases e, 0int,
{
    match e {
        Some(x) => lemma_scope(s, *x),
        None => {},
    }
}

proof fn lemma_arms(s: Sess, l: List<MatchArm>)
    ensures
        run_arms(crate::anf::rewritten_arms(s, l).1) == run_arms(l),
    decreases l, 0int,
{
    match l {
        List::Nil => {},
        List::Cons(h, t) => {
            lemma_scope(s, h.body);
            lemma_arms(crate::anf::scope(s, h.body).0, *t);
        },
    }
}

proof fn lemma_else(s: Sess, e: Option<ElseBranch>)
    ensures
        run_else(crate::anf::processed_else(s, e).1) == run_else(e),
    decreases e, 0int,
{
    match e {
        Some(ElseBranch::If(x)) => lemma_scope(s, *x),
        Some(ElseBranch::Block(b)) => law_order_kept(s, b),
        None => {},
    }
}

proof fn lemma_stmts(s: Sess, l: List<Stmt>)
    ensures
        run_stmts(crate::anf::processed_stmts(s, l).1) == run_stmts(l),
    decreases l, 0int,
{
    match l {
        List::Nil => {},
        List::Cons(h, t) => {
            lemma_stmt(s, *h);
            let (s1, pre, kind) = crate::anf::processed_stmt(s, *h);
            lemma_stmts(s1, *t);
            let rest = crate::anf::processed_stmts(s1, *t).1;
            let stmt = Stmt { kind, span: h.span };
            lemma_run_append(pre, List::Cons(Box::new(stmt), Box::new(rest)));
            assert(run_stmts(pre) + (run_stmt(stmt) + run_stmts(rest)) =~= (run_stmts(pre) + run_stmt(stmt)) + run_stmts(
                rest,
            ));
        },
    }
}

proof fn lemma_path(e: Expr)
    requires
        crate::anf::is_path(e),
    ensures
        run(e).len() == 0,
    decreases e,
{
    match e.kind {
        ExprKind::Field { receiver, .. } => lemma_path(*receiver),
        ExprKind::TupleIndex { receiver, .. } => lemma_path(*receiver),
        ExprKind::Paren(x) => lemma_path(*x),
        _ => {},
    }
}

proof fn lemma_bound(s: Sess, e: Expr)
    ensures
        run_stmts(crate::anf::bound(s, e).1) == run(e),
        run(crate::anf::bound(s, e).2).len() == 0,
{
    if crate::anf::is_path(e) {
        lemma_path(e);
        assert(run_stmts(List::Nil) =~= run(e));
    } else {
        lemma_hoisted(s, List::Nil, e);
        let stmt = crate::anf::hoisted(s, e).1;
        lemma_run_snoc(List::Nil, stmt);
        assert(List::Nil.snoc(stmt) == List::one(stmt));
        assert(run_stmts(List::Nil) + run_stmt(stmt) =~= run(e));
    }
}

proof fn lemma_pinned_paren(s: Sess, e: Expr, x: Expr)
    requires
        e.kind == ExprKind::Paren(Box::new(x)),
        run_stmts(crate::anf::pinned(s, x).1) == run_target(x),
        run_target(crate::anf::pinned(s, x).2).len() == 0,
    ensures
        run_stmts(crate::anf::pinned(s, e).1) == run_target(e),
        run_target(crate::anf::pinned(s, e).2).len() == 0,
{
    let x1 = crate::anf::pinned(s, x).2;
    let y = crate::anf::pinned(s, e).2;
    assert(y.kind == ExprKind::Paren(Box::new(x1)));
    assert(run_target(y) == run_target(x1));
    assert(run_target(e) == run_target(x));
}

proof fn lemma_pinned_part(s: Sess, e: Expr, x: Expr)
    requires
        (match e.kind {
            ExprKind::Field { receiver, .. } => *receiver == x,
            ExprKind::TupleIndex { receiver, .. } => *receiver == x,
            ExprKind::Deref { expr, .. } => *expr == x,
            _ => false,
        }),
    ensures
        run_stmts(crate::anf::pinned(s, e).1) == run_target(e),
        run_target(crate::anf::pinned(s, e).2).len() == 0,
{
    lemma_bound(s, x);
    let r = crate::anf::bound(s, x).2;
    let y = crate::anf::pinned(s, e).2;
    assert(!(e.kind is Deref) ==> run_target(e) == run(e) && run(e) == run(x));
    assert(!(y.kind is Deref) ==> run_target(y) == run(y) && run(y) == run(r));
    assert(run_target(e) == run(x));
    assert(run_target(y) == run(r));
}

proof fn lemma_pinned_index(s: Sess, e: Expr, receiver: Expr, index: Expr)
    requires
        e.kind == (ExprKind::Index { receiver: Box::new(receiver), index: Box::new(index) }),
    ensures
        run_stmts(crate::anf::pinned(s, e).1) == run_target(e),
        run_target(crate::anf::pinned(s, e).2).len() == 0,
{
    lemma_bound(s, receiver);
    let (s1, pre1, r) = crate::anf::bound(s, receiver);
    lemma_bound(s1, index);
    let (_, pre2, i) = crate::anf::bound(s1, index);
    lemma_run_append(pre1, pre2);
    let y = crate::anf::pinned(s, e).2;
    assert(run_target(e) == run(receiver) + run(index));
    assert(run_target(y) == run(r) + run(i));
}

proof fn lemma_pinned_other(s: Sess, e: Expr)
    requires
        !(e.kind is Paren),
        !(e.kind is Field),
        !(e.kind is TupleIndex),
        !(e.kind is Index),
        !(e.kind is Deref),
    ensures
        run_stmts(crate::anf::pinned(s, e).1) == run_target(e),
        run_target(crate::anf::pinned(s, e).2).len() == 0,
{
    lemma_bound(s, e);
    assert(crate::anf::pinned(s, e) == crate::anf::bound(s, e));
    assert(run_target(e) == run(e));
    lemma_read_target(crate::anf::bound(s, e).2, e);
}

proof fn lemma_pinned(s: Sess, e: Expr)
    ensures
        run_stmts(crate::anf::pinned(s, e).1) == run_target(e),
        run_target(crate::anf::pinned(s, e).2).len() == 0,
    decreases e,
{
    match e.kind {
        ExprKind::Paren(x) => {
            lemma_pinned(s, *x);
            lemma_pinned_paren(s, e, *x);
        },
        ExprKind::Field { receiver, .. } => lemma_pinned_part(s, e, *receiver),
        ExprKind::TupleIndex { receiver, .. } => lemma_pinned_part(s, e, *receiver),
        ExprKind::Index { receiver, index } => lemma_pinned_index(s, e, *receiver, *index),
        ExprKind::Deref { expr, .. } => lemma_pinned_part(s, e, *expr),
        _ => lemma_pinned_other(s, e),
    }
}

proof fn lemma_read_target(x: Expr, e: Expr)
    requires
        run(x).len() == 0,
        x == e || x.kind is Ident,
        !(e.kind is Paren),
        !(e.kind is Index),
        !(e.kind is Deref),
    ensures
        run_target(x).len() == 0,
{
}

/// The same of a target.
proof fn lemma_target(s: Sess, e: Expr)
    ensures
        run_stmts(crate::anf::rewritten(s, e).1) + run_target(crate::anf::rewritten(s, e).2) == run_target(e),
    decreases e, 4int,
{
    let (_, pre, x) = crate::anf::rewritten(s, e);
    match e.kind {
        ExprKind::Paren(y) => lemma_target(s, *y),
        ExprKind::Index { .. } | ExprKind::Deref { .. } => {
            lemma_rewritten(s, e);
            lemma_place_event(e);
            lemma_place_event(x);
            lemma_push(run_stmts(pre), run_target(x), e.span);
            assert((run_stmts(pre) + run_target(x)).push(e.span).drop_last() =~= run_stmts(pre) + run_target(x));
            assert(run_target(e).push(e.span).drop_last() =~= run_target(e));
        },
        _ => lemma_other_target(s, e),
    }
}

proof fn lemma_place_event(e: Expr)
    requires
        e.kind is Index || e.kind is Deref,
    ensures
        run(e) == run_target(e).push(e.span),
{
}

proof fn lemma_other_target(s: Sess, e: Expr)
    requires
        !(e.kind is Paren),
        !(e.kind is Index),
        !(e.kind is Deref),
    ensures
        run_stmts(crate::anf::rewritten(s, e).1) + run_target(crate::anf::rewritten(s, e).2) == run_target(e),
    decreases e, 3int,
{
    lemma_rewritten(s, e);
    lemma_same_form(s, e);
}

proof fn lemma_same_form(s: Sess, e: Expr)
    requires
        !(e.kind is Paren),
        !(e.kind is Index),
        !(e.kind is Deref),
    ensures
        !(crate::anf::rewritten(s, e).2.kind is Paren),
        !(crate::anf::rewritten(s, e).2.kind is Index),
        !(crate::anf::rewritten(s, e).2.kind is Deref),
{
    let k = crate::anf::rewritten_kind(s, e).2;
    assert(crate::anf::rewritten(s, e).2.kind == k);
    match e.kind {
        ExprKind::Await { .. }
        | ExprKind::Spawn { .. }
        | ExprKind::Try { .. }
        | ExprKind::Cast { .. }
        | ExprKind::Unary { .. }
        | ExprKind::Ref { .. }
        | ExprKind::Field { .. }
        | ExprKind::TupleIndex { .. }
        | ExprKind::Return { .. }
        | ExprKind::Break { .. } => {
            assert(k == crate::anf::rewritten_prefix(s, e).2);
        },
        ExprKind::Binary { .. }
        | ExprKind::Call { .. }
        | ExprKind::Tuple { .. }
        | ExprKind::List { .. }
        | ExprKind::StructLit { .. }
        | ExprKind::MapLit { .. }
        | ExprKind::Str { .. } => {
            assert(k == crate::anf::rewritten_operands(s, e).2);
        },
        ExprKind::AnonFn(f) => {
            assert(k == crate::anf::rewritten_control(s, e).2);
            assert(k == crate::anf::anon_fn_closure(s, *f).1);
        },
        _ => {
            assert(k == crate::anf::rewritten_control(s, e).2);
        },
    }
}

proof fn lemma_place(s: Sess, target: Expr, bind: bool)
    ensures
        run_stmts(crate::anf::place(s, target, bind).1) + run_target(crate::anf::place(s, target, bind).2)
            == run_target(target),
        bind ==> run_target(crate::anf::place(s, target, bind).2).len() == 0,
    decreases target, 5int,
{
    lemma_target(s, target);
    let (s1, pre, t) = crate::anf::rewritten(s, target);
    if bind || crate::anf::awaits(t) {
        lemma_pinned(s1, t);
        let (_, more, t1) = crate::anf::pinned(s1, t);
        lemma_run_append(pre, more);
        assert((run_stmts(pre) + run_stmts(more)) + run_target(t1) =~= run_stmts(pre) + run_target(t));
    }
}

proof fn lemma_stmt(s: Sess, x: Stmt)
    ensures
        ({
            let (_, pre, kind) = crate::anf::processed_stmt(s, x);
            run_stmts(pre) + run_stmt(Stmt { kind, span: x.span }) == run_stmt(x)
        }),
    decreases x, 0int,
{
    match x.kind {
        StmtKind::Var(v) => lemma_rewritten(s, v.init),
        StmtKind::Assign { target, value } => {
            let bind = crate::anf::leaves(value);
            lemma_place(s, target, bind);
            let (s1, pre1, t) = crate::anf::place(s, target, bind);
            lemma_rewritten(s1, value);
            crate::suspend::lemma_rewritten(s1, value);
            let (_, pre2, v) = crate::anf::rewritten(s1, value);
            lemma_two(pre1, run_target(t), pre2, run(v), run_target(target), run(value));
            lemma_push(run_stmts(pre1.then_list(pre2)), run_target(t) + run(v), x.span);
        },
        StmtKind::Expr(e) => lemma_rewritten(s, e),
        StmtKind::Item(_) => lemma_nil(Seq::empty()),
    }
}

/// Hoisting neither loses an operation of a block nor repeats one, and evaluation
/// reaches them in the same order as before.
pub proof fn law_order_kept(s: Sess, b: Block)
    ensures
        run_block(crate::anf::processed(s, b).1) == run_block(b),
    decreases b, 0int,
{
    lemma_stmts(s, b.stmts);
    let (s1, stmts) = crate::anf::processed_stmts(s, b.stmts);
    match b.trailing {
        Some(t) => {
            lemma_rewritten(s1, *t);
            let (_, pre, x) = crate::anf::rewritten(s1, *t);
            lemma_run_append(stmts, pre);
            assert(run_opt(Some(Box::new(x))) == run(x));
            assert((run_stmts(stmts) + run_stmts(pre)) + run(x) =~= run_stmts(stmts) + (run_stmts(pre) + run(x)));
        },
        None => {},
    }
}

} // verus!
