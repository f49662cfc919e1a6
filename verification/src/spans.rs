//! Re-spanned copies have spans of their own: the spans of a copy are handed out
//! one after the other, so no two are the same.
use vstd::prelude::*;
use crate::ast::{
    AttrArg, Block, ClosureParam, ElseBranch, Expr, ExprKind, ExtendMember, ExternParam, FieldInit, FieldPattern,
    FunctionItem, GenericParam, GenericParams, Ident, InterfaceMember, Item, LocalVar, MapItem, MatchArm, Param,
    ParamKind, Pattern, PatternKind, RestAt, RestPattern, Stmt, StmtKind, StringLit, StringPart, Type, TypeKind,
    TypePath,
};
use crate::defaults::ForeignEntry;
use crate::list::List;
use crate::names::Symbol;
use crate::session::Sess;
use crate::span::{Span, SpanGen};
use crate::subst::TypeBinding;

verus! {

/// The generator after `n` spans were handed out.
pub open spec fn ahead(g: SpanGen, n: nat) -> SpanGen
    decreases n,
{
    if n == 0 {
        g
    } else {
        ahead(g, (n - 1) as nat).after()
    }
}

/// The next `n` spans of a generator.
pub open spec fn stretch(g: SpanGen, n: nat) -> Seq<Span> {
    Seq::new(n, |i: int| ahead(g, i as nat).span())
}

/// Going from `g` to `end`, exactly the spans `l` were handed out.
#[verifier::opaque]
pub open spec fn handed(g: SpanGen, end: SpanGen, l: Seq<Span>) -> bool {
    end == ahead(g, l.len()) && l == stretch(g, l.len())
}

proof fn lemma_ahead(g: SpanGen, a: nat, b: nat)
    ensures
        ahead(ahead(g, a), b) == ahead(g, a + b),
    decreases b,
{
    if b > 0 {
        lemma_ahead(g, a, (b - 1) as nat);
    }
}

pub(crate) proof fn lemma_none(g: SpanGen)
    ensures
        handed(g, g, Seq::<Span>::empty()),
{
    reveal(handed);
    assert(stretch(g, 0) =~= Seq::<Span>::empty());
}

pub(crate) proof fn lemma_one(g: SpanGen)
    ensures
        handed(g, g.after(), seq![g.span()]),
{
    reveal(handed);
    reveal_with_fuel(ahead, 2);
    assert(stretch(g, 1) =~= seq![g.span()]);
}

pub(crate) proof fn lemma_chain(g: SpanGen, mid: SpanGen, end: SpanGen, a: Seq<Span>, b: Seq<Span>)
    requires
        handed(g, mid, a),
        handed(mid, end, b),
    ensures
        handed(g, end, a + b),
{
    reveal(handed);
    lemma_ahead(g, a.len(), b.len());
    assert forall|i: int| 0 <= i < (a + b).len() implies (a + b)[i] == stretch(g, (a + b).len())[i] by {
        if i >= a.len() {
            lemma_ahead(g, a.len(), (i - a.len()) as nat);
        }
    }
    assert(a + b =~= stretch(g, (a + b).len()));
}

proof fn lemma_ahead_next(g: SpanGen, n: nat)
    ensures
        ahead(g, n).file == g.file,
        ahead(g, n).next as int == (g.next + n) % 0x1_0000_0000,
    decreases n,
{
    if n > 0 {
        lemma_ahead_next(g, (n - 1) as nat);
    }
}

/// Spans that were handed out are all different, as long as there are no more
/// than there are positions in the file.
pub proof fn law_handed_distinct(g: SpanGen, end: SpanGen, l: Seq<Span>)
    requires
        handed(g, end, l),
        l.len() <= 0x1_0000_0000,
    ensures
        l.no_duplicates(),
        forall|i: int| 0 <= i < l.len() ==> (#[trigger] l[i]).file == g.file,
{
    reveal(handed);
    assert forall|i: int| 0 <= i < l.len() implies (#[trigger] l[i]).file == g.file by {
        lemma_ahead_next(g, i as nat);
    }
    assert forall|i: int, j: int| 0 <= i < l.len() && 0 <= j < l.len() && i != j implies l[i] != l[j] by {
        lemma_ahead_next(g, i as nat);
        lemma_ahead_next(g, j as nat);
    }
}

// -- the spans of a tree, in the order a copy gets them; those of nested items and
// -- of the names in macro calls and their arguments are not renewed ------------------

pub open spec fn spans_of_rest(x: RestPattern) -> Seq<Span> {
    match x.name {
        Some(n) => seq![x.span] + seq![n.span],
        None => seq![x.span],
    }
}

pub open spec fn spans_of_rest_at(x: RestAt) -> Seq<Span> {
    spans_of_rest(x.rest)
}

pub open spec fn spans_of_generic_param_list(l: List<GenericParam>) -> Seq<Span>
    decreases l,
{
    match l {
        List::Nil => Seq::empty(),
        List::Cons(h, t) => spans_of_generic_param(*h) + spans_of_generic_param_list(*t),
    }
}

pub open spec fn spans_of_type_list(l: List<Type>) -> Seq<Span>
    decreases l,
{
    match l {
        List::Nil => Seq::empty(),
        List::Cons(h, t) => spans_of_type(*h) + spans_of_type_list(*t),
    }
}

pub open spec fn spans_of_extern_param_list(l: List<ExternParam>) -> Seq<Span>
    decreases l,
{
    match l {
        List::Nil => Seq::empty(),
        List::Cons(h, t) => spans_of_extern_param(*h) + spans_of_extern_param_list(*t),
    }
}

pub open spec fn spans_of_string_part_list(l: List<StringPart>) -> Seq<Span>
    decreases l,
{
    match l {
        List::Nil => Seq::empty(),
        List::Cons(h, t) => spans_of_string_part(*h) + spans_of_string_part_list(*t),
    }
}

pub open spec fn spans_of_expr_list(l: List<Expr>) -> Seq<Span>
    decreases l,
{
    match l {
        List::Nil => Seq::empty(),
        List::Cons(h, t) => spans_of_expr(*h) + spans_of_expr_list(*t),
    }
}

pub open spec fn spans_of_map_item_list(l: List<MapItem>) -> Seq<Span>
    decreases l,
{
    match l {
        List::Nil => Seq::empty(),
        List::Cons(h, t) => spans_of_map_item(*h) + spans_of_map_item_list(*t),
    }
}

pub open spec fn spans_of_field_init_list(l: List<FieldInit>) -> Seq<Span>
    decreases l,
{
    match l {
        List::Nil => Seq::empty(),
        List::Cons(h, t) => spans_of_field_init(*h) + spans_of_field_init_list(*t),
    }
}

pub open spec fn spans_of_stmt_list(l: List<Stmt>) -> Seq<Span>
    decreases l,
{
    match l {
        List::Nil => Seq::empty(),
        List::Cons(h, t) => spans_of_stmt(*h) + spans_of_stmt_list(*t),
    }
}

pub open spec fn spans_of_pattern_list(l: List<Pattern>) -> Seq<Span>
    decreases l,
{
    match l {
        List::Nil => Seq::empty(),
        List::Cons(h, t) => spans_of_pattern(*h) + spans_of_pattern_list(*t),
    }
}

pub open spec fn spans_of_field_pattern_list(l: List<FieldPattern>) -> Seq<Span>
    decreases l,
{
    match l {
        List::Nil => Seq::empty(),
        List::Cons(h, t) => spans_of_field_pattern(*h) + spans_of_field_pattern_list(*t),
    }
}

pub open spec fn spans_of_match_arm_list(l: List<MatchArm>) -> Seq<Span>
    decreases l,
{
    match l {
        List::Nil => Seq::empty(),
        List::Cons(h, t) => spans_of_match_arm(*h) + spans_of_match_arm_list(*t),
    }
}

pub open spec fn spans_of_closure_param_list(l: List<ClosureParam>) -> Seq<Span>
    decreases l,
{
    match l {
        List::Nil => Seq::empty(),
        List::Cons(h, t) => spans_of_closure_param(*h) + spans_of_closure_param_list(*t),
    }
}

pub open spec fn spans_of_attr_arg_list(l: List<AttrArg>) -> Seq<Span>
    decreases l,
{
    match l {
        List::Nil => Seq::empty(),
        List::Cons(h, t) => spans_of_attr_arg(*h) + spans_of_attr_arg_list(*t),
    }
}

pub open spec fn spans_of_param_list(l: List<Param>) -> Seq<Span>
    decreases l,
{
    match l {
        List::Nil => Seq::empty(),
        List::Cons(h, t) => spans_of_param(*h) + spans_of_param_list(*t),
    }
}

pub open spec fn spans_of_function(x: FunctionItem) -> Seq<Span>
    decreases x,
{
    seq![x.name.span]
        + (match x.generics { Some(z) => spans_of_generic_params(z), None => Seq::<Span>::empty() })
        + spans_of_param_list(x.params)
        + (match x.return_type { Some(z) => spans_of_type(z), None => Seq::<Span>::empty() })
        + (match x.body { Some(z) => spans_of_block(z), None => Seq::<Span>::empty() })
}

pub open spec fn spans_of_generic_params(x: GenericParams) -> Seq<Span>
    decreases x,
{
    seq![x.span] + spans_of_generic_param_list(x.params)
}

pub open spec fn spans_of_generic_param(x: GenericParam) -> Seq<Span>
    decreases x,
{
    seq![x.name.span] + spans_of_type_list(x.bounds)
}

pub open spec fn spans_of_type(x: Type) -> Seq<Span>
    decreases x,
{
    seq![x.span] + spans_of_type_kind(x.kind)
}

pub open spec fn spans_of_type_kind(x: TypeKind) -> Seq<Span>
    decreases x,
{
    match x {
        TypeKind::Named { name, generics } => seq![name.span] + spans_of_type_list(generics),
        TypeKind::Tuple(a) => spans_of_type_list(a),
        TypeKind::Function { params, ret } => spans_of_type_list(params) + spans_of_type(*ret),
        TypeKind::ExternFunction { params, ret } => spans_of_extern_param_list(params) + spans_of_type(*ret),
        TypeKind::Union(a) => spans_of_type_list(a),
        TypeKind::Pointer(a) => spans_of_type(*a),
        TypeKind::Array { elem, len } => spans_of_type(*elem) + spans_of_expr(*len),
        TypeKind::SelfType => Seq::empty(),
        TypeKind::Paren(a) => spans_of_type(*a),
    }
}

pub open spec fn spans_of_extern_param(x: ExternParam) -> Seq<Span>
    decreases x,
{
    spans_of_type(x.ty) + seq![x.span]
}

pub open spec fn spans_of_expr(x: Expr) -> Seq<Span>
    decreases x,
{
    seq![x.span] + spans_of_expr_kind(x.kind)
}

pub open spec fn spans_of_expr_kind(x: ExprKind) -> Seq<Span>
    decreases x,
{
    match x {
        ExprKind::Int(_) => Seq::empty(),
        ExprKind::Float(_) => Seq::empty(),
        ExprKind::Bool(_) => Seq::empty(),
        ExprKind::Null => Seq::empty(),
        ExprKind::Char(_) => Seq::empty(),
        ExprKind::Str(a) => spans_of_string_lit(a),
        ExprKind::Ident(a) => seq![a.span],
        ExprKind::SelfExpr => Seq::empty(),
        ExprKind::Underscore => Seq::empty(),
        ExprKind::Continue => Seq::empty(),
        ExprKind::Paren(a) => spans_of_expr(*a),
        ExprKind::Tuple(a) => spans_of_expr_list(a),
        ExprKind::List(a) => spans_of_expr_list(a),
        ExprKind::MapLit(a) => spans_of_map_item_list(a),
        ExprKind::StructLit { path, fields, spread } => {
            spans_of_type_path(path)
                + spans_of_field_init_list(fields)
                + (match spread { Some(z) => spans_of_expr(*z), None => Seq::<Span>::empty() })
        },
        ExprKind::Unary { op_span, operand, .. } => seq![op_span] + spans_of_expr(*operand),
        ExprKind::Binary { op_span, left, right, .. } => seq![op_span] + spans_of_expr(*left) + spans_of_expr(*right),
        ExprKind::Cast { op_span, expr, ty, .. } => seq![op_span] + spans_of_expr(*expr) + spans_of_type(*ty),
        ExprKind::Field { receiver, name } => spans_of_expr(*receiver) + seq![name.span],
        ExprKind::TupleIndex { receiver, index_span, .. } => spans_of_expr(*receiver) + seq![index_span],
        ExprKind::Call { callee, generics, args, trailing_closure } => {
            spans_of_expr(*callee)
                + spans_of_type_list(generics)
                + spans_of_expr_list(args)
                + (match trailing_closure { Some(z) => spans_of_expr(*z), None => Seq::<Span>::empty() })
        },
        ExprKind::Index { receiver, index } => spans_of_expr(*receiver) + spans_of_expr(*index),
        ExprKind::Try { expr, q_span } => spans_of_expr(*expr) + seq![q_span],
        ExprKind::Ref { expr, amp_span } => spans_of_expr(*expr) + seq![amp_span],
        ExprKind::Deref { expr, star_span } => spans_of_expr(*expr) + seq![star_span],
        ExprKind::Await { expr, kw_span } => spans_of_expr(*expr) + seq![kw_span],
        ExprKind::Spawn { expr, kw_span } => spans_of_expr(*expr) + seq![kw_span],
        ExprKind::If { cond, then_block, else_branch } => {
            spans_of_expr(*cond)
                + spans_of_block(then_block)
                + (match else_branch { Some(z) => spans_of_else_branch(z), None => Seq::<Span>::empty() })
        },
        ExprKind::Match { scrutinee, arms } => spans_of_expr(*scrutinee) + spans_of_match_arm_list(arms),
        ExprKind::Block(a) => spans_of_block(a),
        ExprKind::Loop(a) => spans_of_block(a),
        ExprKind::While { cond, body } => spans_of_expr(*cond) + spans_of_block(body),
        ExprKind::For { pattern, iter, body, .. } => {
            spans_of_pattern(pattern)
                + spans_of_expr(*iter)
                + spans_of_block(body)
        },
        ExprKind::Return(a) => (match a { Some(z) => spans_of_expr(*z), None => Seq::<Span>::empty() }),
        ExprKind::Break(a) => (match a { Some(z) => spans_of_expr(*z), None => Seq::<Span>::empty() }),
        ExprKind::Closure { params, return_type, body, .. } => {
            spans_of_closure_param_list(params)
                + (match return_type { Some(z) => spans_of_type(z), None => Seq::<Span>::empty() })
                + spans_of_expr(*body)
        },
        ExprKind::AnonFn(a) => spans_of_function(*a),
        ExprKind::AsyncBlock(a) => spans_of_block(a),
        ExprKind::MacroCall { args, block, .. } => {
            spans_of_attr_arg_list(args)
                + (match block { Some(z) => spans_of_block(z), None => Seq::<Span>::empty() })
        },
    }
}

pub open spec fn spans_of_string_lit(x: StringLit) -> Seq<Span>
    decreases x,
{
    seq![x.span] + spans_of_string_part_list(x.parts)
}

pub open spec fn spans_of_string_part(x: StringPart) -> Seq<Span>
    decreases x,
{
    match x {
        StringPart::Text { span, .. } => seq![span],
        StringPart::Ident(a) => seq![a.span],
        StringPart::Expr(a) => spans_of_expr(a),
    }
}

pub open spec fn spans_of_map_item(x: MapItem) -> Seq<Span>
    decreases x,
{
    match x {
        MapItem::Entry { key, value, span } => spans_of_expr(*key) + spans_of_expr(*value) + seq![span],
        MapItem::Spread(a) => spans_of_expr(*a),
    }
}

pub open spec fn spans_of_type_path(x: TypePath) -> Seq<Span>
    decreases x,
{
    seq![x.span] + seq![x.name.span] + spans_of_type_list(x.generics)
}

pub open spec fn spans_of_field_init(x: FieldInit) -> Seq<Span>
    decreases x,
{
    seq![x.name.span] + seq![x.span] + (match x.value { Some(z) => spans_of_expr(z), None => Seq::<Span>::empty() })
}

pub open spec fn spans_of_block(x: Block) -> Seq<Span>
    decreases x,
{
    seq![x.span]
        + spans_of_stmt_list(x.stmts)
        + (match x.trailing { Some(z) => spans_of_expr(*z), None => Seq::<Span>::empty() })
}

pub open spec fn spans_of_stmt(x: Stmt) -> Seq<Span>
    decreases x,
{
    seq![x.span] + spans_of_stmt_kind(x.kind)
}

pub open spec fn spans_of_stmt_kind(x: StmtKind) -> Seq<Span>
    decreases x,
{
    match x {
        StmtKind::Var(a) => spans_of_local_var(a),
        StmtKind::Assign { target, value } => spans_of_expr(target) + spans_of_expr(value),
        StmtKind::Expr(a) => spans_of_expr(a),
        StmtKind::Item(_) => Seq::empty(),
    }
}

pub open spec fn spans_of_local_var(x: LocalVar) -> Seq<Span>
    decreases x,
{
    spans_of_pattern(x.pattern)
        + (match x.ty { Some(z) => spans_of_type(z), None => Seq::<Span>::empty() })
        + spans_of_expr(x.init)
}

pub open spec fn spans_of_pattern(x: Pattern) -> Seq<Span>
    decreases x,
{
    seq![x.span] + spans_of_pattern_kind(x.kind)
}

pub open spec fn spans_of_pattern_kind(x: PatternKind) -> Seq<Span>
    decreases x,
{
    match x {
        PatternKind::Wildcard => Seq::empty(),
        PatternKind::Binding(a) => seq![a.span],
        PatternKind::Literal(a) => spans_of_expr(*a),
        PatternKind::TypeBinding { ty, binding } => {
            spans_of_type(ty)
                + (match binding { Some(z) => seq![z.span], None => Seq::<Span>::empty() })
        },
        PatternKind::UnitPath(a) => spans_of_type_path(a),
        PatternKind::TupleStruct { path, fields, rest } => {
            spans_of_type_path(path)
                + spans_of_pattern_list(fields)
                + (match rest { Some(z) => spans_of_rest(z), None => Seq::<Span>::empty() })
        },
        PatternKind::RecordStruct { path, fields, .. } => {
            spans_of_type_path(path)
                + spans_of_field_pattern_list(fields)
        },
        PatternKind::Tuple { elems, rest } => {
            spans_of_pattern_list(elems)
                + (match rest { Some(z) => spans_of_rest_at(z), None => Seq::<Span>::empty() })
        },
        PatternKind::List { elems, rest } => {
            spans_of_pattern_list(elems)
                + (match rest { Some(z) => spans_of_rest_at(z), None => Seq::<Span>::empty() })
        },
        PatternKind::Or(a) => spans_of_pattern_list(a),
    }
}

pub open spec fn spans_of_field_pattern(x: FieldPattern) -> Seq<Span>
    decreases x,
{
    seq![x.name.span]
        + seq![x.span]
        + (match x.pattern { Some(z) => spans_of_pattern(z), None => Seq::<Span>::empty() })
}

pub open spec fn spans_of_else_branch(x: ElseBranch) -> Seq<Span>
    decreases x,
{
    match x {
        ElseBranch::If(a) => spans_of_expr(*a),
        ElseBranch::Block(a) => spans_of_block(a),
    }
}

pub open spec fn spans_of_match_arm(x: MatchArm) -> Seq<Span>
    decreases x,
{
    seq![x.span]
        + spans_of_pattern(x.pattern)
        + (match x.guard { Some(z) => spans_of_expr(z), None => Seq::<Span>::empty() })
        + spans_of_expr(x.body)
}

pub open spec fn spans_of_closure_param(x: ClosureParam) -> Seq<Span>
    decreases x,
{
    seq![x.span] + seq![x.name.span] + (match x.ty { Some(z) => spans_of_type(z), None => Seq::<Span>::empty() })
}

pub open spec fn spans_of_attr_arg(x: AttrArg) -> Seq<Span>
    decreases x,
{
    match x {
        AttrArg::Positional(a) => spans_of_expr(a),
        AttrArg::Named { value, .. } => spans_of_expr(value),
    }
}

pub open spec fn spans_of_param(x: Param) -> Seq<Span>
    decreases x,
{
    seq![x.span] + spans_of_param_kind(x.kind)
}

pub open spec fn spans_of_param_kind(x: ParamKind) -> Seq<Span>
    decreases x,
{
    match x {
        ParamKind::SelfParam => Seq::empty(),
        ParamKind::Normal { name, ty } => seq![name.span] + spans_of_type(ty),
    }
}

// -- a copy --------------------------------------------------------------------------

proof fn lemma_rest(g: SpanGen, x: RestPattern)
    ensures
        handed(g, crate::respan::respan_rest(g, x).0, spans_of_rest(crate::respan::respan_rest(g, x).1)),
{
    lemma_one(g);
    match x.name {
        Some(_) => {
            lemma_one(g.after());
            lemma_chain(g, g.after(), g.after().after(), seq![g.span()], seq![g.after().span()]);
        },
        None => {},
    }
}

proof fn lemma_rest_at(g: SpanGen, x: RestAt)
    ensures
        handed(g, crate::respan::respan_rest_at(g, x).0, spans_of_rest_at(crate::respan::respan_rest_at(g, x).1)),
{
    lemma_rest(g, x.rest);
}

proof fn lemma_generic_param_list(g: SpanGen, l: List<GenericParam>)
    ensures
        handed(
            g,
            crate::respan::respan_generic_param_list(g, l).0,
            spans_of_generic_param_list(crate::respan::respan_generic_param_list(g, l).1),
        ),
    decreases l, 1int,
{
    match l {
        List::Nil => lemma_none(g),
        List::Cons(h, t) => {
            let (g1, h1) = crate::respan::respan_generic_param(g, *h);
            let (g2, t1) = crate::respan::respan_generic_param_list(g1, *t);
            lemma_generic_param(g, *h);
            lemma_generic_param_list(g1, *t);
            lemma_chain(g, g1, g2, spans_of_generic_param(h1), spans_of_generic_param_list(t1));
        },
    }
}

proof fn lemma_type_list(g: SpanGen, l: List<Type>)
    ensures
        handed(g, crate::respan::respan_type_list(g, l).0, spans_of_type_list(crate::respan::respan_type_list(g, l).1)),
    decreases l, 1int,
{
    match l {
        List::Nil => lemma_none(g),
        List::Cons(h, t) => {
            let (g1, h1) = crate::respan::respan_type(g, *h);
            let (g2, t1) = crate::respan::respan_type_list(g1, *t);
            lemma_type(g, *h);
            lemma_type_list(g1, *t);
            lemma_chain(g, g1, g2, spans_of_type(h1), spans_of_type_list(t1));
        },
    }
}

proof fn lemma_extern_param_list(g: SpanGen, l: List<ExternParam>)
    ensures
        handed(
            g,
            crate::respan::respan_extern_param_list(g, l).0,
            spans_of_extern_param_list(crate::respan::respan_extern_param_list(g, l).1),
        ),
    decreases l, 1int,
{
    match l {
        List::Nil => lemma_none(g),
        List::Cons(h, t) => {
            let (g1, h1) = crate::respan::respan_extern_param(g, *h);
            let (g2, t1) = crate::respan::respan_extern_param_list(g1, *t);
            lemma_extern_param(g, *h);
            lemma_extern_param_list(g1, *t);
            lemma_chain(g, g1, g2, spans_of_extern_param(h1), spans_of_extern_param_list(t1));
        },
    }
}

proof fn lemma_string_part_list(g: SpanGen, l: List<StringPart>)
    ensures
        handed(
            g,
            crate::respan::respan_string_part_list(g, l).0,
            spans_of_string_part_list(crate::respan::respan_string_part_list(g, l).1),
        ),
    decreases l, 1int,
{
    match l {
        List::Nil => lemma_none(g),
        List::Cons(h, t) => {
            let (g1, h1) = crate::respan::respan_string_part(g, *h);
            let (g2, t1) = crate::respan::respan_string_part_list(g1, *t);
            lemma_string_part(g, *h);
            lemma_string_part_list(g1, *t);
            lemma_chain(g, g1, g2, spans_of_string_part(h1), spans_of_string_part_list(t1));
        },
    }
}

proof fn lemma_expr_list(g: SpanGen, l: List<Expr>)
    ensures
        handed(g, crate::respan::respan_expr_list(g, l).0, spans_of_expr_list(crate::respan::respan_expr_list(g, l).1)),
    decreases l, 1int,
{
    match l {
        List::Nil => lemma_none(g),
        List::Cons(h, t) => {
            let (g1, h1) = crate::respan::respan_expr(g, *h);
            let (g2, t1) = crate::respan::respan_expr_list(g1, *t);
            lemma_expr(g, *h);
            lemma_expr_list(g1, *t);
            lemma_chain(g, g1, g2, spans_of_expr(h1), spans_of_expr_list(t1));
        },
    }
}

proof fn lemma_map_item_list(g: SpanGen, l: List<MapItem>)
    ensures
        handed(
            g,
            crate::respan::respan_map_item_list(g, l).0,
            spans_of_map_item_list(crate::respan::respan_map_item_list(g, l).1),
        ),
    decreases l, 1int,
{
    match l {
        List::Nil => lemma_none(g),
        List::Cons(h, t) => {
            let (g1, h1) = crate::respan::respan_map_item(g, *h);
            let (g2, t1) = crate::respan::respan_map_item_list(g1, *t);
            lemma_map_item(g, *h);
            lemma_map_item_list(g1, *t);
            lemma_chain(g, g1, g2, spans_of_map_item(h1), spans_of_map_item_list(t1));
        },
    }
}

proof fn lemma_field_init_list(g: SpanGen, l: List<FieldInit>)
    ensures
        handed(
            g,
            crate::respan::respan_field_init_list(g, l).0,
            spans_of_field_init_list(crate::respan::respan_field_init_list(g, l).1),
        ),
    decreases l, 1int,
{
    match l {
        List::Nil => lemma_none(g),
        List::Cons(h, t) => {
            let (g1, h1) = crate::respan::respan_field_init(g, *h);
            let (g2, t1) = crate::respan::respan_field_init_list(g1, *t);
            lemma_field_init(g, *h);
            lemma_field_init_list(g1, *t);
            lemma_chain(g, g1, g2, spans_of_field_init(h1), spans_of_field_init_list(t1));
        },
    }
}

proof fn lemma_stmt_list(g: SpanGen, l: List<Stmt>)
    ensures
        handed(g, crate::respan::respan_stmt_list(g, l).0, spans_of_stmt_list(crate::respan::respan_stmt_list(g, l).1)),
    decreases l, 1int,
{
    match l {
        List::Nil => lemma_none(g),
        List::Cons(h, t) => {
            let (g1, h1) = crate::respan::respan_stmt(g, *h);
            let (g2, t1) = crate::respan::respan_stmt_list(g1, *t);
            lemma_stmt(g, *h);
            lemma_stmt_list(g1, *t);
            lemma_chain(g, g1, g2, spans_of_stmt(h1), spans_of_stmt_list(t1));
        },
    }
}

proof fn lemma_pattern_list(g: SpanGen, l: List<Pattern>)
    ensures
        handed(
            g,
            crate::respan::respan_pattern_list(g, l).0,
            spans_of_pattern_list(crate::respan::respan_pattern_list(g, l).1),
        ),
    decreases l, 1int,
{
    match l {
        List::Nil => lemma_none(g),
        List::Cons(h, t) => {
            let (g1, h1) = crate::respan::respan_pattern(g, *h);
            let (g2, t1) = crate::respan::respan_pattern_list(g1, *t);
            lemma_pattern(g, *h);
            lemma_pattern_list(g1, *t);
            lemma_chain(g, g1, g2, spans_of_pattern(h1), spans_of_pattern_list(t1));
        },
    }
}

proof fn lemma_field_pattern_list(g: SpanGen, l: List<FieldPattern>)
    ensures
        handed(
            g,
            crate::respan::respan_field_pattern_list(g, l).0,
            spans_of_field_pattern_list(crate::respan::respan_field_pattern_list(g, l).1),
        ),
    decreases l, 1int,
{
    match l {
        List::Nil => lemma_none(g),
        List::Cons(h, t) => {
            let (g1, h1) = crate::respan::respan_field_pattern(g, *h);
            let (g2, t1) = crate::respan::respan_field_pattern_list(g1, *t);
            lemma_field_pattern(g, *h);
            lemma_field_pattern_list(g1, *t);
            lemma_chain(g, g1, g2, spans_of_field_pattern(h1), spans_of_field_pattern_list(t1));
        },
    }
}

proof fn lemma_match_arm_list(g: SpanGen, l: List<MatchArm>)
    ensures
        handed(
            g,
            crate::respan::respan_match_arm_list(g, l).0,
            spans_of_match_arm_list(crate::respan::respan_match_arm_list(g, l).1),
        ),
    decreases l, 1int,
{
    match l {
        List::Nil => lemma_none(g),
        List::Cons(h, t) => {
            let (g1, h1) = crate::respan::respan_match_arm(g, *h);
            let (g2, t1) = crate::respan::respan_match_arm_list(g1, *t);
            lemma_match_arm(g, *h);
            lemma_match_arm_list(g1, *t);
            lemma_chain(g, g1, g2, spans_of_match_arm(h1), spans_of_match_arm_list(t1));
        },
    }
}

proof fn lemma_closure_param_list(g: SpanGen, l: List<ClosureParam>)
    ensures
        handed(
            g,
            crate::respan::respan_closure_param_list(g, l).0,
            spans_of_closure_param_list(crate::respan::respan_closure_param_list(g, l).1),
        ),
    decreases l, 1int,
{
    match l {
        List::Nil => lemma_none(g),
        List::Cons(h, t) => {
            let (g1, h1) = crate::respan::respan_closure_param(g, *h);
            let (g2, t1) = crate::respan::respan_closure_param_list(g1, *t);
            lemma_closure_param(g, *h);
            lemma_closure_param_list(g1, *t);
            lemma_chain(g, g1, g2, spans_of_closure_param(h1), spans_of_closure_param_list(t1));
        },
    }
}

proof fn lemma_attr_arg_list(g: SpanGen, l: List<AttrArg>)
    ensures
        handed(
            g,
            crate::respan::respan_attr_arg_list(g, l).0,
            spans_of_attr_arg_list(crate::respan::respan_attr_arg_list(g, l).1),
        ),
    decreases l, 1int,
{
    match l {
        List::Nil => lemma_none(g),
        List::Cons(h, t) => {
            let (g1, h1) = crate::respan::respan_attr_arg(g, *h);
            let (g2, t1) = crate::respan::respan_attr_arg_list(g1, *t);
            lemma_attr_arg(g, *h);
            lemma_attr_arg_list(g1, *t);
            lemma_chain(g, g1, g2, spans_of_attr_arg(h1), spans_of_attr_arg_list(t1));
        },
    }
}

proof fn lemma_param_list(g: SpanGen, l: List<Param>)
    ensures
        handed(
            g,
            crate::respan::respan_param_list(g, l).0,
            spans_of_param_list(crate::respan::respan_param_list(g, l).1),
        ),
    decreases l, 1int,
{
    match l {
        List::Nil => lemma_none(g),
        List::Cons(h, t) => {
            let (g1, h1) = crate::respan::respan_param(g, *h);
            let (g2, t1) = crate::respan::respan_param_list(g1, *t);
            lemma_param(g, *h);
            lemma_param_list(g1, *t);
            lemma_chain(g, g1, g2, spans_of_param(h1), spans_of_param_list(t1));
        },
    }
}

proof fn lemma_function(g: SpanGen, x: FunctionItem)
    ensures
        handed(g, crate::respan::respan_function(g, x).0, spans_of_function(crate::respan::respan_function(g, x).1)),
    decreases x, 1int,
{
    let (g1, name1) = crate::respan::respan_ident(g, x.name);
    lemma_one(g);
    assert(handed(g, g1, seq![name1.span]));
    let a1 = seq![name1.span];
    let (g2, generics1) = match x.generics {
        Some(z) => { let (h2, y2) = crate::respan::respan_generic_params(g1, z); (h2, Some(y2)) },
        None => (g1, None),
    };
    match x.generics {
        Some(z) => {
            lemma_generic_params(g1, z);
        },
        None => lemma_none(g1),
    }
    assert(handed(g1, g2, (match generics1 { Some(z) => spans_of_generic_params(z), None => Seq::<Span>::empty() })));
    let b2 = (match generics1 { Some(z) => spans_of_generic_params(z), None => Seq::<Span>::empty() });
    lemma_chain(g, g1, g2, a1, b2);
    let a2 = a1 + b2;
    let (g3, params1) = crate::respan::respan_param_list(g2, x.params);
    lemma_param_list(g2, x.params);
    assert(handed(g2, g3, spans_of_param_list(params1)));
    let b3 = spans_of_param_list(params1);
    lemma_chain(g, g2, g3, a2, b3);
    let a3 = a2 + b3;
    let (g4, return_type1) = match x.return_type {
        Some(z) => { let (h2, y2) = crate::respan::respan_type(g3, z); (h2, Some(y2)) },
        None => (g3, None),
    };
    match x.return_type {
        Some(z) => {
            lemma_type(g3, z);
        },
        None => lemma_none(g3),
    }
    assert(handed(g3, g4, (match return_type1 { Some(z) => spans_of_type(z), None => Seq::<Span>::empty() })));
    let b4 = (match return_type1 { Some(z) => spans_of_type(z), None => Seq::<Span>::empty() });
    lemma_chain(g, g3, g4, a3, b4);
    let a4 = a3 + b4;
    let (g5, body1) = match x.body {
        Some(z) => { let (h2, y2) = crate::respan::respan_block(g4, z); (h2, Some(y2)) },
        None => (g4, None),
    };
    match x.body {
        Some(z) => {
            lemma_block(g4, z);
        },
        None => lemma_none(g4),
    }
    assert(handed(g4, g5, (match body1 { Some(z) => spans_of_block(z), None => Seq::<Span>::empty() })));
    let b5 = (match body1 { Some(z) => spans_of_block(z), None => Seq::<Span>::empty() });
    lemma_chain(g, g4, g5, a4, b5);
    let a5 = a4 + b5;
}

proof fn lemma_generic_params(g: SpanGen, x: GenericParams)
    ensures
        handed(
            g,
            crate::respan::respan_generic_params(g, x).0,
            spans_of_generic_params(crate::respan::respan_generic_params(g, x).1),
        ),
    decreases x, 1int,
{
    let (g1, span1) = (g.after(), g.span());
    lemma_one(g);
    assert(handed(g, g1, seq![span1]));
    let a1 = seq![span1];
    let (g2, params1) = crate::respan::respan_generic_param_list(g1, x.params);
    lemma_generic_param_list(g1, x.params);
    assert(handed(g1, g2, spans_of_generic_param_list(params1)));
    let b2 = spans_of_generic_param_list(params1);
    lemma_chain(g, g1, g2, a1, b2);
    let a2 = a1 + b2;
}

proof fn lemma_generic_param(g: SpanGen, x: GenericParam)
    ensures
        handed(
            g,
            crate::respan::respan_generic_param(g, x).0,
            spans_of_generic_param(crate::respan::respan_generic_param(g, x).1),
        ),
    decreases x, 1int,
{
    let (g1, name1) = crate::respan::respan_ident(g, x.name);
    lemma_one(g);
    assert(handed(g, g1, seq![name1.span]));
    let a1 = seq![name1.span];
    let (g2, bounds1) = crate::respan::respan_type_list(g1, x.bounds);
    lemma_type_list(g1, x.bounds);
    assert(handed(g1, g2, spans_of_type_list(bounds1)));
    let b2 = spans_of_type_list(bounds1);
    lemma_chain(g, g1, g2, a1, b2);
    let a2 = a1 + b2;
}

proof fn lemma_type(g: SpanGen, x: Type)
    ensures
        handed(g, crate::respan::respan_type(g, x).0, spans_of_type(crate::respan::respan_type(g, x).1)),
    decreases x, 1int,
{
    let (g1, span1) = (g.after(), g.span());
    lemma_one(g);
    assert(handed(g, g1, seq![span1]));
    let a1 = seq![span1];
    let (g2, kind1) = crate::respan::respan_type_kind(g1, x.kind);
    lemma_type_kind(g1, x.kind);
    assert(handed(g1, g2, spans_of_type_kind(kind1)));
    let b2 = spans_of_type_kind(kind1);
    lemma_chain(g, g1, g2, a1, b2);
    let a2 = a1 + b2;
}

proof fn lemma_type_kind(g: SpanGen, x: TypeKind)
    ensures
        handed(g, crate::respan::respan_type_kind(g, x).0, spans_of_type_kind(crate::respan::respan_type_kind(g, x).1)),
    decreases x, 1int,
{
    match x {
        TypeKind::Named { name, generics } => {
            let (g1, name1) = crate::respan::respan_ident(g, name);
            lemma_one(g);
            assert(handed(g, g1, seq![name1.span]));
            let a1 = seq![name1.span];
            let (g2, generics1) = crate::respan::respan_type_list(g1, generics);
            lemma_type_list(g1, generics);
            assert(handed(g1, g2, spans_of_type_list(generics1)));
            let b2 = spans_of_type_list(generics1);
            lemma_chain(g, g1, g2, a1, b2);
            let a2 = a1 + b2;
        },
        TypeKind::Tuple(a) => {
            lemma_type_list(g, a);
        },
        TypeKind::Function { params, ret } => {
            let (g1, params1) = crate::respan::respan_type_list(g, params);
            lemma_type_list(g, params);
            assert(handed(g, g1, spans_of_type_list(params1)));
            let a1 = spans_of_type_list(params1);
            let (g2, ret1) = { let (h, y) = crate::respan::respan_type(g1, *ret); (h, Box::new(y)) };
            lemma_type(g1, *ret);
            assert(handed(g1, g2, spans_of_type(*ret1)));
            let b2 = spans_of_type(*ret1);
            lemma_chain(g, g1, g2, a1, b2);
            let a2 = a1 + b2;
        },
        TypeKind::ExternFunction { params, ret } => {
            let (g1, params1) = crate::respan::respan_extern_param_list(g, params);
            lemma_extern_param_list(g, params);
            assert(handed(g, g1, spans_of_extern_param_list(params1)));
            let a1 = spans_of_extern_param_list(params1);
            let (g2, ret1) = { let (h, y) = crate::respan::respan_type(g1, *ret); (h, Box::new(y)) };
            lemma_type(g1, *ret);
            assert(handed(g1, g2, spans_of_type(*ret1)));
            let b2 = spans_of_type(*ret1);
            lemma_chain(g, g1, g2, a1, b2);
            let a2 = a1 + b2;
        },
        TypeKind::Union(a) => {
            lemma_type_list(g, a);
        },
        TypeKind::Pointer(a) => {
            lemma_type(g, *a);
        },
        TypeKind::Array { elem, len } => {
            let (g1, elem1) = { let (h, y) = crate::respan::respan_type(g, *elem); (h, Box::new(y)) };
            lemma_type(g, *elem);
            assert(handed(g, g1, spans_of_type(*elem1)));
            let a1 = spans_of_type(*elem1);
            let (g2, len1) = { let (h, y) = crate::respan::respan_expr(g1, *len); (h, Box::new(y)) };
            lemma_expr(g1, *len);
            assert(handed(g1, g2, spans_of_expr(*len1)));
            let b2 = spans_of_expr(*len1);
            lemma_chain(g, g1, g2, a1, b2);
            let a2 = a1 + b2;
        },
        TypeKind::SelfType => lemma_none(g),
        TypeKind::Paren(a) => {
            lemma_type(g, *a);
        },
    }
}

proof fn lemma_extern_param(g: SpanGen, x: ExternParam)
    ensures
        handed(
            g,
            crate::respan::respan_extern_param(g, x).0,
            spans_of_extern_param(crate::respan::respan_extern_param(g, x).1),
        ),
    decreases x, 1int,
{
    let (g1, ty1) = crate::respan::respan_type(g, x.ty);
    lemma_type(g, x.ty);
    assert(handed(g, g1, spans_of_type(ty1)));
    let a1 = spans_of_type(ty1);
    let (g2, span1) = (g1.after(), g1.span());
    lemma_one(g1);
    assert(handed(g1, g2, seq![span1]));
    let b2 = seq![span1];
    lemma_chain(g, g1, g2, a1, b2);
    let a2 = a1 + b2;
}

proof fn lemma_expr(g: SpanGen, x: Expr)
    ensures
        handed(g, crate::respan::respan_expr(g, x).0, spans_of_expr(crate::respan::respan_expr(g, x).1)),
    decreases x, 1int,
{
    let (g1, span1) = (g.after(), g.span());
    lemma_one(g);
    assert(handed(g, g1, seq![span1]));
    let a1 = seq![span1];
    let (g2, kind1) = crate::respan::respan_expr_kind(g1, x.kind);
    lemma_expr_kind(g1, x.kind);
    assert(handed(g1, g2, spans_of_expr_kind(kind1)));
    let b2 = spans_of_expr_kind(kind1);
    lemma_chain(g, g1, g2, a1, b2);
    let a2 = a1 + b2;
}

proof fn lemma_expr_struct_lit(g: SpanGen, x: ExprKind)
    requires
        x is StructLit,
    ensures
        handed(g, crate::respan::respan_expr_kind(g, x).0, spans_of_expr_kind(crate::respan::respan_expr_kind(g, x).1)),
    decreases x, 0int,
{
    match x {
        ExprKind::StructLit { path, fields, spread } => {
            let (g1, path1) = crate::respan::respan_type_path(g, path);
            lemma_type_path(g, path);
            assert(handed(g, g1, spans_of_type_path(path1)));
            let a1 = spans_of_type_path(path1);
            let (g2, fields1) = crate::respan::respan_field_init_list(g1, fields);
            lemma_field_init_list(g1, fields);
            assert(handed(g1, g2, spans_of_field_init_list(fields1)));
            let b2 = spans_of_field_init_list(fields1);
            lemma_chain(g, g1, g2, a1, b2);
            let a2 = a1 + b2;
            let (g3, spread1) = match spread {
                Some(z) => {
                    let (h2, y2) = { let (h, y) = crate::respan::respan_expr(g2, *z); (h, Box::new(y)) };
                    (h2, Some(y2))
                },
                None => (g2, None),
            };
            match spread {
                Some(z) => {
                    lemma_expr(g2, *z);
                },
                None => lemma_none(g2),
            }
            assert(handed(g2, g3, (match spread1 { Some(z) => spans_of_expr(*z), None => Seq::<Span>::empty() })));
            let b3 = (match spread1 { Some(z) => spans_of_expr(*z), None => Seq::<Span>::empty() });
            lemma_chain(g, g2, g3, a2, b3);
            let a3 = a2 + b3;
        },
        _ => {},
    }
}

proof fn lemma_expr_unary(g: SpanGen, x: ExprKind)
    requires
        x is Unary,
    ensures
        handed(g, crate::respan::respan_expr_kind(g, x).0, spans_of_expr_kind(crate::respan::respan_expr_kind(g, x).1)),
    decreases x, 0int,
{
    match x {
        ExprKind::Unary { op_span, operand, .. } => {
            let (g1, op_span1) = (g.after(), g.span());
            lemma_one(g);
            assert(handed(g, g1, seq![op_span1]));
            let a1 = seq![op_span1];
            let (g2, operand1) = { let (h, y) = crate::respan::respan_expr(g1, *operand); (h, Box::new(y)) };
            lemma_expr(g1, *operand);
            assert(handed(g1, g2, spans_of_expr(*operand1)));
            let b2 = spans_of_expr(*operand1);
            lemma_chain(g, g1, g2, a1, b2);
            let a2 = a1 + b2;
        },
        _ => {},
    }
}

proof fn lemma_expr_binary(g: SpanGen, x: ExprKind)
    requires
        x is Binary,
    ensures
        handed(g, crate::respan::respan_expr_kind(g, x).0, spans_of_expr_kind(crate::respan::respan_expr_kind(g, x).1)),
    decreases x, 0int,
{
    match x {
        ExprKind::Binary { op_span, left, right, .. } => {
            let (g1, op_span1) = (g.after(), g.span());
            lemma_one(g);
            assert(handed(g, g1, seq![op_span1]));
            let a1 = seq![op_span1];
            let (g2, left1) = { let (h, y) = crate::respan::respan_expr(g1, *left); (h, Box::new(y)) };
            lemma_expr(g1, *left);
            assert(handed(g1, g2, spans_of_expr(*left1)));
            let b2 = spans_of_expr(*left1);
            lemma_chain(g, g1, g2, a1, b2);
            let a2 = a1 + b2;
            let (g3, right1) = { let (h, y) = crate::respan::respan_expr(g2, *right); (h, Box::new(y)) };
            lemma_expr(g2, *right);
            assert(handed(g2, g3, spans_of_expr(*right1)));
            let b3 = spans_of_expr(*right1);
            lemma_chain(g, g2, g3, a2, b3);
            let a3 = a2 + b3;
        },
        _ => {},
    }
}

proof fn lemma_expr_cast(g: SpanGen, x: ExprKind)
    requires
        x is Cast,
    ensures
        handed(g, crate::respan::respan_expr_kind(g, x).0, spans_of_expr_kind(crate::respan::respan_expr_kind(g, x).1)),
    decreases x, 0int,
{
    match x {
        ExprKind::Cast { op_span, expr, ty, .. } => {
            let (g1, op_span1) = (g.after(), g.span());
            lemma_one(g);
            assert(handed(g, g1, seq![op_span1]));
            let a1 = seq![op_span1];
            let (g2, expr1) = { let (h, y) = crate::respan::respan_expr(g1, *expr); (h, Box::new(y)) };
            lemma_expr(g1, *expr);
            assert(handed(g1, g2, spans_of_expr(*expr1)));
            let b2 = spans_of_expr(*expr1);
            lemma_chain(g, g1, g2, a1, b2);
            let a2 = a1 + b2;
            let (g3, ty1) = { let (h, y) = crate::respan::respan_type(g2, *ty); (h, Box::new(y)) };
            lemma_type(g2, *ty);
            assert(handed(g2, g3, spans_of_type(*ty1)));
            let b3 = spans_of_type(*ty1);
            lemma_chain(g, g2, g3, a2, b3);
            let a3 = a2 + b3;
        },
        _ => {},
    }
}

proof fn lemma_expr_field(g: SpanGen, x: ExprKind)
    requires
        x is Field,
    ensures
        handed(g, crate::respan::respan_expr_kind(g, x).0, spans_of_expr_kind(crate::respan::respan_expr_kind(g, x).1)),
    decreases x, 0int,
{
    match x {
        ExprKind::Field { receiver, name } => {
            let (g1, receiver1) = { let (h, y) = crate::respan::respan_expr(g, *receiver); (h, Box::new(y)) };
            lemma_expr(g, *receiver);
            assert(handed(g, g1, spans_of_expr(*receiver1)));
            let a1 = spans_of_expr(*receiver1);
            let (g2, name1) = crate::respan::respan_ident(g1, name);
            lemma_one(g1);
            assert(handed(g1, g2, seq![name1.span]));
            let b2 = seq![name1.span];
            lemma_chain(g, g1, g2, a1, b2);
            let a2 = a1 + b2;
        },
        _ => {},
    }
}

proof fn lemma_expr_tuple_index(g: SpanGen, x: ExprKind)
    requires
        x is TupleIndex,
    ensures
        handed(g, crate::respan::respan_expr_kind(g, x).0, spans_of_expr_kind(crate::respan::respan_expr_kind(g, x).1)),
    decreases x, 0int,
{
    match x {
        ExprKind::TupleIndex { receiver, index_span, .. } => {
            let (g1, receiver1) = { let (h, y) = crate::respan::respan_expr(g, *receiver); (h, Box::new(y)) };
            lemma_expr(g, *receiver);
            assert(handed(g, g1, spans_of_expr(*receiver1)));
            let a1 = spans_of_expr(*receiver1);
            let (g2, index_span1) = (g1.after(), g1.span());
            lemma_one(g1);
            assert(handed(g1, g2, seq![index_span1]));
            let b2 = seq![index_span1];
            lemma_chain(g, g1, g2, a1, b2);
            let a2 = a1 + b2;
        },
        _ => {},
    }
}

proof fn lemma_expr_call(g: SpanGen, x: ExprKind)
    requires
        x is Call,
    ensures
        handed(g, crate::respan::respan_expr_kind(g, x).0, spans_of_expr_kind(crate::respan::respan_expr_kind(g, x).1)),
    decreases x, 0int,
{
    match x {
        ExprKind::Call { callee, generics, args, trailing_closure } => {
            let (g1, callee1) = { let (h, y) = crate::respan::respan_expr(g, *callee); (h, Box::new(y)) };
            lemma_expr(g, *callee);
            assert(handed(g, g1, spans_of_expr(*callee1)));
            let a1 = spans_of_expr(*callee1);
            let (g2, generics1) = crate::respan::respan_type_list(g1, generics);
            lemma_type_list(g1, generics);
            assert(handed(g1, g2, spans_of_type_list(generics1)));
            let b2 = spans_of_type_list(generics1);
            lemma_chain(g, g1, g2, a1, b2);
            let a2 = a1 + b2;
            let (g3, args1) = crate::respan::respan_expr_list(g2, args);
            lemma_expr_list(g2, args);
            assert(handed(g2, g3, spans_of_expr_list(args1)));
            let b3 = spans_of_expr_list(args1);
            lemma_chain(g, g2, g3, a2, b3);
            let a3 = a2 + b3;
            let (g4, trailing_closure1) = match trailing_closure {
                Some(z) => {
                    let (h2, y2) = { let (h, y) = crate::respan::respan_expr(g3, *z); (h, Box::new(y)) };
                    (h2, Some(y2))
                },
                None => (g3, None),
            };
            match trailing_closure {
                Some(z) => {
                    lemma_expr(g3, *z);
                },
                None => lemma_none(g3),
            }
            assert(
                handed(
                    g3,
                    g4,
                    (match trailing_closure1 { Some(z) => spans_of_expr(*z), None => Seq::<Span>::empty() }),
                )
            );
            let b4 = (match trailing_closure1 { Some(z) => spans_of_expr(*z), None => Seq::<Span>::empty() });
            lemma_chain(g, g3, g4, a3, b4);
            let a4 = a3 + b4;
        },
        _ => {},
    }
}

proof fn lemma_expr_index(g: SpanGen, x: ExprKind)
    requires
        x is Index,
    ensures
        handed(g, crate::respan::respan_expr_kind(g, x).0, spans_of_expr_kind(crate::respan::respan_expr_kind(g, x).1)),
    decreases x, 0int,
{
    match x {
        ExprKind::Index { receiver, index } => {
            let (g1, receiver1) = { let (h, y) = crate::respan::respan_expr(g, *receiver); (h, Box::new(y)) };
            lemma_expr(g, *receiver);
            assert(handed(g, g1, spans_of_expr(*receiver1)));
            let a1 = spans_of_expr(*receiver1);
            let (g2, index1) = { let (h, y) = crate::respan::respan_expr(g1, *index); (h, Box::new(y)) };
            lemma_expr(g1, *index);
            assert(handed(g1, g2, spans_of_expr(*index1)));
            let b2 = spans_of_expr(*index1);
            lemma_chain(g, g1, g2, a1, b2);
            let a2 = a1 + b2;
        },
        _ => {},
    }
}

proof fn lemma_expr_try(g: SpanGen, x: ExprKind)
    requires
        x is Try,
    ensures
        handed(g, crate::respan::respan_expr_kind(g, x).0, spans_of_expr_kind(crate::respan::respan_expr_kind(g, x).1)),
    decreases x, 0int,
{
    match x {
        ExprKind::Try { expr, q_span } => {
            let (g1, expr1) = { let (h, y) = crate::respan::respan_expr(g, *expr); (h, Box::new(y)) };
            lemma_expr(g, *expr);
            assert(handed(g, g1, spans_of_expr(*expr1)));
            let a1 = spans_of_expr(*expr1);
            let (g2, q_span1) = (g1.after(), g1.span());
            lemma_one(g1);
            assert(handed(g1, g2, seq![q_span1]));
            let b2 = seq![q_span1];
            lemma_chain(g, g1, g2, a1, b2);
            let a2 = a1 + b2;
        },
        _ => {},
    }
}

proof fn lemma_expr_ref(g: SpanGen, x: ExprKind)
    requires
        x is Ref,
    ensures
        handed(g, crate::respan::respan_expr_kind(g, x).0, spans_of_expr_kind(crate::respan::respan_expr_kind(g, x).1)),
    decreases x, 0int,
{
    match x {
        ExprKind::Ref { expr, amp_span } => {
            let (g1, expr1) = { let (h, y) = crate::respan::respan_expr(g, *expr); (h, Box::new(y)) };
            lemma_expr(g, *expr);
            assert(handed(g, g1, spans_of_expr(*expr1)));
            let a1 = spans_of_expr(*expr1);
            let (g2, amp_span1) = (g1.after(), g1.span());
            lemma_one(g1);
            assert(handed(g1, g2, seq![amp_span1]));
            let b2 = seq![amp_span1];
            lemma_chain(g, g1, g2, a1, b2);
            let a2 = a1 + b2;
        },
        _ => {},
    }
}

proof fn lemma_expr_deref(g: SpanGen, x: ExprKind)
    requires
        x is Deref,
    ensures
        handed(g, crate::respan::respan_expr_kind(g, x).0, spans_of_expr_kind(crate::respan::respan_expr_kind(g, x).1)),
    decreases x, 0int,
{
    match x {
        ExprKind::Deref { expr, star_span } => {
            let (g1, expr1) = { let (h, y) = crate::respan::respan_expr(g, *expr); (h, Box::new(y)) };
            lemma_expr(g, *expr);
            assert(handed(g, g1, spans_of_expr(*expr1)));
            let a1 = spans_of_expr(*expr1);
            let (g2, star_span1) = (g1.after(), g1.span());
            lemma_one(g1);
            assert(handed(g1, g2, seq![star_span1]));
            let b2 = seq![star_span1];
            lemma_chain(g, g1, g2, a1, b2);
            let a2 = a1 + b2;
        },
        _ => {},
    }
}

proof fn lemma_expr_await(g: SpanGen, x: ExprKind)
    requires
        x is Await,
    ensures
        handed(g, crate::respan::respan_expr_kind(g, x).0, spans_of_expr_kind(crate::respan::respan_expr_kind(g, x).1)),
    decreases x, 0int,
{
    match x {
        ExprKind::Await { expr, kw_span } => {
            let (g1, expr1) = { let (h, y) = crate::respan::respan_expr(g, *expr); (h, Box::new(y)) };
            lemma_expr(g, *expr);
            assert(handed(g, g1, spans_of_expr(*expr1)));
            let a1 = spans_of_expr(*expr1);
            let (g2, kw_span1) = (g1.after(), g1.span());
            lemma_one(g1);
            assert(handed(g1, g2, seq![kw_span1]));
            let b2 = seq![kw_span1];
            lemma_chain(g, g1, g2, a1, b2);
            let a2 = a1 + b2;
        },
        _ => {},
    }
}

proof fn lemma_expr_spawn(g: SpanGen, x: ExprKind)
    requires
        x is Spawn,
    ensures
        handed(g, crate::respan::respan_expr_kind(g, x).0, spans_of_expr_kind(crate::respan::respan_expr_kind(g, x).1)),
    decreases x, 0int,
{
    match x {
        ExprKind::Spawn { expr, kw_span } => {
            let (g1, expr1) = { let (h, y) = crate::respan::respan_expr(g, *expr); (h, Box::new(y)) };
            lemma_expr(g, *expr);
            assert(handed(g, g1, spans_of_expr(*expr1)));
            let a1 = spans_of_expr(*expr1);
            let (g2, kw_span1) = (g1.after(), g1.span());
            lemma_one(g1);
            assert(handed(g1, g2, seq![kw_span1]));
            let b2 = seq![kw_span1];
            lemma_chain(g, g1, g2, a1, b2);
            let a2 = a1 + b2;
        },
        _ => {},
    }
}

proof fn lemma_expr_if(g: SpanGen, x: ExprKind)
    requires
        x is If,
    ensures
        handed(g, crate::respan::respan_expr_kind(g, x).0, spans_of_expr_kind(crate::respan::respan_expr_kind(g, x).1)),
    decreases x, 0int,
{
    match x {
        ExprKind::If { cond, then_block, else_branch } => {
            let (g1, cond1) = { let (h, y) = crate::respan::respan_expr(g, *cond); (h, Box::new(y)) };
            lemma_expr(g, *cond);
            assert(handed(g, g1, spans_of_expr(*cond1)));
            let a1 = spans_of_expr(*cond1);
            let (g2, then_block1) = crate::respan::respan_block(g1, then_block);
            lemma_block(g1, then_block);
            assert(handed(g1, g2, spans_of_block(then_block1)));
            let b2 = spans_of_block(then_block1);
            lemma_chain(g, g1, g2, a1, b2);
            let a2 = a1 + b2;
            let (g3, else_branch1) = match else_branch {
                Some(z) => { let (h2, y2) = crate::respan::respan_else_branch(g2, z); (h2, Some(y2)) },
                None => (g2, None),
            };
            match else_branch {
                Some(z) => {
                    lemma_else_branch(g2, z);
                },
                None => lemma_none(g2),
            }
            assert(
                handed(
                    g2,
                    g3,
                    (match else_branch1 { Some(z) => spans_of_else_branch(z), None => Seq::<Span>::empty() }),
                )
            );
            let b3 = (match else_branch1 { Some(z) => spans_of_else_branch(z), None => Seq::<Span>::empty() });
            lemma_chain(g, g2, g3, a2, b3);
            let a3 = a2 + b3;
        },
        _ => {},
    }
}

proof fn lemma_expr_match(g: SpanGen, x: ExprKind)
    requires
        x is Match,
    ensures
        handed(g, crate::respan::respan_expr_kind(g, x).0, spans_of_expr_kind(crate::respan::respan_expr_kind(g, x).1)),
    decreases x, 0int,
{
    match x {
        ExprKind::Match { scrutinee, arms } => {
            let (g1, scrutinee1) = { let (h, y) = crate::respan::respan_expr(g, *scrutinee); (h, Box::new(y)) };
            lemma_expr(g, *scrutinee);
            assert(handed(g, g1, spans_of_expr(*scrutinee1)));
            let a1 = spans_of_expr(*scrutinee1);
            let (g2, arms1) = crate::respan::respan_match_arm_list(g1, arms);
            lemma_match_arm_list(g1, arms);
            assert(handed(g1, g2, spans_of_match_arm_list(arms1)));
            let b2 = spans_of_match_arm_list(arms1);
            lemma_chain(g, g1, g2, a1, b2);
            let a2 = a1 + b2;
        },
        _ => {},
    }
}

proof fn lemma_expr_while(g: SpanGen, x: ExprKind)
    requires
        x is While,
    ensures
        handed(g, crate::respan::respan_expr_kind(g, x).0, spans_of_expr_kind(crate::respan::respan_expr_kind(g, x).1)),
    decreases x, 0int,
{
    match x {
        ExprKind::While { cond, body } => {
            let (g1, cond1) = { let (h, y) = crate::respan::respan_expr(g, *cond); (h, Box::new(y)) };
            lemma_expr(g, *cond);
            assert(handed(g, g1, spans_of_expr(*cond1)));
            let a1 = spans_of_expr(*cond1);
            let (g2, body1) = crate::respan::respan_block(g1, body);
            lemma_block(g1, body);
            assert(handed(g1, g2, spans_of_block(body1)));
            let b2 = spans_of_block(body1);
            lemma_chain(g, g1, g2, a1, b2);
            let a2 = a1 + b2;
        },
        _ => {},
    }
}

proof fn lemma_expr_for(g: SpanGen, x: ExprKind)
    requires
        x is For,
    ensures
        handed(g, crate::respan::respan_expr_kind(g, x).0, spans_of_expr_kind(crate::respan::respan_expr_kind(g, x).1)),
    decreases x, 0int,
{
    match x {
        ExprKind::For { pattern, iter, body, .. } => {
            let (g1, pattern1) = crate::respan::respan_pattern(g, pattern);
            lemma_pattern(g, pattern);
            assert(handed(g, g1, spans_of_pattern(pattern1)));
            let a1 = spans_of_pattern(pattern1);
            let (g2, iter1) = { let (h, y) = crate::respan::respan_expr(g1, *iter); (h, Box::new(y)) };
            lemma_expr(g1, *iter);
            assert(handed(g1, g2, spans_of_expr(*iter1)));
            let b2 = spans_of_expr(*iter1);
            lemma_chain(g, g1, g2, a1, b2);
            let a2 = a1 + b2;
            let (g3, body1) = crate::respan::respan_block(g2, body);
            lemma_block(g2, body);
            assert(handed(g2, g3, spans_of_block(body1)));
            let b3 = spans_of_block(body1);
            lemma_chain(g, g2, g3, a2, b3);
            let a3 = a2 + b3;
        },
        _ => {},
    }
}

proof fn lemma_expr_closure(g: SpanGen, x: ExprKind)
    requires
        x is Closure,
    ensures
        handed(g, crate::respan::respan_expr_kind(g, x).0, spans_of_expr_kind(crate::respan::respan_expr_kind(g, x).1)),
    decreases x, 0int,
{
    match x {
        ExprKind::Closure { params, return_type, body, .. } => {
            let (g1, params1) = crate::respan::respan_closure_param_list(g, params);
            lemma_closure_param_list(g, params);
            assert(handed(g, g1, spans_of_closure_param_list(params1)));
            let a1 = spans_of_closure_param_list(params1);
            let (g2, return_type1) = match return_type {
                Some(z) => { let (h2, y2) = crate::respan::respan_type(g1, z); (h2, Some(y2)) },
                None => (g1, None),
            };
            match return_type {
                Some(z) => {
                    lemma_type(g1, z);
                },
                None => lemma_none(g1),
            }
            assert(handed(g1, g2, (match return_type1 { Some(z) => spans_of_type(z), None => Seq::<Span>::empty() })));
            let b2 = (match return_type1 { Some(z) => spans_of_type(z), None => Seq::<Span>::empty() });
            lemma_chain(g, g1, g2, a1, b2);
            let a2 = a1 + b2;
            let (g3, body1) = { let (h, y) = crate::respan::respan_expr(g2, *body); (h, Box::new(y)) };
            lemma_expr(g2, *body);
            assert(handed(g2, g3, spans_of_expr(*body1)));
            let b3 = spans_of_expr(*body1);
            lemma_chain(g, g2, g3, a2, b3);
            let a3 = a2 + b3;
        },
        _ => {},
    }
}

proof fn lemma_expr_macro_call(g: SpanGen, x: ExprKind)
    requires
        x is MacroCall,
    ensures
        handed(g, crate::respan::respan_expr_kind(g, x).0, spans_of_expr_kind(crate::respan::respan_expr_kind(g, x).1)),
    decreases x, 0int,
{
    match x {
        ExprKind::MacroCall { args, block, .. } => {
            let (g1, args1) = crate::respan::respan_attr_arg_list(g, args);
            lemma_attr_arg_list(g, args);
            assert(handed(g, g1, spans_of_attr_arg_list(args1)));
            let a1 = spans_of_attr_arg_list(args1);
            let (g2, block1) = match block {
                Some(z) => { let (h2, y2) = crate::respan::respan_block(g1, z); (h2, Some(y2)) },
                None => (g1, None),
            };
            match block {
                Some(z) => {
                    lemma_block(g1, z);
                },
                None => lemma_none(g1),
            }
            assert(handed(g1, g2, (match block1 { Some(z) => spans_of_block(z), None => Seq::<Span>::empty() })));
            let b2 = (match block1 { Some(z) => spans_of_block(z), None => Seq::<Span>::empty() });
            lemma_chain(g, g1, g2, a1, b2);
            let a2 = a1 + b2;
        },
        _ => {},
    }
}

proof fn lemma_expr_kind(g: SpanGen, x: ExprKind)
    ensures
        handed(g, crate::respan::respan_expr_kind(g, x).0, spans_of_expr_kind(crate::respan::respan_expr_kind(g, x).1)),
    decreases x, 1int,
{
    match x {
        ExprKind::Int(_) => lemma_none(g),
        ExprKind::Float(_) => lemma_none(g),
        ExprKind::Bool(_) => lemma_none(g),
        ExprKind::Null => lemma_none(g),
        ExprKind::Char(_) => lemma_none(g),
        ExprKind::Str(a) => {
            lemma_string_lit(g, a);
        },
        ExprKind::Ident(a) => {
            lemma_one(g);
        },
        ExprKind::SelfExpr => lemma_none(g),
        ExprKind::Underscore => lemma_none(g),
        ExprKind::Continue => lemma_none(g),
        ExprKind::Paren(a) => {
            lemma_expr(g, *a);
        },
        ExprKind::Tuple(a) => {
            lemma_expr_list(g, a);
        },
        ExprKind::List(a) => {
            lemma_expr_list(g, a);
        },
        ExprKind::MapLit(a) => {
            lemma_map_item_list(g, a);
        },
        ExprKind::StructLit { .. } => lemma_expr_struct_lit(g, x),
        ExprKind::Unary { .. } => lemma_expr_unary(g, x),
        ExprKind::Binary { .. } => lemma_expr_binary(g, x),
        ExprKind::Cast { .. } => lemma_expr_cast(g, x),
        ExprKind::Field { .. } => lemma_expr_field(g, x),
        ExprKind::TupleIndex { .. } => lemma_expr_tuple_index(g, x),
        ExprKind::Call { .. } => lemma_expr_call(g, x),
        ExprKind::Index { .. } => lemma_expr_index(g, x),
        ExprKind::Try { .. } => lemma_expr_try(g, x),
        ExprKind::Ref { .. } => lemma_expr_ref(g, x),
        ExprKind::Deref { .. } => lemma_expr_deref(g, x),
        ExprKind::Await { .. } => lemma_expr_await(g, x),
        ExprKind::Spawn { .. } => lemma_expr_spawn(g, x),
        ExprKind::If { .. } => lemma_expr_if(g, x),
        ExprKind::Match { .. } => lemma_expr_match(g, x),
        ExprKind::Block(a) => {
            lemma_block(g, a);
        },
        ExprKind::Loop(a) => {
            lemma_block(g, a);
        },
        ExprKind::While { .. } => lemma_expr_while(g, x),
        ExprKind::For { .. } => lemma_expr_for(g, x),
        ExprKind::Return(a) => {
            match a {
                Some(z) => {
                    lemma_expr(g, *z);
                },
                None => lemma_none(g),
            }
        },
        ExprKind::Break(a) => {
            match a {
                Some(z) => {
                    lemma_expr(g, *z);
                },
                None => lemma_none(g),
            }
        },
        ExprKind::Closure { .. } => lemma_expr_closure(g, x),
        ExprKind::AnonFn(a) => {
            lemma_function(g, *a);
        },
        ExprKind::AsyncBlock(a) => {
            lemma_block(g, a);
        },
        ExprKind::MacroCall { .. } => lemma_expr_macro_call(g, x),
    }
}

proof fn lemma_string_lit(g: SpanGen, x: StringLit)
    ensures
        handed(
            g,
            crate::respan::respan_string_lit(g, x).0,
            spans_of_string_lit(crate::respan::respan_string_lit(g, x).1),
        ),
    decreases x, 1int,
{
    let (g1, span1) = (g.after(), g.span());
    lemma_one(g);
    assert(handed(g, g1, seq![span1]));
    let a1 = seq![span1];
    let (g2, parts1) = crate::respan::respan_string_part_list(g1, x.parts);
    lemma_string_part_list(g1, x.parts);
    assert(handed(g1, g2, spans_of_string_part_list(parts1)));
    let b2 = spans_of_string_part_list(parts1);
    lemma_chain(g, g1, g2, a1, b2);
    let a2 = a1 + b2;
}

proof fn lemma_string_part(g: SpanGen, x: StringPart)
    ensures
        handed(
            g,
            crate::respan::respan_string_part(g, x).0,
            spans_of_string_part(crate::respan::respan_string_part(g, x).1),
        ),
    decreases x, 1int,
{
    match x {
        StringPart::Text { span, .. } => {
            let (g1, span1) = (g.after(), g.span());
            lemma_one(g);
            assert(handed(g, g1, seq![span1]));
            let a1 = seq![span1];
        },
        StringPart::Ident(a) => {
            lemma_one(g);
        },
        StringPart::Expr(a) => {
            lemma_expr(g, a);
        },
    }
}

proof fn lemma_map_item(g: SpanGen, x: MapItem)
    ensures
        handed(g, crate::respan::respan_map_item(g, x).0, spans_of_map_item(crate::respan::respan_map_item(g, x).1)),
    decreases x, 1int,
{
    match x {
        MapItem::Entry { key, value, span } => {
            let (g1, key1) = { let (h, y) = crate::respan::respan_expr(g, *key); (h, Box::new(y)) };
            lemma_expr(g, *key);
            assert(handed(g, g1, spans_of_expr(*key1)));
            let a1 = spans_of_expr(*key1);
            let (g2, value1) = { let (h, y) = crate::respan::respan_expr(g1, *value); (h, Box::new(y)) };
            lemma_expr(g1, *value);
            assert(handed(g1, g2, spans_of_expr(*value1)));
            let b2 = spans_of_expr(*value1);
            lemma_chain(g, g1, g2, a1, b2);
            let a2 = a1 + b2;
            let (g3, span1) = (g2.after(), g2.span());
            lemma_one(g2);
            assert(handed(g2, g3, seq![span1]));
            let b3 = seq![span1];
            lemma_chain(g, g2, g3, a2, b3);
            let a3 = a2 + b3;
        },
        MapItem::Spread(a) => {
            lemma_expr(g, *a);
        },
    }
}

proof fn lemma_type_path(g: SpanGen, x: TypePath)
    ensures
        handed(g, crate::respan::respan_type_path(g, x).0, spans_of_type_path(crate::respan::respan_type_path(g, x).1)),
    decreases x, 1int,
{
    let (g1, span1) = (g.after(), g.span());
    lemma_one(g);
    assert(handed(g, g1, seq![span1]));
    let a1 = seq![span1];
    let (g2, name1) = crate::respan::respan_ident(g1, x.name);
    lemma_one(g1);
    assert(handed(g1, g2, seq![name1.span]));
    let b2 = seq![name1.span];
    lemma_chain(g, g1, g2, a1, b2);
    let a2 = a1 + b2;
    let (g3, generics1) = crate::respan::respan_type_list(g2, x.generics);
    lemma_type_list(g2, x.generics);
    assert(handed(g2, g3, spans_of_type_list(generics1)));
    let b3 = spans_of_type_list(generics1);
    lemma_chain(g, g2, g3, a2, b3);
    let a3 = a2 + b3;
}

proof fn lemma_field_init(g: SpanGen, x: FieldInit)
    ensures
        handed(
            g,
            crate::respan::respan_field_init(g, x).0,
            spans_of_field_init(crate::respan::respan_field_init(g, x).1),
        ),
    decreases x, 1int,
{
    let (g1, name1) = crate::respan::respan_ident(g, x.name);
    lemma_one(g);
    assert(handed(g, g1, seq![name1.span]));
    let a1 = seq![name1.span];
    let (g2, span1) = (g1.after(), g1.span());
    lemma_one(g1);
    assert(handed(g1, g2, seq![span1]));
    let b2 = seq![span1];
    lemma_chain(g, g1, g2, a1, b2);
    let a2 = a1 + b2;
    let (g3, value1) = match x.value {
        Some(z) => { let (h2, y2) = crate::respan::respan_expr(g2, z); (h2, Some(y2)) },
        None => (g2, None),
    };
    match x.value {
        Some(z) => {
            lemma_expr(g2, z);
        },
        None => lemma_none(g2),
    }
    assert(handed(g2, g3, (match value1 { Some(z) => spans_of_expr(z), None => Seq::<Span>::empty() })));
    let b3 = (match value1 { Some(z) => spans_of_expr(z), None => Seq::<Span>::empty() });
    lemma_chain(g, g2, g3, a2, b3);
    let a3 = a2 + b3;
}

proof fn lemma_block(g: SpanGen, x: Block)
    ensures
        handed(g, crate::respan::respan_block(g, x).0, spans_of_block(crate::respan::respan_block(g, x).1)),
    decreases x, 1int,
{
    let (g1, span1) = (g.after(), g.span());
    lemma_one(g);
    assert(handed(g, g1, seq![span1]));
    let a1 = seq![span1];
    let (g2, stmts1) = crate::respan::respan_stmt_list(g1, x.stmts);
    lemma_stmt_list(g1, x.stmts);
    assert(handed(g1, g2, spans_of_stmt_list(stmts1)));
    let b2 = spans_of_stmt_list(stmts1);
    lemma_chain(g, g1, g2, a1, b2);
    let a2 = a1 + b2;
    let (g3, trailing1) = match x.trailing {
        Some(z) => {
            let (h2, y2) = { let (h, y) = crate::respan::respan_expr(g2, *z); (h, Box::new(y)) };
            (h2, Some(y2))
        },
        None => (g2, None),
    };
    match x.trailing {
        Some(z) => {
            lemma_expr(g2, *z);
        },
        None => lemma_none(g2),
    }
    assert(handed(g2, g3, (match trailing1 { Some(z) => spans_of_expr(*z), None => Seq::<Span>::empty() })));
    let b3 = (match trailing1 { Some(z) => spans_of_expr(*z), None => Seq::<Span>::empty() });
    lemma_chain(g, g2, g3, a2, b3);
    let a3 = a2 + b3;
}

proof fn lemma_stmt(g: SpanGen, x: Stmt)
    ensures
        handed(g, crate::respan::respan_stmt(g, x).0, spans_of_stmt(crate::respan::respan_stmt(g, x).1)),
    decreases x, 1int,
{
    let (g1, span1) = (g.after(), g.span());
    lemma_one(g);
    assert(handed(g, g1, seq![span1]));
    let a1 = seq![span1];
    let (g2, kind1) = crate::respan::respan_stmt_kind(g1, x.kind);
    lemma_stmt_kind(g1, x.kind);
    assert(handed(g1, g2, spans_of_stmt_kind(kind1)));
    let b2 = spans_of_stmt_kind(kind1);
    lemma_chain(g, g1, g2, a1, b2);
    let a2 = a1 + b2;
}

proof fn lemma_assign(g: SpanGen, x: StmtKind)
    requires
        x is Assign,
    ensures
        handed(g, crate::respan::respan_stmt_kind(g, x).0, spans_of_stmt_kind(crate::respan::respan_stmt_kind(g, x).1)),
    decreases x, 0int,
{
    let target = x->Assign_target;
    let value = x->Assign_value;
    let (g1, target1) = crate::respan::respan_expr(g, target);
    lemma_expr(g, target);
    let (g2, value1) = crate::respan::respan_expr(g1, value);
    lemma_expr(g1, value);
    lemma_chain(g, g1, g2, spans_of_expr(target1), spans_of_expr(value1));
    let y = StmtKind::Assign { target: target1, value: value1 };
    assert(crate::respan::respan_stmt_kind(g, x) == (g2, y));
    assert(spans_of_stmt_kind(y) == spans_of_expr(target1) + spans_of_expr(value1));
}

proof fn lemma_expr_stmt(g: SpanGen, x: StmtKind)
    requires
        x is Expr,
    ensures
        handed(g, crate::respan::respan_stmt_kind(g, x).0, spans_of_stmt_kind(crate::respan::respan_stmt_kind(g, x).1)),
    decreases x, 0int,
{
    let (g1, y) = crate::respan::respan_expr(g, x->Expr_0);
    lemma_expr(g, x->Expr_0);
    assert(crate::respan::respan_stmt_kind(g, x) == (g1, StmtKind::Expr(y)));
    assert(spans_of_stmt_kind(StmtKind::Expr(y)) == spans_of_expr(y));
}

proof fn lemma_var(g: SpanGen, x: StmtKind)
    requires
        x is Var,
    ensures
        handed(g, crate::respan::respan_stmt_kind(g, x).0, spans_of_stmt_kind(crate::respan::respan_stmt_kind(g, x).1)),
    decreases x, 0int,
{
    let (g1, y) = crate::respan::respan_local_var(g, x->Var_0);
    lemma_local_var(g, x->Var_0);
    assert(crate::respan::respan_stmt_kind(g, x) == (g1, StmtKind::Var(y)));
    assert(spans_of_stmt_kind(StmtKind::Var(y)) == spans_of_local_var(y));
}

proof fn lemma_stmt_kind(g: SpanGen, x: StmtKind)
    ensures
        handed(g, crate::respan::respan_stmt_kind(g, x).0, spans_of_stmt_kind(crate::respan::respan_stmt_kind(g, x).1)),
    decreases x, 1int,
{
    match x {
        StmtKind::Var(_) => lemma_var(g, x),
        StmtKind::Assign { .. } => lemma_assign(g, x),
        StmtKind::Expr(_) => lemma_expr_stmt(g, x),
        StmtKind::Item(_) => lemma_none(g),
    }
}

proof fn lemma_local_var(g: SpanGen, x: LocalVar)
    ensures
        handed(g, crate::respan::respan_local_var(g, x).0, spans_of_local_var(crate::respan::respan_local_var(g, x).1)),
    decreases x, 1int,
{
    let (g1, pattern1) = crate::respan::respan_pattern(g, x.pattern);
    lemma_pattern(g, x.pattern);
    assert(handed(g, g1, spans_of_pattern(pattern1)));
    let a1 = spans_of_pattern(pattern1);
    let (g2, ty1) = match x.ty {
        Some(z) => { let (h2, y2) = crate::respan::respan_type(g1, z); (h2, Some(y2)) },
        None => (g1, None),
    };
    match x.ty {
        Some(z) => {
            lemma_type(g1, z);
        },
        None => lemma_none(g1),
    }
    assert(handed(g1, g2, (match ty1 { Some(z) => spans_of_type(z), None => Seq::<Span>::empty() })));
    let b2 = (match ty1 { Some(z) => spans_of_type(z), None => Seq::<Span>::empty() });
    lemma_chain(g, g1, g2, a1, b2);
    let a2 = a1 + b2;
    let (g3, init1) = crate::respan::respan_expr(g2, x.init);
    lemma_expr(g2, x.init);
    assert(handed(g2, g3, spans_of_expr(init1)));
    let b3 = spans_of_expr(init1);
    lemma_chain(g, g2, g3, a2, b3);
    let a3 = a2 + b3;
}

proof fn lemma_pattern(g: SpanGen, x: Pattern)
    ensures
        handed(g, crate::respan::respan_pattern(g, x).0, spans_of_pattern(crate::respan::respan_pattern(g, x).1)),
    decreases x, 1int,
{
    let (g1, span1) = (g.after(), g.span());
    lemma_one(g);
    assert(handed(g, g1, seq![span1]));
    let a1 = seq![span1];
    let (g2, kind1) = crate::respan::respan_pattern_kind(g1, x.kind);
    lemma_pattern_kind(g1, x.kind);
    assert(handed(g1, g2, spans_of_pattern_kind(kind1)));
    let b2 = spans_of_pattern_kind(kind1);
    lemma_chain(g, g1, g2, a1, b2);
    let a2 = a1 + b2;
}

proof fn lemma_pattern_kind(g: SpanGen, x: PatternKind)
    ensures
        handed(
            g,
            crate::respan::respan_pattern_kind(g, x).0,
            spans_of_pattern_kind(crate::respan::respan_pattern_kind(g, x).1),
        ),
    decreases x, 1int,
{
    match x {
        PatternKind::Wildcard => lemma_none(g),
        PatternKind::Binding(a) => {
            lemma_one(g);
        },
        PatternKind::Literal(a) => {
            lemma_expr(g, *a);
        },
        PatternKind::TypeBinding { ty, binding } => {
            let (g1, ty1) = crate::respan::respan_type(g, ty);
            lemma_type(g, ty);
            assert(handed(g, g1, spans_of_type(ty1)));
            let a1 = spans_of_type(ty1);
            let (g2, binding1) = match binding {
                Some(z) => { let (h2, y2) = crate::respan::respan_ident(g1, z); (h2, Some(y2)) },
                None => (g1, None),
            };
            match binding {
                Some(z) => {
                    lemma_one(g1);
                },
                None => lemma_none(g1),
            }
            assert(handed(g1, g2, (match binding1 { Some(z) => seq![z.span], None => Seq::<Span>::empty() })));
            let b2 = (match binding1 { Some(z) => seq![z.span], None => Seq::<Span>::empty() });
            lemma_chain(g, g1, g2, a1, b2);
            let a2 = a1 + b2;
        },
        PatternKind::UnitPath(a) => {
            lemma_type_path(g, a);
        },
        PatternKind::TupleStruct { path, fields, rest } => {
            let (g1, path1) = crate::respan::respan_type_path(g, path);
            lemma_type_path(g, path);
            assert(handed(g, g1, spans_of_type_path(path1)));
            let a1 = spans_of_type_path(path1);
            let (g2, fields1) = crate::respan::respan_pattern_list(g1, fields);
            lemma_pattern_list(g1, fields);
            assert(handed(g1, g2, spans_of_pattern_list(fields1)));
            let b2 = spans_of_pattern_list(fields1);
            lemma_chain(g, g1, g2, a1, b2);
            let a2 = a1 + b2;
            let (g3, rest1) = match rest {
                Some(z) => { let (h2, y2) = crate::respan::respan_rest(g2, z); (h2, Some(y2)) },
                None => (g2, None),
            };
            match rest {
                Some(z) => {
                    lemma_rest(g2, z);
                },
                None => lemma_none(g2),
            }
            assert(handed(g2, g3, (match rest1 { Some(z) => spans_of_rest(z), None => Seq::<Span>::empty() })));
            let b3 = (match rest1 { Some(z) => spans_of_rest(z), None => Seq::<Span>::empty() });
            lemma_chain(g, g2, g3, a2, b3);
            let a3 = a2 + b3;
        },
        PatternKind::RecordStruct { path, fields, .. } => {
            let (g1, path1) = crate::respan::respan_type_path(g, path);
            lemma_type_path(g, path);
            assert(handed(g, g1, spans_of_type_path(path1)));
            let a1 = spans_of_type_path(path1);
            let (g2, fields1) = crate::respan::respan_field_pattern_list(g1, fields);
            lemma_field_pattern_list(g1, fields);
            assert(handed(g1, g2, spans_of_field_pattern_list(fields1)));
            let b2 = spans_of_field_pattern_list(fields1);
            lemma_chain(g, g1, g2, a1, b2);
            let a2 = a1 + b2;
        },
        PatternKind::Tuple { elems, rest } => {
            let (g1, elems1) = crate::respan::respan_pattern_list(g, elems);
            lemma_pattern_list(g, elems);
            assert(handed(g, g1, spans_of_pattern_list(elems1)));
            let a1 = spans_of_pattern_list(elems1);
            let (g2, rest1) = match rest {
                Some(z) => { let (h2, y2) = crate::respan::respan_rest_at(g1, z); (h2, Some(y2)) },
                None => (g1, None),
            };
            match rest {
                Some(z) => {
                    lemma_rest_at(g1, z);
                },
                None => lemma_none(g1),
            }
            assert(handed(g1, g2, (match rest1 { Some(z) => spans_of_rest_at(z), None => Seq::<Span>::empty() })));
            let b2 = (match rest1 { Some(z) => spans_of_rest_at(z), None => Seq::<Span>::empty() });
            lemma_chain(g, g1, g2, a1, b2);
            let a2 = a1 + b2;
        },
        PatternKind::List { elems, rest } => {
            let (g1, elems1) = crate::respan::respan_pattern_list(g, elems);
            lemma_pattern_list(g, elems);
            assert(handed(g, g1, spans_of_pattern_list(elems1)));
            let a1 = spans_of_pattern_list(elems1);
            let (g2, rest1) = match rest {
                Some(z) => { let (h2, y2) = crate::respan::respan_rest_at(g1, z); (h2, Some(y2)) },
                None => (g1, None),
            };
            match rest {
                Some(z) => {
                    lemma_rest_at(g1, z);
                },
                None => lemma_none(g1),
            }
            assert(handed(g1, g2, (match rest1 { Some(z) => spans_of_rest_at(z), None => Seq::<Span>::empty() })));
            let b2 = (match rest1 { Some(z) => spans_of_rest_at(z), None => Seq::<Span>::empty() });
            lemma_chain(g, g1, g2, a1, b2);
            let a2 = a1 + b2;
        },
        PatternKind::Or(a) => {
            lemma_pattern_list(g, a);
        },
    }
}

proof fn lemma_field_pattern(g: SpanGen, x: FieldPattern)
    ensures
        handed(
            g,
            crate::respan::respan_field_pattern(g, x).0,
            spans_of_field_pattern(crate::respan::respan_field_pattern(g, x).1),
        ),
    decreases x, 1int,
{
    let (g1, name1) = crate::respan::respan_ident(g, x.name);
    lemma_one(g);
    assert(handed(g, g1, seq![name1.span]));
    let a1 = seq![name1.span];
    let (g2, span1) = (g1.after(), g1.span());
    lemma_one(g1);
    assert(handed(g1, g2, seq![span1]));
    let b2 = seq![span1];
    lemma_chain(g, g1, g2, a1, b2);
    let a2 = a1 + b2;
    let (g3, pattern1) = match x.pattern {
        Some(z) => { let (h2, y2) = crate::respan::respan_pattern(g2, z); (h2, Some(y2)) },
        None => (g2, None),
    };
    match x.pattern {
        Some(z) => {
            lemma_pattern(g2, z);
        },
        None => lemma_none(g2),
    }
    assert(handed(g2, g3, (match pattern1 { Some(z) => spans_of_pattern(z), None => Seq::<Span>::empty() })));
    let b3 = (match pattern1 { Some(z) => spans_of_pattern(z), None => Seq::<Span>::empty() });
    lemma_chain(g, g2, g3, a2, b3);
    let a3 = a2 + b3;
}

proof fn lemma_else_branch(g: SpanGen, x: ElseBranch)
    ensures
        handed(
            g,
            crate::respan::respan_else_branch(g, x).0,
            spans_of_else_branch(crate::respan::respan_else_branch(g, x).1),
        ),
    decreases x, 1int,
{
    match x {
        ElseBranch::If(a) => {
            lemma_expr(g, *a);
        },
        ElseBranch::Block(a) => {
            lemma_block(g, a);
        },
    }
}

proof fn lemma_match_arm(g: SpanGen, x: MatchArm)
    ensures
        handed(g, crate::respan::respan_match_arm(g, x).0, spans_of_match_arm(crate::respan::respan_match_arm(g, x).1)),
    decreases x, 1int,
{
    let (g1, span1) = (g.after(), g.span());
    lemma_one(g);
    assert(handed(g, g1, seq![span1]));
    let a1 = seq![span1];
    let (g2, pattern1) = crate::respan::respan_pattern(g1, x.pattern);
    lemma_pattern(g1, x.pattern);
    assert(handed(g1, g2, spans_of_pattern(pattern1)));
    let b2 = spans_of_pattern(pattern1);
    lemma_chain(g, g1, g2, a1, b2);
    let a2 = a1 + b2;
    let (g3, guard1) = match x.guard {
        Some(z) => { let (h2, y2) = crate::respan::respan_expr(g2, z); (h2, Some(y2)) },
        None => (g2, None),
    };
    match x.guard {
        Some(z) => {
            lemma_expr(g2, z);
        },
        None => lemma_none(g2),
    }
    assert(handed(g2, g3, (match guard1 { Some(z) => spans_of_expr(z), None => Seq::<Span>::empty() })));
    let b3 = (match guard1 { Some(z) => spans_of_expr(z), None => Seq::<Span>::empty() });
    lemma_chain(g, g2, g3, a2, b3);
    let a3 = a2 + b3;
    let (g4, body1) = crate::respan::respan_expr(g3, x.body);
    lemma_expr(g3, x.body);
    assert(handed(g3, g4, spans_of_expr(body1)));
    let b4 = spans_of_expr(body1);
    lemma_chain(g, g3, g4, a3, b4);
    let a4 = a3 + b4;
}

proof fn lemma_closure_param(g: SpanGen, x: ClosureParam)
    ensures
        handed(
            g,
            crate::respan::respan_closure_param(g, x).0,
            spans_of_closure_param(crate::respan::respan_closure_param(g, x).1),
        ),
    decreases x, 1int,
{
    let (g1, span1) = (g.after(), g.span());
    lemma_one(g);
    assert(handed(g, g1, seq![span1]));
    let a1 = seq![span1];
    let (g2, name1) = crate::respan::respan_ident(g1, x.name);
    lemma_one(g1);
    assert(handed(g1, g2, seq![name1.span]));
    let b2 = seq![name1.span];
    lemma_chain(g, g1, g2, a1, b2);
    let a2 = a1 + b2;
    let (g3, ty1) = match x.ty {
        Some(z) => { let (h2, y2) = crate::respan::respan_type(g2, z); (h2, Some(y2)) },
        None => (g2, None),
    };
    match x.ty {
        Some(z) => {
            lemma_type(g2, z);
        },
        None => lemma_none(g2),
    }
    assert(handed(g2, g3, (match ty1 { Some(z) => spans_of_type(z), None => Seq::<Span>::empty() })));
    let b3 = (match ty1 { Some(z) => spans_of_type(z), None => Seq::<Span>::empty() });
    lemma_chain(g, g2, g3, a2, b3);
    let a3 = a2 + b3;
}

proof fn lemma_attr_arg(g: SpanGen, x: AttrArg)
    ensures
        handed(g, crate::respan::respan_attr_arg(g, x).0, spans_of_attr_arg(crate::respan::respan_attr_arg(g, x).1)),
    decreases x, 1int,
{
    match x {
        AttrArg::Positional(a) => {
            lemma_expr(g, a);
        },
        AttrArg::Named { value, .. } => {
            let (g1, value1) = crate::respan::respan_expr(g, value);
            lemma_expr(g, value);
            assert(handed(g, g1, spans_of_expr(value1)));
            let a1 = spans_of_expr(value1);
        },
    }
}

proof fn lemma_param(g: SpanGen, x: Param)
    ensures
        handed(g, crate::respan::respan_param(g, x).0, spans_of_param(crate::respan::respan_param(g, x).1)),
    decreases x, 1int,
{
    let (g1, span1) = (g.after(), g.span());
    lemma_one(g);
    assert(handed(g, g1, seq![span1]));
    let a1 = seq![span1];
    let (g2, kind1) = crate::respan::respan_param_kind(g1, x.kind);
    lemma_param_kind(g1, x.kind);
    assert(handed(g1, g2, spans_of_param_kind(kind1)));
    let b2 = spans_of_param_kind(kind1);
    lemma_chain(g, g1, g2, a1, b2);
    let a2 = a1 + b2;
}

proof fn lemma_param_kind(g: SpanGen, x: ParamKind)
    ensures
        handed(
            g,
            crate::respan::respan_param_kind(g, x).0,
            spans_of_param_kind(crate::respan::respan_param_kind(g, x).1),
        ),
    decreases x, 1int,
{
    match x {
        ParamKind::SelfParam => lemma_none(g),
        ParamKind::Normal { name, ty } => {
            let (g1, name1) = crate::respan::respan_ident(g, name);
            lemma_one(g);
            assert(handed(g, g1, seq![name1.span]));
            let a1 = seq![name1.span];
            let (g2, ty1) = crate::respan::respan_type(g1, ty);
            lemma_type(g1, ty);
            assert(handed(g1, g2, spans_of_type(ty1)));
            let b2 = spans_of_type(ty1);
            lemma_chain(g, g1, g2, a1, b2);
            let a2 = a1 + b2;
        },
    }
}

/// A re-spanned method has spans that were not handed out before, each of them
/// once.
pub proof fn law_respan_fresh(g: SpanGen, f: FunctionItem)
    ensures
        handed(g, crate::respan::respan_function(g, f).0, spans_of_function(crate::respan::respan_function(g, f).1)),
{
    lemma_function(g, f);
}

// -- the copied defaults -----------------------------------------------------------------

/// The spans of methods and their bodies.
pub open spec fn spans_of_members(l: List<ExtendMember>) -> Seq<Span>
    decreases l,
{
    match l {
        List::Nil => Seq::empty(),
        List::Cons(h, t) => spans_of_function(h.function) + seq![h.span] + spans_of_members(*t),
    }
}

proof fn lemma_members_append(a: List<ExtendMember>, b: List<ExtendMember>)
    ensures
        spans_of_members(a.then_list(b)) == spans_of_members(a) + spans_of_members(b),
    decreases a,
{
    match a {
        List::Nil => {
            assert(Seq::<Span>::empty() + spans_of_members(b) =~= spans_of_members(b));
        },
        List::Cons(h, t) => {
            lemma_members_append(*t, b);
            let first = spans_of_function(h.function) + seq![h.span];
            assert(first + (spans_of_members(*t) + spans_of_members(b)) =~= (first + spans_of_members(*t))
                + spans_of_members(b));
        },
    }
}

proof fn lemma_missing(g: SpanGen, l: List<InterfaceMember>, subst: List<TypeBinding>, have: List<Symbol>)
    ensures
        handed(
            g,
            crate::defaults::missing_defaults(g, l, subst, have).0,
            spans_of_members(crate::defaults::missing_defaults(g, l, subst, have).1),
        ),
    decreases l,
{
    match l {
        List::Nil => lemma_none(g),
        List::Cons(h, t) => match h.default_body {
            Some(body) => {
                if crate::subst::has_name(have, h.function.name.name) {
                    lemma_missing(g, *t, subst, have);
                } else {
                    let f = crate::defaults::default_function(*h, body, subst);
                    let (g1, f1) = crate::respan::respan_function(g, f);
                    let (g2, m) = crate::defaults::default_member(g, *h, body, subst);
                    let had = List::Cons(Box::new(h.function.name.name), Box::new(have));
                    let (g3, rest, _) = crate::defaults::missing_defaults(g2, *t, subst, had);
                    lemma_function(g, f);
                    lemma_one(g1);
                    lemma_chain(g, g1, g2, spans_of_function(f1), seq![m.span]);
                    lemma_missing(g2, *t, subst, had);
                    lemma_chain(g, g2, g3, spans_of_function(f1) + seq![m.span], spans_of_members(rest));
                }
            },
            None => lemma_missing(g, *t, subst, have),
        },
    }
}

/// The defaults that a block gets have spans that were not handed out before,
/// and no two nodes of them share one.
pub proof fn law_defaults_fresh(
    g: SpanGen,
    l: List<Type>,
    locals: List<Item>,
    foreign: List<ForeignEntry>,
    have: List<Symbol>,
)
    ensures
        handed(
            g,
            crate::defaults::additions(g, l, locals, foreign, have).0,
            spans_of_members(crate::defaults::additions(g, l, locals, foreign, have).1),
        ),
    decreases l,
{
    match l {
        List::Nil => lemma_none(g),
        List::Cons(h, t) => match h.kind {
            TypeKind::Named { name, generics } => match crate::defaults::named_iface(locals, foreign, name.name) {
                Some(iface) => {
                    let subst = crate::defaults::param_subst(iface, generics);
                    let (g1, ms, had) = crate::defaults::missing_defaults(g, iface.members, subst, have);
                    let (g2, rest) = crate::defaults::additions(g1, *t, locals, foreign, had);
                    lemma_missing(g, iface.members, subst, have);
                    law_defaults_fresh(g1, *t, locals, foreign, had);
                    lemma_chain(g, g1, g2, spans_of_members(ms), spans_of_members(rest));
                    lemma_members_append(ms, rest);
                },
                None => law_defaults_fresh(g, *t, locals, foreign, have),
            },
            _ => law_defaults_fresh(g, *t, locals, foreign, have),
        },
    }
}

// -- hoisted temporaries -----------------------------------------------------------------

/// The spans of a binding statement and of the expression that reads it, without
/// those of the bound value.
pub open spec fn spans_of_temp(stmt: Stmt, read: Expr) -> Seq<Span> {
    match (stmt.kind, read.kind) {
        (StmtKind::Var(v), ExprKind::Ident(id)) => match v.pattern.kind {
            PatternKind::Binding(b) => seq![b.span, id.span, v.pattern.span, stmt.span, read.span],
            _ => Seq::empty(),
        },
        _ => Seq::empty(),
    }
}

/// A hoisted value gets spans that no other temporary has: those that its binding
/// and its reading carry are exactly the ones handed out for it.
pub proof fn law_temp_fresh(s: Sess, value: Expr)
    ensures
        ({
            let (s1, stmt, read) = crate::anf::hoisted(s, value);
            handed(s.hoist_spans, s1.hoist_spans, spans_of_temp(stmt, read)) && spans_of_temp(stmt, read).len() == 5
        }),
{
    let g0 = s.hoist_spans;
    let g1 = g0.after();
    let g2 = g1.after();
    let g3 = g2.after();
    let g4 = g3.after();
    lemma_one(g0);
    lemma_one(g1);
    lemma_one(g2);
    lemma_one(g3);
    lemma_one(g4);
    let a = seq![g0.span()] + seq![g1.span()];
    lemma_chain(g0, g1, g2, seq![g0.span()], seq![g1.span()]);
    lemma_chain(g0, g2, g3, a, seq![g2.span()]);
    let b = a + seq![g2.span()];
    lemma_chain(g0, g3, g4, b, seq![g3.span()]);
    let c = b + seq![g3.span()];
    lemma_chain(g0, g4, g4.after(), c, seq![g4.span()]);
    let (s1, stmt, read) = crate::anf::hoisted(s, value);
    assert(spans_of_temp(stmt, read) =~= c + seq![g4.span()]);
}

} // verus!
