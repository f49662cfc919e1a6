//! Interface type-parameter substitution: each bare `Named` type whose name is
//! an interface parameter (and not shadowed by a method-local generic) becomes
//! the argument the implementer wrote.
use vstd::prelude::*;
use crate::list::List;
use crate::names::Symbol;
use crate::ast::{
    AttrArg, Block, ClosureParam, ElseBranch, Expr, ExprKind, ExternParam, FieldInit, FieldPattern, FunctionItem,
    GenericParam, GenericParams, LocalVar, MapItem, MatchArm, Param, ParamKind, Pattern, PatternKind, Stmt, StmtKind, StringLit, StringPart, Type,
    TypeKind, TypePath,
};
use crate::dup::{dup_item, dup_type};

verus! {

/// An interface parameter and the type that takes its place.
#[derive(Debug)]
pub struct TypeBinding {
    pub name: Symbol,
    pub ty: Type,
}

/// The type bound to `name`; the binding added last wins.
pub open spec fn bound_type(m: List<TypeBinding>, name: Symbol) -> Option<Type>
    decreases m,
{
    match m {
        List::Nil => None,
        List::Cons(h, t) => if h.name == name {
            Some(h.ty)
        } else {
            bound_type(*t, name)
        },
    }
}

pub fn find_type<'a>(m: &'a List<TypeBinding>, name: Symbol) -> (r: Option<&'a Type>)
    ensures
        match r {
            Some(t) => bound_type(*m, name) == Some(*t),
            None => bound_type(*m, name) is None,
        },
    decreases m,
{
    match m {
        List::Nil => None,
        List::Cons(h, t) => if h.name == name {
            Some(&h.ty)
        } else {
            find_type(t, name)
        },
    }
}

pub open spec fn has_name(l: List<Symbol>, name: Symbol) -> bool
    decreases l,
{
    match l {
        List::Nil => false,
        List::Cons(h, t) => *h == name || has_name(*t, name),
    }
}

pub fn contains_name(l: &List<Symbol>, name: Symbol) -> (r: bool)
    ensures
        r == has_name(*l, name),
    decreases l,
{
    match l {
        List::Nil => false,
        List::Cons(h, t) => **h == name || contains_name(t, name),
    }
}

/// What a named type is replaced by. It is not itself substituted into: it may
/// mention the implementer's own generics.
pub open spec fn replacement(
    name: Symbol,
    generics: List<Type>,
    m: List<TypeBinding>,
    shadow: List<Symbol>,
) -> Option<Type> {
    if generics is Nil && !has_name(shadow, name) {
        bound_type(m, name)
    } else {
        None
    }
}

fn find_replacement<'a>(
    name: Symbol,
    generics: &List<Type>,
    m: &'a List<TypeBinding>,
    shadow: &List<Symbol>,
) -> (r: Option<&'a Type>)
    ensures
        match r {
            Some(t) => replacement(name, *generics, *m, *shadow) == Some(*t),
            None => replacement(name, *generics, *m, *shadow) is None,
        },
{
    if generics.is_empty() && !contains_name(shadow, name) {
        find_type(m, name)
    } else {
        None
    }
}

pub open spec fn sub_param_list(l: List<Param>, m: List<TypeBinding>, shadow: List<Symbol>) -> List<Param>
    decreases l,
{
    match l {
        List::Nil => List::Nil,
        List::Cons(h, t) => List::Cons(
            Box::new(sub_param(*h, m, shadow)),
            Box::new(sub_param_list(*t, m, shadow)),
        ),
    }
}

pub open spec fn sub_type_list(l: List<Type>, m: List<TypeBinding>, shadow: List<Symbol>) -> List<Type>
    decreases l,
{
    match l {
        List::Nil => List::Nil,
        List::Cons(h, t) => List::Cons(
            Box::new(sub_type(*h, m, shadow)),
            Box::new(sub_type_list(*t, m, shadow)),
        ),
    }
}

pub open spec fn sub_extern_param_list(
    l: List<ExternParam>,
    m: List<TypeBinding>,
    shadow: List<Symbol>,
) -> List<ExternParam>
    decreases l,
{
    match l {
        List::Nil => List::Nil,
        List::Cons(h, t) => List::Cons(
            Box::new(sub_extern_param(*h, m, shadow)),
            Box::new(sub_extern_param_list(*t, m, shadow)),
        ),
    }
}

pub open spec fn sub_string_part_list(
    l: List<StringPart>,
    m: List<TypeBinding>,
    shadow: List<Symbol>,
) -> List<StringPart>
    decreases l,
{
    match l {
        List::Nil => List::Nil,
        List::Cons(h, t) => List::Cons(
            Box::new(sub_string_part(*h, m, shadow)),
            Box::new(sub_string_part_list(*t, m, shadow)),
        ),
    }
}

pub open spec fn sub_expr_list(l: List<Expr>, m: List<TypeBinding>, shadow: List<Symbol>) -> List<Expr>
    decreases l,
{
    match l {
        List::Nil => List::Nil,
        List::Cons(h, t) => List::Cons(
            Box::new(sub_expr(*h, m, shadow)),
            Box::new(sub_expr_list(*t, m, shadow)),
        ),
    }
}

pub open spec fn sub_map_item_list(l: List<MapItem>, m: List<TypeBinding>, shadow: List<Symbol>) -> List<MapItem>
    decreases l,
{
    match l {
        List::Nil => List::Nil,
        List::Cons(h, t) => List::Cons(
            Box::new(sub_map_item(*h, m, shadow)),
            Box::new(sub_map_item_list(*t, m, shadow)),
        ),
    }
}

pub open spec fn sub_field_init_list(l: List<FieldInit>, m: List<TypeBinding>, shadow: List<Symbol>) -> List<FieldInit>
    decreases l,
{
    match l {
        List::Nil => List::Nil,
        List::Cons(h, t) => List::Cons(
            Box::new(sub_field_init(*h, m, shadow)),
            Box::new(sub_field_init_list(*t, m, shadow)),
        ),
    }
}

pub open spec fn sub_stmt_list(l: List<Stmt>, m: List<TypeBinding>, shadow: List<Symbol>) -> List<Stmt>
    decreases l,
{
    match l {
        List::Nil => List::Nil,
        List::Cons(h, t) => List::Cons(
            Box::new(sub_stmt(*h, m, shadow)),
            Box::new(sub_stmt_list(*t, m, shadow)),
        ),
    }
}

pub open spec fn sub_pattern_list(l: List<Pattern>, m: List<TypeBinding>, shadow: List<Symbol>) -> List<Pattern>
    decreases l,
{
    match l {
        List::Nil => List::Nil,
        List::Cons(h, t) => List::Cons(
            Box::new(sub_pattern(*h, m, shadow)),
            Box::new(sub_pattern_list(*t, m, shadow)),
        ),
    }
}

pub open spec fn sub_field_pattern_list(
    l: List<FieldPattern>,
    m: List<TypeBinding>,
    shadow: List<Symbol>,
) -> List<FieldPattern>
    decreases l,
{
    match l {
        List::Nil => List::Nil,
        List::Cons(h, t) => List::Cons(
            Box::new(sub_field_pattern(*h, m, shadow)),
            Box::new(sub_field_pattern_list(*t, m, shadow)),
        ),
    }
}

pub open spec fn sub_match_arm_list(l: List<MatchArm>, m: List<TypeBinding>, shadow: List<Symbol>) -> List<MatchArm>
    decreases l,
{
    match l {
        List::Nil => List::Nil,
        List::Cons(h, t) => List::Cons(
            Box::new(sub_match_arm(*h, m, shadow)),
            Box::new(sub_match_arm_list(*t, m, shadow)),
        ),
    }
}

pub open spec fn sub_closure_param_list(
    l: List<ClosureParam>,
    m: List<TypeBinding>,
    shadow: List<Symbol>,
) -> List<ClosureParam>
    decreases l,
{
    match l {
        List::Nil => List::Nil,
        List::Cons(h, t) => List::Cons(
            Box::new(sub_closure_param(*h, m, shadow)),
            Box::new(sub_closure_param_list(*t, m, shadow)),
        ),
    }
}

pub open spec fn sub_attr_arg_list(l: List<AttrArg>, m: List<TypeBinding>, shadow: List<Symbol>) -> List<AttrArg>
    decreases l,
{
    match l {
        List::Nil => List::Nil,
        List::Cons(h, t) => List::Cons(
            Box::new(sub_attr_arg(*h, m, shadow)),
            Box::new(sub_attr_arg_list(*t, m, shadow)),
        ),
    }
}

pub open spec fn sub_function_types(x: FunctionItem, m: List<TypeBinding>, shadow: List<Symbol>) -> FunctionItem
    decreases x,
{
    FunctionItem {
        name: x.name,
        generics: match x.generics { Some(y) => Some(sub_generic_params(y, m, shadow)), None => None },
        params: sub_param_list(x.params, m, shadow),
        return_type: match x.return_type { Some(y) => Some(sub_type(y, m, shadow)), None => None },
        is_async: x.is_async,
        body: match x.body { Some(y) => Some(sub_block(y, m, shadow)), None => None },
    }
}

pub open spec fn sub_generic_params(x: GenericParams, m: List<TypeBinding>, shadow: List<Symbol>) -> GenericParams
    decreases x,
{
    GenericParams { params: sub_generic_param_list(x.params, m, shadow), span: x.span }
}

pub open spec fn sub_generic_param_list(
    l: List<GenericParam>,
    m: List<TypeBinding>,
    shadow: List<Symbol>,
) -> List<GenericParam>
    decreases l,
{
    match l {
        List::Nil => List::Nil,
        List::Cons(h, t) => List::Cons(
            Box::new(sub_generic_param(*h, m, shadow)),
            Box::new(sub_generic_param_list(*t, m, shadow)),
        ),
    }
}

/// A generic parameter keeps its name; its bounds are substituted.
pub open spec fn sub_generic_param(x: GenericParam, m: List<TypeBinding>, shadow: List<Symbol>) -> GenericParam
    decreases x,
{
    GenericParam { name: x.name, bounds: sub_type_list(x.bounds, m, shadow) }
}

pub open spec fn sub_param(x: Param, m: List<TypeBinding>, shadow: List<Symbol>) -> Param
    decreases x,
{
    Param {
        kind: sub_param_kind(x.kind, m, shadow),
        span: x.span,
    }
}

pub open spec fn sub_param_kind(x: ParamKind, m: List<TypeBinding>, shadow: List<Symbol>) -> ParamKind
    decreases x,
{
    match x {
        ParamKind::SelfParam => ParamKind::SelfParam,
        ParamKind::Normal { name, ty } => ParamKind::Normal { name, ty: sub_type(ty, m, shadow) },
    }
}

pub open spec fn sub_type(x: Type, m: List<TypeBinding>, shadow: List<Symbol>) -> Type
    decreases x,
{
    match x.kind {
        TypeKind::Named { name, generics } => match replacement(name.name, generics, m, shadow) {
            Some(t) => t,
            None => Type { kind: sub_type_kind(x.kind, m, shadow), span: x.span },
        },
        _ => Type { kind: sub_type_kind(x.kind, m, shadow), span: x.span },
    }
}

pub open spec fn sub_type_kind(x: TypeKind, m: List<TypeBinding>, shadow: List<Symbol>) -> TypeKind
    decreases x,
{
    match x {
        TypeKind::Named { name, generics } => TypeKind::Named {
            name,
            generics: sub_type_list(generics, m, shadow),
        },
        TypeKind::Tuple(a) => TypeKind::Tuple(sub_type_list(a, m, shadow)),
        TypeKind::Function { params, ret } => TypeKind::Function {
            params: sub_type_list(params, m, shadow),
            ret: Box::new(sub_type(*ret, m, shadow)),
        },
        TypeKind::ExternFunction { params, ret } => TypeKind::ExternFunction {
            params: sub_extern_param_list(params, m, shadow),
            ret: Box::new(sub_type(*ret, m, shadow)),
        },
        TypeKind::Union(a) => TypeKind::Union(sub_type_list(a, m, shadow)),
        TypeKind::Pointer(a) => TypeKind::Pointer(Box::new(sub_type(*a, m, shadow))),
        TypeKind::Array { elem, len } => TypeKind::Array {
            elem: Box::new(sub_type(*elem, m, shadow)),
            len: Box::new(sub_expr(*len, m, shadow)),
        },
        TypeKind::SelfType => TypeKind::SelfType,
        TypeKind::Paren(a) => TypeKind::Paren(Box::new(sub_type(*a, m, shadow))),
    }
}

pub open spec fn sub_extern_param(x: ExternParam, m: List<TypeBinding>, shadow: List<Symbol>) -> ExternParam
    decreases x,
{
    ExternParam {
        ty: sub_type(x.ty, m, shadow),
        span: x.span,
    }
}

pub open spec fn sub_expr(x: Expr, m: List<TypeBinding>, shadow: List<Symbol>) -> Expr
    decreases x,
{
    Expr {
        kind: sub_expr_kind(x.kind, m, shadow),
        span: x.span,
    }
}

pub open spec fn sub_expr_kind(x: ExprKind, m: List<TypeBinding>, shadow: List<Symbol>) -> ExprKind
    decreases x,
{
    match x {
        ExprKind::Int(a) => ExprKind::Int(a),
        ExprKind::Float(a) => ExprKind::Float(a),
        ExprKind::Bool(a) => ExprKind::Bool(a),
        ExprKind::Null => ExprKind::Null,
        ExprKind::Char(a) => ExprKind::Char(a),
        ExprKind::Str(a) => ExprKind::Str(sub_string_lit(a, m, shadow)),
        ExprKind::Ident(a) => ExprKind::Ident(a),
        ExprKind::SelfExpr => ExprKind::SelfExpr,
        ExprKind::Underscore => ExprKind::Underscore,
        ExprKind::Continue => ExprKind::Continue,
        ExprKind::Paren(a) => ExprKind::Paren(Box::new(sub_expr(*a, m, shadow))),
        ExprKind::Tuple(a) => ExprKind::Tuple(sub_expr_list(a, m, shadow)),
        ExprKind::List(a) => ExprKind::List(sub_expr_list(a, m, shadow)),
        ExprKind::MapLit(a) => ExprKind::MapLit(sub_map_item_list(a, m, shadow)),
        ExprKind::StructLit { path, fields, spread } => ExprKind::StructLit {
            path: sub_type_path(path, m, shadow),
            fields: sub_field_init_list(fields, m, shadow),
            spread: match spread { Some(y) => Some(Box::new(sub_expr(*y, m, shadow))), None => None },
        },
        ExprKind::Unary { op, op_span, operand } => ExprKind::Unary {
            op,
            op_span,
            operand: Box::new(sub_expr(*operand, m, shadow)),
        },
        ExprKind::Binary { op, op_span, left, right } => ExprKind::Binary {
            op,
            op_span,
            left: Box::new(sub_expr(*left, m, shadow)),
            right: Box::new(sub_expr(*right, m, shadow)),
        },
        ExprKind::Cast { op, op_span, expr, ty } => ExprKind::Cast {
            op,
            op_span,
            expr: Box::new(sub_expr(*expr, m, shadow)),
            ty: Box::new(sub_type(*ty, m, shadow)),
        },
        ExprKind::Field { receiver, name } => ExprKind::Field {
            receiver: Box::new(sub_expr(*receiver, m, shadow)),
            name,
        },
        ExprKind::TupleIndex { receiver, index, index_span } => ExprKind::TupleIndex {
            receiver: Box::new(sub_expr(*receiver, m, shadow)),
            index,
            index_span,
        },
        ExprKind::Call { callee, generics, args, trailing_closure } => ExprKind::Call {
            callee: Box::new(sub_expr(*callee, m, shadow)),
            generics: sub_type_list(generics, m, shadow),
            args: sub_expr_list(args, m, shadow),
            trailing_closure: match trailing_closure {
                Some(y) => Some(Box::new(sub_expr(*y, m, shadow))),
                None => None,
            },
        },
        ExprKind::Index { receiver, index } => ExprKind::Index {
            receiver: Box::new(sub_expr(*receiver, m, shadow)),
            index: Box::new(sub_expr(*index, m, shadow)),
        },
        ExprKind::Try { expr, q_span } => ExprKind::Try { expr: Box::new(sub_expr(*expr, m, shadow)), q_span },
        ExprKind::Ref { expr, amp_span } => ExprKind::Ref {
            expr: Box::new(sub_expr(*expr, m, shadow)),
            amp_span,
        },
        ExprKind::Deref { expr, star_span } => ExprKind::Deref {
            expr: Box::new(sub_expr(*expr, m, shadow)),
            star_span,
        },
        ExprKind::Await { expr, kw_span } => ExprKind::Await {
            expr: Box::new(sub_expr(*expr, m, shadow)),
            kw_span,
        },
        ExprKind::Spawn { expr, kw_span } => ExprKind::Spawn {
            expr: Box::new(sub_expr(*expr, m, shadow)),
            kw_span,
        },
        ExprKind::If { cond, then_block, else_branch } => ExprKind::If {
            cond: Box::new(sub_expr(*cond, m, shadow)),
            then_block: sub_block(then_block, m, shadow),
            else_branch: match else_branch { Some(y) => Some(sub_else_branch(y, m, shadow)), None => None },
        },
        ExprKind::Match { scrutinee, arms } => ExprKind::Match {
            scrutinee: Box::new(sub_expr(*scrutinee, m, shadow)),
            arms: sub_match_arm_list(arms, m, shadow),
        },
        ExprKind::Block(a) => ExprKind::Block(sub_block(a, m, shadow)),
        ExprKind::Loop(a) => ExprKind::Loop(sub_block(a, m, shadow)),
        ExprKind::While { cond, body } => ExprKind::While {
            cond: Box::new(sub_expr(*cond, m, shadow)),
            body: sub_block(body, m, shadow),
        },
        ExprKind::For { pattern, in_async, iter, body } => ExprKind::For {
            pattern: sub_pattern(pattern, m, shadow),
            in_async,
            iter: Box::new(sub_expr(*iter, m, shadow)),
            body: sub_block(body, m, shadow),
        },
        ExprKind::Return(a) => ExprKind::Return(
            match a { Some(y) => Some(Box::new(sub_expr(*y, m, shadow))), None => None },
        ),
        ExprKind::Break(a) => ExprKind::Break(
            match a { Some(y) => Some(Box::new(sub_expr(*y, m, shadow))), None => None },
        ),
        ExprKind::Closure { params, return_type, is_async, body } => ExprKind::Closure {
            params: sub_closure_param_list(params, m, shadow),
            return_type: match return_type { Some(y) => Some(sub_type(y, m, shadow)), None => None },
            is_async,
            body: Box::new(sub_expr(*body, m, shadow)),
        },
        ExprKind::AnonFn(a) => ExprKind::AnonFn(Box::new(sub_function_types(*a, m, shadow))),
        ExprKind::AsyncBlock(a) => ExprKind::AsyncBlock(sub_block(a, m, shadow)),
        ExprKind::MacroCall { name, args, block } => ExprKind::MacroCall {
            name,
            args: sub_attr_arg_list(args, m, shadow),
            block: match block { Some(y) => Some(sub_block(y, m, shadow)), None => None },
        },
    }
}

pub open spec fn sub_string_lit(x: StringLit, m: List<TypeBinding>, shadow: List<Symbol>) -> StringLit
    decreases x,
{
    StringLit {
        parts: sub_string_part_list(x.parts, m, shadow),
        span: x.span,
    }
}

pub open spec fn sub_string_part(x: StringPart, m: List<TypeBinding>, shadow: List<Symbol>) -> StringPart
    decreases x,
{
    match x {
        StringPart::Text { text, span } => StringPart::Text { text, span },
        StringPart::Ident(a) => StringPart::Ident(a),
        StringPart::Expr(a) => StringPart::Expr(sub_expr(a, m, shadow)),
    }
}

pub open spec fn sub_map_item(x: MapItem, m: List<TypeBinding>, shadow: List<Symbol>) -> MapItem
    decreases x,
{
    match x {
        MapItem::Entry { key, value, span } => MapItem::Entry {
            key: Box::new(sub_expr(*key, m, shadow)),
            value: Box::new(sub_expr(*value, m, shadow)),
            span,
        },
        MapItem::Spread(a) => MapItem::Spread(Box::new(sub_expr(*a, m, shadow))),
    }
}

pub open spec fn sub_type_path(x: TypePath, m: List<TypeBinding>, shadow: List<Symbol>) -> TypePath
    decreases x,
{
    TypePath {
        name: x.name,
        generics: sub_type_list(x.generics, m, shadow),
        span: x.span,
    }
}

pub open spec fn sub_field_init(x: FieldInit, m: List<TypeBinding>, shadow: List<Symbol>) -> FieldInit
    decreases x,
{
    FieldInit {
        name: x.name,
        value: match x.value { Some(y) => Some(sub_expr(y, m, shadow)), None => None },
        span: x.span,
    }
}

pub open spec fn sub_block(x: Block, m: List<TypeBinding>, shadow: List<Symbol>) -> Block
    decreases x,
{
    Block {
        stmts: sub_stmt_list(x.stmts, m, shadow),
        trailing: match x.trailing { Some(y) => Some(Box::new(sub_expr(*y, m, shadow))), None => None },
        span: x.span,
    }
}

pub open spec fn sub_stmt(x: Stmt, m: List<TypeBinding>, shadow: List<Symbol>) -> Stmt
    decreases x,
{
    Stmt {
        kind: sub_stmt_kind(x.kind, m, shadow),
        span: x.span,
    }
}

pub open spec fn sub_stmt_kind(x: StmtKind, m: List<TypeBinding>, shadow: List<Symbol>) -> StmtKind
    decreases x,
{
    match x {
        StmtKind::Var(a) => StmtKind::Var(sub_local_var(a, m, shadow)),
        StmtKind::Assign { target, value } => StmtKind::Assign {
            target: sub_expr(target, m, shadow),
            value: sub_expr(value, m, shadow),
        },
        StmtKind::Expr(a) => StmtKind::Expr(sub_expr(a, m, shadow)),
        StmtKind::Item(a) => StmtKind::Item(a),
    }
}

pub open spec fn sub_local_var(x: LocalVar, m: List<TypeBinding>, shadow: List<Symbol>) -> LocalVar
    decreases x,
{
    LocalVar {
        pattern: sub_pattern(x.pattern, m, shadow),
        ty: match x.ty { Some(y) => Some(sub_type(y, m, shadow)), None => None },
        init: sub_expr(x.init, m, shadow),
    }
}

pub open spec fn sub_pattern(x: Pattern, m: List<TypeBinding>, shadow: List<Symbol>) -> Pattern
    decreases x,
{
    Pattern {
        kind: sub_pattern_kind(x.kind, m, shadow),
        span: x.span,
    }
}

pub open spec fn sub_pattern_kind(x: PatternKind, m: List<TypeBinding>, shadow: List<Symbol>) -> PatternKind
    decreases x,
{
    match x {
        PatternKind::Wildcard => PatternKind::Wildcard,
        PatternKind::Binding(a) => PatternKind::Binding(a),
        PatternKind::Literal(a) => PatternKind::Literal(Box::new(sub_expr(*a, m, shadow))),
        PatternKind::TypeBinding { ty, binding } => PatternKind::TypeBinding {
            ty: sub_type(ty, m, shadow),
            binding,
        },
        PatternKind::UnitPath(a) => PatternKind::UnitPath(sub_type_path(a, m, shadow)),
        PatternKind::TupleStruct { path, fields, rest } => PatternKind::TupleStruct {
            path: sub_type_path(path, m, shadow),
            fields: sub_pattern_list(fields, m, shadow),
            rest,
        },
        PatternKind::RecordStruct { path, fields, has_rest } => PatternKind::RecordStruct {
            path: sub_type_path(path, m, shadow),
            fields: sub_field_pattern_list(fields, m, shadow),
            has_rest,
        },
        PatternKind::Tuple { elems, rest } => PatternKind::Tuple {
            elems: sub_pattern_list(elems, m, shadow),
            rest,
        },
        PatternKind::List { elems, rest } => PatternKind::List {
            elems: sub_pattern_list(elems, m, shadow),
            rest,
        },
        PatternKind::Or(a) => PatternKind::Or(sub_pattern_list(a, m, shadow)),
    }
}

pub open spec fn sub_field_pattern(x: FieldPattern, m: List<TypeBinding>, shadow: List<Symbol>) -> FieldPattern
    decreases x,
{
    FieldPattern {
        name: x.name,
        pattern: match x.pattern { Some(y) => Some(sub_pattern(y, m, shadow)), None => None },
        span: x.span,
    }
}

pub open spec fn sub_else_branch(x: ElseBranch, m: List<TypeBinding>, shadow: List<Symbol>) -> ElseBranch
    decreases x,
{
    match x {
        ElseBranch::If(a) => ElseBranch::If(Box::new(sub_expr(*a, m, shadow))),
        ElseBranch::Block(a) => ElseBranch::Block(sub_block(a, m, shadow)),
    }
}

pub open spec fn sub_match_arm(x: MatchArm, m: List<TypeBinding>, shadow: List<Symbol>) -> MatchArm
    decreases x,
{
    MatchArm {
        pattern: sub_pattern(x.pattern, m, shadow),
        guard: match x.guard { Some(y) => Some(sub_expr(y, m, shadow)), None => None },
        body: sub_expr(x.body, m, shadow),
        span: x.span,
    }
}

pub open spec fn sub_closure_param(x: ClosureParam, m: List<TypeBinding>, shadow: List<Symbol>) -> ClosureParam
    decreases x,
{
    ClosureParam {
        name: x.name,
        ty: match x.ty { Some(y) => Some(sub_type(y, m, shadow)), None => None },
        span: x.span,
    }
}

pub open spec fn sub_attr_arg(x: AttrArg, m: List<TypeBinding>, shadow: List<Symbol>) -> AttrArg
    decreases x,
{
    match x {
        AttrArg::Positional(a) => AttrArg::Positional(sub_expr(a, m, shadow)),
        AttrArg::Named { name, value } => AttrArg::Named { name, value: sub_expr(value, m, shadow) },
    }
}

pub fn subst_param_list(l: &List<Param>, m: &List<TypeBinding>, shadow: &List<Symbol>) -> (r: List<Param>)
    ensures
        r == sub_param_list(*l, *m, *shadow),
    decreases l,
{
    match l {
        List::Nil => List::Nil,
        List::Cons(h, t) => {
            let h = subst_param(h, m, shadow);
            let t = subst_param_list(t, m, shadow);
            List::Cons(Box::new(h), Box::new(t))
        },
    }
}

pub fn subst_type_list(l: &List<Type>, m: &List<TypeBinding>, shadow: &List<Symbol>) -> (r: List<Type>)
    ensures
        r == sub_type_list(*l, *m, *shadow),
    decreases l,
{
    match l {
        List::Nil => List::Nil,
        List::Cons(h, t) => {
            let h = subst_type(h, m, shadow);
            let t = subst_type_list(t, m, shadow);
            List::Cons(Box::new(h), Box::new(t))
        },
    }
}

pub fn subst_extern_param_list(
    l: &List<ExternParam>,
    m: &List<TypeBinding>,
    shadow: &List<Symbol>,
) -> (r: List<ExternParam>)
    ensures
        r == sub_extern_param_list(*l, *m, *shadow),
    decreases l,
{
    match l {
        List::Nil => List::Nil,
        List::Cons(h, t) => {
            let h = subst_extern_param(h, m, shadow);
            let t = subst_extern_param_list(t, m, shadow);
            List::Cons(Box::new(h), Box::new(t))
        },
    }
}

pub fn subst_string_part_list(
    l: &List<StringPart>,
    m: &List<TypeBinding>,
    shadow: &List<Symbol>,
) -> (r: List<StringPart>)
    ensures
        r == sub_string_part_list(*l, *m, *shadow),
    decreases l,
{
    match l {
        List::Nil => List::Nil,
        List::Cons(h, t) => {
            let h = subst_string_part(h, m, shadow);
            let t = subst_string_part_list(t, m, shadow);
            List::Cons(Box::new(h), Box::new(t))
        },
    }
}

pub fn subst_expr_list(l: &List<Expr>, m: &List<TypeBinding>, shadow: &List<Symbol>) -> (r: List<Expr>)
    ensures
        r == sub_expr_list(*l, *m, *shadow),
    decreases l,
{
    match l {
        List::Nil => List::Nil,
        List::Cons(h, t) => {
            let h = subst_expr(h, m, shadow);
            let t = subst_expr_list(t, m, shadow);
            List::Cons(Box::new(h), Box::new(t))
        },
    }
}

pub fn subst_map_item_list(l: &List<MapItem>, m: &List<TypeBinding>, shadow: &List<Symbol>) -> (r: List<MapItem>)
    ensures
        r == sub_map_item_list(*l, *m, *shadow),
    decreases l,
{
    match l {
        List::Nil => List::Nil,
        List::Cons(h, t) => {
            let h = subst_map_item(h, m, shadow);
            let t = subst_map_item_list(t, m, shadow);
            List::Cons(Box::new(h), Box::new(t))
        },
    }
}

pub fn subst_field_init_list(l: &List<FieldInit>, m: &List<TypeBinding>, shadow: &List<Symbol>) -> (r: List<FieldInit>)
    ensures
        r == sub_field_init_list(*l, *m, *shadow),
    decreases l,
{
    match l {
        List::Nil => List::Nil,
        List::Cons(h, t) => {
            let h = subst_field_init(h, m, shadow);
            let t = subst_field_init_list(t, m, shadow);
            List::Cons(Box::new(h), Box::new(t))
        },
    }
}

pub fn subst_stmt_list(l: &List<Stmt>, m: &List<TypeBinding>, shadow: &List<Symbol>) -> (r: List<Stmt>)
    ensures
        r == sub_stmt_list(*l, *m, *shadow),
    decreases l,
{
    match l {
        List::Nil => List::Nil,
        List::Cons(h, t) => {
            let h = subst_stmt(h, m, shadow);
            let t = subst_stmt_list(t, m, shadow);
            List::Cons(Box::new(h), Box::new(t))
        },
    }
}

pub fn subst_pattern_list(l: &List<Pattern>, m: &List<TypeBinding>, shadow: &List<Symbol>) -> (r: List<Pattern>)
    ensures
        r == sub_pattern_list(*l, *m, *shadow),
    decreases l,
{
    match l {
        List::Nil => List::Nil,
        List::Cons(h, t) => {
            let h = subst_pattern(h, m, shadow);
            let t = subst_pattern_list(t, m, shadow);
            List::Cons(Box::new(h), Box::new(t))
        },
    }
}

pub fn subst_field_pattern_list(
    l: &List<FieldPattern>,
    m: &List<TypeBinding>,
    shadow: &List<Symbol>,
) -> (r: List<FieldPattern>)
    ensures
        r == sub_field_pattern_list(*l, *m, *shadow),
    decreases l,
{
    match l {
        List::Nil => List::Nil,
        List::Cons(h, t) => {
            let h = subst_field_pattern(h, m, shadow);
            let t = subst_field_pattern_list(t, m, shadow);
            List::Cons(Box::new(h), Box::new(t))
        },
    }
}

pub fn subst_match_arm_list(l: &List<MatchArm>, m: &List<TypeBinding>, shadow: &List<Symbol>) -> (r: List<MatchArm>)
    ensures
        r == sub_match_arm_list(*l, *m, *shadow),
    decreases l,
{
    match l {
        List::Nil => List::Nil,
        List::Cons(h, t) => {
            let h = subst_match_arm(h, m, shadow);
            let t = subst_match_arm_list(t, m, shadow);
            List::Cons(Box::new(h), Box::new(t))
        },
    }
}

pub fn subst_closure_param_list(
    l: &List<ClosureParam>,
    m: &List<TypeBinding>,
    shadow: &List<Symbol>,
) -> (r: List<ClosureParam>)
    ensures
        r == sub_closure_param_list(*l, *m, *shadow),
    decreases l,
{
    match l {
        List::Nil => List::Nil,
        List::Cons(h, t) => {
            let h = subst_closure_param(h, m, shadow);
            let t = subst_closure_param_list(t, m, shadow);
            List::Cons(Box::new(h), Box::new(t))
        },
    }
}

pub fn subst_attr_arg_list(l: &List<AttrArg>, m: &List<TypeBinding>, shadow: &List<Symbol>) -> (r: List<AttrArg>)
    ensures
        r == sub_attr_arg_list(*l, *m, *shadow),
    decreases l,
{
    match l {
        List::Nil => List::Nil,
        List::Cons(h, t) => {
            let h = subst_attr_arg(h, m, shadow);
            let t = subst_attr_arg_list(t, m, shadow);
            List::Cons(Box::new(h), Box::new(t))
        },
    }
}

pub fn subst_function_types(x: &FunctionItem, m: &List<TypeBinding>, shadow: &List<Symbol>) -> (r: FunctionItem)
    ensures
        r == sub_function_types(*x, *m, *shadow),
    decreases x,
{
    FunctionItem {
        name: x.name,
        generics: match &x.generics { Some(y) => Some(subst_generic_params(y, m, shadow)), None => None },
        params: subst_param_list(&x.params, m, shadow),
        return_type: match &x.return_type { Some(y) => Some(subst_type(y, m, shadow)), None => None },
        is_async: x.is_async,
        body: match &x.body { Some(y) => Some(subst_block(y, m, shadow)), None => None },
    }
}

pub fn subst_generic_params(
    x: &GenericParams,
    m: &List<TypeBinding>,
    shadow: &List<Symbol>,
) -> (r: GenericParams)
    ensures
        r == sub_generic_params(*x, *m, *shadow),
    decreases x,
{
    GenericParams { params: subst_generic_param_list(&x.params, m, shadow), span: x.span }
}

pub fn subst_generic_param_list(
    l: &List<GenericParam>,
    m: &List<TypeBinding>,
    shadow: &List<Symbol>,
) -> (r: List<GenericParam>)
    ensures
        r == sub_generic_param_list(*l, *m, *shadow),
    decreases l,
{
    match l {
        List::Nil => List::Nil,
        List::Cons(h, t) => List::Cons(
            Box::new(subst_generic_param(h, m, shadow)),
            Box::new(subst_generic_param_list(t, m, shadow)),
        ),
    }
}

pub fn subst_generic_param(x: &GenericParam, m: &List<TypeBinding>, shadow: &List<Symbol>) -> (r: GenericParam)
    ensures
        r == sub_generic_param(*x, *m, *shadow),
    decreases x,
{
    GenericParam { name: x.name, bounds: subst_type_list(&x.bounds, m, shadow) }
}

pub fn subst_param(x: &Param, m: &List<TypeBinding>, shadow: &List<Symbol>) -> (r: Param)
    ensures
        r == sub_param(*x, *m, *shadow),
    decreases x,
{
    Param {
        kind: subst_param_kind(&x.kind, m, shadow),
        span: x.span,
    }
}

pub fn subst_param_kind(x: &ParamKind, m: &List<TypeBinding>, shadow: &List<Symbol>) -> (r: ParamKind)
    ensures
        r == sub_param_kind(*x, *m, *shadow),
    decreases x,
{
    match x {
        ParamKind::SelfParam => ParamKind::SelfParam,
        ParamKind::Normal { name, ty } => ParamKind::Normal { name: *name, ty: subst_type(ty, m, shadow) },
    }
}

pub fn subst_type(x: &Type, m: &List<TypeBinding>, shadow: &List<Symbol>) -> (r: Type)
    ensures
        r == sub_type(*x, *m, *shadow),
    decreases x,
{
    if let TypeKind::Named { name, generics } = &x.kind {
        if let Some(t) = find_replacement(name.name, generics, m, shadow) {
            return dup_type(t);
        }
    }
    Type { kind: subst_type_kind(&x.kind, m, shadow), span: x.span }
}

pub fn subst_type_kind(x: &TypeKind, m: &List<TypeBinding>, shadow: &List<Symbol>) -> (r: TypeKind)
    ensures
        r == sub_type_kind(*x, *m, *shadow),
    decreases x,
{
    match x {
        TypeKind::Named { name, generics } => TypeKind::Named {
            name: *name,
            generics: subst_type_list(generics, m, shadow),
        },
        TypeKind::Tuple(a) => TypeKind::Tuple(subst_type_list(a, m, shadow)),
        TypeKind::Function { params, ret } => TypeKind::Function {
            params: subst_type_list(params, m, shadow),
            ret: Box::new(subst_type(ret, m, shadow)),
        },
        TypeKind::ExternFunction { params, ret } => TypeKind::ExternFunction {
            params: subst_extern_param_list(params, m, shadow),
            ret: Box::new(subst_type(ret, m, shadow)),
        },
        TypeKind::Union(a) => TypeKind::Union(subst_type_list(a, m, shadow)),
        TypeKind::Pointer(a) => TypeKind::Pointer(Box::new(subst_type(a, m, shadow))),
        TypeKind::Array { elem, len } => TypeKind::Array {
            elem: Box::new(subst_type(elem, m, shadow)),
            len: Box::new(subst_expr(len, m, shadow)),
        },
        TypeKind::SelfType => TypeKind::SelfType,
        TypeKind::Paren(a) => TypeKind::Paren(Box::new(subst_type(a, m, shadow))),
    }
}

pub fn subst_extern_param(x: &ExternParam, m: &List<TypeBinding>, shadow: &List<Symbol>) -> (r: ExternParam)
    ensures
        r == sub_extern_param(*x, *m, *shadow),
    decreases x,
{
    ExternParam {
        ty: subst_type(&x.ty, m, shadow),
        span: x.span,
    }
}

pub fn subst_expr(x: &Expr, m: &List<TypeBinding>, shadow: &List<Symbol>) -> (r: Expr)
    ensures
        r == sub_expr(*x, *m, *shadow),
    decreases x,
{
    Expr {
        kind: subst_expr_kind(&x.kind, m, shadow),
        span: x.span,
    }
}

pub fn subst_expr_kind(x: &ExprKind, m: &List<TypeBinding>, shadow: &List<Symbol>) -> (r: ExprKind)
    ensures
        r == sub_expr_kind(*x, *m, *shadow),
    decreases x,
{
    match x {
        ExprKind::Int(a) => ExprKind::Int(*a),
        ExprKind::Float(a) => ExprKind::Float(*a),
        ExprKind::Bool(a) => ExprKind::Bool(*a),
        ExprKind::Null => ExprKind::Null,
        ExprKind::Char(a) => ExprKind::Char(*a),
        ExprKind::Str(a) => ExprKind::Str(subst_string_lit(a, m, shadow)),
        ExprKind::Ident(a) => ExprKind::Ident(*a),
        ExprKind::SelfExpr => ExprKind::SelfExpr,
        ExprKind::Underscore => ExprKind::Underscore,
        ExprKind::Continue => ExprKind::Continue,
        ExprKind::Paren(a) => ExprKind::Paren(Box::new(subst_expr(a, m, shadow))),
        ExprKind::Tuple(a) => ExprKind::Tuple(subst_expr_list(a, m, shadow)),
        ExprKind::List(a) => ExprKind::List(subst_expr_list(a, m, shadow)),
        ExprKind::MapLit(a) => ExprKind::MapLit(subst_map_item_list(a, m, shadow)),
        ExprKind::StructLit { path, fields, spread } => ExprKind::StructLit {
            path: subst_type_path(path, m, shadow),
            fields: subst_field_init_list(fields, m, shadow),
            spread: match spread { Some(y) => Some(Box::new(subst_expr(y, m, shadow))), None => None },
        },
        ExprKind::Unary { op, op_span, operand } => ExprKind::Unary {
            op: *op,
            op_span: *op_span,
            operand: Box::new(subst_expr(operand, m, shadow)),
        },
        ExprKind::Binary { op, op_span, left, right } => ExprKind::Binary {
            op: *op,
            op_span: *op_span,
            left: Box::new(subst_expr(left, m, shadow)),
            right: Box::new(subst_expr(right, m, shadow)),
        },
        ExprKind::Cast { op, op_span, expr, ty } => ExprKind::Cast {
            op: *op,
            op_span: *op_span,
            expr: Box::new(subst_expr(expr, m, shadow)),
            ty: Box::new(subst_type(ty, m, shadow)),
        },
        ExprKind::Field { receiver, name } => ExprKind::Field {
            receiver: Box::new(subst_expr(receiver, m, shadow)),
            name: *name,
        },
        ExprKind::TupleIndex { receiver, index, index_span } => ExprKind::TupleIndex {
            receiver: Box::new(subst_expr(receiver, m, shadow)),
            index: *index,
            index_span: *index_span,
        },
        ExprKind::Call { callee, generics, args, trailing_closure } => ExprKind::Call {
            callee: Box::new(subst_expr(callee, m, shadow)),
            generics: subst_type_list(generics, m, shadow),
            args: subst_expr_list(args, m, shadow),
            trailing_closure: match trailing_closure {
                Some(y) => Some(Box::new(subst_expr(y, m, shadow))),
                None => None,
            },
        },
        ExprKind::Index { receiver, index } => ExprKind::Index {
            receiver: Box::new(subst_expr(receiver, m, shadow)),
            index: Box::new(subst_expr(index, m, shadow)),
        },
        ExprKind::Try { expr, q_span } => ExprKind::Try {
            expr: Box::new(subst_expr(expr, m, shadow)),
            q_span: *q_span,
        },
        ExprKind::Ref { expr, amp_span } => ExprKind::Ref {
            expr: Box::new(subst_expr(expr, m, shadow)),
            amp_span: *amp_span,
        },
        ExprKind::Deref { expr, star_span } => ExprKind::Deref {
            expr: Box::new(subst_expr(expr, m, shadow)),
            star_span: *star_span,
        },
        ExprKind::Await { expr, kw_span } => ExprKind::Await {
            expr: Box::new(subst_expr(expr, m, shadow)),
            kw_span: *kw_span,
        },
        ExprKind::Spawn { expr, kw_span } => ExprKind::Spawn {
            expr: Box::new(subst_expr(expr, m, shadow)),
            kw_span: *kw_span,
        },
        ExprKind::If { cond, then_block, else_branch } => ExprKind::If {
            cond: Box::new(subst_expr(cond, m, shadow)),
            then_block: subst_block(then_block, m, shadow),
            else_branch: match else_branch { Some(y) => Some(subst_else_branch(y, m, shadow)), None => None },
        },
        ExprKind::Match { scrutinee, arms } => ExprKind::Match {
            scrutinee: Box::new(subst_expr(scrutinee, m, shadow)),
            arms: subst_match_arm_list(arms, m, shadow),
        },
        ExprKind::Block(a) => ExprKind::Block(subst_block(a, m, shadow)),
        ExprKind::Loop(a) => ExprKind::Loop(subst_block(a, m, shadow)),
        ExprKind::While { cond, body } => ExprKind::While {
            cond: Box::new(subst_expr(cond, m, shadow)),
            body: subst_block(body, m, shadow),
        },
        ExprKind::For { pattern, in_async, iter, body } => ExprKind::For {
            pattern: subst_pattern(pattern, m, shadow),
            in_async: *in_async,
            iter: Box::new(subst_expr(iter, m, shadow)),
            body: subst_block(body, m, shadow),
        },
        ExprKind::Return(a) => ExprKind::Return(
            match a { Some(y) => Some(Box::new(subst_expr(y, m, shadow))), None => None },
        ),
        ExprKind::Break(a) => ExprKind::Break(
            match a { Some(y) => Some(Box::new(subst_expr(y, m, shadow))), None => None },
        ),
        ExprKind::Closure { params, return_type, is_async, body } => ExprKind::Closure {
            params: subst_closure_param_list(params, m, shadow),
            return_type: match return_type { Some(y) => Some(subst_type(y, m, shadow)), None => None },
            is_async: *is_async,
            body: Box::new(subst_expr(body, m, shadow)),
        },
        ExprKind::AnonFn(a) => ExprKind::AnonFn(Box::new(subst_function_types(a, m, shadow))),
        ExprKind::AsyncBlock(a) => ExprKind::AsyncBlock(subst_block(a, m, shadow)),
        ExprKind::MacroCall { name, args, block } => ExprKind::MacroCall {
            name: *name,
            args: subst_attr_arg_list(args, m, shadow),
            block: match block { Some(y) => Some(subst_block(y, m, shadow)), None => None },
        },
    }
}

pub fn subst_string_lit(x: &StringLit, m: &List<TypeBinding>, shadow: &List<Symbol>) -> (r: StringLit)
    ensures
        r == sub_string_lit(*x, *m, *shadow),
    decreases x,
{
    StringLit {
        parts: subst_string_part_list(&x.parts, m, shadow),
        span: x.span,
    }
}

pub fn subst_string_part(x: &StringPart, m: &List<TypeBinding>, shadow: &List<Symbol>) -> (r: StringPart)
    ensures
        r == sub_string_part(*x, *m, *shadow),
    decreases x,
{
    match x {
        StringPart::Text { text, span } => StringPart::Text { text: *text, span: *span },
        StringPart::Ident(a) => StringPart::Ident(*a),
        StringPart::Expr(a) => StringPart::Expr(subst_expr(a, m, shadow)),
    }
}

pub fn subst_map_item(x: &MapItem, m: &List<TypeBinding>, shadow: &List<Symbol>) -> (r: MapItem)
    ensures
        r == sub_map_item(*x, *m, *shadow),
    decreases x,
{
    match x {
        MapItem::Entry { key, value, span } => MapItem::Entry {
            key: Box::new(subst_expr(key, m, shadow)),
            value: Box::new(subst_expr(value, m, shadow)),
            span: *span,
        },
        MapItem::Spread(a) => MapItem::Spread(Box::new(subst_expr(a, m, shadow))),
    }
}

pub fn subst_type_path(x: &TypePath, m: &List<TypeBinding>, shadow: &List<Symbol>) -> (r: TypePath)
    ensures
        r == sub_type_path(*x, *m, *shadow),
    decreases x,
{
    TypePath {
        name: x.name,
        generics: subst_type_list(&x.generics, m, shadow),
        span: x.span,
    }
}

pub fn subst_field_init(x: &FieldInit, m: &List<TypeBinding>, shadow: &List<Symbol>) -> (r: FieldInit)
    ensures
        r == sub_field_init(*x, *m, *shadow),
    decreases x,
{
    FieldInit {
        name: x.name,
        value: match &x.value { Some(y) => Some(subst_expr(y, m, shadow)), None => None },
        span: x.span,
    }
}

pub fn subst_block(x: &Block, m: &List<TypeBinding>, shadow: &List<Symbol>) -> (r: Block)
    ensures
        r == sub_block(*x, *m, *shadow),
    decreases x,
{
    Block {
        stmts: subst_stmt_list(&x.stmts, m, shadow),
        trailing: match &x.trailing { Some(y) => Some(Box::new(subst_expr(y, m, shadow))), None => None },
        span: x.span,
    }
}

pub fn subst_stmt(x: &Stmt, m: &List<TypeBinding>, shadow: &List<Symbol>) -> (r: Stmt)
    ensures
        r == sub_stmt(*x, *m, *shadow),
    decreases x,
{
    Stmt {
        kind: subst_stmt_kind(&x.kind, m, shadow),
        span: x.span,
    }
}

pub fn subst_stmt_kind(x: &StmtKind, m: &List<TypeBinding>, shadow: &List<Symbol>) -> (r: StmtKind)
    ensures
        r == sub_stmt_kind(*x, *m, *shadow),
    decreases x,
{
    match x {
        StmtKind::Var(a) => StmtKind::Var(subst_local_var(a, m, shadow)),
        StmtKind::Assign { target, value } => StmtKind::Assign {
            target: subst_expr(target, m, shadow),
            value: subst_expr(value, m, shadow),
        },
        StmtKind::Expr(a) => StmtKind::Expr(subst_expr(a, m, shadow)),
        StmtKind::Item(a) => StmtKind::Item(Box::new(dup_item(a))),
    }
}

pub fn subst_local_var(x: &LocalVar, m: &List<TypeBinding>, shadow: &List<Symbol>) -> (r: LocalVar)
    ensures
        r == sub_local_var(*x, *m, *shadow),
    decreases x,
{
    LocalVar {
        pattern: subst_pattern(&x.pattern, m, shadow),
        ty: match &x.ty { Some(y) => Some(subst_type(y, m, shadow)), None => None },
        init: subst_expr(&x.init, m, shadow),
    }
}

pub fn subst_pattern(x: &Pattern, m: &List<TypeBinding>, shadow: &List<Symbol>) -> (r: Pattern)
    ensures
        r == sub_pattern(*x, *m, *shadow),
    decreases x,
{
    Pattern {
        kind: subst_pattern_kind(&x.kind, m, shadow),
        span: x.span,
    }
}

pub fn subst_pattern_kind(x: &PatternKind, m: &List<TypeBinding>, shadow: &List<Symbol>) -> (r: PatternKind)
    ensures
        r == sub_pattern_kind(*x, *m, *shadow),
    decreases x,
{
    match x {
        PatternKind::Wildcard => PatternKind::Wildcard,
        PatternKind::Binding(a) => PatternKind::Binding(*a),
        PatternKind::Literal(a) => PatternKind::Literal(Box::new(subst_expr(a, m, shadow))),
        PatternKind::TypeBinding { ty, binding } => PatternKind::TypeBinding {
            ty: subst_type(ty, m, shadow),
            binding: *binding,
        },
        PatternKind::UnitPath(a) => PatternKind::UnitPath(subst_type_path(a, m, shadow)),
        PatternKind::TupleStruct { path, fields, rest } => PatternKind::TupleStruct {
            path: subst_type_path(path, m, shadow),
            fields: subst_pattern_list(fields, m, shadow),
            rest: *rest,
        },
        PatternKind::RecordStruct { path, fields, has_rest } => PatternKind::RecordStruct {
            path: subst_type_path(path, m, shadow),
            fields: subst_field_pattern_list(fields, m, shadow),
            has_rest: *has_rest,
        },
        PatternKind::Tuple { elems, rest } => PatternKind::Tuple {
            elems: subst_pattern_list(elems, m, shadow),
            rest: *rest,
        },
        PatternKind::List { elems, rest } => PatternKind::List {
            elems: subst_pattern_list(elems, m, shadow),
            rest: *rest,
        },
        PatternKind::Or(a) => PatternKind::Or(subst_pattern_list(a, m, shadow)),
    }
}

pub fn subst_field_pattern(x: &FieldPattern, m: &List<TypeBinding>, shadow: &List<Symbol>) -> (r: FieldPattern)
    ensures
        r == sub_field_pattern(*x, *m, *shadow),
    decreases x,
{
    FieldPattern {
        name: x.name,
        pattern: match &x.pattern { Some(y) => Some(subst_pattern(y, m, shadow)), None => None },
        span: x.span,
    }
}

pub fn subst_else_branch(x: &ElseBranch, m: &List<TypeBinding>, shadow: &List<Symbol>) -> (r: ElseBranch)
    ensures
        r == sub_else_branch(*x, *m, *shadow),
    decreases x,
{
    match x {
        ElseBranch::If(a) => ElseBranch::If(Box::new(subst_expr(a, m, shadow))),
        ElseBranch::Block(a) => ElseBranch::Block(subst_block(a, m, shadow)),
    }
}

pub fn subst_match_arm(x: &MatchArm, m: &List<TypeBinding>, shadow: &List<Symbol>) -> (r: MatchArm)
    ensures
        r == sub_match_arm(*x, *m, *shadow),
    decreases x,
{
    MatchArm {
        pattern: subst_pattern(&x.pattern, m, shadow),
        guard: match &x.guard { Some(y) => Some(subst_expr(y, m, shadow)), None => None },
        body: subst_expr(&x.body, m, shadow),
        span: x.span,
    }
}

pub fn subst_closure_param(x: &ClosureParam, m: &List<TypeBinding>, shadow: &List<Symbol>) -> (r: ClosureParam)
    ensures
        r == sub_closure_param(*x, *m, *shadow),
    decreases x,
{
    ClosureParam {
        name: x.name,
        ty: match &x.ty { Some(y) => Some(subst_type(y, m, shadow)), None => None },
        span: x.span,
    }
}

pub fn subst_attr_arg(x: &AttrArg, m: &List<TypeBinding>, shadow: &List<Symbol>) -> (r: AttrArg)
    ensures
        r == sub_attr_arg(*x, *m, *shadow),
    decreases x,
{
    match x {
        AttrArg::Positional(a) => AttrArg::Positional(subst_expr(a, m, shadow)),
        AttrArg::Named { name, value } => AttrArg::Named { name: *name, value: subst_expr(value, m, shadow) },
    }
}

} // verus!
