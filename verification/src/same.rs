//! Structural equality of syntax trees, spans included.
use vstd::prelude::*;
use crate::list::List;
use crate::names::Symbol;
use crate::ast::{
    AttrArg, Attribute, Block, ClosureParam, ElseBranch, Expr, ExprKind, ExtendItem, ExtendMember, ExternItem,
    ExternParam, FieldDecl, FieldInit, FieldPattern, FunctionItem, GenericParam, GenericParams, ImportItem, ImportName,
    InterfaceItem, InterfaceMember, Item, ItemKind, LocalVar, MapItem, MatchArm, ModuleItem, ModuleKind, Param,
    ParamKind, Pattern, PatternKind, Stmt, StmtKind, StringLit, StringPart, StructItem, StructKind, TestItem, Type,
    TypeAlias, TypeKind, TypePath, VarItem,
};

verus! {

pub fn same_symbol_list(a: &List<Symbol>, b: &List<Symbol>) -> (r: bool)
    ensures
        r == (*a == *b),
    decreases a,
{
    match (a, b) {
        (List::Nil, List::Nil) => true,
        (List::Cons(h, t), List::Cons(k, u)) => **h == **k && same_symbol_list(t, u),
        _ => false,
    }
}

pub fn same_item_list(a: &List<Item>, b: &List<Item>) -> (r: bool)
    ensures
        r == (*a == *b),
    decreases a,
{
    match (a, b) {
        (List::Nil, List::Nil) => true,
        (List::Cons(h, t), List::Cons(k, u)) => same_item(h, k) && same_item_list(t, u),
        _ => false,
    }
}

pub fn same_attribute_list(a: &List<Attribute>, b: &List<Attribute>) -> (r: bool)
    ensures
        r == (*a == *b),
    decreases a,
{
    match (a, b) {
        (List::Nil, List::Nil) => true,
        (List::Cons(h, t), List::Cons(k, u)) => same_attribute(h, k) && same_attribute_list(t, u),
        _ => false,
    }
}

pub fn same_attr_arg_list(a: &List<AttrArg>, b: &List<AttrArg>) -> (r: bool)
    ensures
        r == (*a == *b),
    decreases a,
{
    match (a, b) {
        (List::Nil, List::Nil) => true,
        (List::Cons(h, t), List::Cons(k, u)) => same_attr_arg(h, k) && same_attr_arg_list(t, u),
        _ => false,
    }
}

pub fn same_param_list(a: &List<Param>, b: &List<Param>) -> (r: bool)
    ensures
        r == (*a == *b),
    decreases a,
{
    match (a, b) {
        (List::Nil, List::Nil) => true,
        (List::Cons(h, t), List::Cons(k, u)) => same_param(h, k) && same_param_list(t, u),
        _ => false,
    }
}

pub fn same_generic_param_list(a: &List<GenericParam>, b: &List<GenericParam>) -> (r: bool)
    ensures
        r == (*a == *b),
    decreases a,
{
    match (a, b) {
        (List::Nil, List::Nil) => true,
        (List::Cons(h, t), List::Cons(k, u)) => same_generic_param(h, k) && same_generic_param_list(t, u),
        _ => false,
    }
}

pub fn same_type_list(a: &List<Type>, b: &List<Type>) -> (r: bool)
    ensures
        r == (*a == *b),
    decreases a,
{
    match (a, b) {
        (List::Nil, List::Nil) => true,
        (List::Cons(h, t), List::Cons(k, u)) => same_type(h, k) && same_type_list(t, u),
        _ => false,
    }
}

pub fn same_field_decl_list(a: &List<FieldDecl>, b: &List<FieldDecl>) -> (r: bool)
    ensures
        r == (*a == *b),
    decreases a,
{
    match (a, b) {
        (List::Nil, List::Nil) => true,
        (List::Cons(h, t), List::Cons(k, u)) => same_field_decl(h, k) && same_field_decl_list(t, u),
        _ => false,
    }
}

pub fn same_interface_member_list(a: &List<InterfaceMember>, b: &List<InterfaceMember>) -> (r: bool)
    ensures
        r == (*a == *b),
    decreases a,
{
    match (a, b) {
        (List::Nil, List::Nil) => true,
        (List::Cons(h, t), List::Cons(k, u)) => same_interface_member(h, k) && same_interface_member_list(t, u),
        _ => false,
    }
}

pub fn same_extend_member_list(a: &List<ExtendMember>, b: &List<ExtendMember>) -> (r: bool)
    ensures
        r == (*a == *b),
    decreases a,
{
    match (a, b) {
        (List::Nil, List::Nil) => true,
        (List::Cons(h, t), List::Cons(k, u)) => same_extend_member(h, k) && same_extend_member_list(t, u),
        _ => false,
    }
}

pub fn same_import_name_list(a: &List<ImportName>, b: &List<ImportName>) -> (r: bool)
    ensures
        r == (*a == *b),
    decreases a,
{
    match (a, b) {
        (List::Nil, List::Nil) => true,
        (List::Cons(h, t), List::Cons(k, u)) => same_import_name(h, k) && same_import_name_list(t, u),
        _ => false,
    }
}

pub fn same_stmt_list(a: &List<Stmt>, b: &List<Stmt>) -> (r: bool)
    ensures
        r == (*a == *b),
    decreases a,
{
    match (a, b) {
        (List::Nil, List::Nil) => true,
        (List::Cons(h, t), List::Cons(k, u)) => same_stmt(h, k) && same_stmt_list(t, u),
        _ => false,
    }
}

pub fn same_pattern_list(a: &List<Pattern>, b: &List<Pattern>) -> (r: bool)
    ensures
        r == (*a == *b),
    decreases a,
{
    match (a, b) {
        (List::Nil, List::Nil) => true,
        (List::Cons(h, t), List::Cons(k, u)) => same_pattern(h, k) && same_pattern_list(t, u),
        _ => false,
    }
}

pub fn same_field_pattern_list(a: &List<FieldPattern>, b: &List<FieldPattern>) -> (r: bool)
    ensures
        r == (*a == *b),
    decreases a,
{
    match (a, b) {
        (List::Nil, List::Nil) => true,
        (List::Cons(h, t), List::Cons(k, u)) => same_field_pattern(h, k) && same_field_pattern_list(t, u),
        _ => false,
    }
}

pub fn same_extern_param_list(a: &List<ExternParam>, b: &List<ExternParam>) -> (r: bool)
    ensures
        r == (*a == *b),
    decreases a,
{
    match (a, b) {
        (List::Nil, List::Nil) => true,
        (List::Cons(h, t), List::Cons(k, u)) => same_extern_param(h, k) && same_extern_param_list(t, u),
        _ => false,
    }
}

pub fn same_expr_list(a: &List<Expr>, b: &List<Expr>) -> (r: bool)
    ensures
        r == (*a == *b),
    decreases a,
{
    match (a, b) {
        (List::Nil, List::Nil) => true,
        (List::Cons(h, t), List::Cons(k, u)) => same_expr(h, k) && same_expr_list(t, u),
        _ => false,
    }
}

pub fn same_map_item_list(a: &List<MapItem>, b: &List<MapItem>) -> (r: bool)
    ensures
        r == (*a == *b),
    decreases a,
{
    match (a, b) {
        (List::Nil, List::Nil) => true,
        (List::Cons(h, t), List::Cons(k, u)) => same_map_item(h, k) && same_map_item_list(t, u),
        _ => false,
    }
}

pub fn same_field_init_list(a: &List<FieldInit>, b: &List<FieldInit>) -> (r: bool)
    ensures
        r == (*a == *b),
    decreases a,
{
    match (a, b) {
        (List::Nil, List::Nil) => true,
        (List::Cons(h, t), List::Cons(k, u)) => same_field_init(h, k) && same_field_init_list(t, u),
        _ => false,
    }
}

pub fn same_match_arm_list(a: &List<MatchArm>, b: &List<MatchArm>) -> (r: bool)
    ensures
        r == (*a == *b),
    decreases a,
{
    match (a, b) {
        (List::Nil, List::Nil) => true,
        (List::Cons(h, t), List::Cons(k, u)) => same_match_arm(h, k) && same_match_arm_list(t, u),
        _ => false,
    }
}

pub fn same_closure_param_list(a: &List<ClosureParam>, b: &List<ClosureParam>) -> (r: bool)
    ensures
        r == (*a == *b),
    decreases a,
{
    match (a, b) {
        (List::Nil, List::Nil) => true,
        (List::Cons(h, t), List::Cons(k, u)) => same_closure_param(h, k) && same_closure_param_list(t, u),
        _ => false,
    }
}

pub fn same_string_part_list(a: &List<StringPart>, b: &List<StringPart>) -> (r: bool)
    ensures
        r == (*a == *b),
    decreases a,
{
    match (a, b) {
        (List::Nil, List::Nil) => true,
        (List::Cons(h, t), List::Cons(k, u)) => same_string_part(h, k) && same_string_part_list(t, u),
        _ => false,
    }
}

pub fn same_opt_block(a: &Option<Block>, b: &Option<Block>) -> (r: bool)
    ensures
        r == (*a == *b),
    decreases a,
{
    match (a, b) {
        (None, None) => true,
        (Some(x), Some(y)) => same_block(x, y),
        _ => false,
    }
}

pub fn same_opt_box_expr(a: &Option<Box<Expr>>, b: &Option<Box<Expr>>) -> (r: bool)
    ensures
        r == (*a == *b),
    decreases a,
{
    match (a, b) {
        (None, None) => true,
        (Some(x), Some(y)) => same_expr(x, y),
        _ => false,
    }
}

pub fn same_opt_else_branch(a: &Option<ElseBranch>, b: &Option<ElseBranch>) -> (r: bool)
    ensures
        r == (*a == *b),
    decreases a,
{
    match (a, b) {
        (None, None) => true,
        (Some(x), Some(y)) => same_else_branch(x, y),
        _ => false,
    }
}

pub fn same_opt_expr(a: &Option<Expr>, b: &Option<Expr>) -> (r: bool)
    ensures
        r == (*a == *b),
    decreases a,
{
    match (a, b) {
        (None, None) => true,
        (Some(x), Some(y)) => same_expr(x, y),
        _ => false,
    }
}

pub fn same_opt_generic_params(a: &Option<GenericParams>, b: &Option<GenericParams>) -> (r: bool)
    ensures
        r == (*a == *b),
    decreases a,
{
    match (a, b) {
        (None, None) => true,
        (Some(x), Some(y)) => same_generic_params(x, y),
        _ => false,
    }
}

pub fn same_opt_pattern(a: &Option<Pattern>, b: &Option<Pattern>) -> (r: bool)
    ensures
        r == (*a == *b),
    decreases a,
{
    match (a, b) {
        (None, None) => true,
        (Some(x), Some(y)) => same_pattern(x, y),
        _ => false,
    }
}

pub fn same_opt_type(a: &Option<Type>, b: &Option<Type>) -> (r: bool)
    ensures
        r == (*a == *b),
    decreases a,
{
    match (a, b) {
        (None, None) => true,
        (Some(x), Some(y)) => same_type(x, y),
        _ => false,
    }
}

pub fn same_item(a: &Item, b: &Item) -> (r: bool)
    ensures
        r == (*a == *b),
    decreases a,
{
    same_symbol_list(&a.docs, &b.docs)
        && same_attribute_list(&a.attrs, &b.attrs)
        && a.visibility == b.visibility
        && same_item_kind(&a.kind, &b.kind)
        && a.span == b.span
}

pub fn same_attribute(a: &Attribute, b: &Attribute) -> (r: bool)
    ensures
        r == (*a == *b),
    decreases a,
{
    a.name == b.name && same_attr_arg_list(&a.args, &b.args) && a.span == b.span
}

pub fn same_attr_arg(a: &AttrArg, b: &AttrArg) -> (r: bool)
    ensures
        r == (*a == *b),
    decreases a,
{
    match (a, b) {
        (AttrArg::Positional(x), AttrArg::Positional(y)) => same_expr(x, y),
        (AttrArg::Named { name: a0, value: a1 }, AttrArg::Named { name: b0, value: b1 }) => {
            *a0 == *b0
                && same_expr(a1, b1)
        },
        _ => false,
    }
}

pub fn same_item_kind(a: &ItemKind, b: &ItemKind) -> (r: bool)
    ensures
        r == (*a == *b),
    decreases a,
{
    match (a, b) {
        (ItemKind::Function(x), ItemKind::Function(y)) => same_function_item(x, y),
        (ItemKind::Struct(x), ItemKind::Struct(y)) => same_struct_item(x, y),
        (ItemKind::Interface(x), ItemKind::Interface(y)) => same_interface_item(x, y),
        (ItemKind::Extend(x), ItemKind::Extend(y)) => same_extend_item(x, y),
        (ItemKind::Module(x), ItemKind::Module(y)) => same_module_item(x, y),
        (ItemKind::TypeAlias(x), ItemKind::TypeAlias(y)) => same_type_alias(x, y),
        (ItemKind::Var(x), ItemKind::Var(y)) => same_var_item(x, y),
        (ItemKind::Extern(x), ItemKind::Extern(y)) => same_extern_item(x, y),
        (ItemKind::Import(x), ItemKind::Import(y)) => same_import_item(x, y),
        (ItemKind::Test(x), ItemKind::Test(y)) => same_test_item(x, y),
        _ => false,
    }
}

pub fn same_function_item(a: &FunctionItem, b: &FunctionItem) -> (r: bool)
    ensures
        r == (*a == *b),
    decreases a,
{
    a.name == b.name
        && same_opt_generic_params(&a.generics, &b.generics)
        && same_param_list(&a.params, &b.params)
        && same_opt_type(&a.return_type, &b.return_type)
        && a.is_async == b.is_async
        && same_opt_block(&a.body, &b.body)
}

pub fn same_generic_params(a: &GenericParams, b: &GenericParams) -> (r: bool)
    ensures
        r == (*a == *b),
    decreases a,
{
    same_generic_param_list(&a.params, &b.params) && a.span == b.span
}

pub fn same_generic_param(a: &GenericParam, b: &GenericParam) -> (r: bool)
    ensures
        r == (*a == *b),
    decreases a,
{
    a.name == b.name && same_type_list(&a.bounds, &b.bounds)
}

pub fn same_param(a: &Param, b: &Param) -> (r: bool)
    ensures
        r == (*a == *b),
    decreases a,
{
    same_param_kind(&a.kind, &b.kind) && a.span == b.span
}

pub fn same_param_kind(a: &ParamKind, b: &ParamKind) -> (r: bool)
    ensures
        r == (*a == *b),
    decreases a,
{
    match (a, b) {
        (ParamKind::SelfParam, ParamKind::SelfParam) => true,
        (ParamKind::Normal { name: a0, ty: a1 }, ParamKind::Normal { name: b0, ty: b1 }) => {
            *a0 == *b0
                && same_type(a1, b1)
        },
        _ => false,
    }
}

pub fn same_struct_item(a: &StructItem, b: &StructItem) -> (r: bool)
    ensures
        r == (*a == *b),
    decreases a,
{
    a.name == b.name && same_opt_generic_params(&a.generics, &b.generics) && same_struct_kind(&a.kind, &b.kind)
}

pub fn same_struct_kind(a: &StructKind, b: &StructKind) -> (r: bool)
    ensures
        r == (*a == *b),
    decreases a,
{
    match (a, b) {
        (StructKind::Unit, StructKind::Unit) => true,
        (StructKind::Record(x), StructKind::Record(y)) => same_field_decl_list(x, y),
        (StructKind::Tuple(x), StructKind::Tuple(y)) => same_type_list(x, y),
        _ => false,
    }
}

pub fn same_field_decl(a: &FieldDecl, b: &FieldDecl) -> (r: bool)
    ensures
        r == (*a == *b),
    decreases a,
{
    a.name == b.name && same_type(&a.ty, &b.ty)
}

pub fn same_interface_item(a: &InterfaceItem, b: &InterfaceItem) -> (r: bool)
    ensures
        r == (*a == *b),
    decreases a,
{
    a.name == b.name
        && same_opt_generic_params(&a.generics, &b.generics)
        && same_interface_member_list(&a.members, &b.members)
}

pub fn same_interface_member(a: &InterfaceMember, b: &InterfaceMember) -> (r: bool)
    ensures
        r == (*a == *b),
    decreases a,
{
    same_function_item(&a.function, &b.function) && same_opt_block(&a.default_body, &b.default_body)
}

pub fn same_extend_item(a: &ExtendItem, b: &ExtendItem) -> (r: bool)
    ensures
        r == (*a == *b),
    decreases a,
{
    same_opt_generic_params(&a.generics, &b.generics)
        && same_type(&a.target, &b.target)
        && same_type_list(&a.interfaces, &b.interfaces)
        && same_extend_member_list(&a.members, &b.members)
}

pub fn same_extend_member(a: &ExtendMember, b: &ExtendMember) -> (r: bool)
    ensures
        r == (*a == *b),
    decreases a,
{
    same_symbol_list(&a.docs, &b.docs)
        && same_attribute_list(&a.attrs, &b.attrs)
        && a.visibility == b.visibility
        && same_function_item(&a.function, &b.function)
        && a.span == b.span
}

pub fn same_module_item(a: &ModuleItem, b: &ModuleItem) -> (r: bool)
    ensures
        r == (*a == *b),
    decreases a,
{
    a.name == b.name && same_module_kind(&a.kind, &b.kind)
}

pub fn same_module_kind(a: &ModuleKind, b: &ModuleKind) -> (r: bool)
    ensures
        r == (*a == *b),
    decreases a,
{
    match (a, b) {
        (ModuleKind::Inline { docs: a0, items: a1 }, ModuleKind::Inline { docs: b0, items: b1 }) => {
            same_symbol_list(a0, b0)
                && same_item_list(a1, b1)
        },
        (ModuleKind::File, ModuleKind::File) => true,
        _ => false,
    }
}

pub fn same_type_alias(a: &TypeAlias, b: &TypeAlias) -> (r: bool)
    ensures
        r == (*a == *b),
    decreases a,
{
    a.name == b.name && same_opt_generic_params(&a.generics, &b.generics) && same_type(&a.aliased, &b.aliased)
}

pub fn same_var_item(a: &VarItem, b: &VarItem) -> (r: bool)
    ensures
        r == (*a == *b),
    decreases a,
{
    a.name == b.name && same_opt_type(&a.ty, &b.ty) && same_opt_expr(&a.init, &b.init)
}

pub fn same_extern_item(a: &ExternItem, b: &ExternItem) -> (r: bool)
    ensures
        r == (*a == *b),
    decreases a,
{
    match (a, b) {
        (ExternItem::Function(x), ExternItem::Function(y)) => same_function_item(x, y),
        (ExternItem::Struct(x), ExternItem::Struct(y)) => same_struct_item(x, y),
        (ExternItem::Type(x), ExternItem::Type(y)) => *x == *y,
        (ExternItem::Var { name: a0, ty: a1 }, ExternItem::Var { name: b0, ty: b1 }) => *a0 == *b0 && same_type(a1, b1),
        _ => false,
    }
}

pub fn same_import_item(a: &ImportItem, b: &ImportItem) -> (r: bool)
    ensures
        r == (*a == *b),
    decreases a,
{
    a.source == b.source && same_import_name_list(&a.names, &b.names) && a.alias == b.alias
}

pub fn same_import_name(a: &ImportName, b: &ImportName) -> (r: bool)
    ensures
        r == (*a == *b),
    decreases a,
{
    a.name == b.name && a.alias == b.alias
}

pub fn same_test_item(a: &TestItem, b: &TestItem) -> (r: bool)
    ensures
        r == (*a == *b),
    decreases a,
{
    a.name == b.name && same_block(&a.body, &b.body)
}

pub fn same_block(a: &Block, b: &Block) -> (r: bool)
    ensures
        r == (*a == *b),
    decreases a,
{
    same_stmt_list(&a.stmts, &b.stmts) && same_opt_box_expr(&a.trailing, &b.trailing) && a.span == b.span
}

pub fn same_stmt(a: &Stmt, b: &Stmt) -> (r: bool)
    ensures
        r == (*a == *b),
    decreases a,
{
    same_stmt_kind(&a.kind, &b.kind) && a.span == b.span
}

pub fn same_stmt_kind(a: &StmtKind, b: &StmtKind) -> (r: bool)
    ensures
        r == (*a == *b),
    decreases a,
{
    match (a, b) {
        (StmtKind::Var(x), StmtKind::Var(y)) => same_local_var(x, y),
        (StmtKind::Assign { target: a0, value: a1 }, StmtKind::Assign { target: b0, value: b1 }) => {
            same_expr(a0, b0)
                && same_expr(a1, b1)
        },
        (StmtKind::Expr(x), StmtKind::Expr(y)) => same_expr(x, y),
        (StmtKind::Item(x), StmtKind::Item(y)) => same_item(x, y),
        _ => false,
    }
}

pub fn same_local_var(a: &LocalVar, b: &LocalVar) -> (r: bool)
    ensures
        r == (*a == *b),
    decreases a,
{
    same_pattern(&a.pattern, &b.pattern) && same_opt_type(&a.ty, &b.ty) && same_expr(&a.init, &b.init)
}

pub fn same_pattern(a: &Pattern, b: &Pattern) -> (r: bool)
    ensures
        r == (*a == *b),
    decreases a,
{
    same_pattern_kind(&a.kind, &b.kind) && a.span == b.span
}

pub fn same_pattern_kind(a: &PatternKind, b: &PatternKind) -> (r: bool)
    ensures
        r == (*a == *b),
    decreases a,
{
    match (a, b) {
        (PatternKind::Wildcard, PatternKind::Wildcard) => true,
        (PatternKind::Binding(x), PatternKind::Binding(y)) => *x == *y,
        (PatternKind::Literal(x), PatternKind::Literal(y)) => same_expr(x, y),
        (PatternKind::TypeBinding { ty: a0, binding: a1 }, PatternKind::TypeBinding { ty: b0, binding: b1 }) => {
            same_type(a0, b0)
                && *a1 == *b1
        },
        (PatternKind::UnitPath(x), PatternKind::UnitPath(y)) => same_type_path(x, y),
        (
            PatternKind::TupleStruct { path: a0, fields: a1, rest: a2 },
            PatternKind::TupleStruct { path: b0, fields: b1, rest: b2 },
        ) => {
            same_type_path(a0, b0)
                && same_pattern_list(a1, b1)
                && *a2 == *b2
        },
        (
            PatternKind::RecordStruct { path: a0, fields: a1, has_rest: a2 },
            PatternKind::RecordStruct { path: b0, fields: b1, has_rest: b2 },
        ) => {
            same_type_path(a0, b0)
                && same_field_pattern_list(a1, b1)
                && *a2 == *b2
        },
        (PatternKind::Tuple { elems: a0, rest: a1 }, PatternKind::Tuple { elems: b0, rest: b1 }) => {
            same_pattern_list(a0, b0)
                && *a1 == *b1
        },
        (PatternKind::List { elems: a0, rest: a1 }, PatternKind::List { elems: b0, rest: b1 }) => {
            same_pattern_list(a0, b0)
                && *a1 == *b1
        },
        (PatternKind::Or(x), PatternKind::Or(y)) => same_pattern_list(x, y),
        _ => false,
    }
}

pub fn same_field_pattern(a: &FieldPattern, b: &FieldPattern) -> (r: bool)
    ensures
        r == (*a == *b),
    decreases a,
{
    a.name == b.name && same_opt_pattern(&a.pattern, &b.pattern) && a.span == b.span
}

pub fn same_type_path(a: &TypePath, b: &TypePath) -> (r: bool)
    ensures
        r == (*a == *b),
    decreases a,
{
    a.name == b.name && same_type_list(&a.generics, &b.generics) && a.span == b.span
}

pub fn same_type(a: &Type, b: &Type) -> (r: bool)
    ensures
        r == (*a == *b),
    decreases a,
{
    same_type_kind(&a.kind, &b.kind) && a.span == b.span
}

pub fn same_type_kind(a: &TypeKind, b: &TypeKind) -> (r: bool)
    ensures
        r == (*a == *b),
    decreases a,
{
    match (a, b) {
        (TypeKind::Named { name: a0, generics: a1 }, TypeKind::Named { name: b0, generics: b1 }) => {
            *a0 == *b0
                && same_type_list(a1, b1)
        },
        (TypeKind::Tuple(x), TypeKind::Tuple(y)) => same_type_list(x, y),
        (TypeKind::Function { params: a0, ret: a1 }, TypeKind::Function { params: b0, ret: b1 }) => {
            same_type_list(a0, b0)
                && same_type(a1, b1)
        },
        (TypeKind::ExternFunction { params: a0, ret: a1 }, TypeKind::ExternFunction { params: b0, ret: b1 }) => {
            same_extern_param_list(a0, b0)
                && same_type(a1, b1)
        },
        (TypeKind::Union(x), TypeKind::Union(y)) => same_type_list(x, y),
        (TypeKind::Pointer(x), TypeKind::Pointer(y)) => same_type(x, y),
        (TypeKind::Array { elem: a0, len: a1 }, TypeKind::Array { elem: b0, len: b1 }) => {
            same_type(a0, b0)
                && same_expr(a1, b1)
        },
        (TypeKind::SelfType, TypeKind::SelfType) => true,
        (TypeKind::Paren(x), TypeKind::Paren(y)) => same_type(x, y),
        _ => false,
    }
}

pub fn same_extern_param(a: &ExternParam, b: &ExternParam) -> (r: bool)
    ensures
        r == (*a == *b),
    decreases a,
{
    same_type(&a.ty, &b.ty) && a.span == b.span
}

pub fn same_expr(a: &Expr, b: &Expr) -> (r: bool)
    ensures
        r == (*a == *b),
    decreases a,
{
    same_expr_kind(&a.kind, &b.kind) && a.span == b.span
}

pub fn same_expr_kind(a: &ExprKind, b: &ExprKind) -> (r: bool)
    ensures
        r == (*a == *b),
    decreases a,
{
    match (a, b) {
        (ExprKind::Int(x), ExprKind::Int(y)) => *x == *y,
        (ExprKind::Float(x), ExprKind::Float(y)) => *x == *y,
        (ExprKind::Bool(x), ExprKind::Bool(y)) => *x == *y,
        (ExprKind::Null, ExprKind::Null) => true,
        (ExprKind::Char(x), ExprKind::Char(y)) => *x == *y,
        (ExprKind::Str(x), ExprKind::Str(y)) => same_string_lit(x, y),
        (ExprKind::Ident(x), ExprKind::Ident(y)) => *x == *y,
        (ExprKind::SelfExpr, ExprKind::SelfExpr) => true,
        (ExprKind::Underscore, ExprKind::Underscore) => true,
        (ExprKind::Continue, ExprKind::Continue) => true,
        (ExprKind::Paren(x), ExprKind::Paren(y)) => same_expr(x, y),
        (ExprKind::Tuple(x), ExprKind::Tuple(y)) => same_expr_list(x, y),
        (ExprKind::List(x), ExprKind::List(y)) => same_expr_list(x, y),
        (ExprKind::MapLit(x), ExprKind::MapLit(y)) => same_map_item_list(x, y),
        (
            ExprKind::StructLit { path: a0, fields: a1, spread: a2 },
            ExprKind::StructLit { path: b0, fields: b1, spread: b2 },
        ) => {
            same_type_path(a0, b0)
                && same_field_init_list(a1, b1)
                && same_opt_box_expr(a2, b2)
        },
        (
            ExprKind::Unary { op: a0, op_span: a1, operand: a2 },
            ExprKind::Unary { op: b0, op_span: b1, operand: b2 },
        ) => {
            *a0 == *b0
                && *a1 == *b1
                && same_expr(a2, b2)
        },
        (
            ExprKind::Binary { op: a0, op_span: a1, left: a2, right: a3 },
            ExprKind::Binary { op: b0, op_span: b1, left: b2, right: b3 },
        ) => {
            *a0 == *b0
                && *a1 == *b1
                && same_expr(a2, b2)
                && same_expr(a3, b3)
        },
        (
            ExprKind::Cast { op: a0, op_span: a1, expr: a2, ty: a3 },
            ExprKind::Cast { op: b0, op_span: b1, expr: b2, ty: b3 },
        ) => {
            *a0 == *b0
                && *a1 == *b1
                && same_expr(a2, b2)
                && same_type(a3, b3)
        },
        (ExprKind::Field { receiver: a0, name: a1 }, ExprKind::Field { receiver: b0, name: b1 }) => {
            same_expr(a0, b0)
                && *a1 == *b1
        },
        (
            ExprKind::TupleIndex { receiver: a0, index: a1, index_span: a2 },
            ExprKind::TupleIndex { receiver: b0, index: b1, index_span: b2 },
        ) => {
            same_expr(a0, b0)
                && *a1 == *b1
                && *a2 == *b2
        },
        (
            ExprKind::Call { callee: a0, generics: a1, args: a2, trailing_closure: a3 },
            ExprKind::Call { callee: b0, generics: b1, args: b2, trailing_closure: b3 },
        ) => {
            same_expr(a0, b0)
                && same_type_list(a1, b1)
                && same_expr_list(a2, b2)
                && same_opt_box_expr(a3, b3)
        },
        (ExprKind::Index { receiver: a0, index: a1 }, ExprKind::Index { receiver: b0, index: b1 }) => {
            same_expr(a0, b0)
                && same_expr(a1, b1)
        },
        (ExprKind::Try { expr: a0, q_span: a1 }, ExprKind::Try { expr: b0, q_span: b1 }) => {
            same_expr(a0, b0)
                && *a1 == *b1
        },
        (ExprKind::Ref { expr: a0, amp_span: a1 }, ExprKind::Ref { expr: b0, amp_span: b1 }) => {
            same_expr(a0, b0)
                && *a1 == *b1
        },
        (ExprKind::Deref { expr: a0, star_span: a1 }, ExprKind::Deref { expr: b0, star_span: b1 }) => {
            same_expr(a0, b0)
                && *a1 == *b1
        },
        (ExprKind::Await { expr: a0, kw_span: a1 }, ExprKind::Await { expr: b0, kw_span: b1 }) => {
            same_expr(a0, b0)
                && *a1 == *b1
        },
        (ExprKind::Spawn { expr: a0, kw_span: a1 }, ExprKind::Spawn { expr: b0, kw_span: b1 }) => {
            same_expr(a0, b0)
                && *a1 == *b1
        },
        (
            ExprKind::If { cond: a0, then_block: a1, else_branch: a2 },
            ExprKind::If { cond: b0, then_block: b1, else_branch: b2 },
        ) => {
            same_expr(a0, b0)
                && same_block(a1, b1)
                && same_opt_else_branch(a2, b2)
        },
        (ExprKind::Match { scrutinee: a0, arms: a1 }, ExprKind::Match { scrutinee: b0, arms: b1 }) => {
            same_expr(a0, b0)
                && same_match_arm_list(a1, b1)
        },
        (ExprKind::Block(x), ExprKind::Block(y)) => same_block(x, y),
        (ExprKind::Loop(x), ExprKind::Loop(y)) => same_block(x, y),
        (ExprKind::While { cond: a0, body: a1 }, ExprKind::While { cond: b0, body: b1 }) => {
            same_expr(a0, b0)
                && same_block(a1, b1)
        },
        (
            ExprKind::For { pattern: a0, in_async: a1, iter: a2, body: a3 },
            ExprKind::For { pattern: b0, in_async: b1, iter: b2, body: b3 },
        ) => {
            same_pattern(a0, b0)
                && *a1 == *b1
                && same_expr(a2, b2)
                && same_block(a3, b3)
        },
        (ExprKind::Return(x), ExprKind::Return(y)) => same_opt_box_expr(x, y),
        (ExprKind::Break(x), ExprKind::Break(y)) => same_opt_box_expr(x, y),
        (
            ExprKind::Closure { params: a0, return_type: a1, is_async: a2, body: a3 },
            ExprKind::Closure { params: b0, return_type: b1, is_async: b2, body: b3 },
        ) => {
            same_closure_param_list(a0, b0)
                && same_opt_type(a1, b1)
                && *a2 == *b2
                && same_expr(a3, b3)
        },
        (ExprKind::AnonFn(x), ExprKind::AnonFn(y)) => same_function_item(x, y),
        (ExprKind::AsyncBlock(x), ExprKind::AsyncBlock(y)) => same_block(x, y),
        (
            ExprKind::MacroCall { name: a0, args: a1, block: a2 },
            ExprKind::MacroCall { name: b0, args: b1, block: b2 },
        ) => {
            *a0 == *b0
                && same_attr_arg_list(a1, b1)
                && same_opt_block(a2, b2)
        },
        _ => false,
    }
}

pub fn same_string_lit(a: &StringLit, b: &StringLit) -> (r: bool)
    ensures
        r == (*a == *b),
    decreases a,
{
    same_string_part_list(&a.parts, &b.parts) && a.span == b.span
}

pub fn same_string_part(a: &StringPart, b: &StringPart) -> (r: bool)
    ensures
        r == (*a == *b),
    decreases a,
{
    match (a, b) {
        (StringPart::Text { text: a0, span: a1 }, StringPart::Text { text: b0, span: b1 }) => *a0 == *b0 && *a1 == *b1,
        (StringPart::Ident(x), StringPart::Ident(y)) => *x == *y,
        (StringPart::Expr(x), StringPart::Expr(y)) => same_expr(x, y),
        _ => false,
    }
}

pub fn same_map_item(a: &MapItem, b: &MapItem) -> (r: bool)
    ensures
        r == (*a == *b),
    decreases a,
{
    match (a, b) {
        (MapItem::Entry { key: a0, value: a1, span: a2 }, MapItem::Entry { key: b0, value: b1, span: b2 }) => {
            same_expr(a0, b0)
                && same_expr(a1, b1)
                && *a2 == *b2
        },
        (MapItem::Spread(x), MapItem::Spread(y)) => same_expr(x, y),
        _ => false,
    }
}

pub fn same_field_init(a: &FieldInit, b: &FieldInit) -> (r: bool)
    ensures
        r == (*a == *b),
    decreases a,
{
    a.name == b.name && same_opt_expr(&a.value, &b.value) && a.span == b.span
}

pub fn same_else_branch(a: &ElseBranch, b: &ElseBranch) -> (r: bool)
    ensures
        r == (*a == *b),
    decreases a,
{
    match (a, b) {
        (ElseBranch::If(x), ElseBranch::If(y)) => same_expr(x, y),
        (ElseBranch::Block(x), ElseBranch::Block(y)) => same_block(x, y),
        _ => false,
    }
}

pub fn same_match_arm(a: &MatchArm, b: &MatchArm) -> (r: bool)
    ensures
        r == (*a == *b),
    decreases a,
{
    same_pattern(&a.pattern, &b.pattern)
        && same_opt_expr(&a.guard, &b.guard)
        && same_expr(&a.body, &b.body)
        && a.span == b.span
}

pub fn same_closure_param(a: &ClosureParam, b: &ClosureParam) -> (r: bool)
    ensures
        r == (*a == *b),
    decreases a,
{
    a.name == b.name && same_opt_type(&a.ty, &b.ty) && a.span == b.span
}

} // verus!
