//! Verified copies of syntax trees: `dup_x(x)` builds a value equal to `*x`.
use vstd::prelude::*;
use crate::list::List;
use crate::names::Symbol;
use crate::ast::{
    AttrArg, Attribute, Block, ClosureParam, ElseBranch, Expr, ExprKind, ExtendItem, ExtendMember, ExternItem,
    ExternParam, FieldDecl, FieldInit, FieldPattern, FunctionItem, GenericParam, GenericParams, ImportItem, ImportName,
    InterfaceItem, InterfaceMember, Item, ItemKind, LocalVar, MapItem, MatchArm, Module, ModuleItem, ModuleKind, Param,
    ParamKind, Pattern, PatternKind, Stmt, StmtKind, StringLit, StringPart, StructItem, StructKind, TestItem, Type,
    TypeAlias, TypeKind, TypePath, VarItem,
};

verus! {

pub fn dup_symbol_list(l: &List<Symbol>) -> (r: List<Symbol>)
    ensures
        r == *l,
    decreases l,
{
    match l {
        List::Nil => List::Nil,
        List::Cons(h, t) => List::Cons(Box::new(**h), Box::new(dup_symbol_list(t))),
    }
}

pub fn dup_item_list(l: &List<Item>) -> (r: List<Item>)
    ensures
        r == *l,
    decreases l,
{
    match l {
        List::Nil => List::Nil,
        List::Cons(h, t) => List::Cons(Box::new(dup_item(h)), Box::new(dup_item_list(t))),
    }
}

pub fn dup_attribute_list(l: &List<Attribute>) -> (r: List<Attribute>)
    ensures
        r == *l,
    decreases l,
{
    match l {
        List::Nil => List::Nil,
        List::Cons(h, t) => List::Cons(Box::new(dup_attribute(h)), Box::new(dup_attribute_list(t))),
    }
}

pub fn dup_attr_arg_list(l: &List<AttrArg>) -> (r: List<AttrArg>)
    ensures
        r == *l,
    decreases l,
{
    match l {
        List::Nil => List::Nil,
        List::Cons(h, t) => List::Cons(Box::new(dup_attr_arg(h)), Box::new(dup_attr_arg_list(t))),
    }
}

pub fn dup_param_list(l: &List<Param>) -> (r: List<Param>)
    ensures
        r == *l,
    decreases l,
{
    match l {
        List::Nil => List::Nil,
        List::Cons(h, t) => List::Cons(Box::new(dup_param(h)), Box::new(dup_param_list(t))),
    }
}

pub fn dup_generic_param_list(l: &List<GenericParam>) -> (r: List<GenericParam>)
    ensures
        r == *l,
    decreases l,
{
    match l {
        List::Nil => List::Nil,
        List::Cons(h, t) => List::Cons(Box::new(dup_generic_param(h)), Box::new(dup_generic_param_list(t))),
    }
}

pub fn dup_type_list(l: &List<Type>) -> (r: List<Type>)
    ensures
        r == *l,
    decreases l,
{
    match l {
        List::Nil => List::Nil,
        List::Cons(h, t) => List::Cons(Box::new(dup_type(h)), Box::new(dup_type_list(t))),
    }
}

pub fn dup_field_decl_list(l: &List<FieldDecl>) -> (r: List<FieldDecl>)
    ensures
        r == *l,
    decreases l,
{
    match l {
        List::Nil => List::Nil,
        List::Cons(h, t) => List::Cons(Box::new(dup_field_decl(h)), Box::new(dup_field_decl_list(t))),
    }
}

pub fn dup_interface_member_list(l: &List<InterfaceMember>) -> (r: List<InterfaceMember>)
    ensures
        r == *l,
    decreases l,
{
    match l {
        List::Nil => List::Nil,
        List::Cons(h, t) => List::Cons(Box::new(dup_interface_member(h)), Box::new(dup_interface_member_list(t))),
    }
}

pub fn dup_extend_member_list(l: &List<ExtendMember>) -> (r: List<ExtendMember>)
    ensures
        r == *l,
    decreases l,
{
    match l {
        List::Nil => List::Nil,
        List::Cons(h, t) => List::Cons(Box::new(dup_extend_member(h)), Box::new(dup_extend_member_list(t))),
    }
}

pub fn dup_import_name_list(l: &List<ImportName>) -> (r: List<ImportName>)
    ensures
        r == *l,
    decreases l,
{
    match l {
        List::Nil => List::Nil,
        List::Cons(h, t) => List::Cons(Box::new(dup_import_name(h)), Box::new(dup_import_name_list(t))),
    }
}

pub fn dup_stmt_list(l: &List<Stmt>) -> (r: List<Stmt>)
    ensures
        r == *l,
    decreases l,
{
    match l {
        List::Nil => List::Nil,
        List::Cons(h, t) => List::Cons(Box::new(dup_stmt(h)), Box::new(dup_stmt_list(t))),
    }
}

pub fn dup_pattern_list(l: &List<Pattern>) -> (r: List<Pattern>)
    ensures
        r == *l,
    decreases l,
{
    match l {
        List::Nil => List::Nil,
        List::Cons(h, t) => List::Cons(Box::new(dup_pattern(h)), Box::new(dup_pattern_list(t))),
    }
}

pub fn dup_field_pattern_list(l: &List<FieldPattern>) -> (r: List<FieldPattern>)
    ensures
        r == *l,
    decreases l,
{
    match l {
        List::Nil => List::Nil,
        List::Cons(h, t) => List::Cons(Box::new(dup_field_pattern(h)), Box::new(dup_field_pattern_list(t))),
    }
}

pub fn dup_extern_param_list(l: &List<ExternParam>) -> (r: List<ExternParam>)
    ensures
        r == *l,
    decreases l,
{
    match l {
        List::Nil => List::Nil,
        List::Cons(h, t) => List::Cons(Box::new(dup_extern_param(h)), Box::new(dup_extern_param_list(t))),
    }
}

pub fn dup_expr_list(l: &List<Expr>) -> (r: List<Expr>)
    ensures
        r == *l,
    decreases l,
{
    match l {
        List::Nil => List::Nil,
        List::Cons(h, t) => List::Cons(Box::new(dup_expr(h)), Box::new(dup_expr_list(t))),
    }
}

pub fn dup_map_item_list(l: &List<MapItem>) -> (r: List<MapItem>)
    ensures
        r == *l,
    decreases l,
{
    match l {
        List::Nil => List::Nil,
        List::Cons(h, t) => List::Cons(Box::new(dup_map_item(h)), Box::new(dup_map_item_list(t))),
    }
}

pub fn dup_field_init_list(l: &List<FieldInit>) -> (r: List<FieldInit>)
    ensures
        r == *l,
    decreases l,
{
    match l {
        List::Nil => List::Nil,
        List::Cons(h, t) => List::Cons(Box::new(dup_field_init(h)), Box::new(dup_field_init_list(t))),
    }
}

pub fn dup_match_arm_list(l: &List<MatchArm>) -> (r: List<MatchArm>)
    ensures
        r == *l,
    decreases l,
{
    match l {
        List::Nil => List::Nil,
        List::Cons(h, t) => List::Cons(Box::new(dup_match_arm(h)), Box::new(dup_match_arm_list(t))),
    }
}

pub fn dup_closure_param_list(l: &List<ClosureParam>) -> (r: List<ClosureParam>)
    ensures
        r == *l,
    decreases l,
{
    match l {
        List::Nil => List::Nil,
        List::Cons(h, t) => List::Cons(Box::new(dup_closure_param(h)), Box::new(dup_closure_param_list(t))),
    }
}

pub fn dup_string_part_list(l: &List<StringPart>) -> (r: List<StringPart>)
    ensures
        r == *l,
    decreases l,
{
    match l {
        List::Nil => List::Nil,
        List::Cons(h, t) => List::Cons(Box::new(dup_string_part(h)), Box::new(dup_string_part_list(t))),
    }
}

pub fn dup_module(x: &Module) -> (r: Module)
    ensures
        r == *x,
    decreases x,
{
    Module {
        docs: dup_symbol_list(&x.docs),
        items: dup_item_list(&x.items),
        span: x.span,
    }
}

pub fn dup_item(x: &Item) -> (r: Item)
    ensures
        r == *x,
    decreases x,
{
    Item {
        docs: dup_symbol_list(&x.docs),
        attrs: dup_attribute_list(&x.attrs),
        visibility: x.visibility,
        kind: dup_item_kind(&x.kind),
        span: x.span,
    }
}

pub fn dup_attribute(x: &Attribute) -> (r: Attribute)
    ensures
        r == *x,
    decreases x,
{
    Attribute {
        name: x.name,
        args: dup_attr_arg_list(&x.args),
        span: x.span,
    }
}

pub fn dup_attr_arg(x: &AttrArg) -> (r: AttrArg)
    ensures
        r == *x,
    decreases x,
{
    match x {
        AttrArg::Positional(a) => AttrArg::Positional(dup_expr(a)),
        AttrArg::Named { name, value } => AttrArg::Named { name: *name, value: dup_expr(value) },
    }
}

pub fn dup_item_kind(x: &ItemKind) -> (r: ItemKind)
    ensures
        r == *x,
    decreases x,
{
    match x {
        ItemKind::Function(a) => ItemKind::Function(dup_function_item(a)),
        ItemKind::Struct(a) => ItemKind::Struct(dup_struct_item(a)),
        ItemKind::Interface(a) => ItemKind::Interface(dup_interface_item(a)),
        ItemKind::Extend(a) => ItemKind::Extend(dup_extend_item(a)),
        ItemKind::Module(a) => ItemKind::Module(dup_module_item(a)),
        ItemKind::TypeAlias(a) => ItemKind::TypeAlias(dup_type_alias(a)),
        ItemKind::Var(a) => ItemKind::Var(dup_var_item(a)),
        ItemKind::Extern(a) => ItemKind::Extern(dup_extern_item(a)),
        ItemKind::Import(a) => ItemKind::Import(dup_import_item(a)),
        ItemKind::Test(a) => ItemKind::Test(dup_test_item(a)),
    }
}

pub fn dup_function_item(x: &FunctionItem) -> (r: FunctionItem)
    ensures
        r == *x,
    decreases x,
{
    FunctionItem {
        name: x.name,
        generics: match &x.generics { Some(y) => Some(dup_generic_params(y)), None => None },
        params: dup_param_list(&x.params),
        return_type: match &x.return_type { Some(y) => Some(dup_type(y)), None => None },
        is_async: x.is_async,
        body: match &x.body { Some(y) => Some(dup_block(y)), None => None },
    }
}

pub fn dup_generic_params(x: &GenericParams) -> (r: GenericParams)
    ensures
        r == *x,
    decreases x,
{
    GenericParams {
        params: dup_generic_param_list(&x.params),
        span: x.span,
    }
}

pub fn dup_generic_param(x: &GenericParam) -> (r: GenericParam)
    ensures
        r == *x,
    decreases x,
{
    GenericParam {
        name: x.name,
        bounds: dup_type_list(&x.bounds),
    }
}

pub fn dup_param(x: &Param) -> (r: Param)
    ensures
        r == *x,
    decreases x,
{
    Param {
        kind: dup_param_kind(&x.kind),
        span: x.span,
    }
}

pub fn dup_param_kind(x: &ParamKind) -> (r: ParamKind)
    ensures
        r == *x,
    decreases x,
{
    match x {
        ParamKind::SelfParam => ParamKind::SelfParam,
        ParamKind::Normal { name, ty } => ParamKind::Normal { name: *name, ty: dup_type(ty) },
    }
}

pub fn dup_struct_item(x: &StructItem) -> (r: StructItem)
    ensures
        r == *x,
    decreases x,
{
    StructItem {
        name: x.name,
        generics: match &x.generics { Some(y) => Some(dup_generic_params(y)), None => None },
        kind: dup_struct_kind(&x.kind),
    }
}

pub fn dup_struct_kind(x: &StructKind) -> (r: StructKind)
    ensures
        r == *x,
    decreases x,
{
    match x {
        StructKind::Unit => StructKind::Unit,
        StructKind::Record(a) => StructKind::Record(dup_field_decl_list(a)),
        StructKind::Tuple(a) => StructKind::Tuple(dup_type_list(a)),
    }
}

pub fn dup_field_decl(x: &FieldDecl) -> (r: FieldDecl)
    ensures
        r == *x,
    decreases x,
{
    FieldDecl {
        name: x.name,
        ty: dup_type(&x.ty),
    }
}

pub fn dup_interface_item(x: &InterfaceItem) -> (r: InterfaceItem)
    ensures
        r == *x,
    decreases x,
{
    InterfaceItem {
        name: x.name,
        generics: match &x.generics { Some(y) => Some(dup_generic_params(y)), None => None },
        members: dup_interface_member_list(&x.members),
    }
}

pub fn dup_interface_member(x: &InterfaceMember) -> (r: InterfaceMember)
    ensures
        r == *x,
    decreases x,
{
    InterfaceMember {
        function: dup_function_item(&x.function),
        default_body: match &x.default_body { Some(y) => Some(dup_block(y)), None => None },
    }
}

pub fn dup_extend_item(x: &ExtendItem) -> (r: ExtendItem)
    ensures
        r == *x,
    decreases x,
{
    ExtendItem {
        generics: match &x.generics { Some(y) => Some(dup_generic_params(y)), None => None },
        target: dup_type(&x.target),
        interfaces: dup_type_list(&x.interfaces),
        members: dup_extend_member_list(&x.members),
    }
}

pub fn dup_extend_member(x: &ExtendMember) -> (r: ExtendMember)
    ensures
        r == *x,
    decreases x,
{
    ExtendMember {
        docs: dup_symbol_list(&x.docs),
        attrs: dup_attribute_list(&x.attrs),
        visibility: x.visibility,
        function: dup_function_item(&x.function),
        span: x.span,
    }
}

pub fn dup_module_item(x: &ModuleItem) -> (r: ModuleItem)
    ensures
        r == *x,
    decreases x,
{
    ModuleItem {
        name: x.name,
        kind: dup_module_kind(&x.kind),
    }
}

pub fn dup_module_kind(x: &ModuleKind) -> (r: ModuleKind)
    ensures
        r == *x,
    decreases x,
{
    match x {
        ModuleKind::Inline { docs, items } => ModuleKind::Inline {
            docs: dup_symbol_list(docs),
            items: dup_item_list(items),
        },
        ModuleKind::File => ModuleKind::File,
    }
}

pub fn dup_type_alias(x: &TypeAlias) -> (r: TypeAlias)
    ensures
        r == *x,
    decreases x,
{
    TypeAlias {
        name: x.name,
        generics: match &x.generics { Some(y) => Some(dup_generic_params(y)), None => None },
        aliased: dup_type(&x.aliased),
    }
}

pub fn dup_var_item(x: &VarItem) -> (r: VarItem)
    ensures
        r == *x,
    decreases x,
{
    VarItem {
        name: x.name,
        ty: match &x.ty { Some(y) => Some(dup_type(y)), None => None },
        init: match &x.init { Some(y) => Some(dup_expr(y)), None => None },
    }
}

pub fn dup_extern_item(x: &ExternItem) -> (r: ExternItem)
    ensures
        r == *x,
    decreases x,
{
    match x {
        ExternItem::Function(a) => ExternItem::Function(dup_function_item(a)),
        ExternItem::Struct(a) => ExternItem::Struct(dup_struct_item(a)),
        ExternItem::Type(a) => ExternItem::Type(*a),
        ExternItem::Var { name, ty } => ExternItem::Var { name: *name, ty: dup_type(ty) },
    }
}

pub fn dup_import_item(x: &ImportItem) -> (r: ImportItem)
    ensures
        r == *x,
    decreases x,
{
    ImportItem {
        source: x.source,
        names: dup_import_name_list(&x.names),
        alias: x.alias,
    }
}

pub fn dup_import_name(x: &ImportName) -> (r: ImportName)
    ensures
        r == *x,
    decreases x,
{
    ImportName {
        name: x.name,
        alias: x.alias,
    }
}

pub fn dup_test_item(x: &TestItem) -> (r: TestItem)
    ensures
        r == *x,
    decreases x,
{
    TestItem {
        name: x.name,
        body: dup_block(&x.body),
    }
}

pub fn dup_block(x: &Block) -> (r: Block)
    ensures
        r == *x,
    decreases x,
{
    Block {
        stmts: dup_stmt_list(&x.stmts),
        trailing: match &x.trailing { Some(y) => Some(Box::new(dup_expr(y))), None => None },
        span: x.span,
    }
}

pub fn dup_stmt(x: &Stmt) -> (r: Stmt)
    ensures
        r == *x,
    decreases x,
{
    Stmt {
        kind: dup_stmt_kind(&x.kind),
        span: x.span,
    }
}

pub fn dup_stmt_kind(x: &StmtKind) -> (r: StmtKind)
    ensures
        r == *x,
    decreases x,
{
    match x {
        StmtKind::Var(a) => StmtKind::Var(dup_local_var(a)),
        StmtKind::Assign { target, value } => StmtKind::Assign { target: dup_expr(target), value: dup_expr(value) },
        StmtKind::Expr(a) => StmtKind::Expr(dup_expr(a)),
        StmtKind::Item(a) => StmtKind::Item(Box::new(dup_item(a))),
    }
}

pub fn dup_local_var(x: &LocalVar) -> (r: LocalVar)
    ensures
        r == *x,
    decreases x,
{
    LocalVar {
        pattern: dup_pattern(&x.pattern),
        ty: match &x.ty { Some(y) => Some(dup_type(y)), None => None },
        init: dup_expr(&x.init),
    }
}

pub fn dup_pattern(x: &Pattern) -> (r: Pattern)
    ensures
        r == *x,
    decreases x,
{
    Pattern {
        kind: dup_pattern_kind(&x.kind),
        span: x.span,
    }
}

pub fn dup_pattern_kind(x: &PatternKind) -> (r: PatternKind)
    ensures
        r == *x,
    decreases x,
{
    match x {
        PatternKind::Wildcard => PatternKind::Wildcard,
        PatternKind::Binding(a) => PatternKind::Binding(*a),
        PatternKind::Literal(a) => PatternKind::Literal(Box::new(dup_expr(a))),
        PatternKind::TypeBinding { ty, binding } => PatternKind::TypeBinding { ty: dup_type(ty), binding: *binding },
        PatternKind::UnitPath(a) => PatternKind::UnitPath(dup_type_path(a)),
        PatternKind::TupleStruct { path, fields, rest } => PatternKind::TupleStruct {
            path: dup_type_path(path),
            fields: dup_pattern_list(fields),
            rest: *rest,
        },
        PatternKind::RecordStruct { path, fields, has_rest } => PatternKind::RecordStruct {
            path: dup_type_path(path),
            fields: dup_field_pattern_list(fields),
            has_rest: *has_rest,
        },
        PatternKind::Tuple { elems, rest } => PatternKind::Tuple { elems: dup_pattern_list(elems), rest: *rest },
        PatternKind::List { elems, rest } => PatternKind::List { elems: dup_pattern_list(elems), rest: *rest },
        PatternKind::Or(a) => PatternKind::Or(dup_pattern_list(a)),
    }
}

pub fn dup_field_pattern(x: &FieldPattern) -> (r: FieldPattern)
    ensures
        r == *x,
    decreases x,
{
    FieldPattern {
        name: x.name,
        pattern: match &x.pattern { Some(y) => Some(dup_pattern(y)), None => None },
        span: x.span,
    }
}

pub fn dup_type_path(x: &TypePath) -> (r: TypePath)
    ensures
        r == *x,
    decreases x,
{
    TypePath {
        name: x.name,
        generics: dup_type_list(&x.generics),
        span: x.span,
    }
}

pub fn dup_type(x: &Type) -> (r: Type)
    ensures
        r == *x,
    decreases x,
{
    Type {
        kind: dup_type_kind(&x.kind),
        span: x.span,
    }
}

pub fn dup_type_kind(x: &TypeKind) -> (r: TypeKind)
    ensures
        r == *x,
    decreases x,
{
    match x {
        TypeKind::Named { name, generics } => TypeKind::Named { name: *name, generics: dup_type_list(generics) },
        TypeKind::Tuple(a) => TypeKind::Tuple(dup_type_list(a)),
        TypeKind::Function { params, ret } => TypeKind::Function {
            params: dup_type_list(params),
            ret: Box::new(dup_type(ret)),
        },
        TypeKind::ExternFunction { params, ret } => TypeKind::ExternFunction {
            params: dup_extern_param_list(params),
            ret: Box::new(dup_type(ret)),
        },
        TypeKind::Union(a) => TypeKind::Union(dup_type_list(a)),
        TypeKind::Pointer(a) => TypeKind::Pointer(Box::new(dup_type(a))),
        TypeKind::Array { elem, len } => TypeKind::Array {
            elem: Box::new(dup_type(elem)),
            len: Box::new(dup_expr(len)),
        },
        TypeKind::SelfType => TypeKind::SelfType,
        TypeKind::Paren(a) => TypeKind::Paren(Box::new(dup_type(a))),
    }
}

pub fn dup_extern_param(x: &ExternParam) -> (r: ExternParam)
    ensures
        r == *x,
    decreases x,
{
    ExternParam {
        ty: dup_type(&x.ty),
        span: x.span,
    }
}

pub fn dup_expr(x: &Expr) -> (r: Expr)
    ensures
        r == *x,
    decreases x,
{
    Expr {
        kind: dup_expr_kind(&x.kind),
        span: x.span,
    }
}

pub fn dup_expr_kind(x: &ExprKind) -> (r: ExprKind)
    ensures
        r == *x,
    decreases x,
{
    match x {
        ExprKind::Int(a) => ExprKind::Int(*a),
        ExprKind::Float(a) => ExprKind::Float(*a),
        ExprKind::Bool(a) => ExprKind::Bool(*a),
        ExprKind::Null => ExprKind::Null,
        ExprKind::Char(a) => ExprKind::Char(*a),
        ExprKind::Str(a) => ExprKind::Str(dup_string_lit(a)),
        ExprKind::Ident(a) => ExprKind::Ident(*a),
        ExprKind::SelfExpr => ExprKind::SelfExpr,
        ExprKind::Underscore => ExprKind::Underscore,
        ExprKind::Continue => ExprKind::Continue,
        ExprKind::Paren(a) => ExprKind::Paren(Box::new(dup_expr(a))),
        ExprKind::Tuple(a) => ExprKind::Tuple(dup_expr_list(a)),
        ExprKind::List(a) => ExprKind::List(dup_expr_list(a)),
        ExprKind::MapLit(a) => ExprKind::MapLit(dup_map_item_list(a)),
        ExprKind::StructLit { path, fields, spread } => ExprKind::StructLit {
            path: dup_type_path(path),
            fields: dup_field_init_list(fields),
            spread: match spread { Some(y) => Some(Box::new(dup_expr(y))), None => None },
        },
        ExprKind::Unary { op, op_span, operand } => ExprKind::Unary {
            op: *op,
            op_span: *op_span,
            operand: Box::new(dup_expr(operand)),
        },
        ExprKind::Binary { op, op_span, left, right } => ExprKind::Binary {
            op: *op,
            op_span: *op_span,
            left: Box::new(dup_expr(left)),
            right: Box::new(dup_expr(right)),
        },
        ExprKind::Cast { op, op_span, expr, ty } => ExprKind::Cast {
            op: *op,
            op_span: *op_span,
            expr: Box::new(dup_expr(expr)),
            ty: Box::new(dup_type(ty)),
        },
        ExprKind::Field { receiver, name } => ExprKind::Field { receiver: Box::new(dup_expr(receiver)), name: *name },
        ExprKind::TupleIndex { receiver, index, index_span } => ExprKind::TupleIndex {
            receiver: Box::new(dup_expr(receiver)),
            index: *index,
            index_span: *index_span,
        },
        ExprKind::Call { callee, generics, args, trailing_closure } => ExprKind::Call {
            callee: Box::new(dup_expr(callee)),
            generics: dup_type_list(generics),
            args: dup_expr_list(args),
            trailing_closure: match trailing_closure { Some(y) => Some(Box::new(dup_expr(y))), None => None },
        },
        ExprKind::Index { receiver, index } => ExprKind::Index {
            receiver: Box::new(dup_expr(receiver)),
            index: Box::new(dup_expr(index)),
        },
        ExprKind::Try { expr, q_span } => ExprKind::Try { expr: Box::new(dup_expr(expr)), q_span: *q_span },
        ExprKind::Ref { expr, amp_span } => ExprKind::Ref { expr: Box::new(dup_expr(expr)), amp_span: *amp_span },
        ExprKind::Deref { expr, star_span } => ExprKind::Deref {
            expr: Box::new(dup_expr(expr)),
            star_span: *star_span,
        },
        ExprKind::Await { expr, kw_span } => ExprKind::Await { expr: Box::new(dup_expr(expr)), kw_span: *kw_span },
        ExprKind::Spawn { expr, kw_span } => ExprKind::Spawn { expr: Box::new(dup_expr(expr)), kw_span: *kw_span },
        ExprKind::If { cond, then_block, else_branch } => ExprKind::If {
            cond: Box::new(dup_expr(cond)),
            then_block: dup_block(then_block),
            else_branch: match else_branch { Some(y) => Some(dup_else_branch(y)), None => None },
        },
        ExprKind::Match { scrutinee, arms } => ExprKind::Match {
            scrutinee: Box::new(dup_expr(scrutinee)),
            arms: dup_match_arm_list(arms),
        },
        ExprKind::Block(a) => ExprKind::Block(dup_block(a)),
        ExprKind::Loop(a) => ExprKind::Loop(dup_block(a)),
        ExprKind::While { cond, body } => ExprKind::While { cond: Box::new(dup_expr(cond)), body: dup_block(body) },
        ExprKind::For { pattern, in_async, iter, body } => ExprKind::For {
            pattern: dup_pattern(pattern),
            in_async: *in_async,
            iter: Box::new(dup_expr(iter)),
            body: dup_block(body),
        },
        ExprKind::Return(a) => ExprKind::Return(match a { Some(y) => Some(Box::new(dup_expr(y))), None => None }),
        ExprKind::Break(a) => ExprKind::Break(match a { Some(y) => Some(Box::new(dup_expr(y))), None => None }),
        ExprKind::Closure { params, return_type, is_async, body } => ExprKind::Closure {
            params: dup_closure_param_list(params),
            return_type: match return_type { Some(y) => Some(dup_type(y)), None => None },
            is_async: *is_async,
            body: Box::new(dup_expr(body)),
        },
        ExprKind::AnonFn(a) => ExprKind::AnonFn(Box::new(dup_function_item(a))),
        ExprKind::AsyncBlock(a) => ExprKind::AsyncBlock(dup_block(a)),
        ExprKind::MacroCall { name, args, block } => ExprKind::MacroCall {
            name: *name,
            args: dup_attr_arg_list(args),
            block: match block { Some(y) => Some(dup_block(y)), None => None },
        },
    }
}

pub fn dup_string_lit(x: &StringLit) -> (r: StringLit)
    ensures
        r == *x,
    decreases x,
{
    StringLit {
        parts: dup_string_part_list(&x.parts),
        span: x.span,
    }
}

pub fn dup_string_part(x: &StringPart) -> (r: StringPart)
    ensures
        r == *x,
    decreases x,
{
    match x {
        StringPart::Text { text, span } => StringPart::Text { text: *text, span: *span },
        StringPart::Ident(a) => StringPart::Ident(*a),
        StringPart::Expr(a) => StringPart::Expr(dup_expr(a)),
    }
}

pub fn dup_map_item(x: &MapItem) -> (r: MapItem)
    ensures
        r == *x,
    decreases x,
{
    match x {
        MapItem::Entry { key, value, span } => MapItem::Entry {
            key: Box::new(dup_expr(key)),
            value: Box::new(dup_expr(value)),
            span: *span,
        },
        MapItem::Spread(a) => MapItem::Spread(Box::new(dup_expr(a))),
    }
}

pub fn dup_field_init(x: &FieldInit) -> (r: FieldInit)
    ensures
        r == *x,
    decreases x,
{
    FieldInit {
        name: x.name,
        value: match &x.value { Some(y) => Some(dup_expr(y)), None => None },
        span: x.span,
    }
}

pub fn dup_else_branch(x: &ElseBranch) -> (r: ElseBranch)
    ensures
        r == *x,
    decreases x,
{
    match x {
        ElseBranch::If(a) => ElseBranch::If(Box::new(dup_expr(a))),
        ElseBranch::Block(a) => ElseBranch::Block(dup_block(a)),
    }
}

pub fn dup_match_arm(x: &MatchArm) -> (r: MatchArm)
    ensures
        r == *x,
    decreases x,
{
    MatchArm {
        pattern: dup_pattern(&x.pattern),
        guard: match &x.guard { Some(y) => Some(dup_expr(y)), None => None },
        body: dup_expr(&x.body),
        span: x.span,
    }
}

pub fn dup_closure_param(x: &ClosureParam) -> (r: ClosureParam)
    ensures
        r == *x,
    decreases x,
{
    ClosureParam {
        name: x.name,
        ty: match &x.ty { Some(y) => Some(dup_type(y)), None => None },
        span: x.span,
    }
}

} // verus!
