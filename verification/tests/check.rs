//! Programs through the whole checker.
#![allow(dead_code)]
use otter_sema::anf::hoist_awaits;
use otter_sema::analysis::{analyze, analyze_multi, Analysis};
use otter_sema::ast::{
    AttrArg, Attribute, BinaryOp, Block, CastOp, CharLit, ClosureParam, ElseBranch, Expr, ExprKind, ExtendItem, ExtendMember,
    ExternItem, FieldDecl, FieldInit, FieldPattern, FloatLit, FunctionItem, GenericParam, GenericParams, Ident, ImportItem,
    ImportName, IntBase, IntLit, InterfaceItem, InterfaceMember, Item, ItemKind, LocalVar, MapItem, MatchArm, Module,
    ModuleItem, ModuleKind, Param, ParamKind, Pattern, PatternKind, RestAt, RestPattern, Stmt, StmtKind, StringLit,
    StringPart, StructItem, StructKind, TestItem, Type, TypeAlias, TypeKind, TypePath, UnaryOp, VarItem, Visibility,
};
use otter_sema::checker::Checker;
use otter_sema::defaults::{collect_pub_interfaces, expand_default_methods, ForeignIfaces};
use otter_sema::derive::expand_derives;
use otter_sema::diag::{SemaError, SemaErrorKind};
use otter_sema::dup::{dup_function_item, dup_module, dup_type};
use otter_sema::hir::{CallKind, NodeKind};
use otter_sema::ids::ModId;
use otter_sema::list::List;
use otter_sema::lower::{Lowerer, TypeEnv};
use otter_sema::names::Interner;
use otter_sema::results::{Adjust, ValueRes};
use otter_sema::session::Session;
use otter_sema::span::{BytePos, FileId, Span};
use otter_sema::symbols::{External, Externals, Program};
use otter_sema::ty::{IntTy, Ty, TyCtxt, TyKind, ERROR_TY, I64_TY, NULL_TY, STR_TY};

// -- a small front end ------------------------------------------------------

#[derive(Clone, Debug, PartialEq)]
enum Tok {
    Name(String),
    Int(String),
    Float(String),
    Text(String),
    Ch(String),
    Op(&'static str),
    End,
}

#[derive(Clone, Debug)]
struct Token {
    tok: Tok,
    lo: u32,
    hi: u32,
}

const OPS: [&str; 41] = [
    "...", "=>", "==", "!=", "<=", ">=", "&&", "||", "<<", ">>", "..", "(", ")", "{", "}", "[", "]", "<", ">", ",", ";",
    ":", ".", "=", "+", "-", "*", "/", "%", "!", "~", "&", "|", "^", "?", "@", "$", "#", "->", "_=", "::",
];

fn lex(src: &str) -> Vec<Token> {
    let b = src.as_bytes();
    let mut out = Vec::new();
    let mut i = 0;
    while i < b.len() {
        let c = b[i] as char;
        if c.is_whitespace() {
            i += 1;
            continue;
        }
        let lo = i;
        if c.is_ascii_alphabetic() || c == '_' {
            while i < b.len() && ((b[i] as char).is_ascii_alphanumeric() || b[i] == b'_') {
                i += 1;
            }
            out.push(Token { tok: Tok::Name(src[lo..i].to_string()), lo: lo as u32, hi: i as u32 });
        } else if c.is_ascii_digit() {
            let mut float = false;
            while i < b.len() && ((b[i] as char).is_ascii_alphanumeric() || b[i] == b'_') {
                i += 1;
            }
            if i + 1 < b.len() && b[i] == b'.' && (b[i + 1] as char).is_ascii_digit() && !after_dot(&out) {
                float = true;
                i += 1;
                while i < b.len() && ((b[i] as char).is_ascii_alphanumeric() || b[i] == b'_') {
                    i += 1;
                }
            }
            let text = src[lo..i].to_string();
            let tok = if float { Tok::Float(text) } else { Tok::Int(text) };
            out.push(Token { tok, lo: lo as u32, hi: i as u32 });
        } else if c == '"' {
            i += 1;
            let start = i;
            while b[i] != b'"' {
                i += 1;
            }
            let text = src[start..i].to_string();
            i += 1;
            out.push(Token { tok: Tok::Text(text), lo: lo as u32, hi: i as u32 });
        } else if c == '\'' {
            i += 1;
            let start = i;
            while b[i] != b'\'' {
                if b[i] == b'\\' {
                    i += 1;
                }
                i += 1;
            }
            let text = src[start..i].to_string();
            i += 1;
            out.push(Token { tok: Tok::Ch(text), lo: lo as u32, hi: i as u32 });
        } else {
            let op = OPS.iter().find(|o| src[i..].starts_with(**o)).unwrap_or_else(|| panic!("lex: {:?}", &src[i..]));
            i += op.len();
            out.push(Token { tok: Tok::Op(op), lo: lo as u32, hi: i as u32 });
        }
    }
    let end = src.len() as u32;
    out.push(Token { tok: Tok::End, lo: end, hi: end });
    out
}

fn after_dot(out: &[Token]) -> bool {
    matches!(out.last(), Some(t) if t.tok == Tok::Op("."))
}

struct Parser<'s> {
    toks: Vec<Token>,
    at: usize,
    file: u32,
    names: &'s mut Interner,
}

type Parsed<T> = Result<T, String>;

fn list<T>(v: Vec<T>) -> List<T> {
    List::from_vec(v)
}

impl<'s> Parser<'s> {
    fn peek(&self) -> &Tok {
        &self.toks[self.at].tok
    }

    fn peek_at(&self, n: usize) -> &Tok {
        &self.toks[(self.at + n).min(self.toks.len() - 1)].tok
    }

    fn lo(&self) -> u32 {
        self.toks[self.at].lo
    }

    fn span_from(&self, lo: u32) -> Span {
        let hi = if self.at == 0 { lo } else { self.toks[self.at - 1].hi };
        Span::new(FileId(self.file), BytePos(lo), BytePos(hi))
    }

    fn is_op(&self, op: &str) -> bool {
        matches!(self.peek(), Tok::Op(o) if *o == op)
    }

    fn is_word(&self, w: &str) -> bool {
        matches!(self.peek(), Tok::Name(n) if n == w)
    }

    fn eat(&mut self, op: &str) -> bool {
        let yes = self.is_op(op);
        if yes {
            self.at += 1;
        }
        yes
    }

    fn eat_word(&mut self, w: &str) -> bool {
        let yes = self.is_word(w);
        if yes {
            self.at += 1;
        }
        yes
    }

    fn need(&mut self, op: &str) -> Parsed<()> {
        if self.eat(op) {
            Ok(())
        } else {
            Err(format!("expected `{}`, found {:?} at {}", op, self.peek(), self.lo()))
        }
    }

    fn sym(&mut self, text: &str) -> u32 {
        self.names.intern(text)
    }

    fn ident(&mut self) -> Parsed<Ident> {
        let lo = self.lo();
        match self.peek().clone() {
            Tok::Name(n) => {
                self.at += 1;
                let name = self.sym(&n);
                Ok(Ident { name, span: self.span_from(lo) })
            }
            other => Err(format!("expected a name, found {:?} at {}", other, lo)),
        }
    }

    fn comma_list<T>(&mut self, close: &str, mut f: impl FnMut(&mut Self) -> Parsed<T>) -> Parsed<Vec<T>> {
        let mut out = Vec::new();
        while !self.eat(close) {
            out.push(f(self)?);
            if !self.eat(",") {
                self.need(close)?;
                break;
            }
        }
        Ok(out)
    }

    // -- items --

    fn module(&mut self) -> Parsed<Module> {
        let mut items = Vec::new();
        while *self.peek() != Tok::End {
            items.push(self.item()?);
        }
        let span = self.span_from(0);
        Ok(Module { docs: List::Nil, items: list(items), span })
    }

    fn attrs(&mut self) -> Parsed<Vec<Attribute>> {
        let mut out = Vec::new();
        while self.is_op("@") {
            let lo = self.lo();
            self.at += 1;
            let name = self.ident()?;
            let args = if self.eat("(") {
                self.comma_list(")", |p| {
                    if matches!(p.peek(), Tok::Name(_)) && *p.peek_at(1) == Tok::Op("=") {
                        let name = p.ident()?;
                        p.need("=")?;
                        Ok(AttrArg::Named { name, value: p.expr(true)? })
                    } else {
                        Ok(AttrArg::Positional(p.expr(true)?))
                    }
                })?
            } else {
                Vec::new()
            };
            out.push(Attribute { name, args: list(args), span: self.span_from(lo) });
        }
        Ok(out)
    }

    fn visibility(&mut self) -> Visibility {
        let lo = self.lo();
        if self.eat_word("pub") {
            Visibility::Public(self.span_from(lo))
        } else {
            Visibility::Private
        }
    }

    fn item(&mut self) -> Parsed<Item> {
        let lo = self.lo();
        let attrs = self.attrs()?;
        let visibility = self.visibility();
        let kind = self.item_kind()?;
        Ok(Item { docs: List::Nil, attrs: list(attrs), visibility, kind, span: self.span_from(lo) })
    }

    fn item_kind(&mut self) -> Parsed<ItemKind> {
        if self.eat_word("function") {
            Ok(ItemKind::Function(self.function()?))
        } else if self.eat_word("struct") {
            Ok(ItemKind::Struct(self.struct_item()?))
        } else if self.eat_word("interface") {
            let name = self.ident()?;
            let generics = self.generics()?;
            self.need("{")?;
            let mut members = Vec::new();
            while !self.eat("}") {
                if !self.eat_word("function") {
                    return Err(format!("expected a method at {}", self.lo()));
                }
                let mut function = self.function()?;
                let default_body = function.body.take();
                members.push(InterfaceMember { function, default_body });
            }
            Ok(ItemKind::Interface(InterfaceItem { name, generics, members: list(members) }))
        } else if self.eat_word("extend") {
            let generics = self.generics()?;
            let target = self.simple_type()?;
            let mut interfaces = Vec::new();
            if self.eat(":") {
                interfaces.push(self.simple_type()?);
                while self.eat(",") {
                    interfaces.push(self.simple_type()?);
                }
            }
            self.need("{")?;
            let mut members = Vec::new();
            while !self.eat("}") {
                let lo = self.lo();
                let attrs = self.attrs()?;
                let visibility = self.visibility();
                if !self.eat_word("function") {
                    return Err(format!("expected a method at {}", self.lo()));
                }
                let function = self.function()?;
                members.push(ExtendMember {
                    docs: List::Nil,
                    attrs: list(attrs),
                    visibility,
                    function,
                    span: self.span_from(lo),
                });
            }
            Ok(ItemKind::Extend(ExtendItem {
                generics,
                target,
                interfaces: list(interfaces),
                members: list(members),
            }))
        } else if self.eat_word("type") {
            let name = self.ident()?;
            let generics = self.generics()?;
            self.need("=")?;
            let aliased = self.ty()?;
            self.need(";")?;
            Ok(ItemKind::TypeAlias(TypeAlias { name, generics, aliased }))
        } else if self.eat_word("module") {
            let name = self.ident()?;
            if self.eat(";") {
                return Ok(ItemKind::Module(ModuleItem { name, kind: ModuleKind::File }));
            }
            self.need("{")?;
            let mut items = Vec::new();
            while !self.eat("}") {
                items.push(self.item()?);
            }
            Ok(ItemKind::Module(ModuleItem { name, kind: ModuleKind::Inline { docs: List::Nil, items: list(items) } }))
        } else if self.eat_word("var") {
            let name = self.ident()?;
            let ty = if self.eat(":") { Some(self.ty()?) } else { None };
            let init = if self.eat("=") { Some(self.expr(true)?) } else { None };
            self.need(";")?;
            Ok(ItemKind::Var(VarItem { name, ty, init }))
        } else if self.eat_word("extern") {
            if self.eat_word("function") {
                Ok(ItemKind::Extern(ExternItem::Function(self.function()?)))
            } else if self.eat_word("struct") {
                Ok(ItemKind::Extern(ExternItem::Struct(self.struct_item()?)))
            } else if self.eat_word("type") {
                let name = self.ident()?;
                self.need(";")?;
                Ok(ItemKind::Extern(ExternItem::Type(name)))
            } else {
                Err(format!("extern at {}", self.lo()))
            }
        } else if self.eat_word("import") {
            let mut names = Vec::new();
            let mut alias = None;
            let source;
            if self.eat("{") {
                names = self.comma_list("}", |p| {
                    let name = p.ident()?;
                    let alias = if p.eat_word("as") { Some(p.ident()?) } else { None };
                    Ok(ImportName { name, alias })
                })?;
                if !self.eat_word("from") {
                    return Err("import without a source".to_string());
                }
                source = self.text()?;
            } else {
                source = self.text()?;
                if self.eat_word("as") {
                    alias = Some(self.ident()?);
                }
            }
            self.need(";")?;
            let source = self.sym(&source);
            Ok(ItemKind::Import(ImportItem { source, names: list(names), alias }))
        } else if self.eat_word("test") {
            let name = self.text()?;
            let name = self.sym(&name);
            let body = self.block()?;
            Ok(ItemKind::Test(TestItem { name, body }))
        } else {
            Err(format!("expected an item, found {:?} at {}", self.peek(), self.lo()))
        }
    }

    fn text(&mut self) -> Parsed<String> {
        match self.peek().clone() {
            Tok::Text(t) => {
                self.at += 1;
                Ok(t)
            }
            other => Err(format!("expected a string, found {:?}", other)),
        }
    }

    fn generics(&mut self) -> Parsed<Option<GenericParams>> {
        let lo = self.lo();
        if !self.eat("<") {
            return Ok(None);
        }
        let params = self.comma_list(">", |p| {
            let name = p.ident()?;
            let mut bounds = Vec::new();
            if p.eat(":") {
                bounds.push(p.simple_type()?);
                while p.eat("+") {
                    bounds.push(p.simple_type()?);
                }
            }
            Ok(GenericParam { name, bounds: list(bounds) })
        })?;
        Ok(Some(GenericParams { params: list(params), span: self.span_from(lo) }))
    }

    fn function(&mut self) -> Parsed<FunctionItem> {
        let name = self.ident()?;
        let generics = self.generics()?;
        self.need("(")?;
        let params = self.comma_list(")", |p| {
            let lo = p.lo();
            if p.eat_word("self") {
                return Ok(Param { kind: ParamKind::SelfParam, span: p.span_from(lo) });
            }
            let name = p.ident()?;
            p.need(":")?;
            let ty = p.ty()?;
            Ok(Param { kind: ParamKind::Normal { name, ty }, span: p.span_from(lo) })
        })?;
        let return_type = if self.eat(":") { Some(self.ty()?) } else { None };
        let is_async = self.eat_word("async");
        let body = if self.is_op("{") {
            Some(self.block()?)
        } else {
            self.need(";")?;
            None
        };
        Ok(FunctionItem { name, generics, params: list(params), return_type, is_async, body })
    }

    fn struct_item(&mut self) -> Parsed<StructItem> {
        let name = self.ident()?;
        let generics = self.generics()?;
        let kind = if self.eat("{") {
            let fields = self.comma_list("}", |p| {
                let name = p.ident()?;
                p.need(":")?;
                Ok(FieldDecl { name, ty: p.ty()? })
            })?;
            StructKind::Record(list(fields))
        } else if self.eat("(") {
            let tys = self.comma_list(")", |p| p.ty())?;
            self.eat(";");
            StructKind::Tuple(list(tys))
        } else {
            self.eat(";");
            StructKind::Unit
        };
        Ok(StructItem { name, generics, kind })
    }

    // -- types --

    fn ty(&mut self) -> Parsed<Type> {
        let lo = self.lo();
        let first = self.simple_type()?;
        if !self.is_op("|") {
            return Ok(first);
        }
        let mut all = vec![first];
        while self.eat("|") {
            all.push(self.simple_type()?);
        }
        Ok(Type { kind: TypeKind::Union(list(all)), span: self.span_from(lo) })
    }

    fn simple_type(&mut self) -> Parsed<Type> {
        let lo = self.lo();
        let kind = if self.eat("*") {
            TypeKind::Pointer(Box::new(self.simple_type()?))
        } else if self.eat("[") {
            let elem = self.ty()?;
            self.need(";")?;
            let len = self.expr(true)?;
            self.need("]")?;
            TypeKind::Array { elem: Box::new(elem), len: Box::new(len) }
        } else if self.eat("(") {
            let mut tys = self.comma_list(")", |p| p.ty())?;
            if self.eat("=>") {
                TypeKind::Function { params: list(tys), ret: Box::new(self.ty()?) }
            } else if tys.len() == 1 {
                TypeKind::Paren(Box::new(tys.remove(0)))
            } else {
                TypeKind::Tuple(list(tys))
            }
        } else if self.eat_word("Self") {
            TypeKind::SelfType
        } else {
            let name = self.ident()?;
            let generics = if self.is_op("<") {
                self.at += 1;
                self.type_args()?
            } else {
                Vec::new()
            };
            TypeKind::Named { name, generics: list(generics) }
        };
        Ok(Type { kind, span: self.span_from(lo) })
    }

    /// The types up to a `>`, which may be the first half of `>>`.
    fn type_args(&mut self) -> Parsed<Vec<Type>> {
        let mut out = Vec::new();
        loop {
            out.push(self.ty()?);
            if self.eat(",") {
                continue;
            }
            if self.is_op(">>") {
                let t = &mut self.toks[self.at];
                t.tok = Tok::Op(">");
                t.lo += 1;
                return Ok(out);
            }
            self.need(">")?;
            return Ok(out);
        }
    }

    // -- statements --

    fn block(&mut self) -> Parsed<Block> {
        let lo = self.lo();
        self.need("{")?;
        let mut stmts = Vec::new();
        let mut trailing = None;
        while !self.is_op("}") {
            let lo = self.lo();
            if self.eat_word("var") {
                let pattern = self.pattern()?;
                let ty = if self.eat(":") { Some(self.ty()?) } else { None };
                self.need("=")?;
                let init = self.expr(true)?;
                self.need(";")?;
                stmts.push(Stmt { kind: StmtKind::Var(LocalVar { pattern, ty, init }), span: self.span_from(lo) });
                continue;
            }
            let e = self.expr(true)?;
            if self.eat("=") {
                let value = self.expr(true)?;
                self.need(";")?;
                stmts.push(Stmt { kind: StmtKind::Assign { target: e, value }, span: self.span_from(lo) });
            } else if self.eat(";") {
                stmts.push(Stmt { kind: StmtKind::Expr(e), span: self.span_from(lo) });
            } else if self.is_op("}") {
                trailing = Some(Box::new(e));
            } else if block_like(&e) {
                stmts.push(Stmt { kind: StmtKind::Expr(e), span: self.span_from(lo) });
            } else {
                return Err(format!("expected `;`, found {:?} at {}", self.peek(), self.lo()));
            }
        }
        self.need("}")?;
        Ok(Block { stmts: list(stmts), trailing, span: self.span_from(lo) })
    }

    // -- patterns --

    fn pattern(&mut self) -> Parsed<Pattern> {
        let lo = self.lo();
        let first = self.one_pattern()?;
        if !self.is_op("|") {
            return Ok(first);
        }
        let mut all = vec![first];
        while self.eat("|") {
            all.push(self.one_pattern()?);
        }
        Ok(Pattern { kind: PatternKind::Or(list(all)), span: self.span_from(lo) })
    }

    fn rest_pattern(&mut self) -> Parsed<Option<RestPattern>> {
        let lo = self.lo();
        if !self.eat("...") {
            return Ok(None);
        }
        let name = if matches!(self.peek(), Tok::Name(_)) { Some(self.ident()?) } else { None };
        Ok(Some(RestPattern { name, span: self.span_from(lo) }))
    }

    fn pattern_list(&mut self, close: &str) -> Parsed<(Vec<Pattern>, Option<RestAt>)> {
        let mut out = Vec::new();
        let mut rest = None;
        while !self.eat(close) {
            match self.rest_pattern()? {
                Some(r) => rest = Some(RestAt { index: out.len() as u32, rest: r }),
                None => out.push(self.pattern()?),
            }
            if !self.eat(",") {
                self.need(close)?;
                break;
            }
        }
        Ok((out, rest))
    }

    fn one_pattern(&mut self) -> Parsed<Pattern> {
        let lo = self.lo();
        let kind = match self.peek().clone() {
            Tok::Name(n) if n == "_" => {
                self.at += 1;
                PatternKind::Wildcard
            }
            Tok::Name(n) if n == "true" || n == "false" || n == "null" => PatternKind::Literal(Box::new(self.primary(true)?)),
            Tok::Int(_) | Tok::Float(_) | Tok::Text(_) | Tok::Ch(_) => PatternKind::Literal(Box::new(self.primary(true)?)),
            Tok::Op("(") => {
                self.at += 1;
                let (elems, rest) = self.pattern_list(")")?;
                PatternKind::Tuple { elems: list(elems), rest }
            }
            Tok::Op("[") => {
                self.at += 1;
                let (elems, rest) = self.pattern_list("]")?;
                PatternKind::List { elems: list(elems), rest }
            }
            Tok::Name(n) => {
                let ty = self.simple_type()?;
                let (name, generics, span) = match ty {
                    Type { kind: TypeKind::Named { name, generics }, span } => (name, generics, span),
                    other => {
                        return Err(format!("pattern {:?}", other));
                    }
                };
                let next_name = matches!(self.peek(), Tok::Name(w) if w != "if" && w != "in");
                if next_name {
                    let binding = self.ident()?;
                    let binding = if self.names.text(binding.name) == "_" { None } else { Some(binding) };
                    PatternKind::TypeBinding { ty: Type { kind: TypeKind::Named { name, generics }, span }, binding }
                } else if self.eat("(") {
                    let (fields, rest) = self.pattern_list(")")?;
                    PatternKind::TupleStruct {
                        path: TypePath { name, generics, span },
                        fields: list(fields),
                        rest: rest.map(|r| r.rest),
                    }
                } else if self.is_op("{") && n.starts_with(|c: char| c.is_ascii_uppercase()) {
                    self.at += 1;
                    let mut has_rest = false;
                    let mut fields = Vec::new();
                    while !self.eat("}") {
                        let lo = self.lo();
                        if self.eat("...") {
                            has_rest = true;
                        } else {
                            let name = self.ident()?;
                            let pattern = if self.eat(":") { Some(self.pattern()?) } else { None };
                            fields.push(FieldPattern { name, pattern, span: self.span_from(lo) });
                        }
                        if !self.eat(",") {
                            self.need("}")?;
                            break;
                        }
                    }
                    PatternKind::RecordStruct { path: TypePath { name, generics, span }, fields: list(fields), has_rest }
                } else if n.starts_with(|c: char| c.is_ascii_uppercase()) {
                    PatternKind::UnitPath(TypePath { name, generics, span })
                } else {
                    PatternKind::Binding(name)
                }
            }
            other => {
                return Err(format!("pattern {:?} at {}", other, lo));
            }
        };
        Ok(Pattern { kind, span: self.span_from(lo) })
    }

    // -- expressions; `lit` says whether `Name { .. }` is a struct literal --

    fn expr(&mut self, lit: bool) -> Parsed<Expr> {
        self.binary(0, lit)
    }

    fn binary(&mut self, min: u32, lit: bool) -> Parsed<Expr> {
        let lo = self.lo();
        let mut left = self.unary(lit)?;
        loop {
            let op_lo = self.lo();
            if self.is_word("as") || self.is_word("is") {
                let op = if self.is_word("as") { CastOp::As } else { CastOp::Is };
                self.at += 1;
                let op_span = self.span_from(op_lo);
                let ty = self.simple_type()?;
                left = Expr {
                    kind: ExprKind::Cast { op, op_span, expr: Box::new(left), ty: Box::new(ty) },
                    span: self.span_from(lo),
                };
                continue;
            }
            let (op, prec) = match self.peek() {
                Tok::Op("||") => (BinaryOp::Or, 1),
                Tok::Op("&&") => (BinaryOp::And, 2),
                Tok::Op("==") => (BinaryOp::Eq, 3),
                Tok::Op("!=") => (BinaryOp::Ne, 3),
                Tok::Op("<") => (BinaryOp::Lt, 4),
                Tok::Op("<=") => (BinaryOp::Le, 4),
                Tok::Op(">") => (BinaryOp::Gt, 4),
                Tok::Op(">=") => (BinaryOp::Ge, 4),
                Tok::Op("|") => (BinaryOp::BitOr, 5),
                Tok::Op("^") => (BinaryOp::BitXor, 6),
                Tok::Op("&") => (BinaryOp::BitAnd, 7),
                Tok::Op("<<") => (BinaryOp::Shl, 8),
                Tok::Op(">>") => (BinaryOp::Shr, 8),
                Tok::Op("+") => (BinaryOp::Add, 9),
                Tok::Op("-") => (BinaryOp::Sub, 9),
                Tok::Op("*") => (BinaryOp::Mul, 10),
                Tok::Op("/") => (BinaryOp::Div, 10),
                Tok::Op("%") => (BinaryOp::Rem, 10),
                _ => {
                    return Ok(left);
                }
            };
            if prec <= min {
                return Ok(left);
            }
            self.at += 1;
            let op_span = self.span_from(op_lo);
            let right = self.binary(prec, lit)?;
            left = Expr {
                kind: ExprKind::Binary { op, op_span, left: Box::new(left), right: Box::new(right) },
                span: self.span_from(lo),
            };
        }
    }

    fn unary(&mut self, lit: bool) -> Parsed<Expr> {
        let lo = self.lo();
        let op = match self.peek() {
            Tok::Op("-") => Some(UnaryOp::Neg),
            Tok::Op("!") => Some(UnaryOp::Not),
            Tok::Op("~") => Some(UnaryOp::BitNot),
            _ => None,
        };
        if let Some(op) = op {
            self.at += 1;
            let op_span = self.span_from(lo);
            let operand = Box::new(self.unary(lit)?);
            return Ok(Expr { kind: ExprKind::Unary { op, op_span, operand }, span: self.span_from(lo) });
        }
        if self.eat("&") {
            let amp_span = self.span_from(lo);
            let expr = Box::new(self.unary(lit)?);
            return Ok(Expr { kind: ExprKind::Ref { expr, amp_span }, span: self.span_from(lo) });
        }
        if self.eat("*") {
            let star_span = self.span_from(lo);
            let expr = Box::new(self.unary(lit)?);
            return Ok(Expr { kind: ExprKind::Deref { expr, star_span }, span: self.span_from(lo) });
        }
        if self.eat_word("await") {
            let kw_span = self.span_from(lo);
            let expr = Box::new(self.unary(lit)?);
            return Ok(Expr { kind: ExprKind::Await { expr, kw_span }, span: self.span_from(lo) });
        }
        if self.is_word("spawn") && *self.peek_at(1) != Tok::Op("(") {
            self.at += 1;
            let kw_span = self.span_from(lo);
            let expr = Box::new(self.unary(lit)?);
            return Ok(Expr { kind: ExprKind::Spawn { expr, kw_span }, span: self.span_from(lo) });
        }
        self.postfix(lit)
    }

    fn postfix(&mut self, lit: bool) -> Parsed<Expr> {
        let lo = self.lo();
        let mut e = self.primary(lit)?;
        loop {
            if self.eat("?") {
                let q = self.toks[self.at - 1].lo;
                let q_span = self.span_from(q);
                e = Expr { kind: ExprKind::Try { expr: Box::new(e), q_span }, span: self.span_from(lo) };
            } else if self.eat(".") {
                let at = self.lo();
                if let Tok::Int(digits) = self.peek().clone() {
                    self.at += 1;
                    let index = digits.parse().unwrap();
                    let index_span = self.span_from(at);
                    e = Expr {
                        kind: ExprKind::TupleIndex { receiver: Box::new(e), index, index_span },
                        span: self.span_from(lo),
                    };
                } else {
                    let name = self.ident()?;
                    e = Expr { kind: ExprKind::Field { receiver: Box::new(e), name }, span: self.span_from(lo) };
                }
            } else if self.is_op("[") {
                self.at += 1;
                let index = Box::new(self.expr(true)?);
                self.need("]")?;
                e = Expr { kind: ExprKind::Index { receiver: Box::new(e), index }, span: self.span_from(lo) };
            } else if self.is_op("(") && callable(&e) {
                e = self.call(e, Vec::new(), lit, lo)?;
            } else if self.is_op("<") && callable(&e) {
                let at = self.at;
                let saved = self.toks.clone();
                self.at += 1;
                match self.type_args() {
                    Ok(tys) if self.is_op("(") => {
                        e = self.call(e, tys, lit, lo)?;
                    }
                    _ => {
                        self.at = at;
                        self.toks = saved;
                        return Ok(e);
                    }
                }
            } else if lit && self.is_op("{") && matches!(e.kind, ExprKind::Field { .. }) {
                let closure = self.trailing_closure()?;
                e = Expr {
                    kind: ExprKind::Call {
                        callee: Box::new(e),
                        generics: List::Nil,
                        args: List::Nil,
                        trailing_closure: Some(Box::new(closure)),
                    },
                    span: self.span_from(lo),
                };
            } else {
                return Ok(e);
            }
        }
    }

    fn call(&mut self, callee: Expr, generics: Vec<Type>, lit: bool, lo: u32) -> Parsed<Expr> {
        self.need("(")?;
        let args = self.comma_list(")", |p| p.expr(true))?;
        let trailing_closure = if lit && self.is_op("{") { Some(Box::new(self.trailing_closure()?)) } else { None };
        Ok(Expr {
            kind: ExprKind::Call { callee: Box::new(callee), generics: list(generics), args: list(args), trailing_closure },
            span: self.span_from(lo),
        })
    }

    fn trailing_closure(&mut self) -> Parsed<Expr> {
        let lo = self.lo();
        self.need("{")?;
        let mut params = Vec::new();
        if !self.is_word("async") && !self.is_op("=>") {
            loop {
                let lo = self.lo();
                let name = self.ident()?;
                params.push(ClosureParam { name, ty: None, span: self.span_from(lo) });
                if !self.eat(",") {
                    break;
                }
            }
        }
        let is_async = self.eat_word("async");
        self.need("=>")?;
        let body = self.expr(true)?;
        self.need("}")?;
        Ok(Expr {
            kind: ExprKind::Closure { params: list(params), return_type: None, is_async, body: Box::new(body) },
            span: self.span_from(lo),
        })
    }

    /// A closure starts here: a bracketed list with `=>` or `async =>` behind it.
    fn closure_ahead(&self) -> bool {
        let mut depth = 0;
        let mut i = self.at;
        loop {
            match &self.toks[i].tok {
                Tok::Op("(") => depth += 1,
                Tok::Op(")") => {
                    depth -= 1;
                    if depth == 0 {
                        break;
                    }
                }
                Tok::End => {
                    return false;
                }
                _ => {}
            }
            i += 1;
        }
        match &self.toks[i + 1].tok {
            Tok::Op("=>") => true,
            Tok::Name(n) if n == "async" => true,
            _ => false,
        }
    }

    fn closure(&mut self) -> Parsed<Expr> {
        let lo = self.lo();
        self.need("(")?;
        let params = self.comma_list(")", |p| {
            let lo = p.lo();
            let name = p.ident()?;
            let ty = if p.eat(":") { Some(p.ty()?) } else { None };
            Ok(ClosureParam { name, ty, span: p.span_from(lo) })
        })?;
        let is_async = self.eat_word("async");
        self.need("=>")?;
        let body = self.expr(true)?;
        Ok(Expr {
            kind: ExprKind::Closure { params: list(params), return_type: None, is_async, body: Box::new(body) },
            span: self.span_from(lo),
        })
    }

    fn string(&mut self, text: &str, lo: u32) -> Parsed<StringLit> {
        let mut parts = Vec::new();
        let mut rest = text;
        let mut at = lo + 1;
        while !rest.is_empty() {
            if let Some(tail) = rest.strip_prefix("${") {
                let end = tail.find('}').unwrap();
                let mut toks = lex(&tail[..end]);
                for t in toks.iter_mut() {
                    t.lo += at + 2;
                    t.hi += at + 2;
                }
                let mut sub = Parser { toks, at: 0, file: self.file, names: &mut *self.names };
                parts.push(StringPart::Expr(sub.expr(true)?));
                rest = &tail[end + 1..];
                at += end as u32 + 3;
            } else {
                let end = rest.find("${").unwrap_or(rest.len());
                let text = self.sym(&rest[..end]);
                let span = Span::new(FileId(self.file), BytePos(at), BytePos(at + end as u32));
                parts.push(StringPart::Text { text, span });
                rest = &rest[end..];
                at += end as u32;
            }
        }
        Ok(StringLit { parts: list(parts), span: self.span_from(lo) })
    }

    fn int_lit(&mut self, text: &str) -> IntLit {
        let (base, body) = match text.get(..2) {
            Some("0x") => (IntBase::Hex, &text[2..]),
            Some("0o") => (IntBase::Oct, &text[2..]),
            Some("0b") => (IntBase::Bin, &text[2..]),
            _ => (IntBase::Dec, text),
        };
        let cut = body.find(|c| c == 'i' || c == 'u').unwrap_or(body.len());
        let suffix = if cut < body.len() { Some(self.sym(&body[cut..])) } else { None };
        IntLit { raw: self.sym(&body[..cut]), base, suffix }
    }

    fn primary(&mut self, lit: bool) -> Parsed<Expr> {
        let lo = self.lo();
        let kind = match self.peek().clone() {
            Tok::Int(t) => {
                self.at += 1;
                ExprKind::Int(self.int_lit(&t))
            }
            Tok::Float(t) => {
                self.at += 1;
                let cut = t.find('f').unwrap_or(t.len());
                let suffix = if cut < t.len() { Some(self.sym(&t[cut..])) } else { None };
                ExprKind::Float(FloatLit { raw: self.sym(&t[..cut]), suffix })
            }
            Tok::Text(t) => {
                self.at += 1;
                ExprKind::Str(self.string(&t, lo)?)
            }
            Tok::Ch(t) => {
                self.at += 1;
                ExprKind::Char(CharLit { raw: self.sym(&t) })
            }
            Tok::Op("(") => {
                if self.closure_ahead() {
                    return self.closure();
                }
                self.at += 1;
                let mut es = self.comma_list(")", |p| p.expr(true))?;
                if es.len() == 1 {
                    ExprKind::Paren(Box::new(es.remove(0)))
                } else {
                    ExprKind::Tuple(list(es))
                }
            }
            Tok::Op("[") => {
                self.at += 1;
                ExprKind::List(list(self.comma_list("]", |p| p.expr(true))?))
            }
            Tok::Op("#") => {
                self.at += 1;
                self.need("{")?;
                let entries = self.comma_list("}", |p| {
                    let lo = p.lo();
                    if p.eat("...") {
                        return Ok(MapItem::Spread(Box::new(p.expr(true)?)));
                    }
                    let key = Box::new(p.expr(true)?);
                    p.need(":")?;
                    let value = Box::new(p.expr(true)?);
                    Ok(MapItem::Entry { key, value, span: p.span_from(lo) })
                })?;
                ExprKind::MapLit(list(entries))
            }
            Tok::Op("{") => ExprKind::Block(self.block()?),
            Tok::Name(n) => {
                return self.word(&n, lit);
            }
            other => {
                return Err(format!("expected an expression, found {:?} at {}", other, lo));
            }
        };
        Ok(Expr { kind, span: self.span_from(lo) })
    }

    fn value_ahead(&self) -> bool {
        !matches!(self.peek(), Tok::Op(";") | Tok::Op("}") | Tok::Op(")") | Tok::Op(",") | Tok::End)
    }

    fn word(&mut self, w: &str, lit: bool) -> Parsed<Expr> {
        let lo = self.lo();
        let kind = match w {
            "true" | "false" => {
                self.at += 1;
                ExprKind::Bool(w == "true")
            }
            "null" => {
                self.at += 1;
                ExprKind::Null
            }
            "self" => {
                self.at += 1;
                ExprKind::SelfExpr
            }
            "_" => {
                self.at += 1;
                ExprKind::Underscore
            }
            "continue" => {
                self.at += 1;
                ExprKind::Continue
            }
            "return" => {
                self.at += 1;
                let v = if self.value_ahead() { Some(Box::new(self.expr(lit)?)) } else { None };
                ExprKind::Return(v)
            }
            "break" => {
                self.at += 1;
                let v = if self.value_ahead() { Some(Box::new(self.expr(lit)?)) } else { None };
                ExprKind::Break(v)
            }
            "if" => {
                self.at += 1;
                let cond = Box::new(self.expr(false)?);
                let then_block = self.block()?;
                let else_branch = if self.eat_word("else") {
                    if self.is_word("if") {
                        Some(ElseBranch::If(Box::new(self.word("if", true)?)))
                    } else {
                        Some(ElseBranch::Block(self.block()?))
                    }
                } else {
                    None
                };
                ExprKind::If { cond, then_block, else_branch }
            }
            "while" => {
                self.at += 1;
                let cond = Box::new(self.expr(false)?);
                ExprKind::While { cond, body: self.block()? }
            }
            "loop" => {
                self.at += 1;
                ExprKind::Loop(self.block()?)
            }
            "for" => {
                self.at += 1;
                let in_async = self.eat_word("await");
                let pattern = self.pattern()?;
                if !self.eat_word("in") {
                    return Err("for without in".to_string());
                }
                let iter = Box::new(self.expr(false)?);
                ExprKind::For { pattern, in_async, iter, body: self.block()? }
            }
            "match" => {
                self.at += 1;
                let scrutinee = Box::new(self.expr(false)?);
                self.need("{")?;
                let arms = self.comma_list("}", |p| {
                    let lo = p.lo();
                    let pattern = p.pattern()?;
                    let guard = if p.eat_word("if") { Some(p.expr(true)?) } else { None };
                    p.need("=>")?;
                    let body = p.expr(true)?;
                    Ok(MatchArm { pattern, guard, body, span: p.span_from(lo) })
                })?;
                ExprKind::Match { scrutinee, arms: list(arms) }
            }
            "async" => {
                self.at += 1;
                ExprKind::AsyncBlock(self.block()?)
            }
            _ => {
                let name = self.ident()?;
                let upper = w.starts_with(|c: char| c.is_ascii_uppercase());
                if lit && upper && self.is_op("{") {
                    return self.struct_lit(name, Vec::new(), lo);
                }
                if lit && upper && self.is_op("<") {
                    let at = self.at;
                    let saved = self.toks.clone();
                    self.at += 1;
                    match self.type_args() {
                        Ok(tys) if self.is_op("{") => {
                            return self.struct_lit(name, tys, lo);
                        }
                        _ => {
                            self.at = at;
                            self.toks = saved;
                        }
                    }
                }
                ExprKind::Ident(name)
            }
        };
        Ok(Expr { kind, span: self.span_from(lo) })
    }

    fn struct_lit(&mut self, name: Ident, generics: Vec<Type>, lo: u32) -> Parsed<Expr> {
        let path = TypePath { name, generics: list(generics), span: self.span_from(lo) };
        self.need("{")?;
        let mut fields = Vec::new();
        let mut spread = None;
        while !self.eat("}") {
            let lo = self.lo();
            if self.eat("...") {
                spread = Some(Box::new(self.expr(true)?));
            } else {
                let name = self.ident()?;
                let value = if self.eat(":") { Some(self.expr(true)?) } else { None };
                fields.push(FieldInit { name, value, span: self.span_from(lo) });
            }
            if !self.eat(",") {
                self.need("}")?;
                break;
            }
        }
        Ok(Expr { kind: ExprKind::StructLit { path, fields: list(fields), spread }, span: self.span_from(lo) })
    }
}

fn callable(e: &Expr) -> bool {
    !block_like(e)
}

fn block_like(e: &Expr) -> bool {
    matches!(
        e.kind,
        ExprKind::If { .. }
            | ExprKind::Match { .. }
            | ExprKind::Block(_)
            | ExprKind::Loop(_)
            | ExprKind::While { .. }
            | ExprKind::For { .. }
    )
}

fn parse(src: &str, file: u32, names: &mut Interner) -> Module {
    let mut p = Parser { toks: lex(src), at: 0, file, names };
    p.module().unwrap_or_else(|e| panic!("parse: {}", e))
}

// -- the toolchain ----------------------------------------------------------------

const TOOLCHAIN: [(&str, &str); 8] = [
    (
        "core:collections",
        "pub struct List<T> { }\n\
         pub struct Map<K, V> { }\n\
         pub struct Set<T> { }\n\
         pub struct Entry<K, V> { key: K, value: V }",
    ),
    ("std:io", "pub function print(s: str);\npub function println(s: str);"),
    (
        "core:prelude",
        "pub function panic(message: str);\n\
         pub function panic_with(value: dynamic);\n\
         pub function exit(code: i32);\n\
         pub function abort();\n\
         pub interface Clone { function clone(self): Self; }\n\
         pub interface ToStr { function to_str(self): str; }\n\
         pub interface Eq { function eq(self, other: Self): bool; }\n\
         pub interface Ord { function lt(self, other: Self): bool; }\n\
         pub interface Hash { function hash(self): u64; }\n\
         pub interface Drop { function drop(self); }\n\
         pub struct Item<T> { value: T }\n\
         pub struct Done;\n\
         pub interface Iterator<T> { function next(self): Item<T> | Done; }\n\
         pub interface Try<O, R> { function branch(self): O | R; }\n\
         pub interface FromResidual<R> { function from_residual(r: R): Self; }\n\
         pub struct Ready<T> { value: T }\n\
         pub struct Pending;\n\
         pub struct Context { }\n\
         pub interface Future<T> { function poll(self, cx: Context): Ready<T> | Pending; }",
    ),
    (
        "std:sync",
        "pub struct Shared<T> { }\n\
         pub struct LockBusy;\n\
         pub struct Sender<T> { }\n\
         pub struct Receiver<T> { }\n\
         pub struct ChannelClosed;\n\
         pub struct MpmcSender<T> { }\n\
         pub struct MpmcReceiver<T> { }\n\
         pub function channel<T>(): (Sender<T>, Receiver<T>);\n\
         pub function channel_bounded<T>(n: u64): (Sender<T>, Receiver<T>);\n\
         pub function channel_mpmc<T>(): (MpmcSender<T>, MpmcReceiver<T>);\n\
         pub function channel_mpmc_bounded<T>(n: u64): (MpmcSender<T>, MpmcReceiver<T>);",
    ),
    (
        "std:thread",
        "pub struct Thread { }\n\
         pub struct JoinHandle<T> { }\n\
         pub struct Joined<T> { value: T }\n\
         pub struct Panicked { message: str }",
    ),
    ("std:task", "pub struct Task { }\npub struct JoinHandle<T> { }\npub struct Cancelled;"),
    (
        "std:async",
        "import { Future, Item, Done } from \"core:prelude\";\n\
         pub interface AsyncIterator<T> { function next_async(self): Future<Item<T> | Done>; }\n\
         pub struct TimedOut;\n\
         pub function yield_now(): Future<null>;\n\
         pub function sleep(ms: u64): Future<null>;\n\
         pub function timeout<T>(ms: u64, f: Future<T>): Future<T | TimedOut>;",
    ),
    (
        "core:ffi",
        "pub struct Foreign { }\n\
         pub struct CString { data: *u8 }\n\
         pub struct CStr { data: *u8 }\n\
         pub struct Buffer { data: *u8, size: u64 }\n\
         extend CString {\n\
           pub function from_str(s: str): CString;\n\
           pub function as_ptr(self): *u8;\n\
           pub function to_str(self): str;\n\
           pub function byte_len(self): u64;\n\
           pub function as_cstr(self): CStr;\n\
         }\n\
         extend CStr { pub function from_ptr(p: *u8): CStr; pub function to_str(self): str; }\n\
         extend Buffer { pub function alloc(size: u64): Buffer | null; }",
    ),
];

fn toolchain(names: &mut Interner) -> Externals {
    let mut all = Vec::new();
    for (i, (source, text)) in TOOLCHAIN.iter().enumerate() {
        let module = parse(text, i as u32 + 1, names);
        all.push(External { source: names.intern(source), builtin: true, module });
    }
    list(all)
}

// -- running the checker -------------------------------------------------------------

const PRELUDE: &str = "import { List, Map, Set, Entry } from \"core:collections\";\n\
        import { print, println } from \"std:io\";\n\
        import { panic, panic_with, exit, abort } from \"core:prelude\";\n\
        import { Clone, ToStr, Eq, Ord, Hash, Iterator, Item, Done, Try, FromResidual, Drop, Future, Ready, Pending, Context } from \"core:prelude\";\n\
        import { Shared, LockBusy, Sender, Receiver, ChannelClosed, MpmcSender, MpmcReceiver, channel, channel_bounded, channel_mpmc, channel_mpmc_bounded } from \"std:sync\";\n\
        import { Thread, JoinHandle, Joined, Panicked } from \"std:thread\";\n\
        import { AsyncIterator, TimedOut, yield_now, sleep, timeout } from \"std:async\";\n\
        import { Foreign, CString, CStr, Buffer } from \"core:ffi\";\n";

/// The program that `src` and the toolchain make up.
fn collect(src: &str) -> Program {
    let mut s = Session::new();
    let externals = toolchain(&mut s.names);
    let mut module = parse(src, 0, &mut s.names);
    expand_derives(&mut module, &mut s);
    let prog = Program::collect_multi(&module, &externals, s.names);
    assert!(prog.errors.is_empty(), "collect: {:?}", prog.errors);
    prog
}

/// What the checker says of a program without imports.
fn check_plain(src: &str) -> Vec<SemaError> {
    let prog = collect(src);
    let mut tcx = TyCtxt::new();
    let mut errors = Vec::new();
    let mut ck = Checker::new(&prog, &mut tcx, &mut errors);
    ck.check_program();
    errors
}

fn plain_ok(src: &str) {
    let errs = check_plain(src);
    assert!(errs.is_empty(), "unexpected errors: {errs:?}");
}

/// What the checker says of a program that imports the toolchain.
fn check(src: &str) -> Vec<SemaError> {
    check_plain(&format!("{PRELUDE}{src}"))
}

fn assert_ok(src: &str) {
    let errs = check(src);
    assert!(errs.is_empty(), "unexpected errors: {errs:?}");
}

fn has_msg(errs: &[SemaError], needle: &str) -> bool {
    errs.iter()
        .any(|e| matches!(&e.kind, SemaErrorKind::Message(m) if m.contains(needle)))
}

/// A node of the checked program is a widening.
fn widens(src: &str) -> bool {
    let prog = collect(src);
    let mut tcx = TyCtxt::new();
    let mut errors = Vec::new();
    let mut ck = Checker::new(&prog, &mut tcx, &mut errors);
    ck.check_program();
    ck.cx.table.nodes.iter().any(|n| matches!(n.kind, NodeKind::Adjust { adjust: Adjust::Widen(_), .. }))
}

// -- with imports -------------------------------------------------------------------

#[test]
fn tests_arithmetic_ok() {
    assert_ok("function main() { var x: i64 = 40 + 2; }");
}

#[test]
fn tests_int_literal_defaults_to_i64() {
    assert_ok("function f(): i64 { 42 }");
}

#[test]
fn tests_int_suffix_respected() {
    assert_ok("function f(): u8 { 42u8 }");
}

#[test]
fn tests_int_overflow_for_type_is_error() {
    let errs = check("function f(): i8 { 300 }");
    assert!(!errs.is_empty());
}

#[test]
fn tests_type_mismatch_is_reported() {
    let errs = check("function f(): i64 { true }");
    assert!(
        errs.iter()
            .any(|e| matches!(e.kind, SemaErrorKind::TypeMismatch { .. }))
    );
}

#[test]
fn tests_non_bool_condition_rejected() {
    let errs = check("function f() { if 1 { } }");
    assert!(
        errs.iter()
            .any(|e| matches!(e.kind, SemaErrorKind::NonBoolCondition { .. }))
    );
}

#[test]
fn tests_comparison_yields_bool() {
    assert_ok("function f(): bool { 1 < 2 }");
}

#[test]
fn tests_if_else_unions_branch_types() {
    assert_ok("function f(c: bool): i64 | str { if c { 1 } else { \"x\" } }");
}

#[test]
fn tests_direct_call_checks_arguments() {
    assert_ok(
        "function add(a: i64, b: i64): i64 { a + b }\n\
             function main() { var r: i64 = add(1, 2); }",
    );
}

#[test]
fn tests_call_arg_count_mismatch() {
    let errs = check(
        "function add(a: i64, b: i64): i64 { a + b }\n\
             function main() { add(1); }",
    );
    assert!(
        errs.iter()
            .any(|e| matches!(e.kind, SemaErrorKind::ArgCount { .. }))
    );
}

#[test]
fn tests_call_arg_type_mismatch() {
    let errs = check(
        "function add(a: i64, b: i64): i64 { a + b }\n\
             function main() { add(1, true); }",
    );
    assert!(
        errs.iter()
            .any(|e| matches!(e.kind, SemaErrorKind::TypeMismatch { .. }))
    );
}

#[test]
fn tests_widening_to_union_ok() {
    assert_ok("function f(): i64 | str { var x: i64 = 1; x }");
}

#[test]
fn tests_widening_to_dynamic_ok() {
    assert_ok("function f(): dynamic { 42 }");
}

#[test]
fn tests_unknown_value_errors() {
    let errs = check("function f(): i64 { nope }");
    assert!(
        errs.iter()
            .any(|e| matches!(e.kind, SemaErrorKind::UnknownValue { .. }))
    );
}

#[test]
fn tests_print_builtin_accepts_str() {
    assert_ok("function main() { print(\"hi\") }");
    assert_ok("function main() { println(42 as str) }");
}

#[test]
fn tests_num_to_str_cast_ok() {
    assert_ok("function f(): str { 42 as str }");
    assert_ok("function f(c: char): str { c as str }");
}

#[test]
fn tests_union_narrowing_cast_ok() {
    assert_ok("function f(x: i64 | str): i64 { x as i64 }");
}

#[test]
fn tests_invalid_cast_reported() {
    let errs = check("function f(): i64 { \"hi\" as i64 }");
    assert!(
        errs.iter()
            .any(|e| matches!(e.kind, SemaErrorKind::InvalidCast { .. }))
    );
}

#[test]
fn tests_is_yields_bool() {
    assert_ok("function f(x: i64 | str): bool { x is i64 }");
}

#[test]
fn tests_generic_call_infers_and_checks() {
    assert_ok("function id<T>(x: T): T { x }\nfunction f(): i64 { id(42) }");
    assert_ok("function id<T>(x: T): T { x }\nfunction f(): str { id(\"hi\") }");
}

#[test]
fn tests_generic_explicit_args_ok() {
    assert_ok("function id<T>(x: T): T { x }\nfunction f(): i64 { id<i64>(42) }");
}

#[test]
fn tests_generic_return_substituted() {
    let errs = check("function id<T>(x: T): T { x }\nfunction f(): i64 { id(true) }");
    assert!(
        errs.iter()
            .any(|e| matches!(e.kind, SemaErrorKind::TypeMismatch { .. }))
    );
}

#[test]
fn tests_try_operator_ok() {
    assert_ok(
        "function parse(ok: bool): i64 | str { if ok { 1 } else { \"e\" } }\n\
             function f(ok: bool): str { var n: i64 = parse(ok)?; \"ok\" }",
    );
}

#[test]
fn tests_try_nothing_to_propagate_errors() {
    let errs = check(
        "function parse(): i64 { 1 }\n\
             function f(): str { var n: i64 = parse()?; \"ok\" }",
    );
    assert!(
        errs.iter()
            .any(|e| matches!(&e.kind, SemaErrorKind::Message(m) if m.contains("propagate")))
    );
}

#[test]
fn tests_match_exhaustive_union_ok() {
    assert_ok("function f(x: i64 | str): i64 { match x { i64 n => n, str s => 0 } }");
}

#[test]
fn tests_match_non_exhaustive_union_errors() {
    let errs = check("function f(x: i64 | str | bool): i64 { match x { i64 n => n, str s => 0 } }");
    assert!(
        errs.iter()
            .any(|e| matches!(e.kind, SemaErrorKind::NonExhaustiveMatch { .. }))
    );
}

#[test]
fn tests_match_wildcard_is_exhaustive() {
    assert_ok("function f(n: i64): i64 { match n { 0 => 1, _ => 2 } }");
}

#[test]
fn tests_match_guard_must_be_bool() {
    let errs = check("function f(n: i64): i64 { match n { i64 x if 1 => x, _ => 0 } }");
    assert!(
        errs.iter()
            .any(|e| matches!(e.kind, SemaErrorKind::NonBoolCondition { .. }))
    );
}

#[test]
fn tests_union_widen_and_narrow_ok() {
    assert_ok("function f(): i64 { var x: i64 | str = 1; x as i64 }");
    assert_ok("function f(): i64 | null { if true { 1 } else { null } }");
}

#[test]
fn tests_union_records_widen_adjustment() {
    let src = "function f() { var x: i64 | str = 1; }";
    assert!(widens(src), "expected a widening `Adjust` baked into the HIR");
}

#[test]
fn tests_method_call_ok() {
    assert_ok(
        "struct P { x: i64 }\n\
             extend P { function get(self): i64 { self.x } }\n\
             function f(): i64 { var p = P { x: 1 }; p.get() }",
    );
}

#[test]
fn tests_method_arg_checked() {
    let errs = check(
        "struct P { x: i64 }\n\
             extend P { function add(self, k: i64): i64 { self.x + k } }\n\
             function f() { var p = P { x: 1 }; p.add(true); }",
    );
    assert!(
        errs.iter()
            .any(|e| matches!(e.kind, SemaErrorKind::TypeMismatch { .. }))
    );
}

#[test]
fn tests_unknown_method_errors() {
    let errs = check(
        "struct P { x: i64 }\n\
             function f() { var p = P { x: 1 }; p.nope(); }",
    );
    assert!(
        errs.iter()
            .any(|e| matches!(e.kind, SemaErrorKind::NoMethod { .. }))
    );
}

#[test]
fn tests_self_outside_method_errors() {
    let errs = check("function f(): i64 { self }");
    assert!(!errs.is_empty());
}

#[test]
fn tests_struct_construct_and_field_ok() {
    assert_ok(
        "struct P { x: i64, y: i64 }\n\
             function f(): i64 { var p = P { x: 1, y: 2 }; p.x + p.y }",
    );
}

#[test]
fn tests_struct_missing_field_errors() {
    let errs = check("struct P { x: i64, y: i64 }\nfunction f() { var p = P { x: 1 }; }");
    assert!(
        errs.iter()
            .any(|e| matches!(e.kind, SemaErrorKind::MissingField { .. }))
    );
}

#[test]
fn tests_struct_unknown_field_errors() {
    let errs = check("struct P { x: i64 }\nfunction f() { var p = P { x: 1, z: 2 }; }");
    assert!(
        errs.iter()
            .any(|e| matches!(e.kind, SemaErrorKind::UnknownStructField { .. }))
    );
}

#[test]
fn tests_struct_field_wrong_type_errors() {
    let errs = check("struct P { x: i64 }\nfunction f() { var p = P { x: true }; }");
    assert!(
        errs.iter()
            .any(|e| matches!(e.kind, SemaErrorKind::TypeMismatch { .. }))
    );
}

#[test]
fn tests_tuple_struct_and_index_ok() {
    assert_ok(
        "struct Pair(i64, str)\n\
             function f(): i64 { var p = Pair(1, \"x\"); p.0 }",
    );
}

#[test]
fn tests_while_loop_ok() {
    assert_ok("function f() { var i: i64 = 0; while i < 3 { i = i + 1; } }");
}

#[test]
fn tests_loop_break_value_typed() {
    assert_ok("function f(): i64 { loop { break 42 } }");
}

#[test]
fn tests_break_outside_loop_errors() {
    let errs = check("function f() { break }");
    assert!(!errs.is_empty());
}

#[test]
fn tests_while_break_with_value_errors() {
    let errs = check("function f() { while true { break 1 } }");
    assert!(
        errs.iter()
            .any(|e| matches!(e.kind, SemaErrorKind::Message(_)))
    );
}

#[test]
fn tests_continue_outside_loop_errors() {
    let errs = check("function f() { continue }");
    assert!(!errs.is_empty());
}

#[test]
fn tests_return_checks_against_return_type() {
    assert_ok("function f(c: bool): i64 { if c { return 0 } 1 }");
    let errs = check("function f(): i64 { return true }");
    assert!(
        errs.iter()
            .any(|e| matches!(e.kind, SemaErrorKind::TypeMismatch { .. }))
    );
}

#[test]
fn tests_async_fn_body_yields_output() {
    assert_ok("function f(): Future<i64> async { 42 }");
}

#[test]
fn tests_async_fn_body_output_mismatch_errors() {
    let errs = check("function f(): Future<i64> async { true }");
    assert!(
        errs.iter()
            .any(|e| matches!(e.kind, SemaErrorKind::TypeMismatch { .. }))
    );
}

#[test]
fn tests_async_fn_must_return_future() {
    let errs = check("function f(): i64 async { 42 }");
    assert!(
        errs.iter()
            .any(|e| matches!(&e.kind, SemaErrorKind::Message(m) if m.contains("Future")))
    );
}

#[test]
fn tests_await_yields_future_output() {
    assert_ok(
        "function inner(): Future<i64> async { 1 }\n\
             function f(): Future<i64> async { var x: i64 = await inner(); x }",
    );
}

#[test]
fn tests_await_outside_async_errors() {
    let errs = check(
        "function inner(): Future<i64> async { 1 }\n\
             function f(): i64 { await inner() }",
    );
    assert!(
        errs.iter()
            .any(|e| matches!(&e.kind, SemaErrorKind::Message(m) if m.contains("await")))
    );
}

#[test]
fn tests_await_non_future_errors() {
    let errs = check("function f(): Future<i64> async { var x: i64 = await 5; x }");
    assert!(
        errs.iter()
            .any(|e| matches!(&e.kind, SemaErrorKind::Message(m) if m.contains("Future")))
    );
}

#[test]
fn tests_forgot_to_await_lint() {
    let errs = check(
        "function inner(): Future<i64> async { 1 }\n\
             function f(): Future<i64> async { inner(); 0 }",
    );
    assert!(
        errs.iter()
            .any(|e| matches!(&e.kind, SemaErrorKind::Message(m) if m.contains("never used")))
    );
}

#[test]
fn tests_bound_future_is_not_linted() {
    assert_ok(
        "function inner(): Future<i64> async { 1 }\n\
             function f(): Future<i64> async { var _ = inner(); 0 }",
    );
}

#[test]
fn tests_await_in_async_block_ok() {
    assert_ok(
        "function inner(): Future<i64> async { 1 }\n\
             function f(): Future<i64> { async { await inner() } }",
    );
}

#[test]
fn tests_async_fallible_await_yields_union() {
    assert_ok(
        "function inner(): Future<i64 | str> async { 1 }\n\
             function f(): Future<i64 | str> async { await inner() }",
    );
}

#[test]
fn shared_lock_is_async_awaitable() {
    assert_ok(
        "function f(): Future<i64> async {\n\
             \tvar s: Shared<i64> = Shared.new(0);\n\
             \tawait s.lock((c) => c)\n\
             }",
    );
}

#[test]
fn shared_try_lock_is_async_union() {
    assert_ok(
        "function f(): Future<i64 | LockBusy> async {\n\
             \tvar s: Shared<i64> = Shared.new(0);\n\
             \tawait s.try_lock((c) => c)\n\
             }",
    );
}

#[test]
fn shared_lock_async_body_flattens() {
    assert_ok(
        "function fetch(): Future<i64> async { 7 }\n\
             function f(): Future<i64> async {\n\
             \tvar s: Shared<i64> = Shared.new(0);\n\
             \tawait s.lock((c) async => { await fetch() })\n\
             }",
    );
}

#[test]
fn shared_lock_in_sync_function_errors() {
    let errs = check(
        "function f() {\n\
             \tvar s: Shared<i64> = Shared.new(0);\n\
             \ts.lock((c) => c);\n\
             }",
    );
    assert!(errs.iter().any(|e| matches!(&e.kind,
            SemaErrorKind::Message(m) if m.contains("async") && m.contains("spawn"))));
}

#[test]
fn shared_lock_escape_to_outer_var_rejected() {
    let errs = check(
        "struct X { v: i64 }\n\
             struct C { x: X }\n\
             function f(): Future<null> async {\n\
             \tvar s: Shared<C> = Shared.new(C { x: X { v: 0 } });\n\
             \tvar escaped: X | null = null;\n\
             \tawait s.lock((c) => { escaped = c.x; 0 });\n\
             }",
    );
    assert!(errs.iter().any(|e| matches!(&e.kind,
            SemaErrorKind::Message(m) if m.contains("escape"))));
}

#[test]
fn shared_lock_escape_into_call_arg_rejected() {
    let errs = check(
        "import { List } from \"core:collections\";\n\
             struct X { v: i64 }\n\
             struct C { x: X }\n\
             function f(): Future<null> async {\n\
             \tvar s: Shared<C> = Shared.new(C { x: X { v: 0 } });\n\
             \tvar sink: List<X> = [];\n\
             \tawait s.lock((c) => { sink.push(c.x); 0 });\n\
             }",
    );
    assert!(errs.iter().any(|e| matches!(&e.kind,
            SemaErrorKind::Message(m) if m.contains("escape"))));
}

#[test]
fn shared_lock_clone_escape_hatch_ok() {
    assert_ok(
        "struct X { v: i64 }\n\
             struct C { x: X }\n\
             extend X: Clone { function clone(self): X { X { v: self.v } } }\n\
             function f(): Future<null> async {\n\
             \tvar s: Shared<C> = Shared.new(C { x: X { v: 0 } });\n\
             \tvar escaped: X | null = null;\n\
             \tawait s.lock((c) => { escaped = c.x.clone(); 0 });\n\
             }",
    );
}

#[test]
fn shared_lock_mutating_cell_and_return_ok() {
    assert_ok(
        "struct X { v: i64 }\n\
             struct C { x: X }\n\
             function f(): Future<X> async {\n\
             \tvar s: Shared<C> = Shared.new(C { x: X { v: 0 } });\n\
             \tawait s.lock((c) => { c.x.v = c.x.v + 1; c.x })\n\
             }",
    );
}

#[test]
fn shared_lock_in_thread_spawn_worker_errors() {
    let errs = check(
        "function f(): Future<null> async {\n\
             \tvar s: Shared<i64> = Shared.new(0);\n\
             \tvar h: JoinHandle<i64> = Thread.spawn(() => { s.lock((c) => c); 0 });\n\
             \tvar _ = await h.join();\n\
             }",
    );
    assert!(errs.iter().any(|e| matches!(&e.kind,
            SemaErrorKind::Message(m) if m.contains("spawn"))));
}

#[test]
fn async_thread_spawn_worker_yields_awaited_output() {
    assert_ok(
        "function f(): Future<null> async {\n\
             \tvar h: JoinHandle<i64> = Thread.spawn(() async => { 41 + 1 });\n\
             \tvar _ = await h.join();\n\
             }",
    );
}

#[test]
fn async_thread_spawn_worker_not_future_handle() {
    let errs = check(
        "function f(): Future<null> async {\n\
             \tvar h: JoinHandle<Future<i64>> = Thread.spawn(() async => { 7 });\n\
             \tvar _ = await h.join();\n\
             }",
    );
    assert!(
        !errs.is_empty(),
        "expected a JoinHandle<R> vs JoinHandle<Future<R>> mismatch"
    );
}

#[test]
fn async_thread_spawn_worker_can_lock() {
    assert_ok(
        "struct C { value: i64 }\n\
             function f(): Future<null> async {\n\
             \tvar state: Shared<C> = Shared.new(C { value: 0 });\n\
             \tvar s: Shared<C> = state.clone();\n\
             \tvar h: JoinHandle<i64> = Thread.spawn(() async => {\n\
             \t\tawait s.lock((c) => { c.value = c.value + 1; c.value })\n\
             \t});\n\
             \tvar _ = await h.join();\n\
             }",
    );
}

#[test]
fn async_thread_spawn_worker_can_await() {
    assert_ok(
        "function fetch(): Future<i64> async { 7 }\n\
             function f(): Future<null> async {\n\
             \tvar h: JoinHandle<i64> = Thread.spawn(() async => { await fetch() });\n\
             \tvar _ = await h.join();\n\
             }",
    );
}

#[test]
fn async_thread_spawn_trailing_closure_form() {
    assert_ok(
        "function f(): Future<null> async {\n\
             \tvar h: JoinHandle<i64> = Thread.spawn { async => 7 };\n\
             \tvar _ = await h.join();\n\
            }",
    );
}

#[test]
fn task_spawn_sync_and_async_closures_return_joinhandle() {
    assert_ok(
        "import { Task, JoinHandle, Cancelled } from \"std:task\";\n\
             function f(): Future<null> async {\n\
             \tvar a: JoinHandle<i64> = Task.spawn(() => 7);\n\
             \tvar b: JoinHandle<i64> = Task.spawn(() async => { 8 });\n\
             \ta.cancel();\n\
             \tb.abort();\n\
             \tvar r: Joined<i64> | Panicked | Cancelled = await a.join();\n\
             \tvar _ = await b.join();\n\
             }",
    );
}

#[test]
fn task_spawn_rejects_non_shareable_mutable_capture() {
    let errs = check(
        "import { Task, JoinHandle } from \"std:task\";\n\
             struct Counter { n: i64 }\n\
             function f() {\n\
             \tvar c: Counter = Counter { n: 0 };\n\
             \tvar h: JoinHandle<i64> = Task.spawn(() => c.n);\n\
             }",
    );
    assert!(
        errs.iter().any(
            |e| matches!(&e.kind, SemaErrorKind::Message(m) if m.contains("Task.spawn")
                && m.contains("`Clone` values that can be snapshotted"))
        ),
        "expected Task.spawn mutable-capture rejection, got {errs:?}"
    );
}

#[test]
fn task_spawn_accepts_concrete_clone_capture() {
    assert_ok(
        "import { Task, JoinHandle } from \"std:task\";\n\
             @Derive(Clone)\n\
             struct Counter { n: i64 }\n\
             function f(): Future<null> async {\n\
             \tvar c: Counter = Counter { n: 1 };\n\
             \tvar h: JoinHandle<i64> = Task.spawn(() async => c.n);\n\
             \tvar _ = await h.join();\n\
             }",
    );
}

#[test]
fn task_spawn_accepts_generic_clone_bound_capture() {
    assert_ok(
        "import { Clone, Future } from \"core:prelude\";\n\
             import { Task, JoinHandle } from \"std:task\";\n\
             function f<T: Clone>(value: T): Future<null> async {\n\
             \tvar h: JoinHandle<T> = Task.spawn(() async => value);\n\
             \tvar _ = await h.join();\n\
             }",
    );
}

#[test]
fn thread_joinhandle_has_no_cancel_method() {
    let errs = check(
        "function f() {\n\
             \tvar h: JoinHandle<i64> = Thread.spawn(() => 7);\n\
             \th.cancel();\n\
             }",
    );
    assert!(
        errs.iter().any(
            |e| matches!(&e.kind, SemaErrorKind::Message(m) if m.contains("no method `cancel`"))
        ),
        "expected Thread JoinHandle cancel rejection, got {errs:?}"
    );
}

#[test]
fn thread_joinhandle_has_no_abort_method() {
    let errs = check(
        "function f() {\n\
             \tvar h: JoinHandle<i64> = Thread.spawn(() => 7);\n\
             \th.abort();\n\
             }",
    );
    assert!(
        errs.iter().any(
            |e| matches!(&e.kind, SemaErrorKind::Message(m) if m.contains("no method `abort`"))
        ),
        "expected Thread JoinHandle abort rejection, got {errs:?}"
    );
}

#[test]
fn ffi_handle_types_typecheck() {
    assert_ok(
        "extern function strlen(s: *u8): u64;\n\
             function main() {\n\
               var cs: CString = CString.from_str(\"x\");\n\
               var n: u64 = strlen(cs.as_ptr());\n\
               var s: str = cs.to_str();\n\
               var bl: u64 = cs.byte_len();\n\
               var v: CStr = cs.as_cstr();\n\
               var w: CStr = CStr.from_ptr(cs.as_ptr());\n\
               var m: Buffer | null = Buffer.alloc(8u64);\n\
             }",
    );
}

#[test]
fn cstring_from_str_yields_owning_handle_not_raw_ptr() {
    let errs = check("function main() { var p: *u8 = CString.from_str(\"x\"); }");
    assert!(
        !errs.is_empty(),
        "expected a type error binding CString to *u8"
    );
}

#[test]
fn variadic_call_accepts_extra_promotable_args() {
    assert_ok(
        "@Variadic\n\
             extern function snprintf(buf: *u8, size: u64, fmt: *u8): i32;\n\
             function main() {\n\
               var b: Buffer = Buffer.alloc(64u64) as Buffer;\n\
               var f: CString = CString.from_str(\"x\");\n\
               var n: i32 = snprintf(b.data, 64u64, f.as_ptr(), 1i32, 2.0f64, 65i32, f.as_ptr());\n\
             }",
    );
}

#[test]
fn variadic_on_ordinary_function_rejected() {
    let errs = check("@Variadic\nfunction f(x: i32): i32 { x }");
    assert!(has_msg(&errs, "only valid on an `extern function`"));
}

#[test]
fn variadic_on_extern_with_body_rejected() {
    let errs = check("@Variadic\nextern function f(fmt: *u8): i32 { 0 }");
    assert!(has_msg(&errs, "not a definition with a body"));
}

#[test]
fn variadic_without_fixed_param_rejected() {
    let errs = check("@Variadic\nextern function f(): i32;");
    assert!(has_msg(&errs, "needs at least one fixed parameter"));
}

#[test]
fn variadic_with_decorator_arg_rejected() {
    let errs = check("@Variadic(\"x\")\nextern function f(fmt: *u8): i32;");
    assert!(has_msg(&errs, "takes no arguments"));
}

#[test]
fn variadic_call_below_fixed_arity_rejected() {
    let errs = check(
        "@Variadic\n\
             extern function snprintf(buf: *u8, size: u64, fmt: *u8): i32;\n\
             function main() { snprintf(); }",
    );
    assert!(
        errs.iter()
            .any(|e| matches!(e.kind, SemaErrorKind::ArgCount { expected: 3, .. }))
    );
}

#[test]
fn variadic_str_argument_rejected() {
    let errs = check(
        "@Variadic\n\
             extern function printf(fmt: *u8): i32;\n\
             function main() { var p: CString = CString.from_str(\"%s\"); printf(p.as_ptr(), \"hi\"); }",
    );
    assert!(has_msg(&errs, "cannot be passed as a variadic argument"));
}

#[test]
fn variadic_struct_argument_rejected() {
    let errs = check(
        "struct P { x: i32 }\n\
             @Variadic\n\
             extern function printf(fmt: *u8): i32;\n\
             function main() { var p: CString = CString.from_str(\"%d\"); printf(p.as_ptr(), P { x: 1 }); }",
    );
    assert!(has_msg(&errs, "cannot be passed as a variadic argument"));
}

#[test]
fn variadic_transparent_newtype_argument_ok() {
    assert_ok(
        "@Transparent\n\
             struct Cents(i32)\n\
             @Variadic\n\
             extern function snprintf(buf: *u8, size: u64, fmt: *u8): i32;\n\
             function main() {\n\
               var b: Buffer = Buffer.alloc(64u64) as Buffer;\n\
               var f: CString = CString.from_str(\"%d\");\n\
               var n: i32 = snprintf(b.data, 64u64, f.as_ptr(), Cents(5i32));\n\
             }",
    );
}

// -- without imports ----------------------------------------------------------------

#[test]
fn check_arithmetic_ok() {
    plain_ok("function main() { var x: i64 = 40 + 2; }");
}

#[test]
fn check_int_literal_defaults_to_i64() {
    plain_ok("function f(): i64 { 42 }");
}

#[test]
fn check_int_suffix_respected() {
    plain_ok("function f(): u8 { 42u8 }");
}

#[test]
fn check_int_overflow_for_type_is_error() {
    let errs = check_plain("function f(): i8 { 300 }");
    assert!(!errs.is_empty());
}

#[test]
fn check_type_mismatch_is_reported() {
    let errs = check_plain("function f(): i64 { true }");
    assert!(errs.iter().any(|e| matches!(e.kind, SemaErrorKind::TypeMismatch { .. })));
}

#[test]
fn check_non_bool_condition_rejected() {
    let errs = check_plain("function f() { if 1 { } }");
    assert!(errs.iter().any(|e| matches!(e.kind, SemaErrorKind::NonBoolCondition { .. })));
}

#[test]
fn check_comparison_yields_bool() {
    plain_ok("function f(): bool { 1 < 2 }");
}

#[test]
fn check_if_else_unions_branch_types() {
    plain_ok("function f(c: bool): i64 | str { if c { 1 } else { \"x\" } }");
}

#[test]
fn check_direct_call_checks_arguments() {
    plain_ok(
        "function add(a: i64, b: i64): i64 { a + b }\n\
         function main() { var r: i64 = add(1, 2); }",
    );
}

#[test]
fn check_call_arg_count_mismatch() {
    let errs = check_plain(
        "function add(a: i64, b: i64): i64 { a + b }\n\
         function main() { add(1); }",
    );
    assert!(errs.iter().any(|e| matches!(e.kind, SemaErrorKind::ArgCount { .. })));
}

#[test]
fn check_call_arg_type_mismatch() {
    let errs = check_plain(
        "function add(a: i64, b: i64): i64 { a + b }\n\
         function main() { add(1, true); }",
    );
    assert!(errs.iter().any(|e| matches!(e.kind, SemaErrorKind::TypeMismatch { .. })));
}

#[test]
fn check_widening_to_union_ok() {
    plain_ok("function f(): i64 | str { var x: i64 = 1; x }");
}

#[test]
fn check_widening_to_dynamic_ok() {
    plain_ok("function f(): dynamic { 42 }");
}

#[test]
fn check_unknown_value_errors() {
    let errs = check_plain("function f(): i64 { nope }");
    assert!(errs.iter().any(|e| matches!(e.kind, SemaErrorKind::UnknownValue { .. })));
}

#[test]
fn check_print_builtin_accepts_str() {
    plain_ok("function main() { print(\"hi\") }");
    plain_ok("function main() { println(42 as str) }");
}

#[test]
fn check_num_to_str_cast_ok() {
    plain_ok("function f(): str { 42 as str }");
    plain_ok("function f(c: char): str { c as str }");
}

#[test]
fn check_union_narrowing_cast_ok() {
    plain_ok("function f(x: i64 | str): i64 { x as i64 }");
}

#[test]
fn check_invalid_cast_reported() {
    let errs = check_plain("function f(): i64 { \"hi\" as i64 }");
    assert!(errs.iter().any(|e| matches!(e.kind, SemaErrorKind::InvalidCast { .. })));
}

#[test]
fn check_is_yields_bool() {
    plain_ok("function f(x: i64 | str): bool { x is i64 }");
}

#[test]
fn check_generic_call_infers_and_checks() {
    plain_ok("function id<T>(x: T): T { x }\nfunction f(): i64 { id(42) }");
    plain_ok("function id<T>(x: T): T { x }\nfunction f(): str { id(\"hi\") }");
}

#[test]
fn check_generic_explicit_args_ok() {
    plain_ok("function id<T>(x: T): T { x }\nfunction f(): i64 { id<i64>(42) }");
}

#[test]
fn check_generic_return_substituted() {
    let errs = check_plain("function id<T>(x: T): T { x }\nfunction f(): i64 { id(true) }");
    assert!(errs.iter().any(|e| matches!(e.kind, SemaErrorKind::TypeMismatch { .. })));
}

#[test]
fn check_try_operator_ok() {
    plain_ok(
        "function parse(ok: bool): i64 | str { if ok { 1 } else { \"e\" } }\n\
         function f(ok: bool): str { var n: i64 = parse(ok)?; \"ok\" }",
    );
}

#[test]
fn check_try_nothing_to_propagate_errors() {
    let errs = check_plain(
        "function parse(): i64 { 1 }\n\
         function f(): str { var n: i64 = parse()?; \"ok\" }",
    );
    assert!(errs.iter().any(|e| matches!(&e.kind, SemaErrorKind::Message(m) if m.contains("propagate"))));
}

#[test]
fn check_match_exhaustive_union_ok() {
    plain_ok(
        "function f(x: i64 | str): i64 { match x { i64 n => n, str s => 0 } }",
    );
}

#[test]
fn check_match_non_exhaustive_union_errors() {
    let errs = check_plain("function f(x: i64 | str | bool): i64 { match x { i64 n => n, str s => 0 } }");
    assert!(errs.iter().any(|e| e.kind.describe().contains("non-exhaustive")));
}

#[test]
fn check_match_wildcard_is_exhaustive() {
    plain_ok("function f(n: i64): i64 { match n { 0 => 1, _ => 2 } }");
}

#[test]
fn check_match_guard_must_be_bool() {
    let errs = check_plain("function f(n: i64): i64 { match n { i64 x if 1 => x, _ => 0 } }");
    assert!(errs.iter().any(|e| matches!(e.kind, SemaErrorKind::NonBoolCondition { .. })));
}

#[test]
fn check_union_widen_and_narrow_ok() {
    plain_ok("function f(): i64 { var x: i64 | str = 1; x as i64 }");
    plain_ok("function f(): i64 | null { if true { 1 } else { null } }");
}

#[test]
fn check_union_records_widen_adjustment() {
    let src = "function f() { var x: i64 | str = 1; }";
    assert!(widens(src), "expected a widening adjustment");
}

#[test]
fn check_method_call_ok() {
    plain_ok(
        "struct P { x: i64 }\n\
         extend P { function get(self): i64 { self.x } }\n\
         function f(): i64 { var p = P { x: 1 }; p.get() }",
    );
}

#[test]
fn check_method_arg_checked() {
    let errs = check_plain(
        "struct P { x: i64 }\n\
         extend P { function add(self, k: i64): i64 { self.x + k } }\n\
         function f() { var p = P { x: 1 }; p.add(true); }",
    );
    assert!(errs.iter().any(|e| matches!(e.kind, SemaErrorKind::TypeMismatch { .. })));
}

#[test]
fn check_unknown_method_errors() {
    let errs = check_plain(
        "struct P { x: i64 }\n\
         function f() { var p = P { x: 1 }; p.nope(); }",
    );
    assert!(errs.iter().any(|e| e.kind.describe().contains("no method")));
}

#[test]
fn check_self_outside_method_errors() {
    let errs = check_plain("function f(): i64 { self }");
    assert!(!errs.is_empty());
}

#[test]
fn check_struct_construct_and_field_ok() {
    plain_ok(
        "struct P { x: i64, y: i64 }\n\
         function f(): i64 { var p = P { x: 1, y: 2 }; p.x + p.y }",
    );
}

#[test]
fn check_struct_missing_field_errors() {
    let errs = check_plain("struct P { x: i64, y: i64 }\nfunction f() { var p = P { x: 1 }; }");
    assert!(errs.iter().any(|e| e.kind.describe().contains("missing field")));
}

#[test]
fn check_struct_unknown_field_errors() {
    let errs = check_plain("struct P { x: i64 }\nfunction f() { var p = P { x: 1, z: 2 }; }");
    assert!(errs.iter().any(|e| e.kind.describe().contains("no field")));
}

#[test]
fn check_struct_field_wrong_type_errors() {
    let errs = check_plain("struct P { x: i64 }\nfunction f() { var p = P { x: true }; }");
    assert!(errs.iter().any(|e| matches!(e.kind, SemaErrorKind::TypeMismatch { .. })));
}

#[test]
fn check_tuple_struct_and_index_ok() {
    plain_ok(
        "struct Pair(i64, str)\n\
         function f(): i64 { var p = Pair(1, \"x\"); p.0 }",
    );
}

#[test]
fn check_while_loop_ok() {
    plain_ok("function f() { var i: i64 = 0; while i < 3 { i = i + 1; } }");
}

#[test]
fn check_loop_break_value_typed() {
    plain_ok("function f(): i64 { loop { break 42 } }");
}

#[test]
fn check_break_outside_loop_errors() {
    let errs = check_plain("function f() { break }");
    assert!(!errs.is_empty());
}

#[test]
fn check_while_break_with_value_errors() {
    let errs = check_plain("function f() { while true { break 1 } }");
    assert!(errs.iter().any(|e| matches!(e.kind, SemaErrorKind::Message(_))));
}

#[test]
fn check_continue_outside_loop_errors() {
    let errs = check_plain("function f() { continue }");
    assert!(!errs.is_empty());
}

#[test]
fn check_return_checks_against_return_type() {
    plain_ok("function f(c: bool): i64 { if c { return 0 } 1 }");
    let errs = check_plain("function f(): i64 { return true }");
    assert!(errs.iter().any(|e| matches!(e.kind, SemaErrorKind::TypeMismatch { .. })));
}

#[test]
fn check_async_fn_body_yields_output() {
    plain_ok("function f(): Future<i64> async { 42 }");
}

#[test]
fn check_async_fn_body_output_mismatch_errors() {
    let errs = check_plain("function f(): Future<i64> async { true }");
    assert!(errs.iter().any(|e| matches!(e.kind, SemaErrorKind::TypeMismatch { .. })));
}

#[test]
fn check_async_fn_must_return_future() {
    let errs = check_plain("function f(): i64 async { 42 }");
    assert!(errs.iter().any(|e| matches!(&e.kind, SemaErrorKind::Message(m) if m.contains("Future"))));
}

#[test]
fn check_await_yields_future_output() {
    plain_ok(
        "function inner(): Future<i64> async { 1 }\n\
         function f(): Future<i64> async { var x: i64 = await inner(); x }",
    );
}

#[test]
fn check_await_outside_async_errors() {
    let errs = check_plain(
        "function inner(): Future<i64> async { 1 }\n\
         function f(): i64 { await inner() }",
    );
    assert!(errs.iter().any(|e| matches!(&e.kind, SemaErrorKind::Message(m) if m.contains("await"))));
}

#[test]
fn check_await_non_future_errors() {
    let errs = check_plain("function f(): Future<i64> async { var x: i64 = await 5; x }");
    assert!(errs.iter().any(|e| matches!(&e.kind, SemaErrorKind::Message(m) if m.contains("Future"))));
}

#[test]
fn check_forgot_to_await_lint() {
    let errs = check_plain(
        "function inner(): Future<i64> async { 1 }\n\
         function f(): Future<i64> async { inner(); 0 }",
    );
    assert!(errs.iter().any(|e| matches!(&e.kind, SemaErrorKind::Message(m) if m.contains("never used"))));
}

#[test]
fn check_bound_future_is_not_linted() {
    plain_ok(
        "function inner(): Future<i64> async { 1 }\n\
         function f(): Future<i64> async { var _ = inner(); 0 }",
    );
}

#[test]
fn check_await_in_async_block_ok() {
    plain_ok(
        "function inner(): Future<i64> async { 1 }\n\
         function f(): Future<i64> { async { await inner() } }",
    );
}

#[test]
fn check_async_fallible_await_yields_union() {
    plain_ok(
        "function inner(): Future<i64 | str> async { 1 }\n\
         function f(): Future<i64 | str> async { await inner() }",
    );
}

// -- default methods ------------------------------------------------------------------

fn parse_module(src: &str, s: &mut Session) -> Module {
    parse(src, 0, &mut s.names)
}

fn items<T>(l: &List<T>) -> Vec<&T> {
    let mut out = Vec::new();
    let mut at = l;
    while let List::Cons(h, t) = at {
        out.push(&**h);
        at = t;
    }
    out
}

/// The members of the first `extend` block in `module`, by method name.
fn extend_members(module: &Module, s: &Session) -> std::collections::HashMap<String, FunctionItem> {
    for item in items(&module.items) {
        if let ItemKind::Extend(e) = &item.kind {
            return items(&e.members)
                .iter()
                .map(|m| (s.names.text(m.function.name.name).to_string(), dup_function_item(&m.function)))
                .collect();
        }
    }
    panic!("no extend block");
}

fn named(t: &Type, s: &Session) -> String {
    match &t.kind {
        TypeKind::Named { name, .. } => s.names.text(name.name).to_string(),
        _ => panic!("not a named type"),
    }
}

#[test]
fn nongeneric_same_module_default_is_copied() {
    let mut s = Session::new();
    let mut m = parse_module(
        "interface Named { function name(self): str; function greet(self): str { self.name() } }\n\
             struct P { x: i64 }\n\
             extend P: Named { function name(self): str { \"p\" } }",
        &mut s,
    );
    expand_default_methods(&mut m, &ForeignIfaces::new(), &mut s);
    let members = extend_members(&m, &s);
    assert!(members.contains_key("greet"), "default `greet` not copied: {:?}", members.keys());
    assert!(members.contains_key("name"));
}

#[test]
fn overridden_default_is_not_copied() {
    let mut s = Session::new();
    let mut m = parse_module(
        "interface Named { function name(self): str; function greet(self): str { self.name() } }\n\
             struct P { x: i64 }\n\
             extend P: Named { function name(self): str { \"p\" } function greet(self): str { \"hi\" } }",
        &mut s,
    );
    expand_default_methods(&mut m, &ForeignIfaces::new(), &mut s);
    let members = extend_members(&m, &s);
    let greet_count = {
        let mut n = 0;
        for item in items(&m.items) {
            if let ItemKind::Extend(e) = &item.kind {
                n += items(&e.members).iter().filter(|x| s.names.text(x.function.name.name) == "greet").count();
            }
        }
        n
    };
    assert_eq!(greet_count, 1, "override must not be shadowed by a copy");
    assert!(members.contains_key("greet"));
}

#[test]
fn generic_interface_default_substitutes_parameter() {
    let mut s = Session::new();
    let mut m = parse_module(
        "interface Boxed<T> { function get(self): T; function dup(self): T { self.get() } }\n\
             struct Cell { v: i64 }\n\
             extend Cell: Boxed<i64> { function get(self): i64 { self.v } }",
        &mut s,
    );
    expand_default_methods(&mut m, &ForeignIfaces::new(), &mut s);
    let members = extend_members(&m, &s);
    let dup = members.get("dup").expect("default `dup` not copied");
    assert_eq!(named(dup.return_type.as_ref().unwrap(), &s), "i64");
}

#[test]
fn generic_default_substitutes_in_local_binding() {
    let mut s = Session::new();
    let mut m = parse_module(
        "interface Wrap<T> { function u(self): T; function e(self): T { var x: T = self.u(); x } }\n\
             struct N { n: i64 }\n\
             extend N: Wrap<i64> { function u(self): i64 { self.n } }",
        &mut s,
    );
    expand_default_methods(&mut m, &ForeignIfaces::new(), &mut s);
    let members = extend_members(&m, &s);
    let e = members.get("e").expect("default `e` not copied");
    let body = e.body.as_ref().unwrap();
    let var_ty = items(&body.stmts).into_iter().find_map(|x| match &x.kind {
        StmtKind::Var(v) => v.ty.as_ref().map(dup_type),
        _ => None,
    });
    assert_eq!(named(&var_ty.expect("no typed var"), &s), "i64");
}

#[test]
fn cross_module_default_resolved_via_foreign_index() {
    let mut s = Session::new();
    let mut m = parse_module(
        "struct P { x: i64 }\n\
             extend P: Named { function name(self): str { \"p\" } }",
        &mut s,
    );
    let iface = parse_module(
        "pub interface Named { function name(self): str; function greet(self): str { self.name() } }",
        &mut s,
    );
    let mut foreign = ForeignIfaces::new();
    collect_pub_interfaces(&iface, &mut foreign);
    expand_default_methods(&mut m, &foreign, &mut s);
    let members = extend_members(&m, &s);
    assert!(members.contains_key("greet"), "cross-module default not copied");
}

#[test]
fn local_interface_shadows_foreign_of_same_name() {
    let mut s = Session::new();
    let mut m = parse_module(
        "interface Named { function name(self): str; function greet(self): str { \"local\" } }\n\
             struct P { x: i64 }\n\
             extend P: Named { function name(self): str { \"p\" } }",
        &mut s,
    );
    let other = parse_module(
        "pub interface Named { function name(self): str; function greet(self): str { \"foreign\" } }",
        &mut s,
    );
    let mut foreign = ForeignIfaces::new();
    collect_pub_interfaces(&other, &mut foreign);
    expand_default_methods(&mut m, &foreign, &mut s);
    let members = extend_members(&m, &s);
    let greet = members.get("greet").expect("default not copied");
    let trailing = greet.body.as_ref().unwrap().trailing.as_ref().unwrap();
    match &trailing.kind {
        ExprKind::Str(lit) => match items(&lit.parts)[0] {
            StringPart::Text { text, .. } => assert_eq!(s.names.text(*text), "local"),
            _ => panic!("unexpected string part"),
        },
        _ => panic!("expected a string literal trailing expr"),
    }
}

#[test]
fn ambiguous_foreign_name_is_not_copied() {
    let mut s = Session::new();
    let mut foreign = ForeignIfaces::new();
    let a = parse_module(
        "pub interface Named { function name(self): str; function greet(self): str { \"a\" } }",
        &mut s,
    );
    let b = parse_module(
        "pub interface Named { function name(self): str; function greet(self): str { \"b\" } }",
        &mut s,
    );
    collect_pub_interfaces(&a, &mut foreign);
    collect_pub_interfaces(&b, &mut foreign);
    let name = s.names.intern("Named");
    assert!(foreign.get(name).is_none(), "conflicting name must be ambiguous");

    let mut m = parse_module(
        "struct P { x: i64 }\n\
             extend P: Named { function name(self): str { \"p\" } }",
        &mut s,
    );
    expand_default_methods(&mut m, &foreign, &mut s);
    let members = extend_members(&m, &s);
    assert!(!members.contains_key("greet"), "ambiguous default must not be copied");
}

#[test]
fn identical_foreign_reexport_is_not_ambiguous() {
    let mut s = Session::new();
    let mut foreign = ForeignIfaces::new();
    let a = parse_module(
        "pub interface Named { function name(self): str; function greet(self): str { self.name() } }",
        &mut s,
    );
    let b = dup_module(&a);
    collect_pub_interfaces(&a, &mut foreign);
    collect_pub_interfaces(&b, &mut foreign);
    let name = s.names.intern("Named");
    assert!(foreign.get(name).is_some(), "identical re-export must resolve");
}

// -- types --------------------------------------------------------------------------

/// The type written as `probe`, with the errors and everything it stands in.
fn lower_probe(prelude: &str, probe: &str) -> (Ty, Vec<SemaError>, TyCtxt, Program) {
    let src = format!("{prelude}\ntype Probe = {probe};\n");
    let mut s = Session::new();
    let module = parse(&src, 0, &mut s.names);
    let probe_name = s.names.intern("Probe");
    let probe_ty = items(&module.items)
        .into_iter()
        .find_map(|it| match &it.kind {
            ItemKind::TypeAlias(a) if a.name.name == probe_name => Some(dup_type(&a.aliased)),
            _ => None,
        })
        .unwrap();
    let prog = Program::collect_multi(&module, &List::Nil, s.names);
    assert!(prog.errors.is_empty(), "collect: {:?}", prog.errors);
    let mut tcx = TyCtxt::new();
    let mut errors = Vec::new();
    let env = TypeEnv::new(ModId::root());
    let ty = {
        let mut lw = Lowerer::new(&prog, &mut tcx, &mut errors);
        lw.lower(&probe_ty, &env)
    };
    (ty, errors, tcx, prog)
}

#[test]
fn lowers_primitives() {
    let (ty, errs, _, _) = lower_probe("", "i64");
    assert!(errs.is_empty());
    assert_eq!(ty, I64_TY);
}

#[test]
fn lowers_union_and_normalizes() {
    let (ty, errs, tcx, _) = lower_probe("", "i64 | str | i64");
    assert!(errs.is_empty());
    match tcx.kind(ty) {
        TyKind::Union(v) => assert_eq!(v.len(), 2),
        k => panic!("expected union, got {k:?}"),
    }
}

#[test]
fn alias_is_expanded_structurally() {
    let (ty, errs, tcx, _) = lower_probe("type Maybe<T> = T | null;", "Maybe<i64>");
    assert!(errs.is_empty(), "{errs:?}");
    match tcx.kind(ty) {
        TyKind::Union(v) => {
            assert_eq!(v.len(), 2);
            assert!(items(&v).contains(&&I64_TY));
            assert!(items(&v).contains(&&NULL_TY));
        }
        k => panic!("expected union, got {k:?}"),
    }
}

#[test]
fn reducing_recursive_alias_through_union() {
    let (ty, errs, _, _) = lower_probe("type X = i64 | X;", "X");
    assert!(errs.is_empty(), "{errs:?}");
    assert_eq!(ty, I64_TY);
}

#[test]
fn non_reducing_recursive_alias_errors() {
    let (ty, errs, _, _) = lower_probe("type X = X;", "X");
    assert_eq!(ty, ERROR_TY);
    assert!(errs.iter().any(|e| matches!(e.kind, SemaErrorKind::RecursiveAlias { .. })));
}

#[test]
fn unknown_type_errors() {
    let (ty, errs, _, _) = lower_probe("", "Nope");
    assert_eq!(ty, ERROR_TY);
    assert!(errs.iter().any(|e| matches!(e.kind, SemaErrorKind::UnknownType { .. })));
}

#[test]
fn generic_arity_mismatch_errors() {
    let (_, errs, _, _) = lower_probe("struct Box<T> { v: T }", "Box");
    assert!(errs.iter().any(|e| matches!(e.kind, SemaErrorKind::GenericArity { .. })));
}

#[test]
fn struct_lowers_to_named() {
    let (ty, errs, tcx, prog) = lower_probe("struct Point { x: i64, y: i64 }", "Point");
    assert!(errs.is_empty());
    match tcx.kind(ty) {
        TyKind::Named { def, args } => {
            assert!(args.is_empty());
            assert_eq!(prog.names.text(prog.def(def).name), "Point");
        }
        k => panic!("expected named, got {k:?}"),
    }
}

// -- every diagnostic -------------------------------------------------------------------

fn kinds(src: &str) -> Vec<SemaErrorKind> {
    check(src).into_iter().map(|e| e.kind).collect()
}

fn only(src: &str) -> SemaErrorKind {
    let mut ks = kinds(src);
    assert_eq!(ks.len(), 1, "{ks:?}");
    ks.remove(0)
}

#[test]
fn duplicate_definition_is_reported_once() {
    let mut s = Session::new();
    let module = parse("function f() { }\nfunction f() { }", 0, &mut s.names);
    let prog = Program::collect_multi(&module, &List::Nil, s.names);
    assert_eq!(prog.errors.len(), 1);
    assert_eq!(
        prog.errors[0].kind,
        SemaErrorKind::DuplicateDefinition { name: "f".to_string(), kind: "function" }
    );
    assert_eq!(prog.errors[0].kind.describe(), "the function `f` is defined multiple times in this module");
}

#[test]
fn mismatch_names_both_types() {
    assert_eq!(
        only("function f() { var x: i64 = true; }"),
        SemaErrorKind::TypeMismatch { expected: "i64".to_string(), found: "bool".to_string() }
    );
}

#[test]
fn operators_need_matching_operands() {
    assert!(matches!(only("function f() { var s = \"a\"; var t = !s; }"), SemaErrorKind::InvalidOperator { op: "!", .. }));
    assert!(!kinds("function f(): i64 { 1 + true }").is_empty());
    assert!(!kinds("function f(): bool { 1 && true }").is_empty());
}

#[test]
fn numbers_are_not_callable() {
    assert_eq!(
        only("function f() { var x: i64 = 1; x(); }"),
        SemaErrorKind::NotCallable { found: "i64".to_string() }
    );
}

#[test]
fn argument_counts_are_given() {
    assert_eq!(
        only("function g(a: i64) { }\nfunction f() { g(1, 2); }"),
        SemaErrorKind::ArgCount { expected: 1, found: 2 }
    );
}

#[test]
fn casts_name_both_types() {
    assert_eq!(
        only("function f(): i64 { \"hi\" as i64 }"),
        SemaErrorKind::InvalidCast { from: "str".to_string(), to: "i64".to_string() }
    );
}

#[test]
fn fields_are_checked_by_name() {
    let p = "struct P { x: i64 }\n";
    assert!(matches!(
        only(&format!("{p}function f() {{ var p = P {{ x: 1, x: 2 }}; }}")),
        SemaErrorKind::DuplicateField { .. }
    ));
    assert!(matches!(
        only(&format!("{p}function f() {{ var p = P {{ x: 1, z: 2 }}; }}")),
        SemaErrorKind::UnknownStructField { .. }
    ));
    assert_eq!(
        only(&format!("{p}function f() {{ var p = P {{ }}; }}")),
        SemaErrorKind::MissingField { struct_name: "P".to_string(), name: "x".to_string() }
    );
    assert!(matches!(
        only(&format!("{p}function f(p: P): i64 {{ p.z }}")),
        SemaErrorKind::NoField { .. }
    ));
    assert!(matches!(
        only(&format!("{p}function f(p: P) {{ p.go(); }}")),
        SemaErrorKind::NoMethod { .. }
    ));
}

#[test]
fn loop_control_names_its_keyword() {
    assert_eq!(only("function f() { break }"), SemaErrorKind::LoopControlOutsideLoop { kw: "break" });
    assert_eq!(only("function f() { continue }"), SemaErrorKind::LoopControlOutsideLoop { kw: "continue" });
}

#[test]
fn missing_variants_are_listed() {
    match only("function f(x: i64 | str | bool): i64 { match x { i64 n => n, str s => 0 } }") {
        SemaErrorKind::NonExhaustiveMatch { missing } => assert!(missing.contains("bool")),
        k => panic!("{k:?}"),
    }
}

#[test]
fn unknown_names_are_quoted() {
    assert_eq!(only("function f(): i64 { nope }"), SemaErrorKind::UnknownValue { name: "nope".to_string() });
    assert_eq!(only("function f(x: Nope) { }"), SemaErrorKind::UnknownType { name: "Nope".to_string() });
    assert_eq!(
        only("struct B<T> { v: T }\nfunction f(x: B) { }"),
        SemaErrorKind::GenericArity { name: "B".to_string(), expected: 1, found: 0 }
    );
    assert_eq!(
        only("type X = X;\nfunction f(x: X) { }"),
        SemaErrorKind::RecursiveAlias { name: "X".to_string() }
    );
}

#[test]
fn return_outside_a_function_has_a_text() {
    let e = SemaError::new(SemaErrorKind::ReturnOutsideFunction, Span::new(FileId(0), BytePos(1), BytePos(2)));
    assert_eq!(e.kind.describe(), "`return` outside of a function");
    let m = SemaError::message(e.span, "plain words");
    assert_eq!(m.kind, SemaErrorKind::Message("plain words".to_string()));
    assert_eq!(m.span, e.span);
}

// -- declarations -------------------------------------------------------------------------

#[test]
fn extern_struct_fields_have_c_types() {
    assert_ok("extern struct Pt { x: i32, y: *u8 }");
    assert!(has_msg(&check("extern struct Pt { x: str }"), "not C-ABI-compatible"));
    assert!(has_msg(&check("@Packed\nstruct Pt { x: i32 }"), "only valid on an `extern struct`"));
}

#[test]
fn transparent_structs_have_one_field() {
    assert_ok("@Transparent\nstruct Cents(i32)");
    assert!(has_msg(&check("@Transparent\nstruct P(i32, i32)"), "exactly one field, but `P` has 2"));
    assert!(has_msg(&check("@Transparent\nstruct P { x: i32 }"), "single-field tuple struct"));
}

#[test]
fn extern_structs_are_not_returned() {
    let errs = check("extern struct Pt { x: i32 }\nfunction f(p: Pt): Pt { p }");
    assert!(has_msg(&errs, "returning an `extern struct` by value"));
}

#[test]
fn tests_are_bodies_without_value() {
    assert_ok("test \"adds\" { var x: i64 = 1 + 1; }");
    assert!(!check("test \"adds\" { 1 + true; }").is_empty());
}

// -- the typed program ----------------------------------------------------------------------

fn analysis(src: &str) -> Analysis {
    let mut s = Session::new();
    let externals = toolchain(&mut s.names);
    let module = parse(src, 0, &mut s.names);
    analyze_multi(&module, &externals, s)
}

fn at(src: &str, what: &str) -> Span {
    let lo = src.find(what).unwrap() as u32;
    Span::new(FileId(0), BytePos(lo), BytePos(lo + what.len() as u32))
}

#[test]
fn analysis_records_types_and_names() {
    let src = "function f(n: i64): i64 { n + 2 }";
    let a = analysis(src);
    assert!(a.errors.is_empty(), "{:?}", a.errors);
    assert_eq!(a.expr_ty(at(src, "n + 2")), Some(I64_TY));
    assert_eq!(a.expr_ty(at(src, "2")), Some(I64_TY));
    let n = Span::new(FileId(0), BytePos(26), BytePos(27));
    assert!(matches!(a.resolution(n), Some(ValueRes::Local(_))));
    assert_eq!(a.resolution(at(src, "2")), None);
    assert_eq!(a.expr_ty(at(src, "function")), None);
}

#[test]
fn widening_keeps_the_checked_type() {
    let src = "function f() { var x: i64 | str = 17; }";
    let a = analysis(src);
    assert!(a.errors.is_empty());
    assert_eq!(a.expr_ty(at(src, "17")), Some(I64_TY));
}

#[test]
fn one_body_for_each_function_with_one() {
    let a = analyze_plain(
        "function a() { }\nextern function b(x: i32): i32;\nstruct S { v: i64 }\n\
         extend S { function m(self): i64 { var w = self.v; w } }\ntest \"t\" { }",
    );
    assert!(a.errors.is_empty(), "{:?}", a.errors);
    let names: Vec<String> = items(&a.hir.bodies)
        .iter()
        .map(|b| a.program.names.text(a.program.def(b.def).name).to_string())
        .collect();
    assert_eq!(names, vec!["a", "m", "t"]);
    let m = items(&a.hir.bodies)[1];
    assert_eq!(m.params.len(), 1);
    assert_eq!(m.locals.len(), 2);
    assert_eq!(m.ret, I64_TY);
    assert_eq!(items(&a.hir.extern_sigs).len(), 1);
    assert_eq!(items(&a.hir.structs).len(), 1);
}

fn analyze_plain(src: &str) -> Analysis {
    let mut s = Session::new();
    let module = parse(src, 0, &mut s.names);
    analyze(&module, s)
}

#[test]
fn libraries_are_linked_once() {
    let a = analyze_plain(
        "@Link(lib = \"m\")\nextern function sin(x: f64): f64;\n\
         @Link(lib = \"z\")\nextern function crc(x: i32): i32;\n\
         @Link(lib = \"m\")\nextern function cos(x: f64): f64;",
    );
    let libs: Vec<&str> = items(&a.hir.link_libs).iter().map(|l| a.program.names.text(**l)).collect();
    assert_eq!(libs, vec!["m", "z"]);
}

#[test]
fn implementations_are_indexed() {
    let a = analyze_plain(
        "interface Named { function name(self): str; }\nstruct P { x: i64 }\n\
         extend P: Named { function name(self): str { \"p\" } }",
    );
    assert!(a.errors.is_empty());
    assert_eq!(a.hir.iface_impls.len(), 1);
}

#[test]
fn errors_only_accumulate() {
    let prog = collect("function f() { var x: i64 = true; }\nfunction g() { var x: str = 1; }");
    let mut tcx = TyCtxt::new();
    let before = tcx.kinds.len();
    let mut errors = vec![SemaError::message(Span::new(FileId(9), BytePos(0), BytePos(0)), "earlier")];
    let mut ck = Checker::new(&prog, &mut tcx, &mut errors);
    ck.check_program();
    assert_eq!(errors.len(), 3);
    assert_eq!(errors[0].kind, SemaErrorKind::Message("earlier".to_string()));
    assert!(tcx.kinds.len() >= before);
}

#[test]
fn one_function_can_be_checked_alone() {
    let src = "function f() { var x: i64 = true; }\nfunction g() { var x: str = 1; }";
    let prog = collect(src);
    let f = prog.defs.iter().position(|d| d.span == at(src, "function g() { var x: str = 1; }")).unwrap();
    let mut tcx = TyCtxt::new();
    let mut errors = Vec::new();
    let mut ck = Checker::new(&prog, &mut tcx, &mut errors);
    ck.check_function(otter_sema::ids::DefId(f as u32));
    let hir = ck.finish();
    assert_eq!(errors.len(), 1);
    assert_eq!(
        errors[0].kind,
        SemaErrorKind::TypeMismatch { expected: "str".to_string(), found: "i64".to_string() }
    );
    assert!(hir.bodies.len() >= 2);
}

// -- hoisting -------------------------------------------------------------------------------

fn first_body(m: &Module) -> &Block {
    for item in items(&m.items) {
        if let ItemKind::Function(f) = &item.kind {
            if let Some(b) = &f.body {
                return b;
            }
        }
    }
    panic!("no function");
}

fn hoisted(src: &str) -> (Module, Session) {
    let mut s = Session::new();
    let mut m = parse(src, 0, &mut s.names);
    hoist_awaits(&mut m, &mut s);
    (m, s)
}

fn var_of<'a>(x: &'a Stmt, s: &'a Session) -> (&'a str, &'a Expr) {
    match &x.kind {
        StmtKind::Var(v) => match &v.pattern.kind {
            PatternKind::Binding(id) => (s.names.text(id.name), &v.init),
            _ => panic!("not a binding"),
        },
        _ => panic!("not a variable"),
    }
}

fn spelled(e: &Expr, s: &Session) -> String {
    match &e.kind {
        ExprKind::Ident(id) => s.names.text(id.name).to_string(),
        ExprKind::Int(_) => "1".to_string(),
        ExprKind::Paren(x) => format!("({})", spelled(x, s)),
        ExprKind::Await { expr, .. } => format!("await {}", spelled(expr, s)),
        ExprKind::Spawn { expr, .. } => format!("spawn {}", spelled(expr, s)),
        ExprKind::Field { receiver, name } => format!("{}.{}", spelled(receiver, s), s.names.text(name.name)),
        ExprKind::Index { receiver, index } => format!("{}[{}]", spelled(receiver, s), spelled(index, s)),
        ExprKind::Binary { left, right, .. } => format!("{} + {}", spelled(left, s), spelled(right, s)),
        ExprKind::Call { callee, args, .. } => {
            let args: Vec<String> = items(args).iter().map(|x| spelled(x, s)).collect();
            format!("{}({})", spelled(callee, s), args.join(", "))
        }
        ExprKind::For { iter, .. } => format!("for in {}", spelled(iter, s)),
        k => panic!("{k:?}"),
    }
}

/// The statements of the first function after hoisting, and what hoisting once more
/// would change.
fn hoisted_lines(body: &str) -> Vec<String> {
    let (mut m, mut s) = hoisted(&format!("function f(): Future<i64> async {{ {body} }}"));
    let once = format!("{m:?}");
    hoist_awaits(&mut m, &mut s);
    assert_eq!(format!("{m:?}"), once);
    let b = first_body(&m);
    let mut out: Vec<String> = items(&b.stmts)
        .iter()
        .map(|x| match &x.kind {
            StmtKind::Var(_) => {
                let (name, init) = var_of(x, &s);
                format!("var {} = {}", name, spelled(init, &s))
            }
            StmtKind::Assign { target, value } => format!("{} = {}", spelled(target, &s), spelled(value, &s)),
            StmtKind::Expr(e) => spelled(e, &s),
            k => panic!("{k:?}"),
        })
        .collect();
    if let Some(e) = &b.trailing {
        out.push(spelled(e, &s));
    }
    out
}

#[test]
fn awaits_move_in_front_of_their_statement() {
    assert_eq!(
        hoisted_lines("var y = h(g(), await a) + 1;"),
        vec!["var __await_0 = g()", "var __await_1 = await a", "var y = h(__await_0, __await_1) + 1"]
    );
    assert_eq!(hoisted_lines("var y = h(g(), a) + 1;"), vec!["var y = h(g(), a) + 1"]);
}

#[test]
fn what_runs_before_an_await_is_bound_before_it() {
    assert_eq!(
        hoisted_lines("g()(await a)"),
        vec!["var __await_0 = g()", "var __await_1 = await a", "__await_0(__await_1)"]
    );
    assert_eq!(
        hoisted_lines("var y = g() + h(await a);"),
        vec!["var __await_0 = g()", "var __await_1 = await a", "var y = __await_0 + h(__await_1)"]
    );
}

#[test]
fn awaited_and_spawned_operands_are_bound() {
    assert_eq!(hoisted_lines("await await x"), vec!["var __await_0 = await x", "await __await_0"]);
    assert_eq!(hoisted_lines("var t = spawn await x;"), vec!["var __await_0 = await x", "var t = spawn __await_0"]);
    assert_eq!(hoisted_lines("for v in await xs { }"), vec!["var __await_0 = await xs", "for in __await_0"]);
}

#[test]
fn targets_are_reached_before_the_value() {
    let lines = hoisted_lines("a[i()] = f(await v);");
    assert_eq!(lines, vec!["var __await_0 = i()", "var __await_1 = await v", "a[__await_0] = f(__await_1)"]);
    assert_eq!(hoisted_lines("a[i()] = f(v);"), vec!["a[i()] = f(v)"]);
}

#[test]
fn conditional_awaits_stay() {
    let (m, _) = hoisted("function f(): Future<bool> async { var y = a && await b; y }");
    let stmts = items(&first_body(&m).stmts);
    assert_eq!(stmts.len(), 1);
    match &stmts[0].kind {
        StmtKind::Var(v) => match &v.init.kind {
            ExprKind::Binary { right, .. } => assert!(matches!(right.kind, ExprKind::Await { .. })),
            k => panic!("{k:?}"),
        },
        k => panic!("{k:?}"),
    }
}

#[test]
fn top_level_awaits_stay() {
    let (m, _) = hoisted("function f(): Future<i64> async { var y = await a; return await b }");
    assert_eq!(items(&first_body(&m).stmts).len(), 1);
}

#[test]
fn async_closures_become_async_blocks() {
    let (m, _) = hoisted("function f() { var c = (x) async => g(await x); }");
    match &items(&first_body(&m).stmts)[0].kind {
        StmtKind::Var(v) => match &v.init.kind {
            ExprKind::Closure { is_async, body, .. } => {
                assert!(!is_async);
                match &body.kind {
                    ExprKind::AsyncBlock(b) => {
                        assert_eq!(items(&b.stmts).len(), 1);
                        assert!(b.trailing.is_some());
                    }
                    k => panic!("{k:?}"),
                }
            }
            k => panic!("{k:?}"),
        },
        k => panic!("{k:?}"),
    }
}

// -- deriving -------------------------------------------------------------------------------

fn derived(src: &str) -> Vec<String> {
    let mut s = Session::new();
    let mut m = parse(src, 0, &mut s.names);
    expand_derives(&mut m, &mut s);
    let mut out = Vec::new();
    for item in items(&m.items) {
        if let ItemKind::Extend(e) = &item.kind {
            for x in items(&e.members) {
                out.push(s.names.text(x.function.name.name).to_string());
            }
        }
    }
    out
}

#[test]
fn derives_give_the_methods_asked_for() {
    assert_eq!(derived("@Derive(Eq)\nstruct P { x: i64 }"), vec!["eq"]);
    assert_eq!(derived("@Derive(Ord)\nstruct P { x: i64 }"), vec!["eq", "lt", "le", "gt", "ge"]);
    assert_eq!(
        derived("@Derive(Clone, ToStr, Eq, Ord)\nstruct P(i64, str)"),
        vec!["eq", "lt", "le", "gt", "ge", "to_str", "clone"]
    );
    assert_eq!(derived("struct P { x: i64 }"), Vec::<String>::new());
    assert_eq!(derived("@Derive(Eq)\nstruct P<T> { x: T }"), Vec::<String>::new());
}

#[test]
fn derived_nodes_have_spans_of_their_own() {
    let mut s = Session::new();
    let mut m = parse("@Derive(Eq, Ord)\nstruct P { x: i64, y: i64 }", 0, &mut s.names);
    expand_derives(&mut m, &mut s);
    let all = items(&m.items);
    assert_eq!(all.len(), 2);
    let text = format!("{:?}", all[1]);
    let spans: Vec<&str> = text.split("Span {").skip(1).map(|x| &x[..x.find('}').unwrap()]).collect();
    assert!(spans.len() > 100);
    for (i, x) in spans.iter().enumerate() {
        assert!(!spans[..i].contains(x), "{x}");
    }
}

#[test]
fn derived_equality_checks() {
    assert_ok("@Derive(Eq)\nstruct P { x: i64, y: str }\nfunction f(a: P, b: P): bool { a == b }");
    assert_ok("@Derive(Ord)\nstruct P { x: i64, y: str }\nfunction f(a: P, b: P): bool { a < b }");
}

// -- default methods --------------------------------------------------------------------------

#[test]
fn copies_have_spans_of_their_own() {
    let mut s = Session::new();
    let mut m = parse(
        "interface Named { function name(self): str; function greet(self): str { self.name() } }\n\
         struct P { x: i64 }\nstruct Q { x: i64 }\n\
         extend P: Named { function name(self): str { \"p\" } }\n\
         extend Q: Named { function name(self): str { \"q\" } }",
        0,
        &mut s.names,
    );
    expand_default_methods(&mut m, &ForeignIfaces::new(), &mut s);
    let mut spans = Vec::new();
    for item in items(&m.items) {
        if let ItemKind::Extend(e) = &item.kind {
            let f = &items(&e.members)[1].function;
            assert_eq!(s.names.text(f.name.name), "greet");
            let b = f.body.as_ref().unwrap();
            spans.push(f.name.span);
            spans.push(b.span);
            spans.push(b.trailing.as_ref().unwrap().span);
        }
    }
    assert_eq!(spans.len(), 6);
    for i in 0..6 {
        for j in 0..i {
            assert_ne!(spans[i], spans[j]);
        }
    }
}

#[test]
fn merged_indexes_stay_ambiguous() {
    let mut s = Session::new();
    let a = parse("pub interface N { function a(self): str; }", 0, &mut s.names);
    let b = parse("pub interface N { function b(self): str; }", 0, &mut s.names);
    let name = s.names.intern("N");
    let mut both = ForeignIfaces::new();
    collect_pub_interfaces(&a, &mut both);
    collect_pub_interfaces(&b, &mut both);
    assert!(both.get(name).is_none());
    collect_pub_interfaces(&a, &mut both);
    assert!(both.get(name).is_none());
    let mut other = ForeignIfaces::new();
    collect_pub_interfaces(&a, &mut other);
    assert!(other.get(name).is_some());
    both.extend_into(&mut other);
    assert!(other.get(name).is_none());
}

#[test]
fn defaults_reach_other_modules() {
    let mut s = Session::new();
    let lib = parse(
        "pub interface Named { function name(self): str; function greet(self): str { self.name() } }",
        1,
        &mut s.names,
    );
    let root = parse(
        "import { Named } from \"lib\";\nstruct P { x: i64 }\n\
         extend P: Named { function name(self): str { \"p\" } }\n\
         function f(p: P): str { p.greet() }",
        0,
        &mut s.names,
    );
    let source = s.names.intern("lib");
    let a = analyze_multi(&root, &list(vec![External { source, builtin: false, module: lib }]), s);
    assert!(a.errors.is_empty(), "{:?}", a.errors);
}

#[test]
fn bounds_of_copies_are_substituted() {
    let mut s = Session::new();
    let mut m = parse(
        "interface Into<T> { function into(self): T; }\n\
         interface Bag<T> { function size(self): i64; function fill<U: Into<T>>(self, u: U): T { u.into() } }\n\
         struct P { x: i64 }\nextend P: Bag<str> { function size(self): i64 { 0 } }",
        0,
        &mut s.names,
    );
    let str_name = s.names.intern("str");
    expand_default_methods(&mut m, &ForeignIfaces::new(), &mut s);
    let mut seen = 0;
    for item in items(&m.items) {
        if let ItemKind::Extend(e) = &item.kind {
            let f = &items(&e.members)[1].function;
            let bound = items(&items(&f.generics.as_ref().unwrap().params)[0].bounds)[0];
            match &bound.kind {
                TypeKind::Named { generics, .. } => match &items(generics)[0].kind {
                    TypeKind::Named { name, .. } => assert_eq!(name.name, str_name),
                    k => panic!("{k:?}"),
                },
                k => panic!("{k:?}"),
            }
            seen += 1;
        }
    }
    assert_eq!(seen, 1);
    let once = format!("{m:?}");
    expand_default_methods(&mut m, &ForeignIfaces::new(), &mut s);
    assert_eq!(format!("{m:?}"), once);
}

// -- types ------------------------------------------------------------------------------------

#[test]
fn aliases_through_a_union_come_back() {
    assert_ok("type A = i64 | B;\ntype B = A;\nfunction f(x: A): i64 { x }");
    assert!(matches!(
        only("type A = B;\ntype B = A;\nfunction f(x: A) { }"),
        SemaErrorKind::RecursiveAlias { .. }
    ));
}

#[test]
fn what_is_not_assignable() {
    assert_eq!(
        only("function f(x: i64 | str) { var y: i64 = x; }"),
        SemaErrorKind::TypeMismatch { expected: "i64".to_string(), found: "str | i64".to_string() }
    );
    assert!(matches!(only("function f(x: i32) { var y: i64 = x; }"), SemaErrorKind::TypeMismatch { .. }));
    assert!(matches!(only("function f(x: i64) { var y: f64 = x; }"), SemaErrorKind::TypeMismatch { .. }));
    assert_ok("function f(x: i64) { var y: i64 | str = x; }");
}

#[test]
fn diagnostics_cite_the_language_manual() {
    assert!(has_msg(
        &check("@Packed\nstruct Pt { x: i32 }"),
        "`@Packed` is only valid on an `extern struct` (`docs/19` §3)"
    ));
    assert!(has_msg(&check("extern struct Pt { x: i32 }\nfunction f(p: Pt): Pt { p }"), "(`docs/19`)"));
}

#[test]
fn comparisons_of_a_struct_without_fields() {
    let mut s = Session::new();
    let mut m = parse("@Derive(Ord)\nstruct U;", 0, &mut s.names);
    expand_derives(&mut m, &mut s);
    let all = items(&m.items);
    match &all[1].kind {
        ItemKind::Extend(e) => {
            let members = items(&e.members);
            let body = |i: usize| &members[i].function.body.as_ref().unwrap().trailing.as_ref().unwrap().kind;
            assert!(matches!(body(0), ExprKind::Bool(true)));
            assert!(matches!(body(1), ExprKind::Bool(false)));
        }
        k => panic!("{k:?}"),
    }
}

// -- names and scopes --------------------------------------------------------------------------

#[test]
fn inner_bindings_hide_outer_ones() {
    assert_ok("function f(): str { var x: i64 = 1; if true { var x: str = \"a\"; x } else { \"b\" } }");
    assert!(!check("function f(): str { if true { var x: str = \"a\"; } x }").is_empty());
}

#[test]
fn own_definitions_hide_imports() {
    assert_ok("struct Done { n: i64 }\nfunction f(): i64 { var d = Done { n: 1 }; d.n }");
}

#[test]
fn narrowing_ends_with_its_branch() {
    assert_ok("function f(x: i64 | str): i64 { if x is i64 { x } else { 0 } }");
    assert!(!check("function f(x: i64 | str): i64 { if x is i64 { } x }").is_empty());
}

#[test]
fn generic_calls_take_the_first_solution() {
    assert!(!check("function pair<T>(a: T, b: T): T { a }\nfunction f(): i64 { pair(1, \"x\") }").is_empty());
    assert_ok("function pair<T>(a: T, b: T): T { a }\nfunction f(): i64 { pair(1, 2) }");
}

#[test]
fn literals_fit_their_types() {
    assert_ok("function f(): u8 { 255 }");
    assert!(!check("function f(): u8 { 256 }").is_empty());
    assert_ok("function f(): u8 { 0xffu8 }");
    assert!(!check("function f(): i8 { 128i8 }").is_empty());
    assert_ok("function f(): i8 { 127i8 }");
}
