//! The definition table.
//!
//! Collection walks the parsed modules and gives every item, method and generic
//! parameter a [`DefId`]. Names are then looked up in the table: a module's own
//! definitions come first, then its imports, then the toolchain's prelude.
use vstd::prelude::*;
use crate::ast::{
    Attribute, ExtendItem, ExtendMember, ExternItem, FunctionItem, GenericParam, GenericParams, Ident, ImportItem,
    ImportName, InterfaceItem, InterfaceMember, Item, ItemKind, Module, ModuleItem, ModuleKind, Param, ParamKind,
    StructItem, StructKind, Type, Visibility,
};
use crate::diag::{report, Problem, Report, SemaError, SemaErrorKind};
use crate::dup::{dup_attribute_list, dup_function_item, dup_item_kind, dup_struct_item, dup_type_list};
use crate::ids::{DefId, ModId};
use crate::list::List;
use crate::names::{Interner, Symbol};
use crate::results::Builtin;
use crate::span::{BytePos, FileId, Span};
use crate::words::EMPTY_TEXT;

verus! {

/// What a definition is.
#[derive(Clone, Copy, PartialEq, Eq, Structural, Debug)]
pub enum DefKind {
    Module,
    Function,
    ExternFunction,
    Struct,
    ExternStruct,
    ExternType,
    Interface,
    InterfaceMethod,
    Extend,
    ExtendMethod,
    TypeAlias,
    ModuleVar,
    ExternVar,
    GenericParam,
    Import,
    Test,
    /// No definition at all.
    Missing,
}

impl DefKind {
    /// The kind in words.
    pub open spec fn text(self) -> Seq<char> {
        match self {
            DefKind::Module => "module"@,
            DefKind::Function => "function"@,
            DefKind::ExternFunction => "extern function"@,
            DefKind::Struct => "struct"@,
            DefKind::ExternStruct => "extern struct"@,
            DefKind::ExternType => "extern type"@,
            DefKind::Interface => "interface"@,
            DefKind::InterfaceMethod => "interface method"@,
            DefKind::Extend => "extend block"@,
            DefKind::ExtendMethod => "method"@,
            DefKind::TypeAlias => "type alias"@,
            DefKind::ModuleVar => "variable"@,
            DefKind::ExternVar => "extern variable"@,
            DefKind::GenericParam => "generic parameter"@,
            DefKind::Import => "import"@,
            DefKind::Test => "test"@,
            DefKind::Missing => "definition"@,
        }
    }

    pub fn describe(self) -> (r: &'static str)
        ensures
            r@ == self.text(),
    {
        match self {
            DefKind::Module => "module",
            DefKind::Function => "function",
            DefKind::ExternFunction => "extern function",
            DefKind::Struct => "struct",
            DefKind::ExternStruct => "extern struct",
            DefKind::ExternType => "extern type",
            DefKind::Interface => "interface",
            DefKind::InterfaceMethod => "interface method",
            DefKind::Extend => "extend block",
            DefKind::ExtendMethod => "method",
            DefKind::TypeAlias => "type alias",
            DefKind::ModuleVar => "variable",
            DefKind::ExternVar => "extern variable",
            DefKind::GenericParam => "generic parameter",
            DefKind::Import => "import",
            DefKind::Test => "test",
            DefKind::Missing => "definition",
        }
    }

    /// Whether such a definition lives in the type namespace.
    pub open spec fn names_type(self) -> bool {
        match self {
            DefKind::Struct | DefKind::ExternStruct | DefKind::ExternType | DefKind::Interface
            | DefKind::TypeAlias => true,
            _ => false,
        }
    }

    pub fn is_type(self) -> (r: bool)
        ensures
            r == self.names_type(),
    {
        match self {
            DefKind::Struct | DefKind::ExternStruct | DefKind::ExternType | DefKind::Interface
            | DefKind::TypeAlias => true,
            _ => false,
        }
    }

    /// Whether such a definition lives in the value namespace.
    pub open spec fn names_value(self) -> bool {
        match self {
            DefKind::Function | DefKind::ExternFunction | DefKind::ModuleVar | DefKind::ExternVar => true,
            _ => false,
        }
    }

    pub fn is_value(self) -> (r: bool)
        ensures
            r == self.names_value(),
    {
        match self {
            DefKind::Function | DefKind::ExternFunction | DefKind::ModuleVar | DefKind::ExternVar => true,
            _ => false,
        }
    }
}

/// One definition.
#[derive(Debug)]
pub struct Def {
    pub name: Symbol,
    pub kind: DefKind,
    /// The module the definition is in.
    pub module: ModId,
    /// The block or definition that a method or generic parameter belongs to.
    pub parent: Option<DefId>,
    /// Its own generic parameters.
    pub generics: List<DefId>,
    pub item: Option<ItemKind>,
    pub span: Span,
    /// A method without `self`.
    pub is_static: bool,
    /// The interface bounds of a generic parameter.
    pub param_bounds: List<Type>,
    pub attrs: List<Attribute>,
    pub is_pub: bool,
    /// Declared by the toolchain.
    pub builtin: bool,
    /// A unit struct, which is a value too.
    pub is_unit: bool,
    /// Of an import, the module it is from.
    pub source: Symbol,
    /// Of an import, the name it has there.
    pub origin: Symbol,
    /// Of an inline module, its contents.
    pub target: Option<ModId>,
}

/// One module.
#[derive(Clone, Copy, PartialEq, Eq, Structural, Debug)]
pub struct ModuleInfo {
    /// The text that imports name it by.
    pub source: Symbol,
    /// Part of the toolchain.
    pub builtin: bool,
}

/// A loaded module other than the root: a file-backed submodule or a part of
/// the toolchain.
#[derive(Debug)]
pub struct External {
    pub source: Symbol,
    pub builtin: bool,
    pub module: Module,
}

/// The loaded modules other than the root.
pub type Externals = List<External>;

/// The definitions of a whole program.
#[derive(Debug)]
pub struct Program {
    pub names: Interner,
    pub defs: Vec<Def>,
    pub modules: Vec<ModuleInfo>,
    pub errors: Vec<SemaError>,
    /// What stands for a definition that does not exist.
    pub missing: Def,
}

/// A definition with a name and kind and nothing else.
pub open spec fn blank_def(name: Symbol, kind: DefKind, module: ModId, span: Span, builtin: bool) -> Def {
    Def {
        name,
        kind,
        module,
        parent: None,
        generics: List::Nil,
        item: None,
        span,
        is_static: false,
        param_bounds: List::Nil,
        attrs: List::Nil,
        is_pub: false,
        builtin,
        is_unit: false,
        source: EMPTY_TEXT,
        origin: EMPTY_TEXT,
        target: None,
    }
}

fn new_def(name: Symbol, kind: DefKind, module: ModId, span: Span, builtin: bool) -> (r: Def)
    ensures
        r == blank_def(name, kind, module, span, builtin),
{
    Def {
        name,
        kind,
        module,
        parent: None,
        generics: List::Nil,
        item: None,
        span,
        is_static: false,
        param_bounds: List::Nil,
        attrs: List::Nil,
        is_pub: false,
        builtin,
        is_unit: false,
        source: EMPTY_TEXT,
        origin: EMPTY_TEXT,
        target: None,
    }
}

// -- lookup -----------------------------------------------------------------------------

/// A type declared at the top level of module `m` under name `n`.
pub open spec fn declares_type(d: Def, m: ModId, n: Symbol) -> bool {
    d.module == m && d.name == n && d.kind.names_type()
}

/// A value declared at the top level of module `m` under name `n`.
pub open spec fn declares_value(d: Def, m: ModId, n: Symbol) -> bool {
    d.module == m && d.name == n && (d.kind.names_value() || d.is_unit)
}

pub open spec fn own_type(defs: Seq<Def>, m: ModId, n: Symbol, i: int) -> Option<DefId>
    decreases defs.len() - i,
{
    if i < 0 || i >= defs.len() {
        None
    } else if declares_type(defs[i], m, n) {
        Some(DefId((i as usize) as u32))
    } else {
        own_type(defs, m, n, i + 1)
    }
}

pub open spec fn own_value(defs: Seq<Def>, m: ModId, n: Symbol, i: int) -> Option<DefId>
    decreases defs.len() - i,
{
    if i < 0 || i >= defs.len() {
        None
    } else if declares_value(defs[i], m, n) {
        Some(DefId((i as usize) as u32))
    } else {
        own_value(defs, m, n, i + 1)
    }
}

/// The import of module `m` that binds name `n`, among the first `i`
/// definitions; a later import shadows an earlier one.
pub open spec fn last_import(defs: Seq<Def>, m: ModId, n: Symbol, i: int) -> Option<int>
    decreases i,
{
    if i <= 0 || i > defs.len() {
        None
    } else if defs[i - 1].module == m && defs[i - 1].name == n && defs[i - 1].kind == DefKind::Import {
        Some(i - 1)
    } else {
        last_import(defs, m, n, i - 1)
    }
}

/// The first toolchain type (or value) with name `n`.
pub open spec fn prelude_type(defs: Seq<Def>, n: Symbol, i: int) -> Option<DefId>
    decreases defs.len() - i,
{
    if i < 0 || i >= defs.len() {
        None
    } else if defs[i].builtin && defs[i].name == n && defs[i].kind.names_type() {
        Some(DefId((i as usize) as u32))
    } else {
        prelude_type(defs, n, i + 1)
    }
}

pub open spec fn prelude_value(defs: Seq<Def>, n: Symbol, i: int) -> Option<DefId>
    decreases defs.len() - i,
{
    if i < 0 || i >= defs.len() {
        None
    } else if defs[i].builtin && defs[i].name == n && (defs[i].kind.names_value() || defs[i].is_unit) {
        Some(DefId((i as usize) as u32))
    } else {
        prelude_value(defs, n, i + 1)
    }
}

/// The first module that imports name by `source`.
pub open spec fn module_from(ms: Seq<ModuleInfo>, source: Symbol, i: int) -> Option<ModId>
    decreases ms.len() - i,
{
    if i < 0 || i >= ms.len() {
        None
    } else if ms[i].source == source {
        Some(ModId((i as usize) as u32))
    } else {
        module_from(ms, source, i + 1)
    }
}

/// The first submodule or namespace import of module `m` with name `n`.
pub open spec fn submodule(defs: Seq<Def>, m: ModId, n: Symbol, i: int) -> Option<int>
    decreases defs.len() - i,
{
    if i < 0 || i >= defs.len() {
        None
    } else if defs[i].module == m && defs[i].name == n && defs[i].kind == DefKind::Module && i != 0 {
        Some(i)
    } else {
        submodule(defs, m, n, i + 1)
    }
}

/// The method `name` of block (or interface) `parent`.
pub open spec fn method_of(defs: Seq<Def>, kind: DefKind, parent: DefId, name: Symbol, i: int) -> Option<DefId>
    decreases defs.len() - i,
{
    if i < 0 || i >= defs.len() {
        None
    } else if defs[i].kind == kind && defs[i].parent == Some(parent) && defs[i].name == name {
        Some(DefId((i as usize) as u32))
    } else {
        method_of(defs, kind, parent, name, i + 1)
    }
}

/// The definition whose span is `span`.
pub open spec fn def_at_span(defs: Seq<Def>, span: Span, i: int) -> Option<DefId>
    decreases defs.len() - i,
{
    if i < 0 || i >= defs.len() {
        None
    } else if defs[i].span == span {
        Some(DefId((i as usize) as u32))
    } else {
        def_at_span(defs, span, i + 1)
    }
}

/// The ids from `i` up to `n`.
pub open spec fn ids_from(n: int, i: int) -> List<DefId>
    decreases n - i,
{
    if 0 <= i < n {
        List::Cons(Box::new(DefId(i as u32)), Box::new(ids_from(n, i + 1)))
    } else {
        List::Nil
    }
}

/// The definitions of kind `kind` at or after `i`, in order.
pub open spec fn defs_of_kind(defs: Seq<Def>, kind: DefKind, i: int) -> List<DefId>
    decreases defs.len() - i,
{
    if i < 0 || i >= defs.len() {
        List::Nil
    } else if defs[i].kind == kind {
        List::Cons(Box::new(DefId((i as usize) as u32)), Box::new(defs_of_kind(defs, kind, i + 1)))
    } else {
        defs_of_kind(defs, kind, i + 1)
    }
}

impl Program {
    /// The definition with id `d`.
    pub open spec fn def_of(&self, d: DefId) -> Def {
        if d.0 < self.defs@.len() {
            self.defs@[d.0 as int]
        } else {
            self.missing
        }
    }

    pub open spec fn text(&self, s: Symbol) -> Seq<char> {
        crate::names::text_of(self.names.view(), s)
    }

    #[verifier::opaque]
    pub open spec fn def_ids(&self) -> List<DefId> {
        ids_from(self.defs@.len() as int, 0)
    }

    /// Every definition of that kind, in order.
    #[verifier::opaque]
    pub open spec fn all_of(&self, kind: DefKind) -> List<DefId> {
        defs_of_kind(self.defs@, kind, 0)
    }

    /// The method `name` of block or interface `parent`.
    #[verifier::opaque]
    pub open spec fn method_named(&self, kind: DefKind, parent: DefId, name: Symbol) -> Option<DefId> {
        method_of(self.defs@, kind, parent, name, 0)
    }

    /// The definition declared at `span`.
    #[verifier::opaque]
    pub open spec fn at_span(&self, span: Span) -> Option<DefId> {
        def_at_span(self.defs@, span, 0)
    }

    /// Declared by the toolchain.
    #[verifier::opaque]
    pub open spec fn is_toolchain(&self, d: DefId) -> bool {
        self.def_of(d).builtin
    }

    /// What an imported type name stands for.
    pub open spec fn imported_type(&self, m: ModId, n: Symbol) -> Option<DefId> {
        match last_import(self.defs@, m, n, self.defs@.len() as int) {
            Some(i) => match module_from(self.modules@, self.defs@[i].source, 0) {
                Some(t) => own_type(self.defs@, t, self.defs@[i].origin, 0),
                None => None,
            },
            None => None,
        }
    }

    pub open spec fn imported_value(&self, m: ModId, n: Symbol) -> Option<DefId> {
        match last_import(self.defs@, m, n, self.defs@.len() as int) {
            Some(i) => match module_from(self.modules@, self.defs@[i].source, 0) {
                Some(t) => own_value(self.defs@, t, self.defs@[i].origin, 0),
                None => None,
            },
            None => None,
        }
    }

    /// The type that name `n` stands for in module `m`.
    #[verifier::opaque]
    pub open spec fn type_named(&self, m: ModId, n: Symbol) -> Option<DefId> {
        match own_type(self.defs@, m, n, 0) {
            Some(d) => Some(d),
            None => match self.imported_type(m, n) {
                Some(d) => Some(d),
                None => prelude_type(self.defs@, n, 0),
            },
        }
    }

    /// The value that name `n` stands for in module `m`.
    #[verifier::opaque]
    pub open spec fn value_named(&self, m: ModId, n: Symbol) -> Option<DefId> {
        match own_value(self.defs@, m, n, 0) {
            Some(d) => Some(d),
            None => match self.imported_value(m, n) {
                Some(d) => Some(d),
                None => prelude_value(self.defs@, n, 0),
            },
        }
    }

    /// The `pub` value that module `m` declares under name `n`.
    #[verifier::opaque]
    pub open spec fn pub_value_named(&self, m: ModId, n: Symbol) -> Option<DefId> {
        match own_value(self.defs@, m, n, 0) {
            Some(d) => if self.def_of(d).is_pub {
                Some(d)
            } else {
                None
            },
            None => None,
        }
    }

    /// The module that `n` is a namespace for in module `m`.
    #[verifier::opaque]
    pub open spec fn namespace(&self, m: ModId, n: Symbol) -> Option<ModId> {
        match submodule(self.defs@, m, n, 0) {
            Some(i) => match self.defs@[i].target {
                Some(t) => Some(t),
                None => module_from(self.modules@, self.defs@[i].source, 0),
            },
            None => None,
        }
    }

    /// The toolchain type with that name; `DefId(0)` if there is none.
    #[verifier::opaque]
    pub open spec fn well_known(&self, n: Symbol) -> DefId {
        match prelude_type(self.defs@, n, 0) {
            Some(d) => d,
            None => DefId(0),
        }
    }

    pub fn def(&self, d: DefId) -> (r: &Def)
        ensures
            *r == self.def_of(d),
    {
        let i: usize = d.0 as usize;
        if i < self.defs.len() {
            &self.defs[i]
        } else {
            &self.missing
        }
    }

    fn find_own_type(&self, m: ModId, n: Symbol) -> (r: Option<DefId>)
        ensures
            r == own_type(self.defs@, m, n, 0),
    {
        let mut i: usize = 0;
        while i < self.defs.len()
            invariant
                i <= self.defs.len(),
                own_type(self.defs@, m, n, 0) == own_type(self.defs@, m, n, i as int),
            decreases self.defs.len() - i,
        {
            let d = &self.defs[i];
            if d.module == m && d.name == n && d.kind.is_type() {
                return Some(DefId(i as u32));
            }
            i = i + 1;
        }
        None
    }

    fn find_own_value(&self, m: ModId, n: Symbol) -> (r: Option<DefId>)
        ensures
            r == own_value(self.defs@, m, n, 0),
    {
        let mut i: usize = 0;
        while i < self.defs.len()
            invariant
                i <= self.defs.len(),
                own_value(self.defs@, m, n, 0) == own_value(self.defs@, m, n, i as int),
            decreases self.defs.len() - i,
        {
            let d = &self.defs[i];
            if d.module == m && d.name == n && (d.kind.is_value() || d.is_unit) {
                return Some(DefId(i as u32));
            }
            i = i + 1;
        }
        None
    }

    fn find_import(&self, m: ModId, n: Symbol) -> (r: Option<usize>)
        ensures
            match r {
                Some(j) => last_import(self.defs@, m, n, self.defs@.len() as int) == Some(j as int) && j
                    < self.defs@.len(),
                None => last_import(self.defs@, m, n, self.defs@.len() as int) is None,
            },
    {
        let mut i: usize = self.defs.len();
        while i > 0
            invariant
                i <= self.defs.len(),
                last_import(self.defs@, m, n, self.defs@.len() as int) == last_import(self.defs@, m, n, i as int),
            decreases i,
        {
            let d = &self.defs[i - 1];
            if d.module == m && d.name == n && d.kind == DefKind::Import {
                return Some(i - 1);
            }
            i = i - 1;
        }
        None
    }

    fn find_prelude_type(&self, n: Symbol) -> (r: Option<DefId>)
        ensures
            r == prelude_type(self.defs@, n, 0),
    {
        let mut i: usize = 0;
        while i < self.defs.len()
            invariant
                i <= self.defs.len(),
                prelude_type(self.defs@, n, 0) == prelude_type(self.defs@, n, i as int),
            decreases self.defs.len() - i,
        {
            let d = &self.defs[i];
            if d.builtin && d.name == n && d.kind.is_type() {
                return Some(DefId(i as u32));
            }
            i = i + 1;
        }
        None
    }

    fn find_prelude_value(&self, n: Symbol) -> (r: Option<DefId>)
        ensures
            r == prelude_value(self.defs@, n, 0),
    {
        let mut i: usize = 0;
        while i < self.defs.len()
            invariant
                i <= self.defs.len(),
                prelude_value(self.defs@, n, 0) == prelude_value(self.defs@, n, i as int),
            decreases self.defs.len() - i,
        {
            let d = &self.defs[i];
            if d.builtin && d.name == n && (d.kind.is_value() || d.is_unit) {
                return Some(DefId(i as u32));
            }
            i = i + 1;
        }
        None
    }

    fn find_module(&self, source: Symbol) -> (r: Option<ModId>)
        ensures
            r == module_from(self.modules@, source, 0),
    {
        let mut i: usize = 0;
        while i < self.modules.len()
            invariant
                i <= self.modules.len(),
                module_from(self.modules@, source, 0) == module_from(self.modules@, source, i as int),
            decreases self.modules.len() - i,
        {
            if self.modules[i].source == source {
                return Some(ModId(i as u32));
            }
            i = i + 1;
        }
        None
    }

    /// The type that name `n` stands for in module `m`: its own types, its
    /// imports, then the prelude.
    pub fn resolve_type_in(&self, m: ModId, n: Symbol) -> (r: Option<DefId>)
        ensures
            r == self.type_named(m, n),
    {
        proof {
            reveal(Program::type_named);
        }
        match self.find_own_type(m, n) {
            Some(d) => Some(d),
            None => {
                let imported = match self.find_import(m, n) {
                    Some(i) => match self.find_module(self.defs[i].source) {
                        Some(t) => self.find_own_type(t, self.defs[i].origin),
                        None => None,
                    },
                    None => None,
                };
                match imported {
                    Some(d) => Some(d),
                    None => self.find_prelude_type(n),
                }
            },
        }
    }

    /// The value that name `n` stands for in module `m`.
    pub fn resolve_value_in(&self, m: ModId, n: Symbol) -> (r: Option<DefId>)
        ensures
            r == self.value_named(m, n),
    {
        proof {
            reveal(Program::value_named);
        }
        match self.find_own_value(m, n) {
            Some(d) => Some(d),
            None => {
                let imported = match self.find_import(m, n) {
                    Some(i) => match self.find_module(self.defs[i].source) {
                        Some(t) => self.find_own_value(t, self.defs[i].origin),
                        None => None,
                    },
                    None => None,
                };
                match imported {
                    Some(d) => Some(d),
                    None => self.find_prelude_value(n),
                }
            },
        }
    }

    /// The `pub` value that module `m` declares under name `n`.
    pub fn resolve_pub_value_in(&self, m: ModId, n: Symbol) -> (r: Option<DefId>)
        ensures
            r == self.pub_value_named(m, n),
    {
        proof {
            reveal(Program::pub_value_named);
        }
        match self.find_own_value(m, n) {
            Some(d) => {
                if self.def(d).is_pub {
                    Some(d)
                } else {
                    None
                }
            },
            None => None,
        }
    }

    /// The module that `n` is a namespace for in module `m`.
    pub fn namespace_target(&self, m: ModId, n: Symbol) -> (r: Option<ModId>)
        ensures
            r == self.namespace(m, n),
    {
        proof {
            reveal(Program::namespace);
        }
        let mut i: usize = 0;
        while i < self.defs.len()
            invariant
                i <= self.defs.len(),
                submodule(self.defs@, m, n, 0) == submodule(self.defs@, m, n, i as int),
            decreases self.defs.len() - i,
        {
            let d = &self.defs[i];
            if d.module == m && d.name == n && d.kind == DefKind::Module && i != 0 {
                proof {
                    reveal(Program::namespace);
                }
                return match d.target {
                    Some(t) => Some(t),
                    None => self.find_module(d.source),
                };
            }
            i = i + 1;
        }
        None
    }

    pub fn known(&self, n: Symbol) -> (r: DefId)
        ensures
            r == self.well_known(n),
    {
        proof {
            reveal(Program::well_known);
        }
        match self.find_prelude_type(n) {
            Some(d) => d,
            None => DefId(0),
        }
    }

    /// The method `name` of block or interface `parent`.
    pub fn find_method(&self, kind: DefKind, parent: DefId, name: Symbol) -> (r: Option<DefId>)
        ensures
            r == self.method_named(kind, parent, name),
    {
        proof {
            reveal(Program::method_named);
        }
        let mut i: usize = 0;
        while i < self.defs.len()
            invariant
                i <= self.defs.len(),
                method_of(self.defs@, kind, parent, name, 0) == method_of(self.defs@, kind, parent, name, i as int),
            decreases self.defs.len() - i,
        {
            let d = &self.defs[i];
            let here = match d.parent {
                Some(p) => p == parent,
                None => false,
            };
            if d.kind == kind && here && d.name == name {
                proof {
                    reveal(Program::method_named);
                }
                return Some(DefId(i as u32));
            }
            i = i + 1;
        }
        None
    }

    pub fn find_span(&self, span: Span) -> (r: Option<DefId>)
        ensures
            r == self.at_span(span),
    {
        proof {
            reveal(Program::at_span);
        }
        let mut i: usize = 0;
        while i < self.defs.len()
            invariant
                i <= self.defs.len(),
                def_at_span(self.defs@, span, 0) == def_at_span(self.defs@, span, i as int),
            decreases self.defs.len() - i,
        {
            if self.defs[i].span == span {
                proof {
                    reveal(Program::at_span);
                }
                return Some(DefId(i as u32));
            }
            i = i + 1;
        }
        None
    }

    /// Every definition, in order.
    pub fn all_defs(&self) -> (r: List<DefId>)
        ensures
            r == self.def_ids(),
    {
        proof {
            reveal(Program::def_ids);
        }
        let mut i: usize = self.defs.len();
        let mut r: List<DefId> = List::Nil;
        while i > 0
            invariant
                i <= self.defs.len(),
                r == ids_from(self.defs.len() as int, i as int),
            decreases i,
        {
            i = i - 1;
            r = List::Cons(Box::new(DefId(i as u32)), Box::new(r));
        }
        r
    }

    /// Every definition of that kind, in order.
    pub fn all_of_kind(&self, kind: DefKind) -> (r: List<DefId>)
        ensures
            r == self.all_of(kind),
    {
        proof {
            reveal(Program::all_of);
        }
        let mut i: usize = self.defs.len();
        let mut r: List<DefId> = List::Nil;
        while i > 0
            invariant
                i <= self.defs.len(),
                r == defs_of_kind(self.defs@, kind, i as int),
            decreases i,
        {
            i = i - 1;
            if self.defs[i].kind == kind {
                r = List::Cons(Box::new(DefId(i as u32)), Box::new(r));
            }
        }
        r
    }

    #[verifier::opaque]
    pub open spec fn builtin_for(&self, d: DefId) -> Option<Builtin> {
        if self.def_of(d).builtin {
            Builtin::named(self.def_of(d).name)
        } else {
            None
        }
    }

    /// The intrinsic that a toolchain marker function stands for.
    pub fn builtin_of_def(&self, d: DefId) -> (r: Option<Builtin>)
        ensures
            r == self.builtin_for(d),
    {
        proof {
            reveal(Program::builtin_for);
        }
        let def = self.def(d);
        if def.builtin {
            Builtin::from_name(def.name)
        } else {
            None
        }
    }

    pub fn is_builtin_def(&self, d: DefId) -> (r: bool)
        ensures
            r == self.is_toolchain(d),
    {
        proof {
            reveal(Program::is_toolchain);
        }
        self.def(d).builtin
    }
}

// -- collection ---------------------------------------------------------------------------

/// The mathematical value of a [`Program`] under construction.
#[verifier::ext_equal]
pub struct Coll {
    pub texts: Seq<Seq<char>>,
    pub defs: Seq<Def>,
    pub modules: Seq<ModuleInfo>,
    pub errors: Seq<Report>,
    pub missing: Def,
}

impl Coll {
    pub open spec fn plus(self, d: Def) -> Coll {
        Coll { defs: self.defs.push(d), ..self }
    }

    /// The id that the next definition gets.
    pub open spec fn next_id(self) -> u32 {
        (self.defs.len() as usize) as u32
    }

    pub open spec fn with_error(self, problem: Problem, span: Span) -> Coll {
        Coll { errors: self.errors.push(Report { problem, span }), ..self }
    }

    /// With a complaint if the name is taken already.
    pub open spec fn claimed(self, taken: bool, name: Symbol, kind: DefKind, span: Span) -> Coll {
        if taken {
            self.with_error(
                Problem::DuplicateDefinition {
                    name: crate::names::text_of(self.texts, name),
                    kind: kind.text(),
                },
                span,
            )
        } else {
            self
        }
    }
}

/// The ids of the generic parameters `l`, counting from `first`.
pub open spec fn param_ids(l: List<GenericParam>, first: u32) -> List<DefId>
    decreases l,
{
    match l {
        List::Nil => List::Nil,
        List::Cons(_, t) => List::Cons(
            Box::new(DefId(first)),
            Box::new(param_ids(*t, first.wrapping_add(1))),
        ),
    }
}

fn ids_of_params(l: &List<GenericParam>, first: u32) -> (r: List<DefId>)
    ensures
        r == param_ids(*l, first),
    decreases l,
{
    match l {
        List::Nil => List::Nil,
        List::Cons(_, t) => List::Cons(
            Box::new(DefId(first)),
            Box::new(ids_of_params(t, first.wrapping_add(1))),
        ),
    }
}

/// The parameters declared by `g`, if there is a list.
pub open spec fn params_in(g: Option<GenericParams>) -> List<GenericParam> {
    match g {
        Some(g) => g.params,
        None => List::Nil,
    }
}

pub open spec fn generic_ids(g: Option<GenericParams>, owner: u32) -> List<DefId> {
    match g {
        Some(g) => param_ids(g.params, owner.wrapping_add(1)),
        None => List::Nil,
    }
}

fn ids_of_generics(g: &Option<GenericParams>, owner: u32) -> (r: List<DefId>)
    ensures
        r == generic_ids(*g, owner),
{
    match g {
        Some(g) => ids_of_params(&g.params, owner.wrapping_add(1)),
        None => List::Nil,
    }
}

/// The table with the generic parameters `l` of definition `owner` added.
pub open spec fn with_params(c: Coll, l: List<GenericParam>, m: ModId, owner: DefId, builtin: bool) -> Coll
    decreases l,
{
    match l {
        List::Nil => c,
        List::Cons(h, t) => {
            let d = Def {
                parent: Some(owner),
                param_bounds: h.bounds,
                ..blank_def(h.name.name, DefKind::GenericParam, m, h.name.span, builtin)
            };
            with_params(c.plus(d), *t, m, owner, builtin)
        },
    }
}

/// The table with definition `d` and its generic parameters `g` added.
pub open spec fn with_generic(c: Coll, d: Def, g: Option<GenericParams>) -> Coll {
    let id = c.next_id();
    let d1 = Def { generics: generic_ids(g, id), ..d };
    with_params(c.plus(d1), params_in(g), d.module, DefId(id), d.builtin)
}

pub open spec fn has_self(l: List<Param>) -> bool
    decreases l,
{
    match l {
        List::Nil => false,
        List::Cons(h, t) => h.kind is SelfParam || has_self(*t),
    }
}

fn takes_self(l: &List<Param>) -> (r: bool)
    ensures
        r == has_self(*l),
    decreases l,
{
    match l {
        List::Nil => false,
        List::Cons(h, t) => {
            let first = match &h.kind {
                ParamKind::SelfParam => true,
                ParamKind::Normal { .. } => false,
            };
            first || takes_self(t)
        },
    }
}

/// The definition of a method.
pub open spec fn method_def(
    f: FunctionItem,
    kind: DefKind,
    m: ModId,
    owner: DefId,
    span: Span,
    attrs: List<Attribute>,
    is_pub: bool,
    builtin: bool,
) -> Def {
    Def {
        parent: Some(owner),
        item: Some(ItemKind::Function(f)),
        is_static: !has_self(f.params),
        attrs,
        is_pub,
        ..blank_def(f.name.name, kind, m, span, builtin)
    }
}

pub open spec fn with_iface_methods(c: Coll, l: List<InterfaceMember>, m: ModId, owner: DefId, builtin: bool) -> Coll
    decreases l,
{
    match l {
        List::Nil => c,
        List::Cons(h, t) => {
            let d = method_def(
                h.function,
                DefKind::InterfaceMethod,
                m,
                owner,
                h.function.name.span,
                List::Nil,
                false,
                builtin,
            );
            with_iface_methods(with_generic(c, d, h.function.generics), *t, m, owner, builtin)
        },
    }
}

pub open spec fn with_extend_methods(c: Coll, l: List<ExtendMember>, m: ModId, owner: DefId, builtin: bool) -> Coll
    decreases l,
{
    match l {
        List::Nil => c,
        List::Cons(h, t) => {
            let d = method_def(
                h.function,
                DefKind::ExtendMethod,
                m,
                owner,
                h.span,
                h.attrs,
                h.visibility is Public,
                builtin,
            );
            with_extend_methods(with_generic(c, d, h.function.generics), *t, m, owner, builtin)
        },
    }
}

pub open spec fn with_imports(c: Coll, l: List<ImportName>, source: Symbol, m: ModId, builtin: bool) -> Coll
    decreases l,
{
    match l {
        List::Nil => c,
        List::Cons(h, t) => {
            let local = match h.alias {
                Some(a) => a,
                None => h.name,
            };
            let d = Def {
                source,
                origin: h.name.name,
                ..blank_def(local.name, DefKind::Import, m, local.span, builtin)
            };
            with_imports(c.plus(d), *t, source, m, builtin)
        },
    }
}

/// The definition that item `it` declares under `name`.
pub open spec fn item_def(it: Item, name: Symbol, kind: DefKind, item: ItemKind, m: ModId, builtin: bool) -> Def {
    Def {
        item: Some(item),
        attrs: it.attrs,
        is_pub: it.visibility is Public,
        ..blank_def(name, kind, m, it.span, builtin)
    }
}

/// The table with a type definition added.
pub open spec fn with_type(
    c: Coll,
    it: Item,
    name: Symbol,
    kind: DefKind,
    item: ItemKind,
    g: Option<GenericParams>,
    is_unit: bool,
    m: ModId,
    builtin: bool,
) -> Coll {
    let c1 = c.claimed(own_type(c.defs, m, name, 0) is Some, name, kind, it.span);
    with_generic(c1, Def { is_unit, ..item_def(it, name, kind, item, m, builtin) }, g)
}

/// The table with a value definition added.
pub open spec fn with_value(
    c: Coll,
    it: Item,
    name: Symbol,
    kind: DefKind,
    item: ItemKind,
    g: Option<GenericParams>,
    m: ModId,
    builtin: bool,
) -> Coll {
    let c1 = c.claimed(own_value(c.defs, m, name, 0) is Some, name, kind, it.span);
    with_generic(c1, item_def(it, name, kind, item, m, builtin), g)
}

/// The table with item `it` of module `m` collected.
pub open spec fn collected_item(c: Coll, it: Item, m: ModId, builtin: bool) -> Coll
    decreases it, 0int,
{
    match it.kind {
        ItemKind::Function(f) => with_value(c, it, f.name.name, DefKind::Function, it.kind, f.generics, m, builtin),
        ItemKind::Struct(s) => with_type(
            c,
            it,
            s.name.name,
            DefKind::Struct,
            it.kind,
            s.generics,
            s.kind is Unit,
            m,
            builtin,
        ),
        ItemKind::Interface(i) => {
            let id = DefId(
                c.claimed(
                    own_type(c.defs, m, i.name.name, 0) is Some,
                    i.name.name,
                    DefKind::Interface,
                    it.span,
                ).next_id(),
            );
            let c1 = with_type(c, it, i.name.name, DefKind::Interface, it.kind, i.generics, false, m, builtin);
            with_iface_methods(c1, i.members, m, id, builtin)
        },
        ItemKind::Extend(e) => {
            let id = DefId(c.next_id());
            let c1 = with_generic(c, item_def(it, EMPTY_TEXT, DefKind::Extend, it.kind, m, builtin), e.generics);
            with_extend_methods(c1, e.members, m, id, builtin)
        },
        ItemKind::TypeAlias(a) => with_type(
            c,
            it,
            a.name.name,
            DefKind::TypeAlias,
            it.kind,
            a.generics,
            false,
            m,
            builtin,
        ),
        ItemKind::Var(v) => with_value(c, it, v.name.name, DefKind::ModuleVar, it.kind, None, m, builtin),
        ItemKind::Extern(x) => match x {
            ExternItem::Function(f) => with_value(
                c,
                it,
                f.name.name,
                DefKind::ExternFunction,
                it.kind,
                f.generics,
                m,
                builtin,
            ),
            ExternItem::Struct(s) => with_type(
                c,
                it,
                s.name.name,
                DefKind::ExternStruct,
                ItemKind::Struct(s),
                s.generics,
                false,
                m,
                builtin,
            ),
            ExternItem::Type(n) => with_type(
                c,
                it,
                n.name,
                DefKind::ExternType,
                it.kind,
                None,
                false,
                m,
                builtin,
            ),
            ExternItem::Var { name, .. } => with_value(
                c,
                it,
                name.name,
                DefKind::ExternVar,
                it.kind,
                None,
                m,
                builtin,
            ),
        },
        ItemKind::Import(i) => {
            let c1 = match i.alias {
                Some(a) => c.plus(
                    Def { source: i.source, ..blank_def(a.name, DefKind::Module, m, it.span, builtin) },
                ),
                None => c,
            };
            with_imports(c1, i.names, i.source, m, builtin)
        },
        ItemKind::Test(t) => c.plus(item_def(it, t.name, DefKind::Test, it.kind, m, builtin)),
        ItemKind::Module(mi) => match mi.kind {
            ModuleKind::Inline { items, .. } => {
                let sub = ModId((c.modules.len() as usize) as u32);
                let d = Def {
                    target: Some(sub),
                    attrs: it.attrs,
                    is_pub: it.visibility is Public,
                    ..blank_def(mi.name.name, DefKind::Module, m, it.span, builtin)
                };
                let c1 = Coll { modules: c.modules.push(ModuleInfo { source: EMPTY_TEXT, builtin }), ..c.plus(d) };
                collected_items(c1, items, sub, builtin)
            },
            ModuleKind::File => c.plus(
                Def {
                    source: mi.name.name,
                    attrs: it.attrs,
                    is_pub: it.visibility is Public,
                    ..blank_def(mi.name.name, DefKind::Module, m, it.span, builtin)
                },
            ),
        },
    }
}

pub open spec fn collected_items(c: Coll, l: List<Item>, m: ModId, builtin: bool) -> Coll
    decreases l, 0int,
{
    match l {
        List::Nil => c,
        List::Cons(h, t) => collected_items(collected_item(c, *h, m, builtin), *t, m, builtin),
    }
}

/// The table with each loaded module collected.
pub open spec fn collected_externals(c: Coll, l: Externals) -> Coll
    decreases l,
{
    match l {
        List::Nil => c,
        List::Cons(h, t) => {
            let m = ModId((c.modules.len() as usize) as u32);
            let c1 = Coll {
                modules: c.modules.push(ModuleInfo { source: h.source, builtin: h.builtin }),
                ..c
            };
            collected_externals(collected_items(c1, h.module.items, m, h.builtin), *t)
        },
    }
}

/// The table that holds the root module and nothing else.
pub open spec fn root_table(texts: Seq<Seq<char>>, span: Span) -> Coll {
    Coll {
        texts,
        defs: seq![blank_def(EMPTY_TEXT, DefKind::Module, ModId(0), span, false)],
        modules: seq![ModuleInfo { source: EMPTY_TEXT, builtin: false }],
        errors: Seq::empty(),
        missing: blank_def(EMPTY_TEXT, DefKind::Missing, ModId(0), span, false),
    }
}

impl Program {
    pub open spec fn view(&self) -> Coll {
        Coll {
            texts: self.names.view(),
            defs: self.defs@,
            modules: self.modules@,
            errors: crate::diag::reports(self.errors@),
            missing: self.missing,
        }
    }

    fn add(&mut self, d: Def)
        ensures
            final(self).view() == old(self).view().plus(d),
    {
        self.defs.push(d);
    }

    fn claim(&mut self, taken: bool, name: Symbol, kind: DefKind, span: Span)
        ensures
            final(self).view() == old(self).view().claimed(taken, name, kind, span),
    {
        if taken {
            let text = self.names.text(name).to_owned();
            report(
                &mut self.errors,
                SemaErrorKind::DuplicateDefinition { name: text, kind: kind.describe() },
                span,
            );
        }
    }

    fn add_params(&mut self, l: &List<GenericParam>, m: ModId, owner: DefId, builtin: bool)
        ensures
            final(self).view() == with_params(old(self).view(), *l, m, owner, builtin),
        decreases l,
    {
        match l {
            List::Nil => {},
            List::Cons(h, t) => {
                let mut d = new_def(h.name.name, DefKind::GenericParam, m, h.name.span, builtin);
                d.parent = Some(owner);
                d.param_bounds = dup_type_list(&h.bounds);
                self.add(d);
                self.add_params(t, m, owner, builtin);
            },
        }
    }

    fn add_generic(&mut self, d: Def, g: &Option<GenericParams>) -> (r: DefId)
        ensures
            final(self).view() == with_generic(old(self).view(), d, *g),
            r == DefId(old(self).view().next_id()),
    {
        let mut d = d;
        let id: u32 = self.defs.len() as u32;
        let m = d.module;
        let builtin = d.builtin;
        d.generics = ids_of_generics(g, id);
        self.add(d);
        match g {
            Some(g) => {
                self.add_params(&g.params, m, DefId(id), builtin);
            },
            None => {},
        }
        DefId(id)
    }

    fn add_iface_methods(&mut self, l: &List<InterfaceMember>, m: ModId, owner: DefId, builtin: bool)
        ensures
            final(self).view() == with_iface_methods(old(self).view(), *l, m, owner, builtin),
        decreases l,
    {
        match l {
            List::Nil => {},
            List::Cons(h, t) => {
                let mut d = new_def(
                    h.function.name.name,
                    DefKind::InterfaceMethod,
                    m,
                    h.function.name.span,
                    builtin,
                );
                d.parent = Some(owner);
                d.item = Some(ItemKind::Function(dup_function_item(&h.function)));
                d.is_static = !takes_self(&h.function.params);
                self.add_generic(d, &h.function.generics);
                self.add_iface_methods(t, m, owner, builtin);
            },
        }
    }

    fn add_extend_methods(&mut self, l: &List<ExtendMember>, m: ModId, owner: DefId, builtin: bool)
        ensures
            final(self).view() == with_extend_methods(old(self).view(), *l, m, owner, builtin),
        decreases l,
    {
        match l {
            List::Nil => {},
            List::Cons(h, t) => {
                let mut d = new_def(h.function.name.name, DefKind::ExtendMethod, m, h.span, builtin);
                d.parent = Some(owner);
                d.item = Some(ItemKind::Function(dup_function_item(&h.function)));
                d.is_static = !takes_self(&h.function.params);
                d.attrs = dup_attribute_list(&h.attrs);
                d.is_pub = h.visibility.is_public();
                self.add_generic(d, &h.function.generics);
                self.add_extend_methods(t, m, owner, builtin);
            },
        }
    }

    fn add_imports(&mut self, l: &List<ImportName>, source: Symbol, m: ModId, builtin: bool)
        ensures
            final(self).view() == with_imports(old(self).view(), *l, source, m, builtin),
        decreases l,
    {
        match l {
            List::Nil => {},
            List::Cons(h, t) => {
                let local = match h.alias {
                    Some(a) => a,
                    None => h.name,
                };
                let mut d = new_def(local.name, DefKind::Import, m, local.span, builtin);
                d.source = source;
                d.origin = h.name.name;
                self.add(d);
                self.add_imports(t, source, m, builtin);
            },
        }
    }

    fn new_item_def(it: &Item, name: Symbol, kind: DefKind, item: ItemKind, m: ModId, builtin: bool) -> (r: Def)
        ensures
            r == item_def(*it, name, kind, item, m, builtin),
    {
        let mut d = new_def(name, kind, m, it.span, builtin);
        d.item = Some(item);
        d.attrs = dup_attribute_list(&it.attrs);
        d.is_pub = it.visibility.is_public();
        d
    }

    fn add_type(
        &mut self,
        it: &Item,
        name: Symbol,
        kind: DefKind,
        item: ItemKind,
        g: &Option<GenericParams>,
        is_unit: bool,
        m: ModId,
        builtin: bool,
    ) -> (r: DefId)
        ensures
            final(self).view() == with_type(old(self).view(), *it, name, kind, item, *g, is_unit, m, builtin),
            r == DefId(old(self).view().next_id()),
    {
        let taken = self.find_own_type(m, name).is_some();
        self.claim(taken, name, kind, it.span);
        let mut d = Program::new_item_def(it, name, kind, item, m, builtin);
        d.is_unit = is_unit;
        self.add_generic(d, g)
    }

    fn add_value(
        &mut self,
        it: &Item,
        name: Symbol,
        kind: DefKind,
        item: ItemKind,
        g: &Option<GenericParams>,
        m: ModId,
        builtin: bool,
    )
        ensures
            final(self).view() == with_value(old(self).view(), *it, name, kind, item, *g, m, builtin),
    {
        let taken = self.find_own_value(m, name).is_some();
        self.claim(taken, name, kind, it.span);
        let d = Program::new_item_def(it, name, kind, item, m, builtin);
        self.add_generic(d, g);
    }

    fn collect_item(&mut self, it: &Item, m: ModId, builtin: bool)
        ensures
            final(self).view() == collected_item(old(self).view(), *it, m, builtin),
        decreases it, 0int,
    {
        match &it.kind {
            ItemKind::Function(f) => {
                self.add_value(
                    it,
                    f.name.name,
                    DefKind::Function,
                    dup_item_kind(&it.kind),
                    &f.generics,
                    m,
                    builtin,
                );
            },
            ItemKind::Struct(s) => {
                let is_unit = match &s.kind {
                    StructKind::Unit => true,
                    _ => false,
                };
                self.add_type(
                    it,
                    s.name.name,
                    DefKind::Struct,
                    dup_item_kind(&it.kind),
                    &s.generics,
                    is_unit,
                    m,
                    builtin,
                );
            },
            ItemKind::Interface(i) => {
                let id = self.add_type(
                    it,
                    i.name.name,
                    DefKind::Interface,
                    dup_item_kind(&it.kind),
                    &i.generics,
                    false,
                    m,
                    builtin,
                );
                self.add_iface_methods(&i.members, m, id, builtin);
            },
            ItemKind::Extend(e) => {
                let d = Program::new_item_def(
                    it,
                    EMPTY_TEXT,
                    DefKind::Extend,
                    dup_item_kind(&it.kind),
                    m,
                    builtin,
                );
                let id = self.add_generic(d, &e.generics);
                self.add_extend_methods(&e.members, m, id, builtin);
            },
            ItemKind::TypeAlias(a) => {
                self.add_type(
                    it,
                    a.name.name,
                    DefKind::TypeAlias,
                    dup_item_kind(&it.kind),
                    &a.generics,
                    false,
                    m,
                    builtin,
                );
            },
            ItemKind::Var(v) => {
                self.add_value(it, v.name.name, DefKind::ModuleVar, dup_item_kind(&it.kind), &None, m, builtin);
            },
            ItemKind::Extern(x) => match x {
                ExternItem::Function(f) => {
                    self.add_value(
                        it,
                        f.name.name,
                        DefKind::ExternFunction,
                        dup_item_kind(&it.kind),
                        &f.generics,
                        m,
                        builtin,
                    );
                },
                ExternItem::Struct(s) => {
                    self.add_type(
                        it,
                        s.name.name,
                        DefKind::ExternStruct,
                        ItemKind::Struct(dup_struct_item(s)),
                        &s.generics,
                        false,
                        m,
                        builtin,
                    );
                },
                ExternItem::Type(n) => {
                    self.add_type(
                        it,
                        n.name,
                        DefKind::ExternType,
                        dup_item_kind(&it.kind),
                        &None,
                        false,
                        m,
                        builtin,
                    );
                },
                ExternItem::Var { name, .. } => {
                    self.add_value(it, name.name, DefKind::ExternVar, dup_item_kind(&it.kind), &None, m, builtin);
                },
            },
            ItemKind::Import(i) => {
                match i.alias {
                    Some(a) => {
                        let mut d = new_def(a.name, DefKind::Module, m, it.span, builtin);
                        d.source = i.source;
                        self.add(d);
                    },
                    None => {},
                }
                self.add_imports(&i.names, i.source, m, builtin);
            },
            ItemKind::Test(t) => {
                let d = Program::new_item_def(it, t.name, DefKind::Test, dup_item_kind(&it.kind), m, builtin);
                self.add(d);
            },
            ItemKind::Module(mi) => {
                let mut d = new_def(mi.name.name, DefKind::Module, m, it.span, builtin);
                d.attrs = dup_attribute_list(&it.attrs);
                d.is_pub = it.visibility.is_public();
                match &mi.kind {
                    ModuleKind::Inline { items, .. } => {
                        let sub = ModId(self.modules.len() as u32);
                        d.target = Some(sub);
                        self.add(d);
                        self.modules.push(ModuleInfo { source: EMPTY_TEXT, builtin });
                        self.collect_items(items, sub, builtin);
                    },
                    ModuleKind::File => {
                        d.source = mi.name.name;
                        self.add(d);
                    },
                }
            },
        }
    }

    fn collect_items(&mut self, l: &List<Item>, m: ModId, builtin: bool)
        ensures
            final(self).view() == collected_items(old(self).view(), *l, m, builtin),
        decreases l, 0int,
    {
        match l {
            List::Nil => {},
            List::Cons(h, t) => {
                self.collect_item(h, m, builtin);
                self.collect_items(t, m, builtin);
            },
        }
    }

    fn collect_externals(&mut self, l: &Externals)
        ensures
            final(self).view() == collected_externals(old(self).view(), *l),
        decreases l,
    {
        match l {
            List::Nil => {},
            List::Cons(h, t) => {
                let m = ModId(self.modules.len() as u32);
                self.modules.push(ModuleInfo { source: h.source, builtin: h.builtin });
                self.collect_items(&h.module.items, m, h.builtin);
                self.collect_externals(t);
            },
        }
    }

    /// Collects a whole program: the root module and every loaded module.
    pub fn collect_multi(root: &Module, externals: &Externals, names: Interner) -> (r: Program)
        ensures
            r.view() == collected_externals(
                collected_items(root_table(names.view(), root.span), root.items, ModId(0), false),
                *externals,
            ),
    {
        let mut defs: Vec<Def> = Vec::new();
        defs.push(new_def(EMPTY_TEXT, DefKind::Module, ModId(0), root.span, false));
        let mut modules: Vec<ModuleInfo> = Vec::new();
        modules.push(ModuleInfo { source: EMPTY_TEXT, builtin: false });
        let errors: Vec<SemaError> = Vec::new();
        let missing = new_def(EMPTY_TEXT, DefKind::Missing, ModId(0), root.span, false);
        let mut p = Program { names, defs, modules, errors, missing };
        assert(p.view() =~= root_table(names.view(), root.span));
        p.collect_items(&root.items, ModId(0), false);
        p.collect_externals(externals);
        p
    }
}

// -- laws -----------------------------------------------------------------------------

proof fn lemma_own_type(defs: Seq<Def>, m: ModId, n: Symbol, i: int)
    requires
        0 <= i,
        defs.len() <= u32::MAX,
    ensures
        match own_type(defs, m, n, i) {
            Some(d) => i <= d.0 < defs.len() && declares_type(defs[d.0 as int], m, n),
            None => forall|j: int| i <= j < defs.len() ==> !declares_type(#[trigger] defs[j], m, n),
        },
    decreases defs.len() - i,
{
    if i < defs.len() && !declares_type(defs[i], m, n) {
        lemma_own_type(defs, m, n, i + 1);
    }
}

proof fn lemma_own_value(defs: Seq<Def>, m: ModId, n: Symbol, i: int)
    requires
        0 <= i,
        defs.len() <= u32::MAX,
    ensures
        match own_value(defs, m, n, i) {
            Some(d) => i <= d.0 < defs.len() && declares_value(defs[d.0 as int], m, n),
            None => forall|j: int| i <= j < defs.len() ==> !declares_value(#[trigger] defs[j], m, n),
        },
    decreases defs.len() - i,
{
    if i < defs.len() && !declares_value(defs[i], m, n) {
        lemma_own_value(defs, m, n, i + 1);
    }
}

proof fn lemma_prelude_type(defs: Seq<Def>, n: Symbol, i: int)
    requires
        0 <= i,
        defs.len() <= u32::MAX,
    ensures
        match prelude_type(defs, n, i) {
            Some(d) => d.0 < defs.len() && defs[d.0 as int].kind.names_type() && defs[d.0 as int].builtin,
            None => true,
        },
    decreases defs.len() - i,
{
    if i < defs.len() {
        lemma_prelude_type(defs, n, i + 1);
    }
}

/// A type that a module declares itself hides an import and a toolchain type of
/// the same name.
pub proof fn law_own_type_first(p: Program, m: ModId, n: Symbol, i: int)
    requires
        p.defs@.len() <= u32::MAX,
        0 <= i < p.defs@.len(),
        declares_type(p.defs@[i], m, n),
    ensures
        p.type_named(m, n) is Some,
        declares_type(p.def_of(p.type_named(m, n)->0), m, n),
{
    reveal(Program::type_named);
    lemma_own_type(p.defs@, m, n, 0);
}

/// A value that a module declares itself hides an import and a toolchain value of
/// the same name.
pub proof fn law_own_value_first(p: Program, m: ModId, n: Symbol, i: int)
    requires
        p.defs@.len() <= u32::MAX,
        0 <= i < p.defs@.len(),
        declares_value(p.defs@[i], m, n),
    ensures
        p.value_named(m, n) is Some,
        declares_value(p.def_of(p.value_named(m, n)->0), m, n),
{
    reveal(Program::value_named);
    lemma_own_value(p.defs@, m, n, 0);
}

/// What a name stands for in type position is a type.
pub proof fn law_type_named_is_type(p: Program, m: ModId, n: Symbol)
    requires
        p.defs@.len() <= u32::MAX,
        p.type_named(m, n) is Some,
    ensures
        p.def_of(p.type_named(m, n)->0).kind.names_type(),
{
    reveal(Program::type_named);
    lemma_own_type(p.defs@, m, n, 0);
    lemma_prelude_type(p.defs@, n, 0);
    match last_import(p.defs@, m, n, p.defs@.len() as int) {
        Some(i) => match module_from(p.modules@, p.defs@[i].source, 0) {
            Some(t) => lemma_own_type(p.defs@, t, p.defs@[i].origin, 0),
            None => {},
        },
        None => {},
    }
}

} // verus!
