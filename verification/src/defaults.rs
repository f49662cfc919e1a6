//! Interface default methods.
//!
//! An interface method may carry a default body. A type that implements the
//! interface and does not override the method uses that body: it is copied into
//! the `extend` block as an ordinary method, with the interface's type parameters
//! replaced by the arguments the block names and with spans of its own.
//!
//! The interface may be declared in the same module or be a `pub` interface of
//! another one. A local declaration shadows a foreign one of the same name, and
//! a name that several modules give to different interfaces is not used at all.
use vstd::prelude::*;
use crate::ast::{
    Block, ExtendItem, ExtendMember, FunctionItem, GenericParam, GenericParams, InterfaceItem, InterfaceMember, Item,
    ItemKind, Module, ModuleItem, ModuleKind, Type, TypeKind, Visibility,
};
use crate::dup::{
    dup_attribute_list, dup_block, dup_extend_member_list, dup_generic_params, dup_interface_item, dup_item,
    dup_param_list, dup_symbol_list, dup_type, dup_type_list,
};
use crate::list::List;
use crate::names::Symbol;
use crate::respan::rs_function;
use crate::same::same_interface_item;
use crate::session::Session;
use crate::span::SpanGen;
use crate::subst::{contains_name, subst_function_types, TypeBinding};

verus! {

// -- interfaces of other modules ------------------------------------------------------

/// What is known of one foreign interface name: the interface, or `None` if
/// different interfaces claim the name.
#[derive(Debug)]
pub struct ForeignEntry {
    pub name: Symbol,
    pub iface: Option<InterfaceItem>,
}

/// A program-wide index of `pub` interfaces by name.
#[derive(Debug)]
pub struct ForeignIfaces {
    pub by_name: List<ForeignEntry>,
}

/// The entry for `name`.
pub open spec fn entry_of(l: List<ForeignEntry>, name: Symbol) -> Option<ForeignEntry>
    decreases l,
{
    match l {
        List::Nil => None,
        List::Cons(h, t) => if h.name == name {
            Some(*h)
        } else {
            entry_of(*t, name)
        },
    }
}

/// The index with `iface` recorded: a new name gets it, the same interface seen
/// again changes nothing, and a conflict makes the name ambiguous.
pub open spec fn recorded(l: List<ForeignEntry>, iface: InterfaceItem) -> List<ForeignEntry>
    decreases l,
{
    match l {
        List::Nil => List::one(ForeignEntry { name: iface.name.name, iface: Some(iface) }),
        List::Cons(h, t) => if h.name != iface.name.name {
            List::Cons(h, Box::new(recorded(*t, iface)))
        } else if h.iface == Some(iface) {
            l
        } else {
            List::Cons(Box::new(ForeignEntry { name: h.name, iface: None }), t)
        },
    }
}

fn record(l: List<ForeignEntry>, iface: InterfaceItem) -> (r: List<ForeignEntry>)
    ensures
        r == recorded(l, iface),
    decreases l,
{
    match l {
        List::Nil => List::single(ForeignEntry { name: iface.name.name, iface: Some(iface) }),
        List::Cons(h, t) => {
            if h.name != iface.name.name {
                return List::Cons(h, Box::new(record(*t, iface)));
            }
            let same = match &h.iface {
                Some(x) => same_interface_item(x, &iface),
                None => false,
            };
            if same {
                List::Cons(h, t)
            } else {
                List::Cons(Box::new(ForeignEntry { name: h.name, iface: None }), t)
            }
        },
    }
}

/// The index with `name` made ambiguous.
pub open spec fn poisoned(l: List<ForeignEntry>, name: Symbol) -> List<ForeignEntry>
    decreases l,
{
    match l {
        List::Nil => List::one(ForeignEntry { name, iface: None }),
        List::Cons(h, t) => if h.name != name {
            List::Cons(h, Box::new(poisoned(*t, name)))
        } else {
            List::Cons(Box::new(ForeignEntry { name, iface: None }), t)
        },
    }
}

fn poison(l: List<ForeignEntry>, name: Symbol) -> (r: List<ForeignEntry>)
    ensures
        r == poisoned(l, name),
    decreases l,
{
    match l {
        List::Nil => List::single(ForeignEntry { name, iface: None }),
        List::Cons(h, t) => {
            if h.name != name {
                List::Cons(h, Box::new(poison(*t, name)))
            } else {
                List::Cons(Box::new(ForeignEntry { name, iface: None }), t)
            }
        },
    }
}

/// `other` with every entry of `l` merged in.
pub open spec fn merged(l: List<ForeignEntry>, other: List<ForeignEntry>) -> List<ForeignEntry>
    decreases l,
{
    match l {
        List::Nil => other,
        List::Cons(h, t) => match h.iface {
            Some(iface) => merged(*t, recorded(other, iface)),
            None => merged(*t, poisoned(other, h.name)),
        },
    }
}

fn merge(l: &List<ForeignEntry>, other: List<ForeignEntry>) -> (r: List<ForeignEntry>)
    ensures
        r == merged(*l, other),
    decreases l,
{
    match l {
        List::Nil => other,
        List::Cons(h, t) => {
            let other = match &h.iface {
                Some(iface) => record(other, dup_interface_item(iface)),
                None => poison(other, h.name),
            };
            merge(t, other)
        },
    }
}

fn find_entry<'a>(l: &'a List<ForeignEntry>, name: Symbol) -> (r: Option<&'a ForeignEntry>)
    ensures
        match r {
            Some(e) => entry_of(*l, name) == Some(*e),
            None => entry_of(*l, name) is None,
        },
    decreases l,
{
    match l {
        List::Nil => None,
        List::Cons(h, t) => if h.name == name {
            Some(h)
        } else {
            find_entry(t, name)
        },
    }
}

/// The interface `name` unambiguously stands for.
pub open spec fn foreign_iface(l: List<ForeignEntry>, name: Symbol) -> Option<InterfaceItem> {
    match entry_of(l, name) {
        Some(e) => e.iface,
        None => None,
    }
}

impl ForeignIfaces {
    pub fn new() -> (r: ForeignIfaces)
        ensures
            r.by_name is Nil,
    {
        ForeignIfaces { by_name: List::Nil }
    }

    fn take(&mut self) -> (r: List<ForeignEntry>)
        ensures
            r == old(self).by_name,
            final(self).by_name is Nil,
    {
        let mut l = List::Nil;
        std::mem::swap(&mut l, &mut self.by_name);
        l
    }

    /// Records a `pub` interface, making its name ambiguous if a different
    /// interface already claimed it.
    pub fn insert(&mut self, iface: InterfaceItem)
        ensures
            final(self).by_name == recorded(old(self).by_name, iface),
    {
        let l = self.take();
        self.by_name = record(l, iface);
    }

    /// The interface with that name, unless it is absent or ambiguous.
    pub fn get(&self, name: Symbol) -> (r: Option<&InterfaceItem>)
        ensures
            match r {
                Some(i) => foreign_iface(self.by_name, name) == Some(*i),
                None => foreign_iface(self.by_name, name) is None,
            },
    {
        match find_entry(&self.by_name, name) {
            Some(e) => match &e.iface {
                Some(i) => Some(i),
                None => None,
            },
            None => None,
        }
    }

    /// Merges every entry into `other`; an ambiguous name stays ambiguous.
    pub fn extend_into(&self, other: &mut ForeignIfaces)
        ensures
            final(other).by_name == merged(self.by_name, old(other).by_name),
    {
        let l = other.take();
        other.by_name = merge(&self.by_name, l);
    }
}

/// `out` with the `pub` interfaces among the items `l` recorded, those of inline
/// submodules included.
pub open spec fn pub_interfaces(l: List<Item>, out: List<ForeignEntry>) -> List<ForeignEntry>
    decreases l,
{
    match l {
        List::Nil => out,
        List::Cons(h, t) => match h.kind {
            ItemKind::Interface(i) => if h.visibility is Public {
                pub_interfaces(*t, recorded(out, i))
            } else {
                pub_interfaces(*t, out)
            },
            ItemKind::Module(m) => match m.kind {
                ModuleKind::Inline { items, .. } => pub_interfaces(*t, pub_interfaces(items, out)),
                ModuleKind::File => pub_interfaces(*t, out),
            },
            _ => pub_interfaces(*t, out),
        },
    }
}

fn collect_from(l: &List<Item>, out: &mut ForeignIfaces)
    ensures
        final(out).by_name == pub_interfaces(*l, old(out).by_name),
    decreases l,
{
    match l {
        List::Nil => {},
        List::Cons(h, t) => {
            match &h.kind {
                ItemKind::Interface(i) => {
                    if h.visibility.is_public() {
                        out.insert(dup_interface_item(i));
                    }
                },
                ItemKind::Module(m) => {
                    if let ModuleKind::Inline { items, .. } = &m.kind {
                        collect_from(items, out);
                    }
                },
                _ => {},
            }
            collect_from(t, out);
        },
    }
}

/// Records every `pub` interface declared in `module`, through its inline
/// submodules.
pub fn collect_pub_interfaces(module: &Module, out: &mut ForeignIfaces)
    ensures
        final(out).by_name == pub_interfaces(module.items, old(out).by_name),
{
    collect_from(&module.items, out);
}

// -- copying a default ----------------------------------------------------------------

/// The interface that the items `l` declare under `name`; the last one wins.
pub open spec fn local_iface(l: List<Item>, name: Symbol) -> Option<InterfaceItem>
    decreases l,
{
    match l {
        List::Nil => None,
        List::Cons(h, t) => match local_iface(*t, name) {
            Some(i) => Some(i),
            None => match h.kind {
                ItemKind::Interface(i) => if i.name.name == name {
                    Some(i)
                } else {
                    None
                },
                _ => None,
            },
        },
    }
}

fn find_local<'a>(l: &'a List<Item>, name: Symbol) -> (r: Option<&'a InterfaceItem>)
    ensures
        match r {
            Some(i) => local_iface(*l, name) == Some(*i),
            None => local_iface(*l, name) is None,
        },
    decreases l,
{
    match l {
        List::Nil => None,
        List::Cons(h, t) => match find_local(t, name) {
            Some(i) => Some(i),
            None => match &h.kind {
                ItemKind::Interface(i) => if i.name.name == name {
                    Some(i)
                } else {
                    None
                },
                _ => None,
            },
        },
    }
}

/// Each parameter bound to the argument in its place; what has no partner is
/// left alone.
pub open spec fn zip_params(ps: List<GenericParam>, args: List<Type>, acc: List<TypeBinding>) -> List<TypeBinding>
    decreases ps,
{
    match (ps, args) {
        (List::Cons(p, ps1), List::Cons(a, args1)) => zip_params(
            *ps1,
            *args1,
            List::Cons(Box::new(TypeBinding { name: p.name.name, ty: *a }), Box::new(acc)),
        ),
        _ => acc,
    }
}

fn zip_param_args(ps: &List<GenericParam>, args: &List<Type>, acc: List<TypeBinding>) -> (r: List<TypeBinding>)
    ensures
        r == zip_params(*ps, *args, acc),
    decreases ps,
{
    match (ps, args) {
        (List::Cons(p, ps1), List::Cons(a, args1)) => {
            let b = TypeBinding { name: p.name.name, ty: dup_type(a) };
            zip_param_args(ps1, args1, List::Cons(Box::new(b), Box::new(acc)))
        },
        _ => acc,
    }
}

/// The interface's parameters mapped to the arguments of one `extend` clause.
pub open spec fn param_subst(iface: InterfaceItem, args: List<Type>) -> List<TypeBinding> {
    match iface.generics {
        Some(g) => zip_params(g.params, args, List::Nil),
        None => List::Nil,
    }
}

fn iface_param_subst(iface: &InterfaceItem, args: &List<Type>) -> (r: List<TypeBinding>)
    ensures
        r == param_subst(*iface, *args),
{
    match &iface.generics {
        Some(g) => zip_param_args(&g.params, args, List::Nil),
        None => List::Nil,
    }
}

pub open spec fn param_names(l: List<GenericParam>) -> List<Symbol>
    decreases l,
{
    match l {
        List::Nil => List::Nil,
        List::Cons(h, t) => List::Cons(Box::new(h.name.name), Box::new(param_names(*t))),
    }
}

fn names_of_params(l: &List<GenericParam>) -> (r: List<Symbol>)
    ensures
        r == param_names(*l),
    decreases l,
{
    match l {
        List::Nil => List::Nil,
        List::Cons(h, t) => List::Cons(Box::new(h.name.name), Box::new(names_of_params(t))),
    }
}

/// The generics of a method, which shadow interface parameters.
pub open spec fn shadowing(g: Option<GenericParams>) -> List<Symbol> {
    match g {
        Some(g) => param_names(g.params),
        None => List::Nil,
    }
}

/// The method that a default body gives an implementer, before its spans are
/// made its own.
pub open spec fn default_function(m: InterfaceMember, body: Block, subst: List<TypeBinding>) -> FunctionItem {
    let f = FunctionItem { body: Some(body), ..m.function };
    if subst is Nil {
        f
    } else {
        crate::subst::sub_function_types(f, subst, shadowing(f.generics))
    }
}

pub open spec fn default_member(g: SpanGen, m: InterfaceMember, body: Block, subst: List<TypeBinding>) -> (
    SpanGen,
    ExtendMember,
) {
    let (g1, function) = crate::respan::respan_function(g, default_function(m, body, subst));
    (
        g1.after(),
        ExtendMember {
            docs: List::Nil,
            attrs: List::Nil,
            visibility: Visibility::Private,
            function,
            span: g1.span(),
        },
    )
}

fn synth_member(m: &InterfaceMember, body: &Block, subst: &List<TypeBinding>, g: &mut SpanGen) -> (r: ExtendMember)
    ensures
        (*final(g), r) == default_member(*old(g), *m, *body, *subst),
{
    let generics = match &m.function.generics {
        Some(p) => Some(dup_generic_params(p)),
        None => None,
    };
    let return_type = match &m.function.return_type {
        Some(t) => Some(dup_type(t)),
        None => None,
    };
    let f = FunctionItem {
        name: m.function.name,
        generics,
        params: dup_param_list(&m.function.params),
        return_type,
        is_async: m.function.is_async,
        body: Some(dup_block(body)),
    };
    let f = if subst.is_empty() {
        f
    } else {
        let shadow = match &f.generics {
            Some(p) => names_of_params(&p.params),
            None => List::Nil,
        };
        subst_function_types(&f, subst, &shadow)
    };
    let function = rs_function(&f, g);
    ExtendMember {
        docs: List::Nil,
        attrs: List::Nil,
        visibility: Visibility::Private,
        function,
        span: g.fresh(),
    }
}

pub open spec fn member_names(l: List<ExtendMember>) -> List<Symbol>
    decreases l,
{
    match l {
        List::Nil => List::Nil,
        List::Cons(h, t) => List::Cons(Box::new(h.function.name.name), Box::new(member_names(*t))),
    }
}

fn names_of_members(l: &List<ExtendMember>) -> (r: List<Symbol>)
    ensures
        r == member_names(*l),
    decreases l,
{
    match l {
        List::Nil => List::Nil,
        List::Cons(h, t) => List::Cons(Box::new(h.function.name.name), Box::new(names_of_members(t))),
    }
}

/// The defaults among the methods `l` that are not in `have` yet, and the names
/// then had.
pub open spec fn missing_defaults(
    g: SpanGen,
    l: List<InterfaceMember>,
    subst: List<TypeBinding>,
    have: List<Symbol>,
) -> (SpanGen, List<ExtendMember>, List<Symbol>)
    decreases l,
{
    match l {
        List::Nil => (g, List::Nil, have),
        List::Cons(h, t) => match h.default_body {
            Some(body) => if crate::subst::has_name(have, h.function.name.name) {
                missing_defaults(g, *t, subst, have)
            } else {
                let (g1, m) = default_member(g, *h, body, subst);
                let (g2, rest, had) = missing_defaults(
                    g1,
                    *t,
                    subst,
                    List::Cons(Box::new(h.function.name.name), Box::new(have)),
                );
                (g2, List::Cons(Box::new(m), Box::new(rest)), had)
            },
            None => missing_defaults(g, *t, subst, have),
        },
    }
}

fn add_missing(l: &List<InterfaceMember>, subst: &List<TypeBinding>, have: List<Symbol>, g: &mut SpanGen) -> (r: (
    List<ExtendMember>,
    List<Symbol>,
))
    ensures
        (*final(g), r.0, r.1) == missing_defaults(*old(g), *l, *subst, have),
    decreases l,
{
    match l {
        List::Nil => (List::Nil, have),
        List::Cons(h, t) => match &h.default_body {
            Some(body) => {
                if contains_name(&have, h.function.name.name) {
                    return add_missing(t, subst, have, g);
                }
                let m = synth_member(h, body, subst, g);
                let have = List::Cons(Box::new(h.function.name.name), Box::new(have));
                let (rest, had) = add_missing(t, subst, have, g);
                (List::Cons(Box::new(m), Box::new(rest)), had)
            },
            None => add_missing(t, subst, have, g),
        },
    }
}

/// The interface that an `extend` clause names: a local one first.
pub open spec fn named_iface(locals: List<Item>, foreign: List<ForeignEntry>, name: Symbol) -> Option<InterfaceItem> {
    match local_iface(locals, name) {
        Some(i) => Some(i),
        None => foreign_iface(foreign, name),
    }
}

/// The members that the interfaces `l` add to a block that has the methods
/// `have`.
pub open spec fn additions(
    g: SpanGen,
    l: List<Type>,
    locals: List<Item>,
    foreign: List<ForeignEntry>,
    have: List<Symbol>,
) -> (SpanGen, List<ExtendMember>)
    decreases l,
{
    match l {
        List::Nil => (g, List::Nil),
        List::Cons(h, t) => match h.kind {
            TypeKind::Named { name, generics } => match named_iface(locals, foreign, name.name) {
                Some(iface) => {
                    let (g1, ms, had) = missing_defaults(g, iface.members, param_subst(iface, generics), have);
                    let (g2, rest) = additions(g1, *t, locals, foreign, had);
                    (g2, ms.then_list(rest))
                },
                None => additions(g, *t, locals, foreign, have),
            },
            _ => additions(g, *t, locals, foreign, have),
        },
    }
}

fn additions_for(
    l: &List<Type>,
    locals: &List<Item>,
    foreign: &ForeignIfaces,
    have: List<Symbol>,
    g: &mut SpanGen,
) -> (r: List<ExtendMember>)
    ensures
        (*final(g), r) == additions(*old(g), *l, *locals, foreign.by_name, have),
    decreases l,
{
    match l {
        List::Nil => List::Nil,
        List::Cons(h, t) => {
            if let TypeKind::Named { name, generics } = &h.kind {
                let found = match find_local(locals, name.name) {
                    Some(i) => Some(i),
                    None => foreign.get(name.name),
                };
                if let Some(iface) = found {
                    let subst = iface_param_subst(iface, generics);
                    let (ms, had) = add_missing(&iface.members, &subst, have, g);
                    let rest = additions_for(t, locals, foreign, had, g);
                    return ms.append(rest);
                }
            }
            additions_for(t, locals, foreign, have, g)
        },
    }
}

/// The items `l` with the defaults added to each `extend` block; `locals` are
/// all the items of the module.
pub open spec fn with_defaults(
    g: SpanGen,
    l: List<Item>,
    locals: List<Item>,
    foreign: List<ForeignEntry>,
) -> (SpanGen, List<Item>)
    decreases l,
{
    match l {
        List::Nil => (g, List::Nil),
        List::Cons(h, t) => match h.kind {
            ItemKind::Extend(e) => {
                let (g1, more) = additions(g, e.interfaces, locals, foreign, member_names(e.members));
                let (g2, rest) = with_defaults(g1, *t, locals, foreign);
                let kind = ItemKind::Extend(ExtendItem { members: e.members.then_list(more), ..e });
                (g2, List::Cons(Box::new(Item { kind, ..*h }), Box::new(rest)))
            },
            _ => {
                let (g2, rest) = with_defaults(g, *t, locals, foreign);
                (g2, List::Cons(h, Box::new(rest)))
            },
        },
    }
}

fn add_defaults(l: &List<Item>, locals: &List<Item>, foreign: &ForeignIfaces, g: &mut SpanGen) -> (r: List<Item>)
    ensures
        (*final(g), r) == with_defaults(*old(g), *l, *locals, foreign.by_name),
    decreases l,
{
    match l {
        List::Nil => List::Nil,
        List::Cons(h, t) => {
            if let ItemKind::Extend(e) = &h.kind {
                let more = additions_for(&e.interfaces, locals, foreign, names_of_members(&e.members), g);
                let rest = add_defaults(t, locals, foreign, g);
                let generics = match &e.generics {
                    Some(p) => Some(dup_generic_params(p)),
                    None => None,
                };
                let kind = ItemKind::Extend(
                    ExtendItem {
                        generics,
                        target: dup_type(&e.target),
                        interfaces: dup_type_list(&e.interfaces),
                        members: dup_extend_member_list(&e.members).append(more),
                    },
                );
                let it = Item {
                    docs: dup_symbol_list(&h.docs),
                    attrs: dup_attribute_list(&h.attrs),
                    visibility: h.visibility,
                    kind,
                    span: h.span,
                };
                return List::Cons(Box::new(it), Box::new(rest));
            }
            let rest = add_defaults(t, locals, foreign, g);
            List::Cons(Box::new(dup_item(h)), Box::new(rest))
        },
    }
}

/// The items of a module after expansion: first its own `extend` blocks, then
/// its inline submodules.
pub open spec fn expanded(g: SpanGen, l: List<Item>, foreign: List<ForeignEntry>) -> (SpanGen, List<Item>)
    decreases l, 1int,
{
    let (g1, own) = with_defaults(g, l, l, foreign);
    let (g2, subs) = expanded_submodules(g1, l, foreign);
    (g2, with_submodules(own, subs))
}

/// The expanded contents of each inline submodule, in order.
pub open spec fn expanded_submodules(g: SpanGen, l: List<Item>, foreign: List<ForeignEntry>) -> (
    SpanGen,
    List<List<Item>>,
)
    decreases l, 0int,
{
    match l {
        List::Nil => (g, List::Nil),
        List::Cons(h, t) => match h.kind {
            ItemKind::Module(m) => match m.kind {
                ModuleKind::Inline { items, .. } => {
                    let (g1, sub) = expanded(g, items, foreign);
                    let (g2, rest) = expanded_submodules(g1, *t, foreign);
                    (g2, List::Cons(Box::new(sub), Box::new(rest)))
                },
                ModuleKind::File => expanded_submodules(g, *t, foreign),
            },
            _ => expanded_submodules(g, *t, foreign),
        },
    }
}

/// The items `l` with the contents of their inline submodules replaced, one
/// after the other, by `subs`.
pub open spec fn with_submodules(l: List<Item>, subs: List<List<Item>>) -> List<Item>
    decreases l,
{
    match l {
        List::Nil => List::Nil,
        List::Cons(h, t) => match (h.kind, subs) {
            (ItemKind::Module(m), List::Cons(sub, more)) => match m.kind {
                ModuleKind::Inline { docs, .. } => {
                    let kind = ItemKind::Module(
                        ModuleItem { name: m.name, kind: ModuleKind::Inline { docs, items: *sub } },
                    );
                    List::Cons(Box::new(Item { kind, ..*h }), Box::new(with_submodules(*t, *more)))
                },
                ModuleKind::File => List::Cons(h, Box::new(with_submodules(*t, subs))),
            },
            _ => List::Cons(h, Box::new(with_submodules(*t, subs))),
        },
    }
}

fn expand(l: &List<Item>, foreign: &ForeignIfaces, g: &mut SpanGen) -> (r: List<Item>)
    ensures
        (*final(g), r) == expanded(*old(g), *l, foreign.by_name),
    decreases l, 1int,
{
    let own = add_defaults(l, l, foreign, g);
    let subs = expand_submodules(l, foreign, g);
    put_submodules(own, subs)
}

fn expand_submodules(l: &List<Item>, foreign: &ForeignIfaces, g: &mut SpanGen) -> (r: List<List<Item>>)
    ensures
        (*final(g), r) == expanded_submodules(*old(g), *l, foreign.by_name),
    decreases l, 0int,
{
    match l {
        List::Nil => List::Nil,
        List::Cons(h, t) => {
            if let ItemKind::Module(m) = &h.kind {
                if let ModuleKind::Inline { items, .. } = &m.kind {
                    let sub = expand(items, foreign, g);
                    let rest = expand_submodules(t, foreign, g);
                    return List::Cons(Box::new(sub), Box::new(rest));
                }
            }
            expand_submodules(t, foreign, g)
        },
    }
}

fn put_submodules(l: List<Item>, subs: List<List<Item>>) -> (r: List<Item>)
    ensures
        r == with_submodules(l, subs),
    decreases l,
{
    match l {
        List::Nil => List::Nil,
        List::Cons(h, t) => {
            let inline = match &h.kind {
                ItemKind::Module(m) => match &m.kind {
                    ModuleKind::Inline { docs, .. } => Some((m.name, dup_symbol_list(docs))),
                    ModuleKind::File => None,
                },
                _ => None,
            };
            match (inline, subs) {
                (Some((name, docs)), List::Cons(sub, more)) => {
                    let kind = ItemKind::Module(
                        ModuleItem { name, kind: ModuleKind::Inline { docs, items: *sub } },
                    );
                    let it = Item {
                        docs: dup_symbol_list(&h.docs),
                        attrs: dup_attribute_list(&h.attrs),
                        visibility: h.visibility,
                        kind,
                        span: h.span,
                    };
                    List::Cons(Box::new(it), Box::new(put_submodules(*t, *more)))
                },
                (_, subs) => List::Cons(h, Box::new(put_submodules(*t, subs))),
            }
        },
    }
}

/// Copies interface default methods into the `extend` blocks of `module` that
/// do not override them, through its inline submodules. `foreign` supplies the
/// `pub` interfaces of other modules.
pub fn expand_default_methods(module: &mut Module, foreign: &ForeignIfaces, s: &mut Session)
    ensures
        (final(s).default_spans, final(module).items) == expanded(
            old(s).default_spans,
            old(module).items,
            foreign.by_name,
        ),
        final(s).view() == (crate::session::Sess {
            default_spans: final(s).default_spans,
            ..old(s).view()
        }),
        final(module).docs == old(module).docs,
        final(module).span == old(module).span,
{
    let mut g = s.default_spans;
    module.items = expand(&module.items, foreign, &mut g);
    s.default_spans = g;
}

// -- laws -----------------------------------------------------------------------------

/// Different interfaces claim `name`.
pub open spec fn ambiguous(l: List<ForeignEntry>, name: Symbol) -> bool {
    match entry_of(l, name) {
        Some(e) => e.iface is None,
        None => false,
    }
}

/// An interface whose name is new is found under it.
pub proof fn law_insert_new(l: List<ForeignEntry>, iface: InterfaceItem)
    requires
        entry_of(l, iface.name.name) is None,
    ensures
        foreign_iface(recorded(l, iface), iface.name.name) == Some(iface),
    decreases l,
{
    reveal_with_fuel(entry_of, 2);
    match l {
        List::Nil => {},
        List::Cons(_, t) => law_insert_new(*t, iface),
    }
}

/// Recording an interface leaves every other name alone.
pub proof fn law_insert_keeps_others(l: List<ForeignEntry>, iface: InterfaceItem, name: Symbol)
    requires
        name != iface.name.name,
    ensures
        entry_of(recorded(l, iface), name) == entry_of(l, name),
    decreases l,
{
    reveal_with_fuel(entry_of, 2);
    match l {
        List::Nil => {},
        List::Cons(_, t) => law_insert_keeps_others(*t, iface, name),
    }
}

/// The same interface seen again changes nothing.
pub proof fn law_insert_twice(l: List<ForeignEntry>, iface: InterfaceItem)
    ensures
        recorded(recorded(l, iface), iface) == recorded(l, iface),
    decreases l,
{
    match l {
        List::Nil => {},
        List::Cons(_, t) => law_insert_twice(*t, iface),
    }
}

/// A second, different interface makes its name ambiguous.
pub proof fn law_insert_conflict(l: List<ForeignEntry>, iface: InterfaceItem)
    requires
        entry_of(l, iface.name.name) is Some,
        foreign_iface(l, iface.name.name) != Some(iface),
    ensures
        ambiguous(recorded(l, iface), iface.name.name),
    decreases l,
{
    match l {
        List::Nil => {},
        List::Cons(h, t) => {
            if h.name != iface.name.name {
                law_insert_conflict(*t, iface);
            }
        },
    }
}

/// An ambiguous name stays ambiguous, whatever is recorded.
pub proof fn law_insert_keeps_ambiguity(l: List<ForeignEntry>, iface: InterfaceItem, name: Symbol)
    requires
        ambiguous(l, name),
    ensures
        ambiguous(recorded(l, iface), name),
{
    if name == iface.name.name {
        law_insert_conflict(l, iface);
    } else {
        law_insert_keeps_others(l, iface, name);
    }
}

proof fn lemma_poisoned(l: List<ForeignEntry>, poison: Symbol, name: Symbol)
    ensures
        name == poison ==> ambiguous(poisoned(l, poison), name),
        name != poison ==> entry_of(poisoned(l, poison), name) == entry_of(l, name),
    decreases l,
{
    reveal_with_fuel(entry_of, 2);
    match l {
        List::Nil => {},
        List::Cons(_, t) => lemma_poisoned(*t, poison, name),
    }
}

/// What is ambiguous in `other` is ambiguous after a merge into it.
pub proof fn law_merge_keeps_ambiguity(l: List<ForeignEntry>, other: List<ForeignEntry>, name: Symbol)
    requires
        ambiguous(other, name),
    ensures
        ambiguous(merged(l, other), name),
    decreases l,
{
    match l {
        List::Nil => {},
        List::Cons(h, t) => match h.iface {
            Some(iface) => {
                law_insert_keeps_ambiguity(other, iface, name);
                law_merge_keeps_ambiguity(*t, recorded(other, iface), name);
            },
            None => {
                lemma_poisoned(other, h.name, name);
                law_merge_keeps_ambiguity(*t, poisoned(other, h.name), name);
            },
        },
    }
}

/// What is ambiguous in an index is ambiguous wherever the index is merged into.
pub proof fn law_merge_carries_ambiguity(l: List<ForeignEntry>, other: List<ForeignEntry>, name: Symbol)
    requires
        ambiguous(l, name),
    ensures
        ambiguous(merged(l, other), name),
    decreases l,
{
    match l {
        List::Nil => {},
        List::Cons(h, t) => match h.iface {
            Some(iface) => law_merge_carries_ambiguity(*t, recorded(other, iface), name),
            None => {
                lemma_poisoned(other, h.name, name);
                if h.name == name {
                    law_merge_keeps_ambiguity(*t, poisoned(other, h.name), name);
                } else {
                    law_merge_carries_ambiguity(*t, poisoned(other, h.name), name);
                }
            },
        },
    }
}

/// An interface of the module itself hides foreign ones of the same name.
pub proof fn law_local_shadows_foreign(locals: List<Item>, foreign: List<ForeignEntry>, name: Symbol)
    requires
        local_iface(locals, name) is Some,
    ensures
        named_iface(locals, foreign, name) == local_iface(locals, name),
{
}

/// No default is copied from an ambiguous foreign name.
pub proof fn law_ambiguous_not_copied(locals: List<Item>, foreign: List<ForeignEntry>, name: Symbol)
    requires
        local_iface(locals, name) is None,
        ambiguous(foreign, name),
    ensures
        named_iface(locals, foreign, name) is None,
{
}

/// None of the methods `l` has a name in `have`, and no two of them the same.
pub open spec fn all_new(l: List<ExtendMember>, have: List<Symbol>) -> bool
    decreases l,
{
    match l {
        List::Nil => true,
        List::Cons(h, t) => !crate::subst::has_name(have, h.function.name.name) && all_new(
            *t,
            List::Cons(Box::new(h.function.name.name), Box::new(have)),
        ),
    }
}

/// The names `have` with those of the methods `l`, the last one in front.
pub open spec fn with_names(l: List<ExtendMember>, have: List<Symbol>) -> List<Symbol>
    decreases l,
{
    match l {
        List::Nil => have,
        List::Cons(h, t) => with_names(*t, List::Cons(Box::new(h.function.name.name), Box::new(have))),
    }
}

proof fn lemma_missing_new(g: SpanGen, l: List<InterfaceMember>, subst: List<TypeBinding>, have: List<Symbol>)
    ensures
        all_new(missing_defaults(g, l, subst, have).1, have),
        missing_defaults(g, l, subst, have).2 == with_names(missing_defaults(g, l, subst, have).1, have),
    decreases l,
{
    match l {
        List::Nil => {},
        List::Cons(h, t) => match h.default_body {
            Some(body) => {
                if crate::subst::has_name(have, h.function.name.name) {
                    lemma_missing_new(g, *t, subst, have);
                } else {
                    let (g1, m) = default_member(g, *h, body, subst);
                    assert(m.function.name.name == h.function.name.name);
                    lemma_missing_new(g1, *t, subst, List::Cons(Box::new(h.function.name.name), Box::new(have)));
                }
            },
            None => lemma_missing_new(g, *t, subst, have),
        },
    }
}

proof fn lemma_all_new_append(a: List<ExtendMember>, b: List<ExtendMember>, have: List<Symbol>)
    requires
        all_new(a, have),
        all_new(b, with_names(a, have)),
    ensures
        all_new(a.then_list(b), have),
    decreases a,
{
    match a {
        List::Nil => {},
        List::Cons(h, t) => lemma_all_new_append(*t, b, List::Cons(Box::new(h.function.name.name), Box::new(have))),
    }
}

/// A copied default never stands beside a method of the same name: neither one
/// that the block has itself nor another copy.
pub proof fn law_defaults_never_override(
    g: SpanGen,
    l: List<Type>,
    locals: List<Item>,
    foreign: List<ForeignEntry>,
    have: List<Symbol>,
)
    ensures
        all_new(additions(g, l, locals, foreign, have).1, have),
    decreases l,
{
    match l {
        List::Nil => {},
        List::Cons(h, t) => match h.kind {
            TypeKind::Named { name, generics } => match named_iface(locals, foreign, name.name) {
                Some(iface) => {
                    let subst = param_subst(iface, generics);
                    let (g1, ms, had) = missing_defaults(g, iface.members, subst, have);
                    lemma_missing_new(g, iface.members, subst, have);
                    law_defaults_never_override(g1, *t, locals, foreign, had);
                    lemma_all_new_append(ms, additions(g1, *t, locals, foreign, had).1, have);
                },
                None => law_defaults_never_override(g, *t, locals, foreign, have),
            },
            _ => law_defaults_never_override(g, *t, locals, foreign, have),
        },
    }
}

/// After the defaults of an interface are copied, every method with a default
/// body is there.
pub proof fn law_defaults_complete(
    g: SpanGen,
    l: List<InterfaceMember>,
    subst: List<TypeBinding>,
    have: List<Symbol>,
    name: Symbol,
)
    requires
        has_default(l, name),
    ensures
        crate::subst::has_name(have, name) || crate::subst::has_name(
            member_names(missing_defaults(g, l, subst, have).1),
            name,
        ),
    decreases l,
{
    match l {
        List::Nil => {},
        List::Cons(h, t) => match h.default_body {
            Some(body) => {
                if crate::subst::has_name(have, h.function.name.name) {
                    if h.function.name.name != name {
                        law_defaults_complete(g, *t, subst, have, name);
                    }
                } else {
                    let (g1, m) = default_member(g, *h, body, subst);
                    assert(m.function.name.name == h.function.name.name);
                    if h.function.name.name != name {
                        law_defaults_complete(
                            g1,
                            *t,
                            subst,
                            List::Cons(Box::new(h.function.name.name), Box::new(have)),
                            name,
                        );
                    }
                }
            },
            None => law_defaults_complete(g, *t, subst, have, name),
        },
    }
}

/// One of the methods `l` is `name` and has a default body.
pub open spec fn has_default(l: List<InterfaceMember>, name: Symbol) -> bool
    decreases l,
{
    match l {
        List::Nil => false,
        List::Cons(h, t) => (h.function.name.name == name && h.default_body is Some) || has_default(*t, name),
    }
}

// -- expanding a second time -----------------------------------------------------------

/// Every name in `a` is in `b`.
pub open spec fn covers(b: List<Symbol>, a: List<Symbol>) -> bool {
    forall|n: Symbol| crate::subst::has_name(a, n) ==> #[trigger] crate::subst::has_name(b, n)
}

/// Every default among the methods `l` has its name in `have`.
pub open spec fn complete(l: List<InterfaceMember>, have: List<Symbol>) -> bool
    decreases l,
{
    match l {
        List::Nil => true,
        List::Cons(h, t) => (h.default_body is Some ==> crate::subst::has_name(have, h.function.name.name))
            && complete(*t, have),
    }
}

/// The same of the interfaces that the types `l` name.
pub open spec fn all_complete(
    l: List<Type>,
    locals: List<Item>,
    foreign: List<ForeignEntry>,
    have: List<Symbol>,
) -> bool
    decreases l,
{
    match l {
        List::Nil => true,
        List::Cons(h, t) => (match h.kind {
            TypeKind::Named { name, .. } => match named_iface(locals, foreign, name.name) {
                Some(iface) => complete(iface.members, have),
                None => true,
            },
            _ => true,
        }) && all_complete(*t, locals, foreign, have),
    }
}

/// No block among the items `l`, or in a submodule, lacks a default.
pub open spec fn finished(l: List<Item>, locals: List<Item>, foreign: List<ForeignEntry>) -> bool
    decreases l,
{
    match l {
        List::Nil => true,
        List::Cons(h, t) => (match h.kind {
            ItemKind::Extend(e) => all_complete(e.interfaces, locals, foreign, member_names(e.members)),
            ItemKind::Module(m) => match m.kind {
                ModuleKind::Inline { items, .. } => finished(items, items, foreign),
                ModuleKind::File => true,
            },
            _ => true,
        }) && finished(*t, locals, foreign),
    }
}

proof fn lemma_complete_covers(l: List<InterfaceMember>, a: List<Symbol>, b: List<Symbol>)
    requires
        complete(l, a),
        covers(b, a),
    ensures
        complete(l, b),
    decreases l,
{
    if let List::Cons(_, t) = l {
        lemma_complete_covers(*t, a, b);
    }
}

proof fn lemma_all_complete_covers(
    l: List<Type>,
    locals: List<Item>,
    foreign: List<ForeignEntry>,
    a: List<Symbol>,
    b: List<Symbol>,
)
    requires
        all_complete(l, locals, foreign, a),
        covers(b, a),
    ensures
        all_complete(l, locals, foreign, b),
    decreases l,
{
    if let List::Cons(h, t) = l {
        lemma_all_complete_covers(*t, locals, foreign, a, b);
        if let TypeKind::Named { name, .. } = h.kind {
            if let Some(iface) = named_iface(locals, foreign, name.name) {
                lemma_complete_covers(iface.members, a, b);
            }
        }
    }
}

proof fn lemma_nothing_missing(g: SpanGen, l: List<InterfaceMember>, subst: List<TypeBinding>, have: List<Symbol>)
    requires
        complete(l, have),
    ensures
        missing_defaults(g, l, subst, have) == (g, List::<ExtendMember>::Nil, have),
    decreases l,
{
    if let List::Cons(_, t) = l {
        lemma_nothing_missing(g, *t, subst, have);
    }
}

proof fn lemma_nothing_added(
    g: SpanGen,
    l: List<Type>,
    locals: List<Item>,
    foreign: List<ForeignEntry>,
    have: List<Symbol>,
)
    requires
        all_complete(l, locals, foreign, have),
    ensures
        additions(g, l, locals, foreign, have) == (g, List::<ExtendMember>::Nil),
    decreases l,
{
    if let List::Cons(h, t) = l {
        lemma_nothing_added(g, *t, locals, foreign, have);
        if let TypeKind::Named { name, generics } = h.kind {
            if let Some(iface) = named_iface(locals, foreign, name.name) {
                lemma_nothing_missing(g, iface.members, param_subst(iface, generics), have);
            }
        }
    }
}

proof fn lemma_missing_complete(g: SpanGen, l: List<InterfaceMember>, subst: List<TypeBinding>, have: List<Symbol>)
    ensures
        covers(missing_defaults(g, l, subst, have).2, have),
        complete(l, missing_defaults(g, l, subst, have).2),
    decreases l,
{
    if let List::Cons(h, t) = l {
        match h.default_body {
            Some(body) => {
                let name = h.function.name.name;
                if crate::subst::has_name(have, name) {
                    lemma_missing_complete(g, *t, subst, have);
                } else {
                    let more = List::Cons(Box::new(name), Box::new(have));
                    let g1 = default_member(g, *h, body, subst).0;
                    lemma_missing_complete(g1, *t, subst, more);
                    let had = missing_defaults(g1, *t, subst, more).2;
                    assert(crate::subst::has_name(more, name));
                    assert(crate::subst::has_name(had, name));
                    assert forall|n: Symbol| crate::subst::has_name(have, n) implies #[trigger] crate::subst::has_name(
                        had,
                        n,
                    ) by {
                        assert(crate::subst::has_name(more, n));
                    }
                }
            },
            None => lemma_missing_complete(g, *t, subst, have),
        }
    }
}

proof fn lemma_with_names(l: List<ExtendMember>, have: List<Symbol>, n: Symbol)
    ensures
        crate::subst::has_name(with_names(l, have), n) == (crate::subst::has_name(have, n) || crate::subst::has_name(
            member_names(l),
            n,
        )),
    decreases l,
{
    if let List::Cons(h, t) = l {
        lemma_with_names(*t, List::Cons(Box::new(h.function.name.name), Box::new(have)), n);
    }
}

proof fn lemma_with_names_append(a: List<ExtendMember>, b: List<ExtendMember>, have: List<Symbol>)
    ensures
        with_names(a.then_list(b), have) == with_names(b, with_names(a, have)),
    decreases a,
{
    if let List::Cons(h, t) = a {
        lemma_with_names_append(*t, b, List::Cons(Box::new(h.function.name.name), Box::new(have)));
    }
}

proof fn lemma_additions_complete(
    g: SpanGen,
    l: List<Type>,
    locals: List<Item>,
    foreign: List<ForeignEntry>,
    have: List<Symbol>,
)
    ensures
        covers(with_names(additions(g, l, locals, foreign, have).1, have), have),
        all_complete(l, locals, foreign, with_names(additions(g, l, locals, foreign, have).1, have)),
    decreases l,
{
    if let List::Cons(h, t) = l {
        match h.kind {
            TypeKind::Named { name, generics } => match named_iface(locals, foreign, name.name) {
                Some(iface) => {
                    let subst = param_subst(iface, generics);
                    let (g1, ms, had) = missing_defaults(g, iface.members, subst, have);
                    lemma_missing_new(g, iface.members, subst, have);
                    lemma_missing_complete(g, iface.members, subst, have);
                    lemma_additions_complete(g1, *t, locals, foreign, had);
                    let rest = additions(g1, *t, locals, foreign, had).1;
                    lemma_with_names_append(ms, rest, have);
                    let end = with_names(rest, had);
                    lemma_complete_covers(iface.members, had, end);
                    assert forall|n: Symbol| crate::subst::has_name(have, n) implies #[trigger] crate::subst::has_name(
                        end,
                        n,
                    ) by {
                        assert(crate::subst::has_name(had, n));
                    }
                },
                None => lemma_additions_complete(g, *t, locals, foreign, have),
            },
            _ => lemma_additions_complete(g, *t, locals, foreign, have),
        }
    }
}

proof fn lemma_member_names_append(a: List<ExtendMember>, b: List<ExtendMember>, n: Symbol)
    ensures
        crate::subst::has_name(member_names(a.then_list(b)), n) == (crate::subst::has_name(member_names(a), n)
            || crate::subst::has_name(member_names(b), n)),
    decreases a,
{
    if let List::Cons(_, t) = a {
        lemma_member_names_append(*t, b, n);
    }
}

proof fn lemma_append_nil(l: List<ExtendMember>)
    ensures
        l.then_list(List::Nil) == l,
    decreases l,
{
    if let List::Cons(_, t) = l {
        lemma_append_nil(*t);
    }
}

/// Both modules declare the same interfaces.
pub open spec fn same_ifaces(a: List<Item>, b: List<Item>) -> bool {
    forall|n: Symbol| #[trigger] local_iface(a, n) == local_iface(b, n)
}

proof fn lemma_same_ifaces(
    l: List<Type>,
    a: List<Item>,
    b: List<Item>,
    foreign: List<ForeignEntry>,
    have: List<Symbol>,
)
    requires
        same_ifaces(a, b),
        all_complete(l, a, foreign, have),
    ensures
        all_complete(l, b, foreign, have),
    decreases l,
{
    if let List::Cons(h, t) = l {
        lemma_same_ifaces(*t, a, b, foreign, have);
        if let TypeKind::Named { name, .. } = h.kind {
            assert(local_iface(a, name.name) == local_iface(b, name.name));
        }
    }
}

/// The items `l` after the expansion.
pub open spec fn result(
    g: SpanGen,
    l: List<Item>,
    locals: List<Item>,
    foreign: List<ForeignEntry>,
    h: SpanGen,
) -> List<Item> {
    with_submodules(with_defaults(g, l, locals, foreign).1, expanded_submodules(h, l, foreign).1)
}

proof fn lemma_result_ifaces(
    g: SpanGen,
    l: List<Item>,
    locals: List<Item>,
    foreign: List<ForeignEntry>,
    h: SpanGen,
    n: Symbol,
)
    ensures
        local_iface(result(g, l, locals, foreign, h), n) == local_iface(l, n),
    decreases l,
{
    if let List::Cons(it, t) = l {
        match it.kind {
            ItemKind::Extend(e) => {
                let g1 = additions(g, e.interfaces, locals, foreign, member_names(e.members)).0;
                lemma_result_ifaces(g1, *t, locals, foreign, h, n);
            },
            ItemKind::Module(m) => match m.kind {
                ModuleKind::Inline { items, .. } => {
                    lemma_result_ifaces(g, *t, locals, foreign, expanded(h, items, foreign).0, n);
                },
                ModuleKind::File => lemma_result_ifaces(g, *t, locals, foreign, h, n),
            },
            _ => lemma_result_ifaces(g, *t, locals, foreign, h, n),
        }
    }
}

proof fn lemma_finished(
    g: SpanGen,
    l: List<Item>,
    locals: List<Item>,
    after: List<Item>,
    foreign: List<ForeignEntry>,
    h: SpanGen,
)
    requires
        same_ifaces(locals, after),
    ensures
        finished(result(g, l, locals, foreign, h), after, foreign),
    decreases l, 0int,
{
    if let List::Cons(it, t) = l {
        match it.kind {
            ItemKind::Extend(e) => {
                let have = member_names(e.members);
                let (g1, more) = additions(g, e.interfaces, locals, foreign, have);
                lemma_additions_complete(g, e.interfaces, locals, foreign, have);
                let all = member_names(e.members.then_list(more));
                let end = with_names(more, have);
                assert forall|n: Symbol| crate::subst::has_name(end, n) implies #[trigger] crate::subst::has_name(
                    all,
                    n,
                ) by {
                    lemma_with_names(more, have, n);
                    lemma_member_names_append(e.members, more, n);
                }
                lemma_all_complete_covers(e.interfaces, locals, foreign, end, all);
                lemma_same_ifaces(e.interfaces, locals, after, foreign, all);
                lemma_finished(g1, *t, locals, after, foreign, h);
            },
            ItemKind::Module(m) => match m.kind {
                ModuleKind::Inline { items, .. } => {
                    lemma_expanded_finished(h, items, foreign);
                    lemma_finished(g, *t, locals, after, foreign, expanded(h, items, foreign).0);
                },
                ModuleKind::File => lemma_finished(g, *t, locals, after, foreign, h),
            },
            _ => lemma_finished(g, *t, locals, after, foreign, h),
        }
    }
}

proof fn lemma_expanded_finished(g: SpanGen, l: List<Item>, foreign: List<ForeignEntry>)
    ensures
        finished(expanded(g, l, foreign).1, expanded(g, l, foreign).1, foreign),
    decreases l, 1int,
{
    let h = with_defaults(g, l, l, foreign).0;
    let after = expanded(g, l, foreign).1;
    assert(after == result(g, l, l, foreign, h));
    assert forall|n: Symbol| #[trigger] local_iface(l, n) == local_iface(after, n) by {
        lemma_result_ifaces(g, l, l, foreign, h, n);
    }
    lemma_finished(g, l, l, after, foreign, h);
}

proof fn lemma_defaults_still(g: SpanGen, l: List<Item>, locals: List<Item>, foreign: List<ForeignEntry>)
    requires
        finished(l, locals, foreign),
    ensures
        with_defaults(g, l, locals, foreign).1 == l,
    decreases l,
{
    if let List::Cons(it, t) = l {
        match it.kind {
            ItemKind::Extend(e) => {
                lemma_nothing_added(g, e.interfaces, locals, foreign, member_names(e.members));
                lemma_append_nil(e.members);
            },
            _ => {},
        }
        lemma_defaults_still(g, *t, locals, foreign);
    }
}

proof fn lemma_submodules_still(g: SpanGen, l: List<Item>, locals: List<Item>, foreign: List<ForeignEntry>)
    requires
        finished(l, locals, foreign),
    ensures
        with_submodules(l, expanded_submodules(g, l, foreign).1) == l,
    decreases l, 0int,
{
    if let List::Cons(it, t) = l {
        match it.kind {
            ItemKind::Module(m) => match m.kind {
                ModuleKind::Inline { items, .. } => {
                    lemma_expanded_still(g, items, foreign);
                    lemma_submodules_still(expanded(g, items, foreign).0, *t, locals, foreign);
                },
                ModuleKind::File => lemma_submodules_still(g, *t, locals, foreign),
            },
            _ => lemma_submodules_still(g, *t, locals, foreign),
        }
    }
}

proof fn lemma_expanded_still(g: SpanGen, l: List<Item>, foreign: List<ForeignEntry>)
    requires
        finished(l, l, foreign),
    ensures
        expanded(g, l, foreign).1 == l,
    decreases l, 1int,
{
    lemma_defaults_still(g, l, l, foreign);
    lemma_submodules_still(with_defaults(g, l, l, foreign).0, l, l, foreign);
}

/// Expanding a second time with the same interfaces changes nothing.
pub proof fn law_expand_twice(g: SpanGen, again: SpanGen, l: List<Item>, foreign: List<ForeignEntry>)
    ensures
        expanded(again, expanded(g, l, foreign).1, foreign).1 == expanded(g, l, foreign).1,
{
    lemma_expanded_finished(g, l, foreign);
    lemma_expanded_still(again, expanded(g, l, foreign).1, foreign);
}

} // verus!
