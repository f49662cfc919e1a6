//! What import resolution needs to know about the run mode and the project.
//!
//! Which import schemes are available depends on the run mode: `pkg:` and `self:`
//! need project context, and a `file:` path that leaves the package needs an
//! allowlist. The driver describes these facts in a [`ResolveContext`].
use vstd::prelude::*;
use crate::list::{dup, List};
use crate::names::Symbol;

verus! {

/// One component of a path.
#[derive(Clone, Copy, PartialEq, Eq, Structural, Debug)]
pub enum Component {
    /// A drive or share prefix.
    Prefix(Symbol),
    /// The leading separator of an absolute path.
    RootDir,
    /// `.`
    CurDir,
    /// `..`
    ParentDir,
    Normal(Symbol),
}

/// A path, as its components in order.
pub type FilePath = List<Component>;

/// A module path from the root.
pub type ModulePath = List<Symbol>;

/// A module and the file it is in.
#[derive(Debug)]
pub struct FileOf {
    pub module: ModulePath,
    pub file: FilePath,
}

/// A package and the module-tree key its entry was loaded under.
#[derive(Debug)]
pub struct PackageKey {
    pub name: Symbol,
    pub key: ModulePath,
}

/// Everything import resolution needs to know about the run mode and project.
#[derive(Debug)]
pub struct ResolveContext {
    /// Whether there is a manifest and a module tree. Without it, `pkg:` and
    /// `self:` imports are errors.
    pub project: bool,
    /// The package name, for diagnostics.
    pub package_name: Option<Symbol>,
    /// Any `std:` import is an error.
    pub no_std: bool,
    /// The absolute source root, which `self:` may not leave.
    pub source_root: Option<FilePath>,
    /// The directory that holds the manifest.
    pub package_root: Option<FilePath>,
    /// The source file of each module.
    pub file_of: List<FileOf>,
    /// The files and directories that `file:` imports may reach.
    pub file_import_allow: List<Symbol>,
    /// The declared dependencies.
    pub dependencies: List<Symbol>,
    /// The loaded dependency packages.
    pub packages: List<PackageKey>,
    /// The targets of `file:` imports, normalized, and the keys they were loaded
    /// under.
    pub file_targets: List<FileOf>,
    /// How deep macros may expand; `None` for the default.
    pub macro_recursion_limit: Option<usize>,
}

impl ResolveContext {
    /// A context without a project: only `core:`, `std:` and `file:` work.
    pub fn direct() -> (r: ResolveContext)
        ensures
            r == (ResolveContext {
                project: false,
                package_name: None,
                no_std: false,
                source_root: None,
                package_root: None,
                file_of: List::Nil,
                file_import_allow: List::Nil,
                dependencies: List::Nil,
                packages: List::Nil,
                file_targets: List::Nil,
                macro_recursion_limit: None,
            }),
    {
        ResolveContext {
            project: false,
            package_name: None,
            no_std: false,
            source_root: None,
            package_root: None,
            file_of: List::Nil,
            file_import_allow: List::Nil,
            dependencies: List::Nil,
            packages: List::Nil,
            file_targets: List::Nil,
            macro_recursion_limit: None,
        }
    }

    /// The modules by normalized file, the inverse of `file_of`. Where two
    /// modules share a file, the one listed later comes first.
    pub fn file_to_module(&self) -> (r: List<FileOf>)
        ensures
            r == inverse(self.file_of, List::Nil),
    {
        invert(&self.file_of, List::Nil)
    }
}

/// `l` with normalized files, in front of `acc` in reverse order.
pub open spec fn inverse(l: List<FileOf>, acc: List<FileOf>) -> List<FileOf>
    decreases l,
{
    match l {
        List::Nil => acc,
        List::Cons(h, t) => inverse(
            *t,
            List::Cons(Box::new(FileOf { module: h.module, file: normalized(h.file, List::Nil) }), Box::new(acc)),
        ),
    }
}

fn invert(l: &List<FileOf>, acc: List<FileOf>) -> (r: List<FileOf>)
    ensures
        r == inverse(*l, acc),
    decreases l,
{
    match l {
        List::Nil => acc,
        List::Cons(h, t) => {
            let e = FileOf { module: dup(&h.module), file: normalize(&h.file) };
            invert(t, List::Cons(Box::new(e), Box::new(acc)))
        },
    }
}

/// The module in `file` according to `l`.
pub open spec fn module_of(l: List<FileOf>, file: FilePath) -> Option<ModulePath>
    decreases l,
{
    match l {
        List::Nil => None,
        List::Cons(h, t) => if h.file == file {
            Some(h.module)
        } else {
            module_of(*t, file)
        },
    }
}

fn same_path(a: &FilePath, b: &FilePath) -> (r: bool)
    ensures
        r == (*a == *b),
    decreases a,
{
    match (a, b) {
        (List::Nil, List::Nil) => true,
        (List::Cons(x, s), List::Cons(y, t)) => **x == **y && same_path(s, t),
        _ => false,
    }
}

/// The module in `file`, a normalized path, according to an index made by
/// [`ResolveContext::file_to_module`].
pub fn find_module<'a>(l: &'a List<FileOf>, file: &FilePath) -> (r: Option<&'a ModulePath>)
    ensures
        match r {
            Some(m) => module_of(*l, *file) == Some(*m),
            None => module_of(*l, *file) is None,
        },
    decreases l,
{
    match l {
        List::Nil => None,
        List::Cons(h, t) => if same_path(&h.file, file) {
            Some(&h.module)
        } else {
            find_module(t, file)
        },
    }
}

/// `out` (a path in reverse) after it was asked to go to its parent: a directory
/// goes, the root is its own parent, and where there is nothing to go up from the
/// `..` stays.
pub open spec fn parent_of(out: FilePath) -> FilePath {
    match out {
        List::Cons(h, t) => match *h {
            Component::RootDir => out,
            Component::Prefix(_) | Component::ParentDir => List::Cons(
                Box::new(Component::ParentDir),
                Box::new(out),
            ),
            _ => *t,
        },
        List::Nil => List::one(Component::ParentDir),
    }
}

/// `out`, a path in reverse, extended by component `c`.
pub open spec fn stepped(out: FilePath, c: Component) -> FilePath {
    match c {
        Component::ParentDir => parent_of(out),
        Component::CurDir => out,
        Component::RootDir => rooted(out),
        Component::Prefix(_) => List::one(c),
        _ => List::Cons(Box::new(c), Box::new(out)),
    }
}

/// The path that a root directory makes of `out`: an absolute one, in which only
/// a prefix is kept.
pub open spec fn rooted(out: FilePath) -> FilePath {
    match out {
        List::Cons(h, t) => if *h is Prefix && *t is Nil {
            List::Cons(Box::new(Component::RootDir), Box::new(out))
        } else {
            List::one(Component::RootDir)
        },
        List::Nil => List::one(Component::RootDir),
    }
}

/// `out` in reverse, after the components `path`.
pub open spec fn walked(path: FilePath, out: FilePath) -> FilePath
    decreases path,
{
    match path {
        List::Nil => out,
        List::Cons(h, t) => walked(*t, stepped(out, *h)),
    }
}

pub open spec fn reversed(l: FilePath, acc: FilePath) -> FilePath
    decreases l,
{
    match l {
        List::Nil => acc,
        List::Cons(h, t) => reversed(*t, List::Cons(h, Box::new(acc))),
    }
}

/// `path` with `.` and `..` resolved by looking at its text alone.
pub open spec fn normalized(path: FilePath, out: FilePath) -> FilePath {
    reversed(walked(path, out), List::Nil)
}

fn walk(path: &FilePath, out: FilePath) -> (r: FilePath)
    ensures
        r == walked(*path, out),
    decreases path,
{
    match path {
        List::Nil => out,
        List::Cons(h, t) => {
            let out = match **h {
                Component::ParentDir => match out {
                    List::Cons(x, rest) => match *x {
                        Component::RootDir => List::Cons(x, rest),
                        Component::Prefix(_) | Component::ParentDir => List::Cons(
                            Box::new(Component::ParentDir),
                            Box::new(List::Cons(x, rest)),
                        ),
                        _ => *rest,
                    },
                    List::Nil => List::single(Component::ParentDir),
                },
                Component::CurDir => out,
                Component::RootDir => {
                    let keep = match &out {
                        List::Cons(x, rest) => match **x {
                            Component::Prefix(_) => rest.is_empty(),
                            _ => false,
                        },
                        List::Nil => false,
                    };
                    if keep {
                        List::Cons(Box::new(Component::RootDir), Box::new(out))
                    } else {
                        List::single(Component::RootDir)
                    }
                },
                Component::Prefix(n) => List::single(Component::Prefix(n)),
                c => List::Cons(Box::new(c), Box::new(out)),
            };
            walk(t, out)
        },
    }
}

fn reverse(l: FilePath, acc: FilePath) -> (r: FilePath)
    ensures
        r == reversed(l, acc),
    decreases l,
{
    match l {
        List::Nil => acc,
        List::Cons(h, t) => reverse(*t, List::Cons(h, Box::new(acc))),
    }
}

/// Normalizes a path lexically, without touching the file system, so that two
/// spellings of one file compare equal whether or not the file exists.
pub fn normalize(path: &FilePath) -> (r: FilePath)
    ensures
        r == normalized(*path, List::Nil),
{
    reverse(walk(path, List::Nil), List::Nil)
}

// -- laws -------------------------------------------------------------------------------------

/// A path in reverse on which walking it again changes nothing: no `.`, and `..`
/// only where there is nothing to go up from.
pub open spec fn settled(out: FilePath) -> bool
    decreases out,
{
    match out {
        List::Nil => true,
        List::Cons(h, t) => settled(*t) && match *h {
            Component::CurDir => false,
            Component::ParentDir => match *t {
                List::Nil => true,
                List::Cons(g, _) => *g is ParentDir || *g is Prefix,
            },
            Component::RootDir => match *t {
                List::Nil => true,
                List::Cons(g, u) => *g is Prefix && *u is Nil,
            },
            Component::Prefix(_) => *t is Nil,
            _ => true,
        },
    }
}

proof fn lemma_step_settled(out: FilePath, c: Component)
    requires
        settled(out),
    ensures
        settled(stepped(out, c)),
{
    reveal_with_fuel(settled, 3);
}

proof fn lemma_walk_settled(path: FilePath, out: FilePath)
    requires
        settled(out),
    ensures
        settled(walked(path, out)),
    decreases path,
{
    if let List::Cons(h, t) = path {
        lemma_step_settled(out, *h);
        lemma_walk_settled(*t, stepped(out, *h));
    }
}

/// Walking the reverse of a settled `l`, then `rest`, is walking `rest` after `l`.
proof fn lemma_walk_reversed(l: FilePath, rest: FilePath)
    requires
        settled(l),
    ensures
        walked(reversed(l, rest), List::Nil) == walked(rest, l),
    decreases l,
{
    if let List::Cons(h, t) = l {
        lemma_walk_reversed(*t, List::Cons(h, Box::new(rest)));
        reveal_with_fuel(settled, 2);
        assert(stepped(*t, *h) == l);
    }
}

/// Normalizing a second time changes nothing.
pub proof fn law_normalize_idempotent(path: FilePath)
    ensures
        normalized(normalized(path, List::Nil), List::Nil) == normalized(path, List::Nil),
{
    lemma_walk_settled(path, List::Nil);
    let out = walked(path, List::Nil);
    lemma_walk_reversed(out, List::Nil);
}

pub open spec fn has_cur_dir(l: FilePath) -> bool
    decreases l,
{
    match l {
        List::Nil => false,
        List::Cons(h, t) => *h is CurDir || has_cur_dir(*t),
    }
}

proof fn lemma_settled_no_cur_dir(l: FilePath)
    requires
        settled(l),
    ensures
        !has_cur_dir(l),
    decreases l,
{
    if let List::Cons(_, t) = l {
        lemma_settled_no_cur_dir(*t);
    }
}

proof fn lemma_reversed_no_cur_dir(l: FilePath, acc: FilePath)
    ensures
        has_cur_dir(reversed(l, acc)) == (has_cur_dir(l) || has_cur_dir(acc)),
    decreases l,
{
    if let List::Cons(h, t) = l {
        lemma_reversed_no_cur_dir(*t, List::Cons(h, Box::new(acc)));
    }
}

/// A normalized path has no `.` in it.
pub proof fn law_normalize_drops_dots(path: FilePath)
    ensures
        !has_cur_dir(normalized(path, List::Nil)),
{
    lemma_walk_settled(path, List::Nil);
    lemma_settled_no_cur_dir(walked(path, List::Nil));
    lemma_reversed_no_cur_dir(walked(path, List::Nil), List::Nil);
}

pub open spec fn has_parent_dir(l: FilePath) -> bool
    decreases l,
{
    match l {
        List::Nil => false,
        List::Cons(h, t) => *h is ParentDir || has_parent_dir(*t),
    }
}

pub open spec fn has_normal(l: FilePath) -> bool
    decreases l,
{
    match l {
        List::Nil => false,
        List::Cons(h, t) => *h is Normal || has_normal(*t),
    }
}

/// No `..` stands behind a directory or file name.
pub open spec fn goes_up_first(l: FilePath) -> bool
    decreases l,
{
    match l {
        List::Nil => true,
        List::Cons(h, t) => (*h is Normal ==> !has_parent_dir(*t)) && goes_up_first(*t),
    }
}

proof fn lemma_settled_up(l: FilePath)
    requires
        settled(l),
        l matches List::Cons(h, _) && *h is ParentDir,
    ensures
        !has_normal(l),
    decreases l,
{
    reveal_with_fuel(settled, 2);
    reveal_with_fuel(has_normal, 3);
    if let List::Cons(_, t) = l {
        if let List::Cons(g, _) = *t {
            if *g is ParentDir {
                lemma_settled_up(*t);
            }
        }
    }
}

proof fn lemma_reversed_up(l: FilePath, acc: FilePath)
    requires
        settled(l),
        goes_up_first(acc),
        has_parent_dir(acc) ==> !has_normal(l),
    ensures
        goes_up_first(reversed(l, acc)),
    decreases l,
{
    if let List::Cons(h, t) = l {
        if *h is ParentDir {
            lemma_settled_up(l);
        }
        lemma_reversed_up(*t, List::Cons(h, Box::new(acc)));
    }
}

/// In a normalized path `..` stands only where no directory or file name precedes
/// it.
pub proof fn law_normalize_goes_up_first(path: FilePath)
    ensures
        goes_up_first(normalized(path, List::Nil)),
{
    lemma_walk_settled(path, List::Nil);
    lemma_reversed_up(walked(path, List::Nil), List::Nil);
}

} // verus!
