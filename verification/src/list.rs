//! Singly linked lists: the sequence type of syntax trees and types.
use vstd::prelude::*;

verus! {

/// A singly linked list.
#[derive(Debug)]
pub enum List<T> {
    Nil,
    Cons(Box<T>, Box<List<T>>),
}

impl<T> List<T> {
    /// The elements in order.
    pub open spec fn view(self) -> Seq<T>
        decreases self,
    {
        match self {
            List::Nil => Seq::empty(),
            List::Cons(h, t) => seq![*h] + t.view(),
        }
    }

    /// The number of elements, saturating at `usize::MAX`.
    pub open spec fn count(self) -> usize
        decreases self,
    {
        match self {
            List::Nil => 0,
            List::Cons(_, t) => {
                if t.count() < usize::MAX {
                    (t.count() + 1) as usize
                } else {
                    usize::MAX
                }
            },
        }
    }

    pub fn len(&self) -> (n: usize)
        ensures
            n == self.count(),
        decreases self,
    {
        match self {
            List::Nil => 0,
            List::Cons(_, t) => {
                let n: usize = t.len();
                if n < usize::MAX {
                    n + 1
                } else {
                    n
                }
            },
        }
    }

    pub fn is_empty(&self) -> (r: bool)
        ensures
            r == (*self is Nil),
    {
        match self {
            List::Nil => true,
            List::Cons(_, _) => false,
        }
    }

    /// The list followed by one more element.
    pub open spec fn snoc(self, x: T) -> List<T>
        decreases self,
    {
        match self {
            List::Nil => List::Cons(Box::new(x), Box::new(List::Nil)),
            List::Cons(h, t) => List::Cons(h, Box::new(t.snoc(x))),
        }
    }

    pub fn push_back(self, x: T) -> (r: List<T>)
        ensures
            r == self.snoc(x),
        decreases self,
    {
        match self {
            List::Nil => List::Cons(Box::new(x), Box::new(List::Nil)),
            List::Cons(h, t) => List::Cons(h, Box::new((*t).push_back(x))),
        }
    }

    /// The elements of `self`, then those of `other`.
    pub open spec fn then_list(self, other: List<T>) -> List<T>
        decreases self,
    {
        match self {
            List::Nil => other,
            List::Cons(h, t) => List::Cons(h, Box::new(t.then_list(other))),
        }
    }

    pub fn append(self, other: List<T>) -> (r: List<T>)
        ensures
            r == self.then_list(other),
        decreases self,
    {
        match self {
            List::Nil => other,
            List::Cons(h, t) => List::Cons(h, Box::new((*t).append(other))),
        }
    }

    pub open spec fn one(x: T) -> List<T> {
        List::Cons(Box::new(x), Box::new(List::Nil))
    }

    pub fn single(x: T) -> (r: List<T>)
        ensures
            r == List::one(x),
    {
        List::Cons(Box::new(x), Box::new(List::Nil))
    }

    pub open spec fn two(x: T, y: T) -> List<T> {
        List::Cons(Box::new(x), Box::new(List::one(y)))
    }

    pub fn pair(x: T, y: T) -> (r: List<T>)
        ensures
            r == List::two(x, y),
    {
        List::Cons(Box::new(x), Box::new(List::single(y)))
    }

    /// The list of the elements of a vector.
    pub fn from_vec(v: Vec<T>) -> (r: List<T>)
        ensures
            r.view() == v@,
    {
        let mut v = v;
        let ghost orig = v@;
        let mut r: List<T> = List::Nil;
        while v.len() > 0
            invariant
                v@ + r.view() == orig,
            decreases v.len(),
        {
            let ghost before = v@;
            match v.pop() {
                Some(x) => {
                    let ghost rest = r.view();
                    r = List::Cons(Box::new(x), Box::new(r));
                    assert(before =~= v@ + seq![x]);
                    assert(v@ + (seq![x] + rest) =~= before + rest);
                },
                None => {},
            }
        }
        assert(v@ + r.view() =~= r.view());
        r
    }
}

/// A copy of a list of plain values.
pub fn dup<T: Copy>(l: &List<T>) -> (r: List<T>)
    ensures
        r == *l,
    decreases l,
{
    match l {
        List::Nil => List::Nil,
        List::Cons(h, t) => List::Cons(Box::new(**h), Box::new(dup(t))),
    }
}

/// Element `i` of a list, if there is one.
pub open spec fn nth<T>(l: List<T>, i: usize) -> Option<T>
    decreases l,
{
    match l {
        List::Nil => None,
        List::Cons(h, t) => if i == 0 {
            Some(*h)
        } else {
            nth(*t, (i - 1) as usize)
        },
    }
}

pub fn get<T: Copy>(l: &List<T>, i: usize) -> (r: Option<T>)
    ensures
        r == nth(*l, i),
    decreases l,
{
    match l {
        List::Nil => None,
        List::Cons(h, t) => if i == 0 {
            Some(**h)
        } else {
            get(t, i - 1)
        },
    }
}

/// `b` is `a` with more behind it.
pub open spec fn extends<T>(a: Seq<T>, b: Seq<T>) -> bool {
    a.len() <= b.len() && forall|i: int| 0 <= i < a.len() ==> a[i] == #[trigger] b[i]
}

/// A sequence that grows twice has grown.
pub proof fn law_extends_transitive<T>(a: Seq<T>, b: Seq<T>, c: Seq<T>)
    requires
        extends(a, b),
        extends(b, c),
    ensures
        extends(a, c),
{
    assert forall|i: int| 0 <= i < a.len() implies a[i] == #[trigger] c[i] by {
        assert(a[i] == b[i]);
    }
}

/// Lists of the same length end together.
pub proof fn lemma_count_tails<T>(a: List<T>, b: List<T>)
    requires
        a.count() == b.count(),
        a.count() < usize::MAX,
    ensures
        a is Nil == b is Nil,
        match (a, b) {
            (List::Cons(_, s), List::Cons(_, t)) => s.count() == t.count() && s.count() < usize::MAX,
            _ => true,
        },
{
}

} // verus!
