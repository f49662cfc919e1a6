//! Interned names. A [`Symbol`] stands for a text; the first symbols are the
//! known words of [`crate::words`], the rest are numbered as they are met.
use vstd::prelude::*;
use crate::text::same_text;
use crate::words::{word_text, WORD_COUNT};

verus! {

/// The number of an interned text.
pub type Symbol = u32;

/// The texts met so far, after the known words.
#[derive(Debug)]
pub struct Interner {
    pub texts: Vec<String>,
}

/// The views of a sequence of strings.
pub open spec fn text_views(texts: Seq<String>) -> Seq<Seq<char>> {
    texts.map_values(|t: String| t@)
}

/// The text that symbol `s` stands for among the interned texts `t`; a number
/// never handed out stands for the empty text.
pub open spec fn text_of(t: Seq<Seq<char>>, s: Symbol) -> Seq<char> {
    if s < WORD_COUNT {
        crate::words::word(s)
    } else if s - WORD_COUNT < t.len() {
        t[s - WORD_COUNT]
    } else {
        ""@
    }
}

/// The least known word, numbered `i` or more, whose text is `s`.
pub open spec fn find_word(s: Seq<char>, i: u32) -> Option<Symbol>
    decreases WORD_COUNT - i,
{
    if i >= WORD_COUNT {
        None
    } else if crate::words::word(i) == s {
        Some(i)
    } else {
        find_word(s, (i + 1) as u32)
    }
}

/// The position of the first text equal to `s` at or after `i`.
pub open spec fn find_text(t: Seq<Seq<char>>, s: Seq<char>, i: int) -> Option<int>
    decreases t.len() - i,
{
    if i < 0 || i >= t.len() {
        None
    } else if t[i] == s {
        Some(i)
    } else {
        find_text(t, s, i + 1)
    }
}

/// The interner after `s` was interned, and the symbol of `s`.
pub open spec fn intern(t: Seq<Seq<char>>, s: Seq<char>) -> (Seq<Seq<char>>, Symbol) {
    match find_word(s, 0) {
        Some(w) => (t, w),
        None => match find_text(t, s, 0) {
            Some(i) => (t, ((i as usize) as u32).wrapping_add(WORD_COUNT)),
            None => (t.push(s), ((t.len() as usize) as u32).wrapping_add(WORD_COUNT)),
        },
    }
}

impl Interner {
    pub open spec fn view(&self) -> Seq<Seq<char>> {
        text_views(self.texts@)
    }

    pub fn new() -> (r: Interner)
        ensures
            r.view() == Seq::<Seq<char>>::empty(),
    {
        Interner { texts: Vec::new() }
    }

    /// The text of a symbol.
    pub fn text(&self, s: Symbol) -> (r: &str)
        ensures
            r@ == text_of(self.view(), s),
    {
        if s < WORD_COUNT {
            word_text(s)
        } else {
            let i: usize = (s - WORD_COUNT) as usize;
            if i < self.texts.len() {
                self.texts[i].as_str()
            } else {
                ""
            }
        }
    }

    /// The symbol of a text, which is remembered if it is new.
    pub fn intern(&mut self, s: &str) -> (r: Symbol)
        ensures
            (final(self).view(), r) == intern(old(self).view(), s@),
    {
        let mut w: u32 = 0;
        while w < WORD_COUNT
            invariant
                w <= WORD_COUNT,
                find_word(s@, 0) == find_word(s@, w),
                self.view() == old(self).view(),
            decreases WORD_COUNT - w,
        {
            if same_text(word_text(w), s) {
                return w;
            }
            w = w + 1;
        }
        let mut i: usize = 0;
        while i < self.texts.len()
            invariant
                i <= self.texts.len(),
                find_word(s@, 0) is None,
                find_text(self.view(), s@, 0) == find_text(self.view(), s@, i as int),
                self.view() == old(self).view(),
            decreases self.texts.len() - i,
        {
            if same_text(self.texts[i].as_str(), s) {
                return (i as u32).wrapping_add(WORD_COUNT);
            }
            i = i + 1;
        }
        let n: u32 = self.texts.len() as u32;
        self.texts.push(s.to_owned());
        assert(self.view() =~= old(self).view().push(s@));
        n.wrapping_add(WORD_COUNT)
    }
}

/// Interning never changes what an earlier symbol stands for.
pub proof fn law_intern_keeps_texts(t: Seq<Seq<char>>, s: Seq<char>, old_symbol: Symbol)
    requires
        old_symbol - WORD_COUNT < t.len(),
    ensures
        text_of(intern(t, s).0, old_symbol) == text_of(t, old_symbol),
{
}

proof fn lemma_find_word(s: Seq<char>, i: u32)
    ensures
        find_word(s, i) matches Some(w) ==> w < WORD_COUNT && crate::words::word(w) == s,
    decreases WORD_COUNT - i,
{
    if i < WORD_COUNT && crate::words::word(i) != s {
        lemma_find_word(s, (i + 1) as u32);
    }
}

proof fn lemma_find_text(t: Seq<Seq<char>>, s: Seq<char>, i: int)
    requires
        0 <= i,
    ensures
        find_text(t, s, i) matches Some(j) ==> i <= j < t.len() && t[j] == s,
    decreases t.len() - i,
{
    if i < t.len() && t[i] != s {
        lemma_find_text(t, s, i + 1);
    }
}

/// The symbol of a text stands for that text, as long as the symbols have not
/// run out.
pub proof fn law_intern_then_text(t: Seq<Seq<char>>, s: Seq<char>)
    requires
        t.len() + WORD_COUNT < u32::MAX,
    ensures
        text_of(intern(t, s).0, intern(t, s).1) == s,
{
    lemma_find_word(s, 0);
    lemma_find_text(t, s, 0);
}

proof fn lemma_find_text_push(t: Seq<Seq<char>>, s: Seq<char>, i: int)
    requires
        0 <= i <= t.len(),
        find_text(t, s, i) is None,
    ensures
        find_text(t.push(s), s, i) == Some(t.len() as int),
    decreases t.len() - i,
{
    reveal_with_fuel(find_text, 2);
    if i < t.len() {
        lemma_find_text_push(t, s, i + 1);
    }
}

/// Interning a text a second time gives the same symbol and adds nothing.
pub proof fn law_intern_twice(t: Seq<Seq<char>>, s: Seq<char>)
    ensures
        intern(intern(t, s).0, s) == (intern(t, s).0, intern(t, s).1),
{
    if find_word(s, 0) is None && find_text(t, s, 0) is None {
        lemma_find_text_push(t, s, 0);
    }
}

} // verus!
