//! What the passes over one compilation share: the interned names and the
//! counters that keep synthesised nodes apart.
use vstd::prelude::*;
use crate::names::{Interner, Symbol};
use crate::span::{FileId, Span, SpanGen};
use crate::text::decimal_text;

verus! {

/// The virtual file of derived `extend` blocks.
pub const DERIVE_FILE: u32 = 4294967294;

/// The virtual file of `await` temporaries.
pub const HOIST_FILE: u32 = 4294967293;

/// The virtual file of copied default methods.
pub const DEFAULTS_FILE: u32 = 4294967292;

/// The names and counters of one compilation.
#[derive(Debug)]
pub struct Session {
    pub names: Interner,
    pub derive_spans: SpanGen,
    pub hoist_spans: SpanGen,
    pub default_spans: SpanGen,
    pub next_temp: u32,
}

/// The mathematical value of a [`Session`].
#[verifier::ext_equal]
pub struct Sess {
    pub texts: Seq<Seq<char>>,
    pub derive_spans: SpanGen,
    pub hoist_spans: SpanGen,
    pub default_spans: SpanGen,
    pub next_temp: u32,
}

impl Sess {
    /// The session after `n` spans of the `await` file were handed out.
    pub open spec fn hoist_span_used(self) -> Sess {
        Sess { hoist_spans: self.hoist_spans.after(), ..self }
    }

    pub open spec fn derive_span_used(self) -> Sess {
        Sess { derive_spans: self.derive_spans.after(), ..self }
    }

    pub open spec fn interned(self, text: Seq<char>) -> (Sess, Symbol) {
        let (texts, sym) = crate::names::intern(self.texts, text);
        (Sess { texts, ..self }, sym)
    }

    pub open spec fn text(self, s: Symbol) -> Seq<char> {
        crate::names::text_of(self.texts, s)
    }

    /// The session after a temporary was named, and the name: `__await_n`.
    pub open spec fn temp_named(self) -> (Sess, Symbol) {
        let (s, sym) = self.interned("__await_"@ + crate::text::decimal(self.next_temp as nat));
        (Sess { next_temp: self.next_temp.wrapping_add(1), ..s }, sym)
    }
}

impl Session {
    pub open spec fn view(&self) -> Sess {
        Sess {
            texts: self.names.view(),
            derive_spans: self.derive_spans,
            hoist_spans: self.hoist_spans,
            default_spans: self.default_spans,
            next_temp: self.next_temp,
        }
    }

    pub fn new() -> (r: Session)
        ensures
            r.view() == (Sess {
                texts: Seq::empty(),
                derive_spans: SpanGen { file: FileId(DERIVE_FILE), next: 0 },
                hoist_spans: SpanGen { file: FileId(HOIST_FILE), next: 0 },
                default_spans: SpanGen { file: FileId(DEFAULTS_FILE), next: 0 },
                next_temp: 0,
            }),
    {
        Session {
            names: Interner::new(),
            derive_spans: SpanGen::new(FileId(DERIVE_FILE)),
            hoist_spans: SpanGen::new(FileId(HOIST_FILE)),
            default_spans: SpanGen::new(FileId(DEFAULTS_FILE)),
            next_temp: 0,
        }
    }

    /// A fresh span in the virtual file of `await` temporaries.
    pub fn hoist_span(&mut self) -> (r: Span)
        ensures
            r == old(self).view().hoist_spans.span(),
            final(self).view() == old(self).view().hoist_span_used(),
    {
        self.hoist_spans.fresh()
    }

    /// A fresh span in the virtual file of derived code.
    pub fn derive_span(&mut self) -> (r: Span)
        ensures
            r == old(self).view().derive_spans.span(),
            final(self).view() == old(self).view().derive_span_used(),
    {
        self.derive_spans.fresh()
    }

    pub fn intern(&mut self, text: &str) -> (r: Symbol)
        ensures
            (final(self).view(), r) == old(self).view().interned(text@),
    {
        self.names.intern(text)
    }

    /// A fresh, program-unique name for an `await` temporary.
    pub fn fresh_name(&mut self) -> (r: Symbol)
        ensures
            (final(self).view(), r) == old(self).view().temp_named(),
    {
        let n: u32 = self.next_temp;
        self.next_temp = n.wrapping_add(1);
        let text = "__await_".to_owned().concat(decimal_text(n as u64).as_str());
        self.names.intern(text.as_str())
    }
}

/// Temporaries that are made at different counts have different names.
pub proof fn law_temps_differ(s: Sess, t: Sess)
    requires
        s.next_temp != t.next_temp,
        s.texts.len() + crate::words::WORD_COUNT < u32::MAX,
        t.texts.len() + crate::words::WORD_COUNT < u32::MAX,
    ensures
        s.temp_named().0.text(s.temp_named().1) != t.temp_named().0.text(t.temp_named().1),
{
    let a = crate::text::decimal(s.next_temp as nat);
    let b = crate::text::decimal(t.next_temp as nat);
    crate::names::law_intern_then_text(s.texts, "__await_"@ + a);
    crate::names::law_intern_then_text(t.texts, "__await_"@ + b);
    if "__await_"@ + a == "__await_"@ + b {
        let n = "__await_"@.len() as int;
        assert(("__await_"@ + a).skip(n) =~= a);
        assert(("__await_"@ + b).skip(n) =~= b);
        crate::text::law_decimal_injective(s.next_temp as nat, t.next_temp as nat);
    }
}

} // verus!
