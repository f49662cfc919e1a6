//! Source positions.
use vstd::prelude::*;

verus! {

/// A source file, or one of the virtual files that synthesised nodes live in.
#[derive(Clone, Copy, PartialEq, Eq, Structural, Debug)]
pub struct FileId(pub u32);

/// A byte offset into a file.
#[derive(Clone, Copy, PartialEq, Eq, Structural, Debug)]
pub struct BytePos(pub u32);

/// A half-open range of bytes in one file.
#[derive(Clone, Copy, PartialEq, Eq, Structural, Debug)]
pub struct Span {
    pub file: FileId,
    pub lo: BytePos,
    pub hi: BytePos,
}

impl Span {
    pub fn new(file: FileId, lo: BytePos, hi: BytePos) -> (r: Span)
        ensures
            r == (Span { file, lo, hi }),
    {
        Span { file, lo, hi }
    }
}

/// The span that the `n`-th synthesised node of virtual file `file` gets.
pub open spec fn nth_span(file: FileId, n: u32) -> Span {
    Span { file, lo: BytePos(n), hi: BytePos(n.wrapping_add(1)) }
}

/// Hands out spans of a virtual file, one after the other, so that no two
/// synthesised nodes share one.
#[derive(Clone, Copy, PartialEq, Eq, Structural, Debug)]
pub struct SpanGen {
    pub file: FileId,
    pub next: u32,
}

impl SpanGen {
    pub fn new(file: FileId) -> (r: SpanGen)
        ensures
            r == (SpanGen { file, next: 0 }),
    {
        SpanGen { file, next: 0 }
    }

    pub open spec fn after(self) -> SpanGen {
        SpanGen { file: self.file, next: self.next.wrapping_add(1) }
    }

    pub open spec fn span(self) -> Span {
        nth_span(self.file, self.next)
    }

    /// A span not handed out before.
    pub fn fresh(&mut self) -> (r: Span)
        ensures
            r == old(self).span(),
            *final(self) == old(self).after(),
    {
        let n: u32 = self.next;
        self.next = n.wrapping_add(1);
        Span::new(self.file, BytePos(n), BytePos(self.next))
    }
}

} // verus!
