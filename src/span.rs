use vstd::prelude::*;

verus! {

/// A half-open range `[start, end)` of character offsets into a source buffer.
#[derive(Clone, Copy, Debug, PartialEq, Eq, Structural)]
pub struct Span {
    pub start: usize,
    pub end: usize,
}

impl Span {
    /// A span is well formed when it does not run backwards.
    pub open spec fn wf(self) -> bool {
        self.start <= self.end
    }

    /// The smallest span covering both arguments.
    pub open spec fn spec_join(a: Span, b: Span) -> Span {
        Span {
            start: if a.start <= b.start { a.start } else { b.start },
            end: if a.end >= b.end { a.end } else { b.end },
        }
    }

    pub fn new(start: usize, end: usize) -> (r: Span)
        requires
            start <= end,
        ensures
            r.start == start,
            r.end == end,
            r.wf(),
    {
        Span { start, end }
    }

    pub fn start(&self) -> (r: usize)
        ensures
            r == self.start,
    {
        self.start
    }

    pub fn end(&self) -> (r: usize)
        ensures
            r == self.end,
    {
        self.end
    }

    /// The text of `src` under this span.
    pub fn slice(&self, src: &[char]) -> (r: Vec<char>)
        requires
            self.start <= self.end <= src@.len(),
        ensures
            r@ == src@.subrange(self.start as int, self.end as int),
    {
        let mut r: Vec<char> = Vec::new();
        let mut i = self.start;
        while i < self.end
            invariant
                self.start <= i <= self.end <= src@.len(),
                r@ == src@.subrange(self.start as int, i as int),
            decreases self.end - i,
        {
            r.push(src[i]);
            i = i + 1;
        }
        r
    }

    /// Joins two spans into the minimal span that covers both.
    pub fn join(a: Span, b: Span) -> (r: Span)
        ensures
            r == Span::spec_join(a, b),
            a.wf() && b.wf() ==> r.wf(),
    {
        let start = if a.start <= b.start { a.start } else { b.start };
        let end = if a.end >= b.end { a.end } else { b.end };
        Span { start, end }
    }
}

/// Joining is commutative.
pub proof fn lemma_join_commutative(a: Span, b: Span)
    ensures
        Span::spec_join(a, b) == Span::spec_join(b, a),
{
}

/// Joining is associative.
pub proof fn lemma_join_associative(a: Span, b: Span, c: Span)
    ensures
        Span::spec_join(Span::spec_join(a, b), c) == Span::spec_join(a, Span::spec_join(b, c)),
{
}

/// A syntax node that knows the source range it was parsed from.
pub trait Spanned {
    spec fn spec_span(&self) -> Span;

    fn span(&self) -> (r: Span)
        ensures
            r == self.spec_span(),
    ;
}

} // verus!
