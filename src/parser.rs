use vstd::prelude::*;

verus! {

/// The two ways a parser can fail.
///
/// `Recoverable` means the input does not start with this production and the
/// caller may try another one from the same position. `Fatal` means the input
/// committed to this production and then turned out malformed: the caller must
/// pass it on and try nothing else.
#[derive(Debug, PartialEq, Eq)]
pub enum ParseError<E, F> {
    Recoverable(E),
    Fatal(F),
}

/// What a parser produces from a starting position: the value and the position
/// just past what it consumed, or an error.
pub type ParseResult<O, E, F> = Result<(O, usize), ParseError<E, F>>;

/// Whether `r` is a recoverable failure.
pub open spec fn is_recoverable<O, E, F>(r: ParseResult<O, E, F>) -> bool {
    r matches Err(ParseError::Recoverable(_))
}

/// A parser over a character buffer. The position is passed by value, so
/// backtracking is simply parsing again from the old position.
pub trait Parser {
    type Output;
    type Error;
    type Fatal;

    /// What the parser returns on `src` from `pos`.
    spec fn spec_parse(&self, src: Seq<char>, pos: usize) -> ParseResult<
        Self::Output,
        Self::Error,
        Self::Fatal,
    >;

    fn parse(&self, src: &[char], pos: usize) -> (r: ParseResult<
        Self::Output,
        Self::Error,
        Self::Fatal,
    >)
        requires
            pos <= src@.len(),
        ensures
            r == self.spec_parse(src@, pos),
            r matches Ok((_, end)) ==> pos < end <= src@.len(),
    ;
}

/// Ordered choice: the first alternative that does not fail recoverably
/// decides the outcome; when all fail recoverably, so does the choice.
pub open spec fn spec_first_match<P: Parser>(alts: Seq<P>, src: Seq<char>, pos: usize) -> ParseResult<
    P::Output,
    (),
    P::Fatal,
>
    decreases alts.len(),
{
    if alts.len() == 0 {
        Err(ParseError::Recoverable(()))
    } else {
        match alts[0].spec_parse(src, pos) {
            Ok(x) => Ok(x),
            Err(ParseError::Fatal(f)) => Err(ParseError::Fatal(f)),
            Err(ParseError::Recoverable(_)) => spec_first_match(alts.drop_first(), src, pos),
        }
    }
}

/// The first alternative that does not fail recoverably decides the choice,
/// whatever the alternatives after it would have done.
pub proof fn lemma_first_success_wins<P: Parser>(alts: Seq<P>, i: int, src: Seq<char>, pos: usize)
    requires
        0 <= i < alts.len(),
        forall|j: int| 0 <= j < i ==> is_recoverable(#[trigger] alts[j].spec_parse(src, pos)),
        !is_recoverable(alts[i].spec_parse(src, pos)),
    ensures
        alts[i].spec_parse(src, pos) matches Ok(x) ==> spec_first_match(alts, src, pos) == Ok::<(P::Output, usize), ParseError<(), P::Fatal>>(x),
        alts[i].spec_parse(src, pos) matches Err(ParseError::Fatal(f)) ==> spec_first_match(alts, src, pos) == Err::<(P::Output, usize), ParseError<(), P::Fatal>>(ParseError::Fatal(f)),
    decreases i,
{
    if i > 0 {
        assert(is_recoverable(alts[0].spec_parse(src, pos)));
        let rest = alts.drop_first();
        assert forall|j: int| 0 <= j < i - 1 implies is_recoverable(#[trigger] rest[j].spec_parse(src, pos)) by {
            assert(rest[j] == alts[j + 1]);
        }
        lemma_first_success_wins(rest, i - 1, src, pos);
    }
}

/// A recoverable failure leaves nothing behind: the next alternative is
/// tried on the same input from the same position, as if the first had
/// never been there.
pub proof fn lemma_recoverable_falls_through<P: Parser>(alts: Seq<P>, src: Seq<char>, pos: usize)
    requires
        alts.len() > 0,
        is_recoverable(alts[0].spec_parse(src, pos)),
    ensures
        spec_first_match(alts, src, pos) == spec_first_match(alts.drop_first(), src, pos),
{
}

/// When every alternative fails recoverably, so does the choice.
pub proof fn lemma_all_recoverable<P: Parser>(alts: Seq<P>, src: Seq<char>, pos: usize)
    requires
        forall|j: int| 0 <= j < alts.len() ==> is_recoverable(#[trigger] alts[j].spec_parse(src, pos)),
    ensures
        spec_first_match(alts, src, pos) == Err::<(P::Output, usize), ParseError<(), P::Fatal>>(ParseError::Recoverable(())),
    decreases alts.len(),
{
    if alts.len() > 0 {
        let rest = alts.drop_first();
        assert(is_recoverable(alts[0].spec_parse(src, pos)));
        assert forall|j: int| 0 <= j < rest.len() implies is_recoverable(#[trigger] rest[j].spec_parse(src, pos)) by {
            assert(rest[j] == alts[j + 1]);
        }
        lemma_all_recoverable(rest, src, pos);
    }
}

/// An ordered, non-empty list of alternatives sharing their output and fatal
/// error types. Their recoverable errors are dropped.
pub struct Or<P> {
    alts: Vec<P>,
}

impl<P: Parser> Or<P> {
    pub closed spec fn alternatives(&self) -> Seq<P> {
        self.alts@
    }

    /// Builds the choice; an empty list of alternatives is refused.
    pub fn new(alts: Vec<P>) -> (r: Option<Or<P>>)
        ensures
            r is None <==> alts@.len() == 0,
            r matches Some(o) ==> o.alternatives() == alts@,
    {
        if alts.len() == 0 {
            None
        } else {
            Some(Or { alts })
        }
    }

    pub fn len(&self) -> (r: usize)
        ensures
            r == self.alternatives().len(),
    {
        self.alts.len()
    }
}

impl<P: Parser> Parser for Or<P> {
    type Output = P::Output;
    type Error = ();
    type Fatal = P::Fatal;

    open spec fn spec_parse(&self, src: Seq<char>, pos: usize) -> ParseResult<P::Output, (), P::Fatal> {
        spec_first_match(self.alternatives(), src, pos)
    }

    fn parse(&self, src: &[char], pos: usize) -> (r: ParseResult<P::Output, (), P::Fatal>) {
        let n = self.alts.len();
        let mut i: usize = 0;
        assert(self.alts@.skip(0) =~= self.alts@);
        while i < n
            invariant
                n == self.alts@.len(),
                i <= n,
                pos <= src@.len(),
                spec_first_match(self.alts@, src@, pos) == spec_first_match(
                    self.alts@.skip(i as int),
                    src@,
                    pos,
                ),
            decreases n - i,
        {
            let rest = Ghost(self.alts@.skip(i as int));
            assert(rest@.drop_first() =~= self.alts@.skip(i + 1));
            match self.alts[i].parse(src, pos) {
                Ok(x) => {
                    return Ok(x);
                },
                Err(ParseError::Fatal(f)) => {
                    return Err(ParseError::Fatal(f));
                },
                Err(ParseError::Recoverable(_)) => {},
            }
            i = i + 1;
        }
        assert(self.alts@.skip(n as int).len() == 0);
        Err(ParseError::Recoverable(()))
    }
}

/// Sequencing past a commitment point: once the leading part of a production
/// has matched, a recoverable failure of what follows becomes `fatal`.
pub open spec fn spec_committed<O, E, F>(r: ParseResult<O, E, F>, fatal: F) -> Result<(O, usize), F> {
    match r {
        Ok(x) => Ok(x),
        Err(ParseError::Recoverable(_)) => Err(fatal),
        Err(ParseError::Fatal(f)) => Err(f),
    }
}

pub fn committed<O, E, F>(r: ParseResult<O, E, F>, fatal: F) -> (c: Result<(O, usize), F>)
    ensures
        c == spec_committed(r, fatal),
{
    match r {
        Ok(x) => Ok(x),
        Err(ParseError::Recoverable(_)) => Err(fatal),
        Err(ParseError::Fatal(f)) => Err(f),
    }
}

} // verus!
