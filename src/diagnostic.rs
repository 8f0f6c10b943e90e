use vstd::prelude::*;

verus! {

/// What was missing where a committed production failed.
#[derive(Clone, Copy, Debug, PartialEq, Eq, Structural)]
pub enum FatalKind {
    ExpectedType,
    ExpectedExpression,
    ExpectedIdentifier,
    ExpectedSemicolon,
    ExpectedCloseParen,
    ExpectedCloseBracket,
    LiteralTooLarge,
    NestingTooDeep,
}

/// A failure after a commitment point, with the position it was found at.
#[derive(Clone, Copy, Debug, PartialEq, Eq, Structural)]
pub struct FatalError {
    pub position: usize,
    pub kind: FatalKind,
}

impl FatalError {
    pub open spec fn at(position: usize, kind: FatalKind) -> FatalError {
        FatalError { position, kind }
    }

    pub fn new(position: usize, kind: FatalKind) -> (r: FatalError)
        ensures
            r == FatalError::at(position, kind),
    {
        FatalError { position, kind }
    }

}

} // verus!
