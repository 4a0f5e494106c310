//! The ways in which a board or a ledger refuses an operation.
use vstd::prelude::*;
use crate::board::PawnType;
use crate::adjucator::Pawn;

verus! {

/// A refused operation, with the values that broke the rule.
#[derive(Debug)]
pub enum BoardError {
    /// The named location is not on the board.
    UnknownLocation(String),
    /// A relation from the named location to itself was asked for.
    SelfAdjacency(String),
    /// The relation between the two locations, for that unit type, is already there.
    DuplicateRelation(String, String, PawnType),
    /// The named location is not a supply center, so nobody can own it.
    NotACenter(String),
    /// The named location already holds the given pawn.
    LocationOccupied(String, Pawn),
}

/// The mathematical value of an error: names as character sequences.
pub enum ErrorView {
    UnknownLocation(Seq<char>),
    SelfAdjacency(Seq<char>),
    DuplicateRelation(Seq<char>, Seq<char>, PawnType),
    NotACenter(Seq<char>),
    LocationOccupied(Seq<char>, Pawn),
}

impl View for BoardError {
    type V = ErrorView;

    open spec fn view(&self) -> ErrorView {
        match self {
            BoardError::UnknownLocation(n) => ErrorView::UnknownLocation(n@),
            BoardError::SelfAdjacency(n) => ErrorView::SelfAdjacency(n@),
            BoardError::DuplicateRelation(a, b, t) => ErrorView::DuplicateRelation(a@, b@, *t),
            BoardError::NotACenter(n) => ErrorView::NotACenter(n@),
            BoardError::LocationOccupied(n, p) => ErrorView::LocationOccupied(n@, *p),
        }
    }
}

/// The value of an outcome that carries nothing on success.
pub open spec fn outcome(r: Result<(), BoardError>) -> Result<(), ErrorView> {
    match r {
        Ok(()) => Ok(()),
        Err(e) => Err(e@),
    }
}

} // verus!
