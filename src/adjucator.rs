//! The pawn ledger kept over a board.
use vstd::prelude::*;
use crate::board::{Board, BoardView, PawnType, Player};
use crate::error::{BoardError, ErrorView, outcome};

verus! {

/// A unit on the map: its type and the player who controls it.
#[derive(Debug, PartialEq, Eq, Structural, Clone, Copy)]
pub struct Pawn {
    pub unit: PawnType,
    pub player: Player,
}

/// The mathematical value of an adjudicator: its board, and the pawn on each
/// occupied location.
pub struct AdjucatorView {
    pub board: BoardView,
    pub pawns: Map<Seq<char>, Pawn>,
}

impl AdjucatorView {
    /// A pawn stands on `location`.
    pub open spec fn has_pawn(self, location: Seq<char>) -> bool {
        self.pawns.contains_key(location)
    }

    /// What placing `pawn` on `location` returns: the location must be on the
    /// board, then it must be free.
    pub open spec fn place_pawn_result(self, location: Seq<char>, pawn: Pawn) -> Result<(), ErrorView> {
        if !self.board.has_location(location) {
            Err(ErrorView::UnknownLocation(location))
        } else if self.has_pawn(location) {
            Err(ErrorView::LocationOccupied(location, self.pawns[location]))
        } else {
            Ok(())
        }
    }

    /// The ledger after placing `pawn` on `location`: the pawn is added on
    /// success, nothing changes otherwise.
    pub open spec fn place_pawn(self, location: Seq<char>, pawn: Pawn) -> AdjucatorView {
        if self.place_pawn_result(location, pawn) is Ok {
            AdjucatorView { pawns: self.pawns.insert(location, pawn), ..self }
        } else {
            self
        }
    }
}

/// A board together with the ledger of pawns placed on it.
pub struct Adjucator {
    board: Board,
    pawns: Vec<(String, Pawn)>,
    ledger: Ghost<Map<Seq<char>, Pawn>>,
}

impl View for Adjucator {
    type V = AdjucatorView;

    closed spec fn view(&self) -> AdjucatorView {
        AdjucatorView { board: self.board@, pawns: self.ledger@ }
    }
}

impl Adjucator {
    /// The invariant: the board is well formed, each location holds at most one
    /// entry, the ledger describes the entries exactly, and only known locations
    /// hold pawns.
    pub closed spec fn wf(&self) -> bool {
        &&& self.board.wf()
        &&& forall|i: int, j: int|
            0 <= i < j < self.pawns.len() ==> (#[trigger] self.pawns[i]).0@
                != (#[trigger] self.pawns[j]).0@
        &&& forall|i: int|
            0 <= i < self.pawns.len() ==> {
                &&& self.ledger@.contains_key(#[trigger] self.pawns[i].0@)
                &&& self.ledger@[self.pawns[i].0@] == self.pawns[i].1
            }
        &&& forall|n: Seq<char>|
            #[trigger] self.ledger@.contains_key(n) ==> exists|i: int|
                0 <= i < self.pawns.len() && (#[trigger] self.pawns[i]).0@ == n
        &&& forall|n: Seq<char>|
            #[trigger] self.ledger@.contains_key(n) ==> self.board@.has_location(n)
    }

    /// Takes over `board`, with no pawn placed yet.
    pub fn create(board: Board) -> (r: Adjucator)
        requires
            board.wf(),
        ensures
            r.wf(),
            r@ == (AdjucatorView { board: board@, pawns: Map::empty() }),
    {
        Adjucator { board, pawns: Vec::new(), ledger: Ghost(Map::empty()) }
    }

    /// The index in the ledger of the entry for `location`, if any.
    fn find_pawn(&self, location: &str) -> (r: Option<usize>)
        requires
            self.wf(),
        ensures
            match r {
                Some(i) => i < self.pawns@.len() && self.pawns@[i as int].0@ == location@,
                None => !self@.has_pawn(location@),
            },
    {
        let key = location.to_owned();
        let mut i: usize = 0;
        while i < self.pawns.len()
            invariant
                self.wf(),
                key@ == location@,
                0 <= i <= self.pawns@.len(),
                forall|k: int| 0 <= k < i ==> (#[trigger] self.pawns@[k]).0@ != location@,
            decreases self.pawns@.len() - i,
        {
            if self.pawns[i].0 == key {
                return Some(i);
            }
            i = i + 1;
        }
        None
    }

    /// Places `pawn` on `location`. Refused when the board has no such location,
    /// or when a pawn is already there (the error names that pawn).
    pub fn place_pawn(&mut self, location: &str, pawn: Pawn) -> (r: Result<(), BoardError>)
        requires
            old(self).wf(),
        ensures
            final(self).wf(),
            outcome(r) == old(self)@.place_pawn_result(location@, pawn),
            final(self)@ == old(self)@.place_pawn(location@, pawn),
    {
        match self.board.check_location(location) {
            Ok(()) => {},
            Err(e) => {
                return Err(e);
            },
        }
        match self.find_pawn(location) {
            Some(i) => {
                let somebody = self.pawns[i].1;
                return Err(BoardError::LocationOccupied(location.to_owned(), somebody));
            },
            None => {},
        }
        self.pawns.push((location.to_owned(), pawn));
        self.ledger = Ghost(self.ledger@.insert(location@, pawn));
        assert forall|n: Seq<char>| #[trigger] self.ledger@.contains_key(n) implies exists|i: int|
            0 <= i < self.pawns.len() && (#[trigger] self.pawns[i]).0@ == n by {
            if n != location@ {
                let k = choose|k: int|
                    0 <= k < old(self).pawns.len() && (#[trigger] old(self).pawns[k]).0@ == n;
                assert(self.pawns[k].0@ == n);
            } else {
                assert(self.pawns[self.pawns.len() - 1].0@ == n);
            }
        }
        Ok(())
    }

    /// Whether a pawn stands on `location`.
    pub fn has_pawn(&self, location: &str) -> (r: bool)
        requires
            self.wf(),
        ensures
            r == self@.has_pawn(location@),
    {
        self.find_pawn(location).is_some()
    }
}

} // verus!
