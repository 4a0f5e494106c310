//! Properties that hold across several operations on boards and ledgers.
use vstd::prelude::*;
use crate::adjucator::{AdjucatorView, Pawn};
use crate::board::{BoardView, LocationView, PawnType, Player};
use crate::error::ErrorView;

verus! {

/// The board obtained from the empty board by adding `added` in order.
pub open spec fn board_with(added: Seq<LocationView>) -> BoardView
    decreases added.len(),
{
    if added.len() == 0 {
        BoardView::empty()
    } else {
        board_with(added.drop_last()).add_location(added.last())
    }
}

/// A name that no added location carries is unknown to the board: it is not
/// there, and validating it fails with an unknown-location error.
pub proof fn lemma_unadded_location_is_unknown(added: Seq<LocationView>, name: Seq<char>)
    requires
        forall|i: int| 0 <= i < added.len() ==> (#[trigger] added[i]).name != name,
    ensures
        !board_with(added).has_location(name),
        board_with(added).check_location(name) == Err::<(), ErrorView>(
            ErrorView::UnknownLocation(name),
        ),
    decreases added.len(),
{
    if added.len() > 0 {
        let rest = added.drop_last();
        assert forall|i: int| 0 <= i < rest.len() implies (#[trigger] rest[i]).name != name by {
            assert(rest[i] == added[i]);
        }
        lemma_unadded_location_is_unknown(rest, name);
    }
}

/// Relations are undirected: once an edge from `a` to `b` was added, adding the
/// edge from `b` to `a` for the same unit type is refused as a duplicate.
pub proof fn lemma_reversed_relation_is_duplicate(
    board: BoardView,
    t: PawnType,
    a: Seq<char>,
    b: Seq<char>,
)
    requires
        board.add_relation_result(t, a, b) is Ok,
    ensures
        board.add_relation(t, a, b).add_relation_result(t, b, a) == Err::<(), ErrorView>(
            ErrorView::DuplicateRelation(b, a, t),
        ),
{
    let after = board.add_relation(t, a, b);
    assert(after.relations[after.relations.len() - 1].joins(t, b, a));
}

/// A relation from a known location to itself is refused, and the board is left
/// as it was.
pub proof fn lemma_self_relation_is_refused(board: BoardView, t: PawnType, name: Seq<char>)
    requires
        board.has_location(name),
    ensures
        board.add_relation_result(t, name, name) == Err::<(), ErrorView>(
            ErrorView::SelfAdjacency(name),
        ),
        board.add_relation(t, name, name) == board,
{
}

/// After an edge for `t` between `a` and `b` is added, a unit of type `t` can
/// move along it both ways, while what other unit types can do between `a` and
/// `b` is what it was before.
pub proof fn lemma_added_relation_allows_moves(
    board: BoardView,
    t: PawnType,
    a: Seq<char>,
    b: Seq<char>,
)
    requires
        board.add_relation_result(t, a, b) is Ok,
    ensures
        board.add_relation(t, a, b).can_move(t, a, b),
        board.add_relation(t, a, b).can_move(t, b, a),
        forall|other: PawnType|
            other != t ==> (board.add_relation(t, a, b).can_move(other, a, b) == board.can_move(
                other,
                a,
                b,
            ) && board.add_relation(t, a, b).can_move(other, b, a) == board.can_move(
                other,
                b,
                a,
            )),
{
    let after = board.add_relation(t, a, b);
    let last = after.relations.len() - 1;
    assert(after.relations[last].joins(t, a, b));
    assert(after.relations[last].joins(t, b, a));
    assert forall|other: PawnType, x: Seq<char>, y: Seq<char>|
        other != t implies after.can_move(other, x, y) == board.can_move(other, x, y) by {
        if after.can_move(other, x, y) {
            let i = choose|i: int|
                0 <= i < after.relations.len() && #[trigger] after.relations[i].joins(other, x, y);
            assert(board.relations[i] == after.relations[i]);
        }
        if board.can_move(other, x, y) {
            let i = choose|i: int|
                0 <= i < board.relations.len() && #[trigger] board.relations[i].joins(other, x, y);
            assert(board.relations[i] == after.relations[i]);
        }
    }
}

/// A location that is not a center cannot be owned, whoever asks for it; the
/// board stays as it was.
pub proof fn lemma_non_center_cannot_be_owned(board: BoardView, name: Seq<char>, player: Player)
    requires
        board.has_location(name),
        !board.locations[name].is_center,
    ensures
        board.assign_center_result(name, player) == Err::<(), ErrorView>(
            ErrorView::NotACenter(name),
        ),
        board.assign_center(name, player) == board,
{
    assert(board.assign_center(name, player).locations =~= board.locations);
}

/// A center can be given to a player, and given again to another: the second
/// assignment succeeds too and its player is the owner.
pub proof fn lemma_center_owner_is_overwritten(
    board: BoardView,
    name: Seq<char>,
    first: Player,
    second: Player,
)
    requires
        board.has_location(name),
        board.locations[name].is_center,
    ensures
        board.assign_center_result(name, first) is Ok,
        board.assign_center(name, first).locations[name].owned_by == Some(first),
        board.assign_center(name, first).assign_center_result(name, second) is Ok,
        board.assign_center(name, first).assign_center(name, second).locations[name].owned_by
            == Some(second),
{
}

/// A pawn cannot be placed on a location that the board does not have.
pub proof fn lemma_pawn_on_unknown_location_is_refused(
    adjucator: AdjucatorView,
    location: Seq<char>,
    pawn: Pawn,
)
    requires
        !adjucator.board.has_location(location),
    ensures
        adjucator.place_pawn_result(location, pawn) == Err::<(), ErrorView>(
            ErrorView::UnknownLocation(location),
        ),
        adjucator.place_pawn(location, pawn) == adjucator,
{
}

/// A location holds at most one pawn: after a first placement succeeds, a second
/// one on the same location is refused with the first pawn named, and the first
/// pawn stays where it is.
pub proof fn lemma_occupied_location_is_refused(
    adjucator: AdjucatorView,
    location: Seq<char>,
    first: Pawn,
    second: Pawn,
)
    requires
        adjucator.place_pawn_result(location, first) is Ok,
    ensures
        adjucator.place_pawn(location, first).has_pawn(location),
        adjucator.place_pawn(location, first).place_pawn_result(location, second)
            == Err::<(), ErrorView>(ErrorView::LocationOccupied(location, first)),
        adjucator.place_pawn(location, first).place_pawn(location, second) == adjucator.place_pawn(
            location,
            first,
        ),
        adjucator.place_pawn(location, first).place_pawn(location, second).has_pawn(location),
{
}

} // verus!
