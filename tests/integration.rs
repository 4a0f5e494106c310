use diplojuge::adjucator::{Adjucator, Pawn};
use diplojuge::board::{Board, Location, LocationType, PawnType, Player};
use diplojuge::error::BoardError;

fn configure_board() -> Board {
    let mut board = Board::create();
    board.add_location(Location::create("par", true, LocationType::Land));
    board.add_location(Location::create("pic", false, LocationType::Coastal));
    board.add_location(Location::create("bre", true, LocationType::Coastal));
    board.add_location(Location::create("man", false, LocationType::Sea));
    board.add_relation(PawnType::Army, "par", "pic").unwrap();
    board.add_relation(PawnType::Army, "par", "bre").unwrap();
    board.add_relation(PawnType::Fleet, "bre", "man").unwrap();
    board.add_relation(PawnType::Fleet, "man", "pic").unwrap();

    board
}

#[test]
fn testcase1() {
    let board = configure_board();
    let adjucator = {
        let mut adjucator = Adjucator::create(board);
        let _ = adjucator.place_pawn("par", Pawn { unit: PawnType::Army, player: Player::FR });

        adjucator
    };
    assert!(adjucator.has_pawn("par"));
    assert!(!adjucator.has_pawn("bre"))
}

#[test]
fn end_to_end_scenario() {
    let board = configure_board();
    assert!(board.unit_can_move(PawnType::Army, "pic", "par"));
    assert!(!board.unit_can_move(PawnType::Fleet, "pic", "par"));
    assert!(board.unit_can_move(PawnType::Fleet, "bre", "man"));
    assert!(!board.unit_can_move(PawnType::Army, "bre", "man"));
    assert!(!board.unit_can_move(PawnType::Army, "xyz", "man"));
    let mut adjucator = Adjucator::create(board);
    assert!(adjucator.place_pawn("par", Pawn { unit: PawnType::Army, player: Player::FR }).is_ok());
    assert!(adjucator.has_pawn("par"));
    assert!(!adjucator.has_pawn("bre"));
}

#[test]
fn pawn_on_unknown_location_is_refused() {
    let mut adjucator = Adjucator::create(configure_board());
    match adjucator.place_pawn("xyz", Pawn { unit: PawnType::Fleet, player: Player::GB }) {
        Err(BoardError::UnknownLocation(n)) => assert_eq!(n, "xyz"),
        other => panic!("unexpected {:?}", other),
    }
    assert!(!adjucator.has_pawn("xyz"));
}

#[test]
fn occupied_location_is_refused() {
    let mut adjucator = Adjucator::create(configure_board());
    let first = Pawn { unit: PawnType::Fleet, player: Player::GB };
    let second = Pawn { unit: PawnType::Army, player: Player::RU };
    assert!(adjucator.place_pawn("bre", first).is_ok());
    assert!(adjucator.has_pawn("bre"));
    match adjucator.place_pawn("bre", second) {
        Err(BoardError::LocationOccupied(n, p)) => {
            assert_eq!(n, "bre");
            assert_eq!(p, first);
        }
        other => panic!("unexpected {:?}", other),
    }
    assert!(adjucator.has_pawn("bre"));
    assert!(adjucator.place_pawn("man", second).is_ok());
    assert!(adjucator.has_pawn("man"));
    assert!(!adjucator.has_pawn("pic"));
}
