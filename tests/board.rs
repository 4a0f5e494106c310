use diplojuge::board::{Board, Location, LocationType, PawnType, Player, Relation};
use diplojuge::error::BoardError;

fn small_board() -> Board {
    let mut board = Board::create();
    board.add_location(Location::create("par", true, LocationType::Land));
    board.add_location(Location::create("pic", false, LocationType::Coastal));
    board.add_location(Location::create("bre", true, LocationType::Coastal));
    board.add_location(Location::create("man", false, LocationType::Sea));
    board
}

#[test]
fn board_test_set_board() {
    let mut board = Board::create();
    let location = Location::create("bre", true, LocationType::Coastal);
    board.add_location(location);

    assert_eq!("bre", board.get_location("bre").unwrap().name);
}

#[test]
fn board_test_add_relation() {
    let mut board = Board::create();
    board.add_location(Location::create("par", true, LocationType::Land));
    board.add_location(Location::create("pic", false, LocationType::Coastal));
    board.add_location(Location::create("bre", true, LocationType::Coastal));
    board.add_location(Location::create("man", false, LocationType::Sea));
    board.add_relation(PawnType::Army, "par", "pic").unwrap();
    board.add_relation(PawnType::Army, "par", "bre").unwrap();
    board.add_relation(PawnType::Fleet, "bre", "man").unwrap();
    board.add_relation(PawnType::Fleet, "man", "pic").unwrap();

    assert!(board.unit_can_move(PawnType::Army, "pic", "par"));
    assert!(!board.unit_can_move(PawnType::Fleet, "pic", "par"));
    assert!(board.unit_can_move(PawnType::Fleet, "bre", "man"));
    assert!(!board.unit_can_move(PawnType::Army, "bre", "man"));
    assert!(!board.unit_can_move(PawnType::Army, "abc", "man"));
}

#[test]
fn main_test_set_board() {
    let mut board = Board::create();
    let location = Location::create("bre", true, LocationType::Coastal);
    let _bw_location = &location;
    board.add_location(location);

    assert_eq!("bre", board.get_location("bre").unwrap().name);
}

#[test]
fn main_test_add_relation() {
    let mut board = Board::create();
    board.add_location(Location::create("par", true, LocationType::Land));
    board.add_location(Location::create("pic", false, LocationType::Coastal));
    board.add_location(Location::create("bre", true, LocationType::Coastal));
    board.add_location(Location::create("man", false, LocationType::Sea));
    let _ = board.add_relation(PawnType::Army, "par", "pic");
    let _ = board.add_relation(PawnType::Army, "par", "bre");
    let _ = board.add_relation(PawnType::Fleet, "bre", "man");
    let _ = board.add_relation(PawnType::Fleet, "man", "pic");

    assert!(board.unit_can_move(PawnType::Army, "pic", "par"));
    assert!(!board.unit_can_move(PawnType::Fleet, "pic", "par"));
    assert!(board.unit_can_move(PawnType::Fleet, "bre", "man"));
    assert!(!board.unit_can_move(PawnType::Army, "bre", "man"));
    assert!(!board.unit_can_move(PawnType::Army, "abc", "man"));
}

#[test]
fn test_assign_location_success() {
    let mut board = Board::create();
    board.add_location(Location::create("par", true, LocationType::Land));
    let _ = board.assign_center("par", Player::FR);
    assert!(true);
}

#[test]
fn unknown_location_is_absent_and_refused() {
    let board = small_board();
    assert!(!board.has_location("xyz"));
    assert!(board.has_location("par"));
    assert!(board.check_location("par").is_ok());
    match board.check_location("xyz") {
        Err(BoardError::UnknownLocation(n)) => assert_eq!(n, "xyz"),
        other => panic!("unexpected {:?}", other),
    }
    assert!(board.get_location("xyz").is_none());
    assert!(!Board::create().has_location("par"));
}

#[test]
fn reversed_relation_is_duplicate() {
    let mut board = small_board();
    board.add_relation(PawnType::Army, "par", "pic").unwrap();
    match board.add_relation(PawnType::Army, "pic", "par") {
        Err(BoardError::DuplicateRelation(a, b, t)) => {
            assert_eq!(a, "pic");
            assert_eq!(b, "par");
            assert_eq!(t, PawnType::Army);
        }
        other => panic!("unexpected {:?}", other),
    }
    match board.add_relation(PawnType::Army, "par", "pic") {
        Err(BoardError::DuplicateRelation(a, b, _)) => {
            assert_eq!(a, "par");
            assert_eq!(b, "pic");
        }
        other => panic!("unexpected {:?}", other),
    }
    assert!(board.add_relation(PawnType::Fleet, "pic", "par").is_ok());
}

#[test]
fn self_relation_is_refused() {
    let mut board = small_board();
    match board.add_relation(PawnType::Fleet, "bre", "bre") {
        Err(BoardError::SelfAdjacency(n)) => assert_eq!(n, "bre"),
        other => panic!("unexpected {:?}", other),
    }
    assert!(!board.unit_can_move(PawnType::Fleet, "bre", "bre"));
}

#[test]
fn relation_with_unknown_location_is_refused_first() {
    let mut board = small_board();
    match board.add_relation(PawnType::Army, "xyz", "xyz") {
        Err(BoardError::UnknownLocation(n)) => assert_eq!(n, "xyz"),
        other => panic!("unexpected {:?}", other),
    }
    match board.add_relation(PawnType::Army, "par", "abc") {
        Err(BoardError::UnknownLocation(n)) => assert_eq!(n, "abc"),
        other => panic!("unexpected {:?}", other),
    }
    assert!(!board.unit_can_move(PawnType::Army, "par", "abc"));
}

#[test]
fn added_relation_allows_moves_for_its_type_only() {
    let mut board = small_board();
    board.add_relation(PawnType::Fleet, "bre", "man").unwrap();
    assert!(board.unit_can_move(PawnType::Fleet, "bre", "man"));
    assert!(board.unit_can_move(PawnType::Fleet, "man", "bre"));
    assert!(!board.unit_can_move(PawnType::Army, "bre", "man"));
    board.add_relation(PawnType::Army, "man", "bre").unwrap();
    assert!(board.unit_can_move(PawnType::Army, "bre", "man"));
}

#[test]
fn relation_exists_is_symmetric() {
    let mut board = small_board();
    board.add_relation(PawnType::Army, "par", "bre").unwrap();
    assert!(board.relation_exists(&Relation::create("bre", "par", PawnType::Army)));
    assert!(board.relation_exists(&Relation::create("par", "bre", PawnType::Army)));
    assert!(!board.relation_exists(&Relation::create("par", "bre", PawnType::Fleet)));
    assert!(Relation::create("a", "b", PawnType::Army) == Relation::create("b", "a", PawnType::Army));
    assert!(Relation::create("a", "b", PawnType::Army) != Relation::create("a", "b", PawnType::Fleet));
    assert!(Relation::create("a", "b", PawnType::Army) != Relation::create("a", "c", PawnType::Army));
}

#[test]
fn non_center_cannot_be_owned() {
    let mut board = small_board();
    for p in [Player::GB, Player::FR, Player::TU] {
        match board.assign_center("pic", p) {
            Err(BoardError::NotACenter(n)) => assert_eq!(n, "pic"),
            other => panic!("unexpected {:?}", other),
        }
    }
    assert_eq!(board.get_location("pic").unwrap().owned_by, None);
}

#[test]
fn center_owner_is_overwritten() {
    let mut board = small_board();
    assert!(board.assign_center("par", Player::FR).is_ok());
    assert_eq!(board.get_location("par").unwrap().owned_by, Some(Player::FR));
    assert!(board.assign_center("par", Player::GE).is_ok());
    assert_eq!(board.get_location("par").unwrap().owned_by, Some(Player::GE));
    match board.assign_center("xyz", Player::GE) {
        Err(BoardError::UnknownLocation(n)) => assert_eq!(n, "xyz"),
        other => panic!("unexpected {:?}", other),
    }
}

#[test]
fn location_is_owned_by_checks_center() {
    let mut center = Location::create("ber", true, LocationType::Land);
    assert!(center.is_owned_by(Player::GE).is_ok());
    assert_eq!(center.owned_by, Some(Player::GE));
    let mut plain = Location::create("sil", false, LocationType::Land);
    assert!(matches!(plain.is_owned_by(Player::GE), Err(BoardError::NotACenter(_))));
    assert_eq!(plain.owned_by, None);
}

#[test]
fn adding_a_location_again_replaces_it() {
    let mut board = Board::create();
    board.add_location(Location::create("par", true, LocationType::Land));
    board.add_location(Location::create("par", false, LocationType::Coastal));
    let l = board.get_location("par").unwrap();
    assert!(!l.is_center);
    assert_eq!(l.location_type, LocationType::Coastal);
    assert_eq!(l.owned_by, None);
}
