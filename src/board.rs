//! Locations, unit-type-tagged adjacency relations, and the board that holds them.
use vstd::prelude::*;
use crate::error::{BoardError, ErrorView, outcome};

verus! {

/// The kind of unit a pawn is, and the kind of unit a relation lets through.
#[derive(Debug, PartialEq, Eq, Structural, Clone, Copy)]
pub enum PawnType {
    Army,
    Fleet,
}

/// The terrain of a location. It is recorded, never consulted by movement rules.
#[derive(Debug, PartialEq, Eq, Structural, Clone, Copy)]
pub enum LocationType {
    Land,
    Coastal,
    Sea,
}

/// The seven great powers.
#[derive(Debug, PartialEq, Eq, Structural, Clone, Copy)]
pub enum Player {
    GB,
    FR,
    GE,
    IT,
    AH,
    RU,
    TU,
}

/// A named territory. `owned_by` is set only on centers, through the board.
#[derive(Debug)]
pub struct Location {
    pub name: String,
    pub is_center: bool,
    pub location_type: LocationType,
    pub owned_by: Option<Player>,
}

/// The mathematical value of a location: its name as a character sequence.
pub struct LocationView {
    pub name: Seq<char>,
    pub is_center: bool,
    pub location_type: LocationType,
    pub owned_by: Option<Player>,
}

impl View for Location {
    type V = LocationView;

    open spec fn view(&self) -> LocationView {
        LocationView {
            name: self.name@,
            is_center: self.is_center,
            location_type: self.location_type,
            owned_by: self.owned_by,
        }
    }
}

/// Copies a borrowed name into an owned one.
fn owned_name(name: &str) -> (r: String)
    ensures
        r@ == name@,
{
    name.to_owned()
}

impl Location {
    /// A new location with no owner.
    pub fn create(name: &str, is_center: bool, location_type: LocationType) -> (r: Location)
        ensures
            r@ == (LocationView { name: name@, is_center, location_type, owned_by: None }),
    {
        Location { name: owned_name(name), is_center, location_type, owned_by: None }
    }

    /// Gives this location to `player`; refused unless it is a center. An earlier
    /// owner is replaced without complaint.
    pub fn is_owned_by(&mut self, player: Player) -> (r: Result<(), BoardError>)
        ensures
            outcome(r) == old(self)@.assign_result(player),
            final(self)@ == old(self)@.assigned(player),
    {
        if !self.is_center {
            return Err(BoardError::NotACenter(self.name.clone()));
        }
        self.owned_by = Some(player);
        Ok(())
    }
}

impl LocationView {
    /// What giving this location to a player returns.
    pub open spec fn assign_result(self, player: Player) -> Result<(), ErrorView> {
        if self.is_center {
            Ok(())
        } else {
            Err(ErrorView::NotACenter(self.name))
        }
    }

    /// This location after it was given to a player: centers change hands, other
    /// locations stay as they are.
    pub open spec fn assigned(self, player: Player) -> LocationView {
        if self.is_center {
            LocationView { owned_by: Some(player), ..self }
        } else {
            self
        }
    }
}

/// An undirected adjacency between two locations for one unit type.
#[derive(Debug)]
pub struct Relation {
    pub location_a: String,
    pub location_b: String,
    pub pawn_type: PawnType,
}

/// The mathematical value of a relation.
pub struct RelationView {
    pub location_a: Seq<char>,
    pub location_b: Seq<char>,
    pub pawn_type: PawnType,
}

impl View for Relation {
    type V = RelationView;

    open spec fn view(&self) -> RelationView {
        RelationView {
            location_a: self.location_a@,
            location_b: self.location_b@,
            pawn_type: self.pawn_type,
        }
    }
}

impl RelationView {
    /// This relation lets a unit of type `t` go between `a` and `b`, in either
    /// direction.
    pub open spec fn joins(self, t: PawnType, a: Seq<char>, b: Seq<char>) -> bool {
        &&& self.pawn_type == t
        &&& ((self.location_a == a && self.location_b == b) || (self.location_a == b
            && self.location_b == a))
    }

    /// Two relations are the same edge: same unit type, same endpoints in any order.
    pub open spec fn same_edge(self, other: RelationView) -> bool {
        self.joins(other.pawn_type, other.location_a, other.location_b)
    }
}

impl Relation {
    /// The relation between `location_a` and `location_b` for units of `pawn_type`.
    pub fn create(location_a: &str, location_b: &str, pawn_type: PawnType) -> (r: Relation)
        ensures
            r@ == (RelationView { location_a: location_a@, location_b: location_b@, pawn_type }),
    {
        Relation { location_a: owned_name(location_a), location_b: owned_name(location_b), pawn_type }
    }
}

impl PartialEq for Relation {
    /// Equal when the unit type matches and the endpoints match in either order.
    fn eq(&self, other: &Relation) -> (r: bool) {
        self.pawn_type == other.pawn_type && (self.location_a == other.location_a
            && self.location_b == other.location_b || self.location_a == other.location_b
            && self.location_b == other.location_a)
    }
}

impl vstd::std_specs::cmp::PartialEqSpecImpl for Relation {
    open spec fn obeys_eq_spec() -> bool {
        true
    }

    open spec fn eq_spec(&self, other: &Relation) -> bool {
        self@.same_edge(other@)
    }
}

/// The mathematical value of a board: locations keyed by name, and the relations
/// in the order they were added.
pub struct BoardView {
    pub locations: Map<Seq<char>, LocationView>,
    pub relations: Seq<RelationView>,
}

impl BoardView {
    /// The board with nothing on it.
    pub open spec fn empty() -> BoardView {
        BoardView { locations: Map::empty(), relations: Seq::empty() }
    }

    /// A location is known under `name`.
    pub open spec fn has_location(self, name: Seq<char>) -> bool {
        self.locations.contains_key(name)
    }

    /// Validation of a name: unknown names are refused.
    pub open spec fn check_location(self, name: Seq<char>) -> Result<(), ErrorView> {
        if self.has_location(name) {
            Ok(())
        } else {
            Err(ErrorView::UnknownLocation(name))
        }
    }

    /// Some relation lets a unit of type `t` go between `a` and `b`.
    pub open spec fn can_move(self, t: PawnType, a: Seq<char>, b: Seq<char>) -> bool {
        exists|i: int| 0 <= i < self.relations.len() && #[trigger] self.relations[i].joins(t, a, b)
    }

    /// The board once `location` was put under its name, replacing any location
    /// that had that name.
    pub open spec fn add_location(self, location: LocationView) -> BoardView {
        BoardView { locations: self.locations.insert(location.name, location), ..self }
    }

    /// What adding a relation returns. Existence of `a`, then of `b`, is checked
    /// before self-adjacency, which is checked before duplication.
    pub open spec fn add_relation_result(self, t: PawnType, a: Seq<char>, b: Seq<char>) -> Result<
        (),
        ErrorView,
    > {
        if !self.has_location(a) {
            Err(ErrorView::UnknownLocation(a))
        } else if !self.has_location(b) {
            Err(ErrorView::UnknownLocation(b))
        } else if a == b {
            Err(ErrorView::SelfAdjacency(a))
        } else if self.can_move(t, a, b) {
            Err(ErrorView::DuplicateRelation(a, b, t))
        } else {
            Ok(())
        }
    }

    /// The board after adding a relation: appended on success, unchanged otherwise.
    pub open spec fn add_relation(self, t: PawnType, a: Seq<char>, b: Seq<char>) -> BoardView {
        if self.add_relation_result(t, a, b) is Ok {
            BoardView {
                relations: self.relations.push(
                    RelationView { location_a: a, location_b: b, pawn_type: t },
                ),
                ..self
            }
        } else {
            self
        }
    }

    /// What giving the center `name` to `player` returns.
    pub open spec fn assign_center_result(self, name: Seq<char>, player: Player) -> Result<
        (),
        ErrorView,
    > {
        if !self.has_location(name) {
            Err(ErrorView::UnknownLocation(name))
        } else if !self.locations[name].is_center {
            Err(ErrorView::NotACenter(name))
        } else {
            Ok(())
        }
    }

    /// The board after giving the center `name` to `player`.
    pub open spec fn assign_center(self, name: Seq<char>, player: Player) -> BoardView {
        if self.has_location(name) {
            BoardView {
                locations: self.locations.insert(name, self.locations[name].assigned(player)),
                ..self
            }
        } else {
            self
        }
    }

    /// The topology rules: every relation joins two distinct known locations, and
    /// no edge is there twice.
    pub open spec fn relations_valid(self) -> bool {
        &&& forall|i: int|
            0 <= i < self.relations.len() ==> {
                let r = #[trigger] self.relations[i];
                &&& r.location_a != r.location_b
                &&& self.has_location(r.location_a)
                &&& self.has_location(r.location_b)
            }
        &&& forall|i: int, j: int|
            0 <= i < j < self.relations.len() ==> !(#[trigger] self.relations[i]).same_edge(
                #[trigger] self.relations[j],
            )
    }
}

/// Locations and the relations between them.
pub struct Board {
    locations: Vec<Location>,
    relations: Vec<Relation>,
    by_name: Ghost<Map<Seq<char>, LocationView>>,
}

impl View for Board {
    type V = BoardView;

    closed spec fn view(&self) -> BoardView {
        BoardView {
            locations: self.by_name@,
            relations: self.relations@.map_values(|r: Relation| r@),
        }
    }
}

impl Board {
    /// The board's invariant: names are unique in storage, the name map describes
    /// the stored locations exactly, and the relations obey the topology rules.
    pub closed spec fn wf(&self) -> bool {
        &&& forall|i: int, j: int|
            0 <= i < j < self.locations.len() ==> (#[trigger] self.locations[i]).name@
                != (#[trigger] self.locations[j]).name@
        &&& forall|i: int|
            0 <= i < self.locations.len() ==> {
                &&& self.by_name@.contains_key(#[trigger] self.locations[i].name@)
                &&& self.by_name@[self.locations[i].name@] == self.locations[i]@
            }
        &&& forall|n: Seq<char>|
            #[trigger] self.by_name@.contains_key(n) ==> exists|i: int|
                0 <= i < self.locations.len() && (#[trigger] self.locations[i]).name@ == n
        &&& self@.relations_valid()
    }

    /// The topology rules hold of every well-formed board: no relation joins a
    /// location to itself or names an unknown location, and no edge is there twice.
    pub proof fn lemma_relations_valid(&self)
        requires
            self.wf(),
        ensures
            self@.relations_valid(),
    {
    }

    /// A board with no location and no relation.
    pub fn create() -> (r: Board)
        ensures
            r.wf(),
            r@ == BoardView::empty(),
    {
        let r = Board { locations: Vec::new(), relations: Vec::new(), by_name: Ghost(Map::empty()) };
        assert(r@.relations =~= Seq::<RelationView>::empty());
        r
    }

    /// The index in storage of the location called `name`, if any.
    fn find_location(&self, name: &str) -> (r: Option<usize>)
        requires
            self.wf(),
        ensures
            match r {
                Some(i) => i < self.locations@.len() && self.locations@[i as int].name@ == name@,
                None => !self@.has_location(name@),
            },
    {
        let key = owned_name(name);
        let mut i: usize = 0;
        while i < self.locations.len()
            invariant
                self.wf(),
                key@ == name@,
                0 <= i <= self.locations@.len(),
                forall|k: int| 0 <= k < i ==> (#[trigger] self.locations@[k]).name@ != name@,
            decreases self.locations@.len() - i,
        {
            if self.locations[i].name == key {
                return Some(i);
            }
            i = i + 1;
        }
        None
    }

    /// Puts `location` on the board under its name. A location already there
    /// under that name is replaced.
    pub fn add_location(&mut self, location: Location)
        requires
            old(self).wf(),
        ensures
            final(self).wf(),
            final(self)@ == old(self)@.add_location(location@),
    {
        let ghost loc = location@;
        match self.find_location(location.name.as_str()) {
            Some(i) => {
                self.locations[i] = location;
            },
            None => {
                self.locations.push(location);
            },
        }
        self.by_name = Ghost(self.by_name@.insert(loc.name, loc));
        assert(self@.locations =~= old(self)@.add_location(loc).locations);
        assert forall|n: Seq<char>| #[trigger] self.by_name@.contains_key(n) implies exists|i: int|
            0 <= i < self.locations.len() && (#[trigger] self.locations[i]).name@ == n by {
            if n != loc.name {
                let k = choose|k: int|
                    0 <= k < old(self).locations.len() && (#[trigger] old(self).locations[k]).name@ == n;
                assert(self.locations[k].name@ == n);
            } else {
                assert(self.locations[self.locations.len() - 1].name@ == n || exists|i: int|
                    0 <= i < old(self).locations.len() && self.locations[i].name@ == n);
            }
        }
    }

    /// Whether a location called `location` is on the board.
    pub fn has_location(&self, location: &str) -> (r: bool)
        requires
            self.wf(),
        ensures
            r == self@.has_location(location@),
    {
        self.find_location(location).is_some()
    }

    /// Validation of a name, used before any operation that refers to a location.
    pub fn check_location(&self, location: &str) -> (r: Result<(), BoardError>)
        requires
            self.wf(),
        ensures
            outcome(r) == self@.check_location(location@),
    {
        if self.has_location(location) {
            Ok(())
        } else {
            Err(BoardError::UnknownLocation(owned_name(location)))
        }
    }

    /// Whether a relation equal to `relation` (same unit type, same endpoints in
    /// either order) is on the board.
    pub fn relation_exists(&self, relation: &Relation) -> (r: bool)
        requires
            self.wf(),
        ensures
            r == self@.can_move(relation.pawn_type, relation.location_a@, relation.location_b@),
    {
        let mut i: usize = 0;
        while i < self.relations.len()
            invariant
                0 <= i <= self.relations@.len(),
                forall|k: int|
                    0 <= k < i ==> !(#[trigger] self@.relations[k]).joins(
                        relation.pawn_type,
                        relation.location_a@,
                        relation.location_b@,
                    ),
            decreases self.relations@.len() - i,
        {
            if *relation == self.relations[i] {
                assert(self@.relations[i as int].joins(
                    relation.pawn_type,
                    relation.location_a@,
                    relation.location_b@,
                ));
                return true;
            }
            i = i + 1;
        }
        false
    }

    /// Adds an adjacency between `source` and `target` for units of `pawn_type`.
    /// Refused when either location is unknown, when they are the same location,
    /// or when the edge is already there in either direction.
    pub fn add_relation(&mut self, pawn_type: PawnType, source: &str, target: &str) -> (r: Result<
        (),
        BoardError,
    >)
        requires
            old(self).wf(),
        ensures
            final(self).wf(),
            outcome(r) == old(self)@.add_relation_result(pawn_type, source@, target@),
            final(self)@ == old(self)@.add_relation(pawn_type, source@, target@),
    {
        match self.check_location(source) {
            Ok(()) => {},
            Err(e) => {
                return Err(e);
            },
        }
        match self.check_location(target) {
            Ok(()) => {},
            Err(e) => {
                return Err(e);
            },
        }
        let a = owned_name(source);
        let b = owned_name(target);
        if a == b {
            return Err(BoardError::SelfAdjacency(a));
        }
        let relation = Relation { location_a: a, location_b: b, pawn_type };
        if self.relation_exists(&relation) {
            return Err(BoardError::DuplicateRelation(relation.location_a, relation.location_b, pawn_type));
        }
        let ghost before = self@;
        let ghost rel = relation@;
        self.relations.push(relation);
        assert(self@.relations =~= before.relations.push(rel));
        assert forall|i: int, j: int|
            0 <= i < j < self@.relations.len() implies !(#[trigger] self@.relations[i]).same_edge(
                #[trigger] self@.relations[j],
            ) by {
            if j == self@.relations.len() - 1 {
                if self@.relations[i].same_edge(self@.relations[j]) {
                    assert(before.relations[i].joins(pawn_type, source@, target@));
                }
            }
        }
        Ok(())
    }

    /// The location called `location_name`, if there is one.
    pub fn get_location(&self, location_name: &str) -> (r: Option<&Location>)
        requires
            self.wf(),
        ensures
            match r {
                Some(l) => self@.has_location(location_name@) && l@ == self@.locations[location_name@],
                None => !self@.has_location(location_name@),
            },
    {
        match self.find_location(location_name) {
            Some(i) => Some(&self.locations[i]),
            None => None,
        }
    }

    /// Whether a unit of `pawn_type` may go between the two locations, in either
    /// direction. Unknown names are no error: they simply have no relation.
    pub fn unit_can_move(&self, pawn_type: PawnType, src_location_name: &str, dst_location_name: &str) -> (r: bool)
        requires
            self.wf(),
        ensures
            r == self@.can_move(pawn_type, src_location_name@, dst_location_name@),
    {
        let my_relation = Relation::create(src_location_name, dst_location_name, pawn_type);
        self.relation_exists(&my_relation)
    }

    /// Gives the center `location_name` to `player`. Refused for an unknown
    /// location and for one that is not a center; an earlier owner is replaced.
    pub fn assign_center(&mut self, location_name: &str, player: Player) -> (r: Result<(), BoardError>)
        requires
            old(self).wf(),
        ensures
            final(self).wf(),
            outcome(r) == old(self)@.assign_center_result(location_name@, player),
            final(self)@ == old(self)@.assign_center(location_name@, player),
    {
        match self.find_location(location_name) {
            Some(i) => {
                let r = self.locations[i].is_owned_by(player);
                let ghost n = location_name@;
                self.by_name = Ghost(self.by_name@.insert(n, self.by_name@[n].assigned(player)));
                assert(self@.locations =~= old(self)@.assign_center(n, player).locations);
                assert(self@.relations =~= old(self)@.relations);
                assert forall|m: Seq<char>| #[trigger] self.by_name@.contains_key(m) implies exists|k: int|
                    0 <= k < self.locations.len() && (#[trigger] self.locations[k]).name@ == m by {
                    let k = choose|k: int|
                        0 <= k < old(self).locations.len() && (#[trigger] old(self).locations[k]).name@ == m;
                    assert(self.locations[k].name@ == m);
                }
                r
            },
            None => Err(BoardError::UnknownLocation(owned_name(location_name))),
        }
    }
}

} // verus!
