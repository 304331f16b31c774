//! Shadow overlays cast onto a floor tile by the walls around it.

use vstd::prelude::*;
use crate::level::Level;
use crate::position::{Direction, Position};

verus! {

/// One shadow overlay: along an edge of the cell, or in one of its corners.
#[derive(Clone, Copy, Debug, PartialEq, Eq, Structural)]
pub enum Shadow {
    NEdge,
    SEdge,
    EEdge,
    WEdge,
    NeCorner,
    NwCorner,
    SeCorner,
    SwCorner,
}

impl Shadow {
    /// The eight overlays in the order in which they are laid on a cell.
    pub open spec fn in_order() -> Seq<Shadow> {
        seq![
            Shadow::NEdge,
            Shadow::SEdge,
            Shadow::EEdge,
            Shadow::WEdge,
            Shadow::NeCorner,
            Shadow::NwCorner,
            Shadow::SeCorner,
            Shadow::SwCorner,
        ]
    }

    /// The eight overlays in the order in which they are laid on a cell.
    pub fn all() -> (order: [Shadow; 8])
        ensures
            order@ == Shadow::in_order(),
    {
        let order = [
            Shadow::NEdge,
            Shadow::SEdge,
            Shadow::EEdge,
            Shadow::WEdge,
            Shadow::NeCorner,
            Shadow::NwCorner,
            Shadow::SeCorner,
            Shadow::SwCorner,
        ];
        assert(order@ =~= Shadow::in_order());
        order
    }
}

/// The set of shadow overlays that apply to one cell: one flag for each
/// overlay, any number of them raised.
#[derive(Clone, Copy, Debug, PartialEq, Eq, Structural)]
pub struct ShadowFlags {
    pub n_edge: bool,
    pub s_edge: bool,
    pub e_edge: bool,
    pub w_edge: bool,
    pub ne_corner: bool,
    pub nw_corner: bool,
    pub se_corner: bool,
    pub sw_corner: bool,
}

impl View for ShadowFlags {
    type V = Set<Shadow>;

    open spec fn view(&self) -> Set<Shadow> {
        Set::new(|shadow: Shadow| self.raised(shadow))
    }
}

impl ShadowFlags {
    /// Whether the flag of `shadow` is raised.
    pub open spec fn raised(self, shadow: Shadow) -> bool {
        match shadow {
            Shadow::NEdge => self.n_edge,
            Shadow::SEdge => self.s_edge,
            Shadow::EEdge => self.e_edge,
            Shadow::WEdge => self.w_edge,
            Shadow::NeCorner => self.ne_corner,
            Shadow::NwCorner => self.nw_corner,
            Shadow::SeCorner => self.se_corner,
            Shadow::SwCorner => self.sw_corner,
        }
    }

    /// The flags with none raised.
    pub open spec fn none() -> ShadowFlags {
        ShadowFlags {
            n_edge: false,
            s_edge: false,
            e_edge: false,
            w_edge: false,
            ne_corner: false,
            nw_corner: false,
            se_corner: false,
            sw_corner: false,
        }
    }

    /// The flags with that of `shadow` raised and no other.
    pub open spec fn just(shadow: Shadow) -> ShadowFlags {
        ShadowFlags {
            n_edge: shadow == Shadow::NEdge,
            s_edge: shadow == Shadow::SEdge,
            e_edge: shadow == Shadow::EEdge,
            w_edge: shadow == Shadow::WEdge,
            ne_corner: shadow == Shadow::NeCorner,
            nw_corner: shadow == Shadow::NwCorner,
            se_corner: shadow == Shadow::SeCorner,
            sw_corner: shadow == Shadow::SwCorner,
        }
    }

    /// The same flags with that of `shadow` raised as well.
    pub open spec fn raise(self, shadow: Shadow) -> ShadowFlags {
        match shadow {
            Shadow::NEdge => ShadowFlags { n_edge: true, ..self },
            Shadow::SEdge => ShadowFlags { s_edge: true, ..self },
            Shadow::EEdge => ShadowFlags { e_edge: true, ..self },
            Shadow::WEdge => ShadowFlags { w_edge: true, ..self },
            Shadow::NeCorner => ShadowFlags { ne_corner: true, ..self },
            Shadow::NwCorner => ShadowFlags { nw_corner: true, ..self },
            Shadow::SeCorner => ShadowFlags { se_corner: true, ..self },
            Shadow::SwCorner => ShadowFlags { sw_corner: true, ..self },
        }
    }

    /// The one overlay whose flag is raised, where exactly one is.
    pub open spec fn sole(self) -> Option<Shadow> {
        if exists|shadow: Shadow| self == ShadowFlags::just(shadow) {
            Some(choose|shadow: Shadow| self == ShadowFlags::just(shadow))
        } else {
            None
        }
    }

    /// No corner flag is raised together with the flag of an edge that meets
    /// that corner.
    pub open spec fn edges_take_precedence(self) -> bool {
        &&& self.ne_corner ==> !self.n_edge && !self.e_edge
        &&& self.nw_corner ==> !self.n_edge && !self.w_edge
        &&& self.se_corner ==> !self.s_edge && !self.e_edge
        &&& self.sw_corner ==> !self.s_edge && !self.w_edge
    }

    /// Flags are told apart by the overlays that they hold.
    pub proof fn lemma_same_overlays(self, other: ShadowFlags)
        requires
            self@ == other@,
        ensures
            self == other,
    {
        assert(self.raised(Shadow::NEdge) == other@.contains(Shadow::NEdge));
        assert(self.raised(Shadow::SEdge) == other@.contains(Shadow::SEdge));
        assert(self.raised(Shadow::EEdge) == other@.contains(Shadow::EEdge));
        assert(self.raised(Shadow::WEdge) == other@.contains(Shadow::WEdge));
        assert(self.raised(Shadow::NeCorner) == other@.contains(Shadow::NeCorner));
        assert(self.raised(Shadow::NwCorner) == other@.contains(Shadow::NwCorner));
        assert(self.raised(Shadow::SeCorner) == other@.contains(Shadow::SeCorner));
        assert(self.raised(Shadow::SwCorner) == other@.contains(Shadow::SwCorner));
    }

    /// `sole` names an overlay exactly for the values that `just` makes, and
    /// those are the values that hold one overlay and nothing else.
    pub proof fn lemma_sole(self, shadow: Shadow)
        ensures
            self.sole() == Some(shadow) <==> self == ShadowFlags::just(shadow),
            self == ShadowFlags::just(shadow) <==> self@ == set![shadow],
    {
        let one = ShadowFlags::just(shadow);
        assert(one@ =~= set![shadow]);
        if self@ == set![shadow] {
            self.lemma_same_overlays(one);
        }
        if self == one {
            let chosen = choose|other: Shadow| self == ShadowFlags::just(other);
            assert(ShadowFlags::just(chosen).raised(shadow));
        }
    }

    /// The flags with none raised.
    pub fn empty() -> (flags: ShadowFlags)
        ensures
            flags == ShadowFlags::none(),
            flags@ == Set::<Shadow>::empty(),
    {
        let flags = ShadowFlags {
            n_edge: false,
            s_edge: false,
            e_edge: false,
            w_edge: false,
            ne_corner: false,
            nw_corner: false,
            se_corner: false,
            sw_corner: false,
        };
        assert(flags@ =~= Set::<Shadow>::empty());
        flags
    }

    /// The flags with that of `shadow` raised and no other.
    pub fn only(shadow: Shadow) -> (flags: ShadowFlags)
        ensures
            flags == ShadowFlags::just(shadow),
            flags@ == set![shadow],
    {
        let flags = ShadowFlags {
            n_edge: shadow == Shadow::NEdge,
            s_edge: shadow == Shadow::SEdge,
            e_edge: shadow == Shadow::EEdge,
            w_edge: shadow == Shadow::WEdge,
            ne_corner: shadow == Shadow::NeCorner,
            nw_corner: shadow == Shadow::NwCorner,
            se_corner: shadow == Shadow::SeCorner,
            sw_corner: shadow == Shadow::SwCorner,
        };
        assert(flags@ =~= set![shadow]);
        flags
    }

    /// The same flags with that of `shadow` raised as well.
    pub fn with(self, shadow: Shadow) -> (flags: ShadowFlags)
        ensures
            flags == self.raise(shadow),
            flags@ == self@.insert(shadow),
    {
        let flags = self.union(ShadowFlags::only(shadow));
        proof {
            assert(self.raise(shadow)@ =~= self@.insert(shadow));
            assert(flags@ =~= self@.insert(shadow));
            flags.lemma_same_overlays(self.raise(shadow));
        }
        flags
    }

    /// Whether the flag of `shadow` is raised.
    pub fn has(&self, shadow: Shadow) -> (raised: bool)
        ensures
            raised == self@.contains(shadow),
            raised == self.raised(shadow),
    {
        match shadow {
            Shadow::NEdge => self.n_edge,
            Shadow::SEdge => self.s_edge,
            Shadow::EEdge => self.e_edge,
            Shadow::WEdge => self.w_edge,
            Shadow::NeCorner => self.ne_corner,
            Shadow::NwCorner => self.nw_corner,
            Shadow::SeCorner => self.se_corner,
            Shadow::SwCorner => self.sw_corner,
        }
    }

    /// Whether no flag is raised.
    pub fn is_empty(&self) -> (none: bool)
        ensures
            none == (self@ == Set::<Shadow>::empty()),
            none == (*self == ShadowFlags::none()),
    {
        proof {
            if self@ == Set::<Shadow>::empty() {
                assert(ShadowFlags::none()@ =~= Set::<Shadow>::empty());
                self.lemma_same_overlays(ShadowFlags::none());
            }
        }
        *self == ShadowFlags::empty()
    }

    /// The flags raised in `self`, in `other` or in both.
    pub fn union(self, other: ShadowFlags) -> (flags: ShadowFlags)
        ensures
            flags@ == self@.union(other@),
            forall|shadow: Shadow| flags.raised(shadow) == (self.raised(shadow) || other.raised(shadow)),
    {
        let flags = ShadowFlags {
            n_edge: self.n_edge || other.n_edge,
            s_edge: self.s_edge || other.s_edge,
            e_edge: self.e_edge || other.e_edge,
            w_edge: self.w_edge || other.w_edge,
            ne_corner: self.ne_corner || other.ne_corner,
            nw_corner: self.nw_corner || other.nw_corner,
            se_corner: self.se_corner || other.se_corner,
            sw_corner: self.sw_corner || other.sw_corner,
        };
        assert(flags@ =~= self@.union(other@));
        flags
    }

    /// The flags raised in both `self` and `other`.
    pub fn intersection(self, other: ShadowFlags) -> (flags: ShadowFlags)
        ensures
            flags@ == self@.intersect(other@),
            forall|shadow: Shadow| flags.raised(shadow) == (self.raised(shadow) && other.raised(shadow)),
    {
        let flags = ShadowFlags {
            n_edge: self.n_edge && other.n_edge,
            s_edge: self.s_edge && other.s_edge,
            e_edge: self.e_edge && other.e_edge,
            w_edge: self.w_edge && other.w_edge,
            ne_corner: self.ne_corner && other.ne_corner,
            nw_corner: self.nw_corner && other.nw_corner,
            se_corner: self.se_corner && other.se_corner,
            sw_corner: self.sw_corner && other.sw_corner,
        };
        assert(flags@ =~= self@.intersect(other@));
        flags
    }

    /// Whether every flag raised in `other` is raised in `self`.
    pub fn contains(&self, other: ShadowFlags) -> (all: bool)
        ensures
            all == other@.subset_of(self@),
    {
        let common = self.intersection(other);
        proof {
            if other@.subset_of(self@) {
                assert(common@ =~= other@);
                common.lemma_same_overlays(other);
            }
        }
        common == other
    }

    /// Whether some flag is raised in both `self` and `other`.
    pub fn intersects(&self, other: ShadowFlags) -> (some: bool)
        ensures
            some == !self@.disjoint(other@),
            some == exists|shadow: Shadow| self.raised(shadow) && other.raised(shadow),
    {
        let common = self.intersection(other);
        proof {
            if exists|shadow: Shadow| self.raised(shadow) && other.raised(shadow) {
                let shadow = choose|shadow: Shadow| self.raised(shadow) && other.raised(shadow);
                assert(common@.contains(shadow));
                assert(self@.contains(shadow) && other@.contains(shadow));
            } else {
                assert(common@ =~= Set::<Shadow>::empty());
                assert forall|shadow: Shadow| !(self@.contains(shadow) && other@.contains(shadow)) by {
                    assert(!(self.raised(shadow) && other.raised(shadow)));
                }
            }
        }
        !common.is_empty()
    }

    /// The one overlay whose flag is raised, where exactly one is.
    pub fn single(&self) -> (one: Option<Shadow>)
        ensures
            one == self.sole(),
    {
        let order = Shadow::all();
        let mut i: usize = 0;
        while i < 8
            invariant
                i <= 8,
                order@ == Shadow::in_order(),
                forall|j: int| 0 <= j < i ==> *self != ShadowFlags::just(order@[j]),
            decreases 8 - i,
        {
            let shadow = order[i];
            if *self == ShadowFlags::only(shadow) {
                proof {
                    self.lemma_sole(shadow);
                }
                return Some(shadow);
            }
            i += 1;
        }
        proof {
            assert forall|shadow: Shadow| *self != ShadowFlags::just(shadow) by {
                lemma_in_order_is_complete(shadow);
                let j = choose|j: int| 0 <= j < 8 && Shadow::in_order()[j] == shadow;
                assert(*self != ShadowFlags::just(order@[j]));
            }
        }
        None
    }
}

/// Every overlay has its place in the order.
pub proof fn lemma_in_order_is_complete(shadow: Shadow)
    ensures
        exists|j: int| 0 <= j < 8 && Shadow::in_order()[j] == shadow,
{
    let order = Shadow::in_order();
    let j: int = match shadow {
        Shadow::NEdge => 0,
        Shadow::SEdge => 1,
        Shadow::EEdge => 2,
        Shadow::WEdge => 3,
        Shadow::NeCorner => 4,
        Shadow::NwCorner => 5,
        Shadow::SeCorner => 6,
        Shadow::SwCorner => 7,
    };
    assert(order[j] == shadow);
}

/// The shadows that the walls around `pos` cast on it.
///
/// An edge is shadowed where the neighbour across that edge is a wall. A
/// corner is shadowed where the neighbour across that corner is a wall and
/// neither of the two edges that meet there is shadowed.
pub open spec fn shadow_mask(level: Level, pos: Position) -> ShadowFlags {
    let north = pos.step(Direction::Up);
    let south = pos.step(Direction::Down);
    let west = pos.step(Direction::Left);
    let east = pos.step(Direction::Right);
    let n = level.wall_at(north);
    let s = level.wall_at(south);
    let w = level.wall_at(west);
    let e = level.wall_at(east);
    ShadowFlags {
        n_edge: n,
        s_edge: s,
        e_edge: e,
        w_edge: w,
        ne_corner: level.wall_at(north.step(Direction::Right)) && !n && !e,
        nw_corner: level.wall_at(north.step(Direction::Left)) && !n && !w,
        se_corner: level.wall_at(south.step(Direction::Right)) && !s && !e,
        sw_corner: level.wall_at(south.step(Direction::Left)) && !s && !w,
    }
}

/// Whether no position around `pos` is a wall.
pub open spec fn clear_around(level: Level, pos: Position) -> bool {
    forall|other: Position| pos.adjacent(other) ==> !#[trigger] level.wall_at(other)
}

/// A cell with no wall around it, neither across an edge nor across a corner,
/// has no shadow on it.
pub proof fn lemma_no_wall_no_shadow(level: Level, pos: Position)
    requires
        pos.has_surroundings(),
        clear_around(level, pos),
    ensures
        shadow_mask(level, pos) == ShadowFlags::none(),
        shadow_mask(level, pos)@ == Set::<Shadow>::empty(),
{
    let north = pos.step(Direction::Up);
    let south = pos.step(Direction::Down);
    assert(pos.adjacent(north));
    assert(pos.adjacent(south));
    assert(pos.adjacent(pos.step(Direction::Left)));
    assert(pos.adjacent(pos.step(Direction::Right)));
    assert(pos.adjacent(north.step(Direction::Left)));
    assert(pos.adjacent(north.step(Direction::Right)));
    assert(pos.adjacent(south.step(Direction::Left)));
    assert(pos.adjacent(south.step(Direction::Right)));
    assert(ShadowFlags::none()@ =~= Set::<Shadow>::empty());
}

/// Where a corner of a cell is shadowed, neither of the two edges that meet in
/// that corner is.
pub proof fn lemma_edges_take_precedence(level: Level, pos: Position)
    ensures
        shadow_mask(level, pos).edges_take_precedence(),
{
}

/// Returns the shadow flags for a particular position in the given level.
pub fn get_shadow_flags(level: &Level, pos: &Position) -> (flags: ShadowFlags)
    requires
        pos.has_surroundings(),
    ensures
        flags == shadow_mask(*level, *pos),
        flags.edges_take_precedence(),
        clear_around(*level, *pos) ==> flags@ == Set::<Shadow>::empty(),
{
    proof {
        if clear_around(*level, *pos) {
            lemma_no_wall_no_shadow(*level, *pos);
        }
    }
    let north = pos.neighbor(Direction::Up);
    let south = pos.neighbor(Direction::Down);
    let west = pos.neighbor(Direction::Left);
    let east = pos.neighbor(Direction::Right);

    let mut flags = ShadowFlags::empty();
    if level.is_wall(&north) {
        flags = flags.with(Shadow::NEdge);
    }
    if level.is_wall(&south) {
        flags = flags.with(Shadow::SEdge);
    }
    if level.is_wall(&west) {
        flags = flags.with(Shadow::WEdge);
    }
    if level.is_wall(&east) {
        flags = flags.with(Shadow::EEdge);
    }
    if level.is_wall(&north.neighbor(Direction::Right)) && !flags.has(Shadow::NEdge) && !flags.has(
        Shadow::EEdge,
    ) {
        flags = flags.with(Shadow::NeCorner);
    }
    if level.is_wall(&north.neighbor(Direction::Left)) && !flags.has(Shadow::NEdge) && !flags.has(
        Shadow::WEdge,
    ) {
        flags = flags.with(Shadow::NwCorner);
    }
    if level.is_wall(&south.neighbor(Direction::Right)) && !flags.has(Shadow::SEdge) && !flags.has(
        Shadow::EEdge,
    ) {
        flags = flags.with(Shadow::SeCorner);
    }
    if level.is_wall(&south.neighbor(Direction::Left)) && !flags.has(Shadow::SEdge) && !flags.has(
        Shadow::WEdge,
    ) {
        flags = flags.with(Shadow::SwCorner);
    }
    flags
}

} // verus!
