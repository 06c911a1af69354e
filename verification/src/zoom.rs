//! The zoom state machine: six strictly ordered resolution tiers, one
//! independent coordinate plane per tier, and unit movement within the
//! current tier.

use vstd::prelude::*;

use crate::world::EntityId;

verus! {

/// One of the six resolution tiers, ordered from finest (`Room`) to
/// coarsest (`Galaxy`).
#[derive(Clone, Copy, Debug, PartialEq, Eq, Structural, PartialOrd, Ord)]
pub enum ZoomLevel {
    Room,
    LocalArea,
    Region,
    Planet,
    SolarSystem,
    Galaxy,
}

/// Rank of a tier in the ordering: 0 for the finest, 5 for the coarsest.
pub open spec fn level_index(l: ZoomLevel) -> int {
    match l {
        ZoomLevel::Room => 0,
        ZoomLevel::LocalArea => 1,
        ZoomLevel::Region => 2,
        ZoomLevel::Planet => 3,
        ZoomLevel::SolarSystem => 4,
        ZoomLevel::Galaxy => 5,
    }
}

/// The next finer tier, if any.
pub open spec fn finer_level(l: ZoomLevel) -> Option<ZoomLevel> {
    match l {
        ZoomLevel::Galaxy => Some(ZoomLevel::SolarSystem),
        ZoomLevel::SolarSystem => Some(ZoomLevel::Planet),
        ZoomLevel::Planet => Some(ZoomLevel::Region),
        ZoomLevel::Region => Some(ZoomLevel::LocalArea),
        ZoomLevel::LocalArea => Some(ZoomLevel::Room),
        ZoomLevel::Room => None,
    }
}

/// The next coarser tier, if any.
pub open spec fn coarser_level(l: ZoomLevel) -> Option<ZoomLevel> {
    match l {
        ZoomLevel::Room => Some(ZoomLevel::LocalArea),
        ZoomLevel::LocalArea => Some(ZoomLevel::Region),
        ZoomLevel::Region => Some(ZoomLevel::Planet),
        ZoomLevel::Planet => Some(ZoomLevel::SolarSystem),
        ZoomLevel::SolarSystem => Some(ZoomLevel::Galaxy),
        ZoomLevel::Galaxy => None,
    }
}

/// Human-readable name of a tier.
pub open spec fn level_label(l: ZoomLevel) -> Seq<char> {
    match l {
        ZoomLevel::Room => "Room"@,
        ZoomLevel::LocalArea => "Local Area"@,
        ZoomLevel::Region => "Region"@,
        ZoomLevel::Planet => "Planet"@,
        ZoomLevel::SolarSystem => "Solar System"@,
        ZoomLevel::Galaxy => "Galaxy"@,
    }
}

impl ZoomLevel {
    /// The next finer tier, or `None` at `Room`, the finest.
    pub fn zoom_in(self) -> (r: Option<ZoomLevel>)
        ensures
            r == finer_level(self),
    {
        match self {
            ZoomLevel::Galaxy => Some(ZoomLevel::SolarSystem),
            ZoomLevel::SolarSystem => Some(ZoomLevel::Planet),
            ZoomLevel::Planet => Some(ZoomLevel::Region),
            ZoomLevel::Region => Some(ZoomLevel::LocalArea),
            ZoomLevel::LocalArea => Some(ZoomLevel::Room),
            ZoomLevel::Room => None,
        }
    }

    /// The next coarser tier, or `None` at `Galaxy`, the coarsest.
    pub fn zoom_out(self) -> (r: Option<ZoomLevel>)
        ensures
            r == coarser_level(self),
    {
        match self {
            ZoomLevel::Room => Some(ZoomLevel::LocalArea),
            ZoomLevel::LocalArea => Some(ZoomLevel::Region),
            ZoomLevel::Region => Some(ZoomLevel::Planet),
            ZoomLevel::Planet => Some(ZoomLevel::SolarSystem),
            ZoomLevel::SolarSystem => Some(ZoomLevel::Galaxy),
            ZoomLevel::Galaxy => None,
        }
    }

    /// Display name of the tier.
    pub fn label(&self) -> (r: String)
        ensures
            r@ == level_label(*self),
    {
        match self {
            ZoomLevel::Room => "Room".to_owned(),
            ZoomLevel::LocalArea => "Local Area".to_owned(),
            ZoomLevel::Region => "Region".to_owned(),
            ZoomLevel::Planet => "Planet".to_owned(),
            ZoomLevel::SolarSystem => "Solar System".to_owned(),
            ZoomLevel::Galaxy => "Galaxy".to_owned(),
        }
    }
}

/// A cardinal movement direction on a tier's coordinate plane.
#[derive(Clone, Copy, Debug, PartialEq, Eq, Structural)]
pub enum Direction {
    Up,
    Down,
    Left,
    Right,
}

/// The unit offset in `(x, y)` that a direction stands for; the y axis
/// grows downward, as on a terminal screen.
pub open spec fn direction_offset(d: Direction) -> (int, int) {
    match d {
        Direction::Up => (0, -1),
        Direction::Down => (0, 1),
        Direction::Left => (-1, 0),
        Direction::Right => (1, 0),
    }
}

impl Direction {
    /// The unit offset in `(x, y)` that this direction stands for.
    pub fn to_offset(&self) -> (r: (i32, i32))
        ensures
            (r.0 as int, r.1 as int) == direction_offset(*self),
    {
        match self {
            Direction::Up => (0, -1),
            Direction::Down => (0, 1),
            Direction::Left => (-1, 0),
            Direction::Right => (1, 0),
        }
    }
}

/// Where the viewer stands: one independent integer coordinate pair per
/// tier, and (except at `Galaxy`) an optional link to the entity the
/// viewer currently occupies at that tier.
#[derive(Clone, Copy, Debug)]
pub struct Position {
    pub current_system_id: Option<EntityId>,
    pub current_planet_id: Option<EntityId>,
    pub current_region_id: Option<EntityId>,
    pub current_area_id: Option<EntityId>,
    pub current_room_id: Option<EntityId>,

    pub galaxy_coords: (i32, i32),
    pub system_coords: (i32, i32),
    pub planet_coords: (i32, i32),
    pub region_coords: (i32, i32),
    pub area_coords: (i32, i32),
    pub room_coords: (i32, i32),
}

/// The coordinate pair that `p` stores for tier `l`.
pub open spec fn coords_at(p: Position, l: ZoomLevel) -> (i32, i32) {
    match l {
        ZoomLevel::Galaxy => p.galaxy_coords,
        ZoomLevel::SolarSystem => p.system_coords,
        ZoomLevel::Planet => p.planet_coords,
        ZoomLevel::Region => p.region_coords,
        ZoomLevel::LocalArea => p.area_coords,
        ZoomLevel::Room => p.room_coords,
    }
}

/// The entity link that `p` stores for tier `l`; always `None` at
/// `Galaxy`, which has no enclosing entity.
pub open spec fn entity_at(p: Position, l: ZoomLevel) -> Option<EntityId> {
    match l {
        ZoomLevel::Galaxy => None,
        ZoomLevel::SolarSystem => p.current_system_id,
        ZoomLevel::Planet => p.current_planet_id,
        ZoomLevel::Region => p.current_region_id,
        ZoomLevel::LocalArea => p.current_area_id,
        ZoomLevel::Room => p.current_room_id,
    }
}

/// A position with every coordinate pair at the origin and every entity
/// link unset: the state at application start.
pub open spec fn is_origin_position(p: Position) -> bool {
    &&& forall|l: ZoomLevel| #[trigger] coords_at(p, l) == (0i32, 0i32)
    &&& p.current_system_id is None
    &&& p.current_planet_id is None
    &&& p.current_region_id is None
    &&& p.current_area_id is None
    &&& p.current_room_id is None
}

impl Position {
    /// A position at the origin of every tier, with no entity links.
    pub fn new() -> (r: Self)
        ensures
            is_origin_position(r),
    {
        Position {
            current_system_id: None,
            current_planet_id: None,
            current_region_id: None,
            current_area_id: None,
            current_room_id: None,
            galaxy_coords: (0, 0),
            system_coords: (0, 0),
            planet_coords: (0, 0),
            region_coords: (0, 0),
            area_coords: (0, 0),
            room_coords: (0, 0),
        }
    }

    /// The coordinate pair stored for `level`.
    pub fn coords_for_level(&self, level: ZoomLevel) -> (r: (i32, i32))
        ensures
            r == coords_at(*self, level),
    {
        match level {
            ZoomLevel::Galaxy => self.galaxy_coords,
            ZoomLevel::SolarSystem => self.system_coords,
            ZoomLevel::Planet => self.planet_coords,
            ZoomLevel::Region => self.region_coords,
            ZoomLevel::LocalArea => self.area_coords,
            ZoomLevel::Room => self.room_coords,
        }
    }

    /// Replaces the coordinate pair stored for `level`; every other
    /// tier's pair and every entity link is untouched.
    pub fn set_coords_for_level(&mut self, level: ZoomLevel, coords: (i32, i32))
        ensures
            coords_at(*final(self), level) == coords,
            forall|l: ZoomLevel|
                l != level ==> #[trigger] coords_at(*final(self), l) == coords_at(*old(self), l),
            forall|l: ZoomLevel| #[trigger]
                entity_at(*final(self), l) == entity_at(*old(self), l),
    {
        match level {
            ZoomLevel::Galaxy => self.galaxy_coords = coords,
            ZoomLevel::SolarSystem => self.system_coords = coords,
            ZoomLevel::Planet => self.planet_coords = coords,
            ZoomLevel::Region => self.region_coords = coords,
            ZoomLevel::LocalArea => self.area_coords = coords,
            ZoomLevel::Room => self.room_coords = coords,
        }
    }

    /// The entity link stored for `level`; `None` at `Galaxy`.
    pub fn current_entity_id(&self, level: ZoomLevel) -> (r: Option<EntityId>)
        ensures
            r == entity_at(*self, level),
    {
        match level {
            ZoomLevel::Galaxy => None,
            ZoomLevel::SolarSystem => self.current_system_id,
            ZoomLevel::Planet => self.current_planet_id,
            ZoomLevel::Region => self.current_region_id,
            ZoomLevel::LocalArea => self.current_area_id,
            ZoomLevel::Room => self.current_room_id,
        }
    }
}

impl Default for Position {
    /// Same as `Position::new`: the origin position.
    fn default() -> (r: Self)
        ensures
            is_origin_position(r),
    {
        Position::new()
    }
}

/// The zoom state machine: the current tier together with the viewer's
/// position at every tier.
pub struct ZoomManager {
    pub current_level: ZoomLevel,
    pub position: Position,
}

impl ZoomManager {
    /// Starts at the coarsest tier, `Galaxy`, with the position at the
    /// origin everywhere.
    pub fn new() -> (r: Self)
        ensures
            r.current_level == ZoomLevel::Galaxy,
            is_origin_position(r.position),
    {
        ZoomManager { current_level: ZoomLevel::Galaxy, position: Position::new() }
    }

    /// The tier the viewer is at.
    pub fn current_level(&self) -> (r: ZoomLevel)
        ensures
            r == self.current_level,
    {
        self.current_level
    }

    /// The viewer's position.
    pub fn position(&self) -> (r: &Position)
        ensures
            *r == self.position,
    {
        &self.position
    }

    /// Moves one tier finer; at `Room` it is a no-op and returns false.
    /// The position is untouched either way.
    pub fn zoom_in(&mut self) -> (moved: bool)
        ensures
            moved == finer_level(old(self).current_level) is Some,
            final(self).current_level == (match finer_level(old(self).current_level) {
                Some(l) => l,
                None => old(self).current_level,
            }),
            final(self).position == old(self).position,
    {
        if let Some(new_level) = self.current_level.zoom_in() {
            self.current_level = new_level;
            true
        } else {
            false
        }
    }

    /// Moves one tier coarser; at `Galaxy` it is a no-op and returns
    /// false. The position is untouched either way.
    pub fn zoom_out(&mut self) -> (moved: bool)
        ensures
            moved == coarser_level(old(self).current_level) is Some,
            final(self).current_level == (match coarser_level(old(self).current_level) {
                Some(l) => l,
                None => old(self).current_level,
            }),
            final(self).position == old(self).position,
    {
        if let Some(new_level) = self.current_level.zoom_out() {
            self.current_level = new_level;
            true
        } else {
            false
        }
    }

    /// Adds the direction's unit offset to the coordinate pair of the
    /// current tier only; the five other tiers' pairs and all entity
    /// links are bit-for-bit unchanged. Movement is unbounded by design,
    /// so it always succeeds.
    pub fn move_in_direction(&mut self, direction: Direction) -> (moved: bool)
        requires
            i32::MIN <= coords_at(old(self).position, old(self).current_level).0 as int
                + direction_offset(direction).0 <= i32::MAX,
            i32::MIN <= coords_at(old(self).position, old(self).current_level).1 as int
                + direction_offset(direction).1 <= i32::MAX,
        ensures
            moved,
            final(self).current_level == old(self).current_level,
            coords_at(final(self).position, old(self).current_level).0 as int == coords_at(
                old(self).position,
                old(self).current_level,
            ).0 as int + direction_offset(direction).0,
            coords_at(final(self).position, old(self).current_level).1 as int == coords_at(
                old(self).position,
                old(self).current_level,
            ).1 as int + direction_offset(direction).1,
            forall|l: ZoomLevel|
                l != old(self).current_level ==> #[trigger] coords_at(final(self).position, l)
                    == coords_at(old(self).position, l),
            forall|l: ZoomLevel| #[trigger]
                entity_at(final(self).position, l) == entity_at(old(self).position, l),
    {
        let current_coords = self.position.coords_for_level(self.current_level);
        let offset = direction.to_offset();
        let new_coords = (current_coords.0 + offset.0, current_coords.1 + offset.1);

        self.position.set_coords_for_level(self.current_level, new_coords);
        true
    }

    /// Mutable access to the position, for callers that link entity ids;
    /// the current tier is untouched however the borrow is used.
    pub fn position_mut(&mut self) -> (r: &mut Position)
        ensures
            *r == old(self).position,
            *final(self) == (ZoomManager {
                current_level: old(self).current_level,
                position: *final(r),
            }),
    {
        &mut self.position
    }
}

impl Default for ZoomManager {
    /// Same as `ZoomManager::new`: the coarsest tier, origin position.
    fn default() -> (r: Self)
        ensures
            r.current_level == ZoomLevel::Galaxy,
            is_origin_position(r.position),
    {
        ZoomManager::new()
    }
}

/// One zoom transition as the state machine performs it: a step inward
/// when `inward` holds, else a step outward, clamped at the extremes.
pub open spec fn zoom_step(l: ZoomLevel, inward: bool) -> ZoomLevel {
    if inward {
        match finer_level(l) {
            Some(n) => n,
            None => l,
        }
    } else {
        match coarser_level(l) {
            Some(n) => n,
            None => l,
        }
    }
}

/// The tier reached from `l` after the given zoom transitions, each one
/// inward (true) or outward (false).
pub open spec fn apply_zoom_steps(l: ZoomLevel, ops: Seq<bool>) -> ZoomLevel
    decreases ops.len(),
{
    if ops.len() == 0 {
        l
    } else {
        apply_zoom_steps(zoom_step(l, ops[0]), ops.subrange(1, ops.len() as int))
    }
}

/// Law: one zoom transition changes the tier's rank by exactly one,
/// except at the extremes, where it stays put.
pub proof fn lemma_zoom_step_is_unit(l: ZoomLevel, inward: bool)
    ensures
        level_index(zoom_step(l, inward)) == (if inward {
            if level_index(l) == 0 {
                0int
            } else {
                level_index(l) - 1
            }
        } else {
            if level_index(l) == 5 {
                5int
            } else {
                level_index(l) + 1
            }
        }),
{
}

/// Law: however long a sequence of zoom transitions runs, the tier it
/// reaches never leaves the six-tier ordered set.
pub proof fn lemma_zoom_stays_in_tiers(l: ZoomLevel, ops: Seq<bool>)
    ensures
        0 <= level_index(apply_zoom_steps(l, ops)) <= 5,
    decreases ops.len(),
{
    if ops.len() > 0 {
        lemma_zoom_stays_in_tiers(zoom_step(l, ops[0]), ops.subrange(1, ops.len() as int));
    }
}

} // verus!
