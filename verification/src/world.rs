//! Static world data: one record per zoom tier, looked up by entity id in
//! flat tables, plus the world tick counter that the frame loop advances.
//! The tables are read-only after construction; only the tick moves.

use vstd::prelude::*;

use std::collections::HashMap;

use crate::zoom::Position;
use crate::zoom::ZoomLevel;
use crate::zoom::is_origin_position;

verus! {

broadcast use vstd::std_specs::hash::group_hash_axioms;

/// Identifier of one entity of the world, at any tier.
pub type EntityId = u64;

/// The one galaxy of the world.
#[derive(Debug, Clone)]
pub struct GalaxyState {
    pub name: String,
    pub star_count: u64,
}

/// A solar system within the galaxy.
#[derive(Debug, Clone)]
pub struct SolarSystemState {
    pub id: EntityId,
    pub name: String,
    pub planet_count: u32,
}

/// A planet within a solar system.
#[derive(Debug, Clone)]
pub struct PlanetState {
    pub id: EntityId,
    pub name: String,
    pub population: u64,
}

/// A region of a planet's surface.
#[derive(Debug, Clone)]
pub struct RegionState {
    pub id: EntityId,
    pub name: String,
    pub terrain_type: String,
}

/// A local area within a region.
#[derive(Debug, Clone)]
pub struct LocalAreaState {
    pub id: EntityId,
    pub name: String,
    pub building_count: u32,
}

/// A single room within a local area.
#[derive(Debug, Clone)]
pub struct RoomState {
    pub id: EntityId,
    pub name: String,
    pub room_type: String,
}

/// The world: one entity table per tier below the galaxy, queried
/// read-only for display names, and the tick counter.
pub struct WorldState {
    pub tick_count: u64,
    pub player_position: Position,
    pub galaxy: GalaxyState,
    pub systems: HashMap<EntityId, SolarSystemState>,
    pub planets: HashMap<EntityId, PlanetState>,
    pub regions: HashMap<EntityId, RegionState>,
    pub areas: HashMap<EntityId, LocalAreaState>,
    pub rooms: HashMap<EntityId, RoomState>,
}

/// The five entity tables hold exactly the sample records: one entity
/// per tier, each with id 1.
pub open spec fn has_sample_tables(w: WorldState) -> bool {
    &&& w.systems@.len() == 1
    &&& w.systems@.contains_key(1)
    &&& w.systems@[1].id == 1
    &&& w.systems@[1].name@ == "Sol System"@
    &&& w.systems@[1].planet_count == 8
    &&& w.planets@.len() == 1
    &&& w.planets@.contains_key(1)
    &&& w.planets@[1].id == 1
    &&& w.planets@[1].name@ == "Terra"@
    &&& w.planets@[1].population == 7_800_000_000
    &&& w.regions@.len() == 1
    &&& w.regions@.contains_key(1)
    &&& w.regions@[1].id == 1
    &&& w.regions@[1].name@ == "Northern Highlands"@
    &&& w.regions@[1].terrain_type@ == "Mountains"@
    &&& w.areas@.len() == 1
    &&& w.areas@.contains_key(1)
    &&& w.areas@[1].id == 1
    &&& w.areas@[1].name@ == "Market District"@
    &&& w.areas@[1].building_count == 47
    &&& w.rooms@.len() == 1
    &&& w.rooms@.contains_key(1)
    &&& w.rooms@[1].id == 1
    &&& w.rooms@[1].name@ == "Trading Hall"@
    &&& w.rooms@[1].room_type@ == "Commercial"@
}

/// A freshly built world: the sample galaxy and tables.
pub open spec fn is_sample_world(w: WorldState) -> bool {
    &&& w.galaxy.name@ == "Andromeda Prime"@
    &&& w.galaxy.star_count == 1_000_000_000
    &&& has_sample_tables(w)
}

impl Default for WorldState {
    /// Same as `WorldState::new`: the sample world at tick zero.
    fn default() -> (r: Self)
        ensures
            r.tick_count == 0,
            is_origin_position(r.player_position),
            is_sample_world(r),
    {
        WorldState::new()
    }
}

/// The display name the world gives for tier `l`: the name of entity 1
/// at that tier, or a placeholder where that entity is missing.
pub open spec fn entity_name_at(w: WorldState, l: ZoomLevel) -> Seq<char> {
    match l {
        ZoomLevel::Galaxy => w.galaxy.name@,
        ZoomLevel::SolarSystem => if w.systems@.contains_key(1) {
            w.systems@[1].name@
        } else {
            "Unknown System"@
        },
        ZoomLevel::Planet => if w.planets@.contains_key(1) {
            w.planets@[1].name@
        } else {
            "Unknown Planet"@
        },
        ZoomLevel::Region => if w.regions@.contains_key(1) {
            w.regions@[1].name@
        } else {
            "Unknown Region"@
        },
        ZoomLevel::LocalArea => if w.areas@.contains_key(1) {
            w.areas@[1].name@
        } else {
            "Unknown Area"@
        },
        ZoomLevel::Room => if w.rooms@.contains_key(1) {
            w.rooms@[1].name@
        } else {
            "Unknown Room"@
        },
    }
}

impl WorldState {
    /// A world at tick zero, with the player at the origin and the
    /// sample entities in place.
    pub fn new() -> (r: Self)
        ensures
            r.tick_count == 0,
            is_origin_position(r.player_position),
            is_sample_world(r),
    {
        let mut state = WorldState {
            tick_count: 0,
            player_position: Position::new(),
            galaxy: GalaxyState { name: "Andromeda Prime".to_owned(), star_count: 1_000_000_000 },
            systems: HashMap::new(),
            planets: HashMap::new(),
            regions: HashMap::new(),
            areas: HashMap::new(),
            rooms: HashMap::new(),
        };
        state.initialize_sample_data();
        state
    }

    /// Fills the empty entity tables with the sample world: one entity
    /// per tier, each with id 1.
    fn initialize_sample_data(&mut self)
        requires
            old(self).systems@ == Map::<EntityId, SolarSystemState>::empty(),
            old(self).planets@ == Map::<EntityId, PlanetState>::empty(),
            old(self).regions@ == Map::<EntityId, RegionState>::empty(),
            old(self).areas@ == Map::<EntityId, LocalAreaState>::empty(),
            old(self).rooms@ == Map::<EntityId, RoomState>::empty(),
        ensures
            has_sample_tables(*final(self)),
            final(self).tick_count == old(self).tick_count,
            final(self).player_position == old(self).player_position,
            final(self).galaxy == old(self).galaxy,
    {
        self.systems.insert(
            1,
            SolarSystemState { id: 1, name: "Sol System".to_owned(), planet_count: 8 },
        );

        self.planets.insert(
            1,
            PlanetState { id: 1, name: "Terra".to_owned(), population: 7_800_000_000 },
        );

        self.regions.insert(
            1,
            RegionState {
                id: 1,
                name: "Northern Highlands".to_owned(),
                terrain_type: "Mountains".to_owned(),
            },
        );

        self.areas.insert(
            1,
            LocalAreaState { id: 1, name: "Market District".to_owned(), building_count: 47 },
        );

        self.rooms.insert(
            1,
            RoomState { id: 1, name: "Trading Hall".to_owned(), room_type: "Commercial".to_owned() },
        );

        proof {
            assert(self.systems@.dom() =~= set![1u64]);
            assert(self.planets@.dom() =~= set![1u64]);
            assert(self.regions@.dom() =~= set![1u64]);
            assert(self.areas@.dom() =~= set![1u64]);
            assert(self.rooms@.dom() =~= set![1u64]);
        }
    }

    /// Counts one world tick; everything else is untouched.
    pub fn update(&mut self, _delta_nanos: u64)
        requires
            old(self).tick_count < u64::MAX,
        ensures
            final(self).tick_count == old(self).tick_count + 1,
            final(self).player_position == old(self).player_position,
            final(self).galaxy == old(self).galaxy,
            final(self).systems@ == old(self).systems@,
            final(self).planets@ == old(self).planets@,
            final(self).regions@ == old(self).regions@,
            final(self).areas@ == old(self).areas@,
            final(self).rooms@ == old(self).rooms@,
    {
        self.tick_count = self.tick_count + 1;
    }

    /// The number of ticks counted so far.
    pub fn tick_count(&self) -> (r: u64)
        ensures
            r == self.tick_count,
    {
        self.tick_count
    }

    /// The player's stored position.
    pub fn player_position(&self) -> (r: &Position)
        ensures
            *r == self.player_position,
    {
        &self.player_position
    }

    /// The galaxy record.
    pub fn galaxy(&self) -> (r: &GalaxyState)
        ensures
            *r == self.galaxy,
    {
        &self.galaxy
    }

    /// Looks a solar system up by id.
    pub fn get_system(&self, id: EntityId) -> (r: Option<&SolarSystemState>)
        ensures
            r is Some <==> self.systems@.contains_key(id),
            (match r {
                Some(v) => *v == self.systems@[id],
                None => true,
            }),
    {
        self.systems.get(&id)
    }

    /// Looks a planet up by id.
    pub fn get_planet(&self, id: EntityId) -> (r: Option<&PlanetState>)
        ensures
            r is Some <==> self.planets@.contains_key(id),
            (match r {
                Some(v) => *v == self.planets@[id],
                None => true,
            }),
    {
        self.planets.get(&id)
    }

    /// Looks a region up by id.
    pub fn get_region(&self, id: EntityId) -> (r: Option<&RegionState>)
        ensures
            r is Some <==> self.regions@.contains_key(id),
            (match r {
                Some(v) => *v == self.regions@[id],
                None => true,
            }),
    {
        self.regions.get(&id)
    }

    /// Looks a local area up by id.
    pub fn get_area(&self, id: EntityId) -> (r: Option<&LocalAreaState>)
        ensures
            r is Some <==> self.areas@.contains_key(id),
            (match r {
                Some(v) => *v == self.areas@[id],
                None => true,
            }),
    {
        self.areas.get(&id)
    }

    /// Looks a room up by id.
    pub fn get_room(&self, id: EntityId) -> (r: Option<&RoomState>)
        ensures
            r is Some <==> self.rooms@.contains_key(id),
            (match r {
                Some(v) => *v == self.rooms@[id],
                None => true,
            }),
    {
        self.rooms.get(&id)
    }

    /// The display name for the given tier: the name of entity 1 at that
    /// tier, or a placeholder where that entity is missing.
    pub fn get_current_entity_name(&self, zoom_level: ZoomLevel) -> (r: String)
        ensures
            r@ == entity_name_at(*self, zoom_level),
    {
        match zoom_level {
            ZoomLevel::Galaxy => self.galaxy.name.clone(),
            ZoomLevel::SolarSystem => match self.systems.get(&1) {
                Some(s) => s.name.clone(),
                None => "Unknown System".to_owned(),
            },
            ZoomLevel::Planet => match self.planets.get(&1) {
                Some(p) => p.name.clone(),
                None => "Unknown Planet".to_owned(),
            },
            ZoomLevel::Region => match self.regions.get(&1) {
                Some(r) => r.name.clone(),
                None => "Unknown Region".to_owned(),
            },
            ZoomLevel::LocalArea => match self.areas.get(&1) {
                Some(a) => a.name.clone(),
                None => "Unknown Area".to_owned(),
            },
            ZoomLevel::Room => match self.rooms.get(&1) {
                Some(r) => r.name.clone(),
                None => "Unknown Room".to_owned(),
            },
        }
    }

    /// How many entities the world holds: the galaxy plus every entry of
    /// the five tables.
    pub fn entity_count(&self) -> (r: usize)
        requires
            1 + self.systems@.len() + self.planets@.len() + self.regions@.len()
                + self.areas@.len() + self.rooms@.len() <= usize::MAX,
        ensures
            r == 1 + self.systems@.len() + self.planets@.len() + self.regions@.len()
                + self.areas@.len() + self.rooms@.len(),
    {
        1 + self.systems.len() + self.planets.len() + self.regions.len() + self.areas.len()
            + self.rooms.len()
    }
}

} // verus!
