use econogenesis::world::WorldState;
use econogenesis::zoom::ZoomLevel;

#[test]
fn test_world_state_initialization() {
    let state = WorldState::new();
    assert_eq!(state.tick_count(), 0);
    assert_eq!(state.galaxy().name, "Andromeda Prime");
    assert_eq!(state.entity_count(), 6);
}

#[test]
fn test_world_state_update() {
    let mut state = WorldState::new();
    state.update(1_000_000_000);
    assert_eq!(state.tick_count(), 1);
    state.update(1_000_000_000);
    assert_eq!(state.tick_count(), 2);
}

#[test]
fn test_sample_data_exists() {
    let state = WorldState::new();
    assert!(state.get_system(1).is_some());
    assert!(state.get_planet(1).is_some());
    assert!(state.get_region(1).is_some());
    assert!(state.get_area(1).is_some());
    assert!(state.get_room(1).is_some());
}

#[test]
fn test_current_entity_name() {
    let state = WorldState::new();
    assert_eq!(
        state.get_current_entity_name(ZoomLevel::Galaxy),
        "Andromeda Prime"
    );
    assert_eq!(
        state.get_current_entity_name(ZoomLevel::SolarSystem),
        "Sol System"
    );
    assert_eq!(state.get_current_entity_name(ZoomLevel::Planet), "Terra");
    assert_eq!(
        state.get_current_entity_name(ZoomLevel::Region),
        "Northern Highlands"
    );
    assert_eq!(
        state.get_current_entity_name(ZoomLevel::LocalArea),
        "Market District"
    );
    assert_eq!(
        state.get_current_entity_name(ZoomLevel::Room),
        "Trading Hall"
    );
}

#[test]
fn test_player_position() {
    let state = WorldState::new();
    let pos = state.player_position();
    assert_eq!(pos.galaxy_coords, (0, 0));
}

#[test]
fn missing_entities_get_placeholder_names() {
    let mut state = WorldState::new();
    state.systems.clear();
    state.planets.clear();
    state.regions.clear();
    state.areas.clear();
    state.rooms.clear();
    assert_eq!(
        state.get_current_entity_name(ZoomLevel::SolarSystem),
        "Unknown System"
    );
    assert_eq!(
        state.get_current_entity_name(ZoomLevel::Planet),
        "Unknown Planet"
    );
    assert_eq!(
        state.get_current_entity_name(ZoomLevel::Region),
        "Unknown Region"
    );
    assert_eq!(
        state.get_current_entity_name(ZoomLevel::LocalArea),
        "Unknown Area"
    );
    assert_eq!(
        state.get_current_entity_name(ZoomLevel::Room),
        "Unknown Room"
    );
}

#[test]
fn sample_records_hold_their_fields() {
    let state = WorldState::new();
    let system = state.get_system(1).unwrap();
    assert_eq!(system.id, 1);
    assert_eq!(system.planet_count, 8);
    let planet = state.get_planet(1).unwrap();
    assert_eq!(planet.population, 7_800_000_000);
    let region = state.get_region(1).unwrap();
    assert_eq!(region.terrain_type, "Mountains");
    let area = state.get_area(1).unwrap();
    assert_eq!(area.building_count, 47);
    let room = state.get_room(1).unwrap();
    assert_eq!(room.room_type, "Commercial");
    assert!(state.get_system(2).is_none());
    assert_eq!(state.galaxy().star_count, 1_000_000_000);
}
