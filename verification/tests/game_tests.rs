use econogenesis::game::GameCore;
use econogenesis::input::action_for_key;
use econogenesis::input::InputAction;
use econogenesis::input::InputHandler;
use econogenesis::input::Key;
use econogenesis::zoom::Direction;
use econogenesis::zoom::ZoomLevel;

#[test]
fn end_to_end_scenario() {
    let mut core = GameCore::new();
    assert!(core.time_controller.is_paused());
    assert_eq!(core.zoom_manager.current_level(), ZoomLevel::Galaxy);
    assert_eq!(core.zoom_manager.position().galaxy_coords, (0, 0));

    assert!(!core.handle_action(InputAction::ZoomIn));
    assert!(!core.handle_action(InputAction::ZoomIn));
    assert_eq!(core.zoom_manager.current_level(), ZoomLevel::Planet);

    assert!(core.zoom_manager.move_in_direction(Direction::Right));
    assert_eq!(core.zoom_manager.position().planet_coords, (1, 0));
    assert_eq!(core.zoom_manager.position().galaxy_coords, (0, 0));
    assert_eq!(core.zoom_manager.position().system_coords, (0, 0));

    assert!(!core.handle_action(InputAction::TogglePause));
    assert!(!core.time_controller.is_paused());
    assert!(!core.handle_action(InputAction::IncreaseSpeed));
    assert_eq!(core.time_controller.speed_multiplier(), 20);

    let delta = core.time_controller.advance(2_000_000_000);
    assert_eq!(delta, 4_000_000_000);
    assert_eq!(core.time_controller.simulation_time(), 4_000_000_000);
}

#[test]
fn six_zoom_ins_from_galaxy_reach_room() {
    let mut core = GameCore::new();
    for _ in 0..6 {
        core.handle_action(InputAction::ZoomIn);
    }
    assert_eq!(core.zoom_manager.current_level(), ZoomLevel::Room);
    // The seventh zoom is a no-op that reports failure.
    assert!(!core.zoom_manager.zoom_in());
    assert_eq!(core.zoom_manager.current_level(), ZoomLevel::Room);
}

#[test]
fn quit_action_stops_the_loop_and_mutates_nothing() {
    let mut core = GameCore::new();
    assert!(core.handle_action(InputAction::Quit));
    assert!(core.time_controller.is_paused());
    assert_eq!(core.time_controller.speed_multiplier(), 10);
    assert_eq!(core.zoom_manager.current_level(), ZoomLevel::Galaxy);
    assert_eq!(core.world_state.tick_count(), 0);
}

#[test]
fn update_counts_one_tick() {
    let mut core = GameCore::new();
    core.update();
    assert_eq!(core.world_state.tick_count(), 1);
    core.update();
    assert_eq!(core.world_state.tick_count(), 2);
}

#[test]
fn snapshot_reflects_fresh_state() {
    let mut core = GameCore::new();
    let snap = core.snapshot();
    assert!(!snap.show_help);
    assert_eq!(snap.time_str, "0s");
    assert!(snap.is_paused);
    assert_eq!(snap.speed_tenths, 10);
    assert_eq!(snap.zoom_level, ZoomLevel::Galaxy);
    assert_eq!(snap.position.galaxy_coords, (0, 0));
    assert_eq!(snap.tick_count, 0);
    assert_eq!(snap.entity_name, "Andromeda Prime");
    assert_eq!(snap.entity_count, 6);

    core.handle_action(InputAction::ZoomIn);
    let snap = core.snapshot();
    assert_eq!(snap.zoom_level, ZoomLevel::SolarSystem);
    assert_eq!(snap.entity_name, "Sol System");
}

#[test]
fn record_action_toggles_help_only() {
    let mut core = GameCore::new();
    core.record_action(InputAction::ZoomIn);
    assert!(!core.input_handler.is_help_visible());
    core.record_action(InputAction::ToggleHelp);
    assert!(core.input_handler.is_help_visible());
    core.record_action(InputAction::ToggleHelp);
    assert!(!core.input_handler.is_help_visible());
}

#[test]
fn input_handler_tracks_help_flag() {
    let mut handler = InputHandler::new();
    assert!(!handler.is_help_visible());
    handler.record_action(InputAction::ToggleHelp);
    assert!(handler.is_help_visible());
    handler.record_action(InputAction::Quit);
    assert!(handler.is_help_visible());
}

#[test]
fn keys_map_to_their_actions() {
    assert_eq!(action_for_key(Key::Char('q')), InputAction::Quit);
    assert_eq!(action_for_key(Key::Char('Q')), InputAction::Quit);
    assert_eq!(action_for_key(Key::Esc), InputAction::Quit);
    assert_eq!(action_for_key(Key::Char(' ')), InputAction::TogglePause);
    assert_eq!(action_for_key(Key::Char('+')), InputAction::IncreaseSpeed);
    assert_eq!(action_for_key(Key::Char('=')), InputAction::IncreaseSpeed);
    assert_eq!(action_for_key(Key::Char('-')), InputAction::DecreaseSpeed);
    assert_eq!(action_for_key(Key::Char('_')), InputAction::DecreaseSpeed);
    assert_eq!(action_for_key(Key::Char('z')), InputAction::ZoomIn);
    assert_eq!(action_for_key(Key::Char('Z')), InputAction::ZoomIn);
    assert_eq!(action_for_key(Key::Char('x')), InputAction::ZoomOut);
    assert_eq!(action_for_key(Key::Char('X')), InputAction::ZoomOut);
    assert_eq!(action_for_key(Key::Char('h')), InputAction::ToggleHelp);
    assert_eq!(action_for_key(Key::Char('H')), InputAction::ToggleHelp);
    assert_eq!(action_for_key(Key::Char('?')), InputAction::ToggleHelp);
    assert_eq!(action_for_key(Key::Char('w')), InputAction::Idle);
    assert_eq!(action_for_key(Key::Other), InputAction::Idle);
}
