//! The frame loop's core: everything the loop decides and mutates each
//! frame — dispatching an input action, advancing clock and tick while
//! unpaused, and capturing the snapshot a frame draw needs. The terminal
//! itself (polling, drawing, sleeping) stays outside.

use vstd::prelude::*;

use crate::input::InputAction;
use crate::input::InputHandler;
use crate::time::TimeController;
use crate::time::next_rung_down;
use crate::time::next_rung_up;
use crate::time::time_text;
use crate::world::WorldState;
use crate::world::is_sample_world;
use crate::world::entity_name_at;
use crate::zoom::Position;
use crate::zoom::ZoomLevel;
use crate::zoom::ZoomManager;
use crate::zoom::is_origin_position;
use crate::zoom::zoom_step;

verus! {

/// Everything one frame draw needs, captured from the core state.
pub struct RenderState {
    pub show_help: bool,
    pub time_str: String,
    pub is_paused: bool,
    pub speed_tenths: u64,
    pub zoom_level: ZoomLevel,
    pub position: Position,
    pub tick_count: u64,
    pub entity_name: String,
    pub entity_count: usize,
}

/// The world tables hold few enough entities that counting them cannot
/// overflow a `usize`.
pub open spec fn countable_world(w: WorldState) -> bool {
    1 + w.systems@.len() + w.planets@.len() + w.regions@.len() + w.areas@.len() + w.rooms@.len()
        <= usize::MAX
}

/// The core the frame loop orchestrates: the simulation clock, the zoom
/// state machine, the world, and the help flag.
pub struct GameCore {
    pub time_controller: TimeController,
    pub zoom_manager: ZoomManager,
    pub world_state: WorldState,
    pub input_handler: InputHandler,
}

impl GameCore {
    /// The state at application start: paused at 1.0x with no simulation
    /// time, at the Galaxy tier with the origin position, a fresh sample
    /// world at tick zero, and the help overlay hidden.
    pub fn new() -> (r: Self)
        ensures
            r.time_controller.is_paused,
            r.time_controller.speed_tenths == 10,
            r.time_controller.simulation_nanos == 0,
            r.time_controller.target_fps == 30,
            r.zoom_manager.current_level == ZoomLevel::Galaxy,
            is_origin_position(r.zoom_manager.position),
            r.world_state.tick_count == 0,
            is_sample_world(r.world_state),
            !r.input_handler.show_help,
    {
        GameCore {
            time_controller: TimeController::new(30),
            zoom_manager: ZoomManager::new(),
            world_state: WorldState::new(),
            input_handler: InputHandler::new(),
        }
    }

    /// Dispatches one input action: quit is only reported; pause and
    /// speed actions go to the clock; zoom actions go to the zoom state
    /// machine; the help toggle and idle actions mutate nothing here.
    pub fn handle_action(&mut self, action: InputAction) -> (quit: bool)
        ensures
            quit == (action == InputAction::Quit),
            final(self).world_state == old(self).world_state,
            final(self).input_handler == old(self).input_handler,
            final(self).zoom_manager.position == old(self).zoom_manager.position,
            final(self).time_controller.target_fps == old(self).time_controller.target_fps,
            (action == InputAction::ZoomIn ==> final(self).zoom_manager.current_level == zoom_step(
                old(self).zoom_manager.current_level,
                true,
            )),
            (action == InputAction::ZoomOut ==> final(self).zoom_manager.current_level == zoom_step(
                old(self).zoom_manager.current_level,
                false,
            )),
            (action != InputAction::ZoomIn && action != InputAction::ZoomOut ==> final(self).zoom_manager.current_level == old(self).zoom_manager.current_level),
            (action == InputAction::TogglePause ==> final(self).time_controller.is_paused == !old(self).time_controller.is_paused),
            (action != InputAction::TogglePause ==> final(self).time_controller.is_paused == old(self).time_controller.is_paused),
            (action == InputAction::IncreaseSpeed ==> final(self).time_controller.speed_tenths
                == next_rung_up(old(self).time_controller.speed_tenths)),
            (action == InputAction::DecreaseSpeed ==> final(self).time_controller.speed_tenths
                == next_rung_down(old(self).time_controller.speed_tenths)),
            (action != InputAction::IncreaseSpeed && action != InputAction::DecreaseSpeed ==> final(self).time_controller.speed_tenths == old(self).time_controller.speed_tenths),
            final(self).time_controller.simulation_nanos == old(self).time_controller.simulation_nanos,
    {
        match action {
            InputAction::Quit => true,
            InputAction::TogglePause => {
                self.time_controller.toggle_pause();
                false
            },
            InputAction::IncreaseSpeed => {
                self.time_controller.increase_speed();
                false
            },
            InputAction::DecreaseSpeed => {
                self.time_controller.decrease_speed();
                false
            },
            InputAction::ZoomIn => {
                self.zoom_manager.zoom_in();
                false
            },
            InputAction::ZoomOut => {
                self.zoom_manager.zoom_out();
                false
            },
            InputAction::ToggleHelp => false,
            InputAction::Idle => false,
        }
    }

    /// Notes an action on the help flag: the help toggle flips it,
    /// everything else leaves it. Kept apart from `handle_action` so the
    /// flag follows the action exactly as polled.
    pub fn record_action(&mut self, action: InputAction)
        ensures
            final(self).input_handler.show_help == (if action == InputAction::ToggleHelp {
                !old(self).input_handler.show_help
            } else {
                old(self).input_handler.show_help
            }),
            final(self).time_controller == old(self).time_controller,
            final(self).zoom_manager == old(self).zoom_manager,
            final(self).world_state == old(self).world_state,
    {
        self.input_handler.record_action(action);
    }

    /// One unpaused frame step: scales the elapsed wall time onto the
    /// simulation clock and counts one world tick.
    pub fn update(&mut self)
        requires
            old(self).world_state.tick_count < u64::MAX,
        ensures
            final(self).world_state.tick_count == old(self).world_state.tick_count + 1,
            final(self).world_state.player_position == old(self).world_state.player_position,
            final(self).world_state.galaxy == old(self).world_state.galaxy,
            final(self).world_state.systems@ == old(self).world_state.systems@,
            final(self).world_state.planets@ == old(self).world_state.planets@,
            final(self).world_state.regions@ == old(self).world_state.regions@,
            final(self).world_state.areas@ == old(self).world_state.areas@,
            final(self).world_state.rooms@ == old(self).world_state.rooms@,
            final(self).zoom_manager == old(self).zoom_manager,
            final(self).input_handler == old(self).input_handler,
            final(self).time_controller.is_paused == old(self).time_controller.is_paused,
            final(self).time_controller.speed_tenths == old(self).time_controller.speed_tenths,
            final(self).time_controller.target_fps == old(self).time_controller.target_fps,
            old(self).time_controller.is_paused ==> final(self).time_controller.simulation_nanos
                == old(self).time_controller.simulation_nanos,
    {
        let delta = self.time_controller.step();
        self.world_state.update(delta);
    }

    /// Captures the snapshot a frame draw needs, unchanged state aside.
    pub fn snapshot(&self) -> (r: RenderState)
        requires
            countable_world(self.world_state),
        ensures
            r.show_help == self.input_handler.show_help,
            r.time_str@ == time_text(
                (self.time_controller.simulation_nanos / 1_000_000_000) as nat,
            ),
            r.is_paused == self.time_controller.is_paused,
            r.speed_tenths == self.time_controller.speed_tenths,
            r.zoom_level == self.zoom_manager.current_level,
            r.position == self.zoom_manager.position,
            r.tick_count == self.world_state.tick_count,
            r.entity_name@ == entity_name_at(self.world_state, self.zoom_manager.current_level),
            r.entity_count == 1 + self.world_state.systems@.len()
                + self.world_state.planets@.len() + self.world_state.regions@.len()
                + self.world_state.areas@.len() + self.world_state.rooms@.len(),
    {
        let zoom_level = self.zoom_manager.current_level();
        RenderState {
            show_help: self.input_handler.is_help_visible(),
            time_str: self.time_controller.format_time(),
            is_paused: self.time_controller.is_paused(),
            speed_tenths: self.time_controller.speed_multiplier(),
            zoom_level,
            position: *self.zoom_manager.position(),
            tick_count: self.world_state.tick_count(),
            entity_name: self.world_state.get_current_entity_name(zoom_level),
            entity_count: self.world_state.entity_count(),
        }
    }
}

} // verus!
