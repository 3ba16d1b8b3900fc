//! Movement and animation resolution for a grid-stepping actor in a top-down
//! 2D world.
//!
//! Each tick the resolver takes the set of held direction keys and the time
//! that has passed, and decides whether the actor idles or steps, which of
//! the eight animation clips is shown, which sprite-sheet frame is current,
//! and where the actor moves. Steps are atomic: one grid unit, a fixed
//! duration, and no new step until the one in flight has finished.
//!
//! The crate performs no rendering, input polling or timing of its own. A
//! host reads the keyboard and the clock, calls [`MovementAnimationResolver::tick`]
//! and carries out the commands it returns. A host that cycles frames by
//! other means drives [`ActorMovementState::tick`] alone.
//!
//! Times are whole nanoseconds and positions whole world units. Every
//! executable function is verified against the mathematical model of its
//! type; the laws that relate several ticks are proof functions on those
//! models.
//!
//! Beside the resolver stand the small state machines of the game around
//! it: the queue of popups, the game clock and the walls of the arena.

pub mod vector;
pub mod direction;
pub mod clip;
pub mod movement;
pub mod frames;
pub mod sheet;
pub mod catalog;
pub mod resolver;
pub mod walls;
pub mod clock;
pub mod popup;

pub use vector::{Point, Vector2};
pub use direction::{FacingDirection, HeldDirections};
pub use clip::{ClipId, ClipKind, CLIP_COUNT};
pub use movement::{
    ActorMovementState, Easing, MoveCommands, MoveCommandsModel, MovementModel, PositionTween,
    TickInput, TweenModel, STEP_MAGNITUDE, TRANSITION_NANOS,
};
pub use frames::{FrameAnimation, FrameModel};
pub use sheet::{
    CharacterSheet, PlayerGraphics, SheetGrid, SHEET_CELLS, SHEET_COLUMNS, SHEET_ROWS,
};
pub use catalog::{AnimationClipCatalog, CatalogError, ClipDefinition, ClipModel};
pub use resolver::{MovementAnimationResolver, ResolverModel, TickCommands, TickCommandsModel};
pub use walls::WallLocation;
pub use clock::{update_time, GameTime, MINUTE_NANOS};
pub use popup::{
    confirm_popup, handle_next_popup, play_button_press, welcome_setup, ButtonPressState,
    PopupQueue, PopupState, Welcome,
};
