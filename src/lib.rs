//! Gameplay rules of a small top-down chase game: enemies turn toward the
//! player at a bounded rate, and the player's gun picks the nearest enemy in
//! range. Positions are counted in sixtieths of a world unit and headings in
//! sixtieths of a millidegree. A tick lasts a sixtieth of a second, so speeds
//! and turn rates per second are exactly the integer steps of one tick.

mod actor;
mod animation;
mod angle;
mod player;
mod spawn;
mod steering;
mod targeting;

pub use actor::{distance_squared, distance_squared_between, Actor, Enemy, Player, Point, Pose, UNIT};
pub use angle::{
    abs, angular_offset, full_turn, heading_after_turns, lemma_turn_never_overshoots,
    lemma_turn_toward_converges, offset_between, rotation_toward, turn_amount, turn_toward,
    turned_heading, valid_heading, wrap, FULL_TURN, HALF_TURN,
};
pub use animation::AnimationFrames;
pub use player::{axis_offset, clamp, player_movement_system, Keys, BOUND_X, BOUND_Y};
pub use spawn::{in_spawn_area, on_spawn_grid, spawn_positions, ENEMY_COUNT, FIELD_HEIGHT, FIELD_WIDTH};
pub use steering::{
    already_facing, forward_offset, is_scaled_direction, saturate, steer, FORWARD_SCALE,
    TICKS_PER_SECOND,
};
pub use targeting::{
    closest_index, find_closest, in_reach, is_first_closest, is_first_closest_upto,
    lemma_all_out_of_reach, lemma_empty_has_no_target, lemma_first_closest_unique,
    lemma_reach_is_strict, no_target, shoot_target, GUN_RANGE,
};
