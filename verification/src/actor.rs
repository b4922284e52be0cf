//! The single controllable actor: position, speed, facing and health, and
//! the per-frame movement step driven by held directional keys.

use vstd::prelude::*;
use crate::config::{Config, MAX_FRAME_MS, MAX_HEALTH_MILLI, MAX_POS_MILLI, MAX_SPEED_MILLI};
use crate::geom::Vec2;

verus! {

/// Fixed-point value of `1 / sqrt(2)` in thousandths, used to scale each
/// axis of a diagonal step so that diagonal movement is not faster than
/// movement along an axis.
pub const DIAG_MILLI: i64 = 707;

/// The held state of the four directional keys at one frame.
#[derive(Clone, Copy, Debug, PartialEq, Eq, Structural)]
pub struct InputState {
    pub left: bool,
    pub right: bool,
    pub up: bool,
    pub down: bool,
}

impl InputState {
    /// Builds a key state from the four held flags.
    pub fn new(left: bool, right: bool, up: bool, down: bool) -> (s: InputState)
        ensures
            s == (InputState { left, right, up, down }),
    {
        InputState { left, right, up, down }
    }

    /// No key held.
    pub fn released() -> (s: InputState)
        ensures
            s == (InputState { left: false, right: false, up: false, down: false }),
    {
        InputState { left: false, right: false, up: false, down: false }
    }
}

/// Horizontal component of the movement direction: opposing keys resolve in
/// favor of left; no horizontal key gives 0.
pub open spec fn spec_dir_x(input: InputState) -> int {
    if input.left {
        -1
    } else if input.right {
        1
    } else {
        0
    }
}

/// Vertical component of the movement direction: opposing keys resolve in
/// favor of up; no vertical key gives 0.
pub open spec fn spec_dir_y(input: InputState) -> int {
    if input.up {
        1
    } else if input.down {
        -1
    } else {
        0
    }
}

/// Unsigned length of one frame's step along a moving axis, in milli-units:
/// `speed * delta / 1000`, additionally scaled by `707 / 1000` when both
/// axes move at once.
pub open spec fn spec_axis_step(speed_milli: i64, delta_ms: u64, diagonal: bool) -> int {
    if diagonal {
        speed_milli * delta_ms * DIAG_MILLI / 1_000_000
    } else {
        speed_milli * delta_ms / 1000
    }
}

/// Signed displacement of one frame along the horizontal axis.
pub open spec fn spec_disp_x(input: InputState, speed_milli: i64, delta_ms: u64) -> int {
    spec_dir_x(input) * spec_axis_step(
        speed_milli,
        delta_ms,
        spec_dir_x(input) != 0 && spec_dir_y(input) != 0,
    )
}

/// Signed displacement of one frame along the vertical axis.
pub open spec fn spec_disp_y(input: InputState, speed_milli: i64, delta_ms: u64) -> int {
    spec_dir_y(input) * spec_axis_step(
        speed_milli,
        delta_ms,
        spec_dir_x(input) != 0 && spec_dir_y(input) != 0,
    )
}

/// The last nonzero movement direction, per axis one of -1, 0 or 1.
#[derive(Clone, Copy, Debug, PartialEq, Eq, Structural)]
pub struct Direction {
    pub x: i64,
    pub y: i64,
}

impl Direction {
    /// Each component is -1, 0 or 1.
    pub open spec fn unit_scale(self) -> bool {
        &&& -1 <= self.x <= 1
        &&& -1 <= self.y <= 1
    }
}

/// Current and maximum health, in milli-units. Current health may go
/// negative: damage is never clamped and reaching zero has no effect.
#[derive(Clone, Copy, Debug, PartialEq, Eq, Structural)]
pub struct Health {
    pub current_milli: i64,
    pub max_milli: i64,
}

impl Health {
    /// Current health never exceeds the maximum; it has no lower bound.
    pub open spec fn well_formed(self) -> bool {
        &&& self.current_milli <= self.max_milli
        &&& 0 <= self.max_milli <= MAX_HEALTH_MILLI
    }

    /// Creates a health pool filled to its maximum.
    pub fn new(max_milli: i64) -> (h: Health)
        requires
            0 <= max_milli <= MAX_HEALTH_MILLI,
        ensures
            h.current_milli == max_milli,
            h.max_milli == max_milli,
            h.well_formed(),
    {
        Health { current_milli: max_milli, max_milli }
    }

    /// `current / max` in thousandths, rounded toward zero: the width scale
    /// of a health bar. Negative once health has gone negative.
    pub open spec fn spec_bar_scale_milli(self) -> int {
        if self.current_milli >= 0 {
            self.current_milli * 1000 / self.max_milli as int
        } else {
            -((-self.current_milli) * 1000 / self.max_milli as int)
        }
    }

    /// Width scale of a health bar in thousandths of its full width. The
    /// bound on how negative health may have gone is a machine limit: the
    /// magnitude must survive scaling by 1000.
    pub fn bar_scale_milli(&self) -> (s: i64)
        requires
            self.well_formed(),
            self.max_milli >= 1,
            -(i64::MAX / 1000) <= self.current_milli,
        ensures
            s == self.spec_bar_scale_milli(),
    {
        let magnitude = if self.current_milli >= 0 {
            self.current_milli
        } else {
            -self.current_milli
        };
        proof {
            assert(magnitude * 1000 <= i64::MAX && magnitude * 1000 / self.max_milli
                as int <= magnitude * 1000) by (nonlinear_arith)
                requires 0 <= magnitude <= i64::MAX / 1000, 1 <= self.max_milli;
        }
        let scaled = magnitude * 1000 / self.max_milli;
        if self.current_milli >= 0 {
            scaled
        } else {
            -scaled
        }
    }
}

/// The controllable actor: position, speed, last nonzero facing, health.
#[derive(Clone, Copy, Debug, PartialEq, Eq, Structural)]
pub struct Actor {
    pub position: Vec2,
    pub speed_milli: i64,
    pub facing: Direction,
    pub health: Health,
}

impl Actor {
    /// Speed and health respect the machine limits and the facing is a
    /// unit-scale direction. The position is deliberately unconstrained:
    /// nothing stops the actor from leaving the playfield.
    pub open spec fn well_formed(self) -> bool {
        &&& 0 <= self.speed_milli <= MAX_SPEED_MILLI
        &&& self.facing.unit_scale()
        &&& self.health.well_formed()
    }

    /// The position is far enough from the representable extremes that one
    /// frame of movement cannot overflow.
    pub open spec fn position_in_range(self) -> bool {
        &&& -MAX_POS_MILLI <= self.position.x <= MAX_POS_MILLI
        &&& -MAX_POS_MILLI <= self.position.y <= MAX_POS_MILLI
    }

    /// Creates the actor at `position` with the configured speed, full
    /// health, and a zero facing.
    pub fn new(config: &Config, position: Vec2) -> (a: Actor)
        requires
            config.valid(),
        ensures
            a.position == position,
            a.speed_milli == config.actor_speed_milli,
            a.facing == (Direction { x: 0, y: 0 }),
            a.health.current_milli == config.actor_max_health_milli,
            a.health.max_milli == config.actor_max_health_milli,
            a.well_formed(),
    {
        Actor {
            position,
            speed_milli: config.actor_speed_milli,
            facing: Direction { x: 0, y: 0 },
            health: Health::new(config.actor_max_health_milli),
        }
    }

    /// One frame of movement: derives the direction from the held keys,
    /// displaces the position by `direction * speed * delta`, and records
    /// the direction as the new facing when it is nonzero; with no key held
    /// the position and the facing are both unchanged. Health and speed are
    /// never touched.
    pub fn step_movement(&mut self, input: InputState, delta_ms: u64)
        requires
            old(self).well_formed(),
            old(self).position_in_range(),
            delta_ms <= MAX_FRAME_MS,
        ensures
            final(self).position.x == old(self).position.x
                + spec_disp_x(input, old(self).speed_milli, delta_ms),
            final(self).position.y == old(self).position.y
                + spec_disp_y(input, old(self).speed_milli, delta_ms),
            spec_dir_x(input) != 0 || spec_dir_y(input) != 0 ==> final(self).facing
                == (Direction { x: spec_dir_x(input) as i64, y: spec_dir_y(input) as i64 }),
            spec_dir_x(input) == 0 && spec_dir_y(input) == 0 ==> final(self).facing
                == old(self).facing,
            final(self).speed_milli == old(self).speed_milli,
            final(self).health == old(self).health,
            final(self).well_formed(),
    {
        let dx: i64 = if input.left {
            -1
        } else if input.right {
            1
        } else {
            0
        };
        let dy: i64 = if input.up {
            1
        } else if input.down {
            -1
        } else {
            0
        };

        let diagonal = dx != 0 && dy != 0;
        let step = axis_step(self.speed_milli, delta_ms, diagonal);

        let disp_x: i64 = if dx == 1 {
            step
        } else if dx == -1 {
            -step
        } else {
            0
        };
        let disp_y: i64 = if dy == 1 {
            step
        } else if dy == -1 {
            -step
        } else {
            0
        };

        self.position.x = self.position.x + disp_x;
        self.position.y = self.position.y + disp_y;

        if dx != 0 || dy != 0 {
            self.facing = Direction { x: dx, y: dy };
        }
    }
}

/// Computes `spec_axis_step` in executable code; the intermediate products
/// stay well inside `i64` under the speed and frame limits.
fn axis_step(speed_milli: i64, delta_ms: u64, diagonal: bool) -> (s: i64)
    requires
        0 <= speed_milli <= MAX_SPEED_MILLI,
        delta_ms <= MAX_FRAME_MS,
    ensures
        s == spec_axis_step(speed_milli, delta_ms, diagonal),
        0 <= s <= MAX_SPEED_MILLI * MAX_FRAME_MS / 1000,
{
    let d = delta_ms as i64;
    proof {
        assert(0 <= speed_milli * d <= MAX_SPEED_MILLI * MAX_FRAME_MS) by (nonlinear_arith)
            requires 0 <= speed_milli <= MAX_SPEED_MILLI, 0 <= d <= MAX_FRAME_MS;
        assert(0 <= speed_milli * d * DIAG_MILLI <= MAX_SPEED_MILLI * MAX_FRAME_MS * DIAG_MILLI)
            by (nonlinear_arith)
            requires 0 <= speed_milli * d <= MAX_SPEED_MILLI * MAX_FRAME_MS;
        assert(speed_milli * d * DIAG_MILLI / 1_000_000 <= MAX_SPEED_MILLI * MAX_FRAME_MS / 1000)
            by (nonlinear_arith)
            requires 0 <= speed_milli * d * DIAG_MILLI <= MAX_SPEED_MILLI * MAX_FRAME_MS * DIAG_MILLI;
        assert(speed_milli * d / 1000 <= MAX_SPEED_MILLI * MAX_FRAME_MS / 1000) by (nonlinear_arith)
            requires 0 <= speed_milli * d <= MAX_SPEED_MILLI * MAX_FRAME_MS;
    }
    if diagonal {
        speed_milli * d * DIAG_MILLI / 1_000_000
    } else {
        speed_milli * d / 1000
    }
}

} // verus!
