use vstd::prelude::*;

verus! {

/// Width of the animation window, in pixels.
pub const WINDOW_WIDTH: u32 = 640;

/// Height of the animation window, in pixels.
pub const WINDOW_HEIGHT: u32 = 480;

/// Vertical distance an active entity travels on every update call,
/// in pixels per call (not time-scaled; the caller's frame loop sets the pace).
pub const BOX_VELOCITY: i32 = 5;

/// Gap, in milliseconds, between the activation of consecutive entities.
pub const BOX_DELAY: u64 = 100;

/// Spacing of the modulus that picks each entity's starting direction.
pub const BOX_INSTANCE_DELAY: i32 = 1;

/// A solid color, one byte per RGB channel.
#[derive(Clone, Copy, PartialEq, Eq, Structural, Debug)]
pub struct Rgb {
    pub r: u8,
    pub g: u8,
    pub b: u8,
}

/// One independently animated rectangle.
///
/// `x`, `width`, `height`, `color` and `delay` are fixed after construction;
/// `y` and `direction` change over time. `direction` is a signed unit:
/// `1` means moving down (y grows), `-1` means moving up (y shrinks).
/// `delay` is the total elapsed time, in milliseconds, that must have passed
/// before the entity starts to move.
#[derive(Clone, Copy, PartialEq, Eq, Structural, Debug)]
pub struct AnimatedRectangle {
    pub x: i32,
    pub y: i32,
    pub width: u32,
    pub height: u32,
    pub color: Rgb,
    pub direction: i32,
    pub delay: u64,
}

impl AnimatedRectangle {
    /// The direction is a signed unit: exactly `1` or `-1`, never anything else.
    pub open spec fn unit_direction(self) -> bool {
        self.direction == 1 || self.direction == -1
    }

    /// An entity moves once the total elapsed time has reached its delay.
    /// This is a one-shot gate, not a per-frame throttle: once the elapsed
    /// time passes the delay, every later update call moves the entity.
    pub open spec fn active(self, elapsed_time: u64) -> bool {
        elapsed_time >= self.delay
    }

    /// The vertical position after one movement step, before reflection.
    pub open spec fn moved_y(self) -> int {
        self.y + self.direction * (BOX_VELOCITY as int)
    }

    /// The direction after the reflection rule is applied to the moved
    /// position: at or above the top edge turn downward, at or below the
    /// bottom edge turn upward, otherwise keep going.
    pub open spec fn reflected_direction(self) -> int {
        if self.moved_y() <= 0 {
            1
        } else if self.moved_y() + self.height >= WINDOW_HEIGHT {
            -1
        } else {
            self.direction as int
        }
    }

    /// The exact state after one update call at the given elapsed time:
    /// unchanged while the entity is not yet active, otherwise moved one
    /// velocity step and reflected. The position is never clamped back in
    /// bounds, so it may overshoot an edge by up to one velocity step.
    pub open spec fn spec_update(self, elapsed_time: u64) -> AnimatedRectangle {
        if !self.active(elapsed_time) {
            self
        } else {
            AnimatedRectangle {
                x: self.x,
                y: self.moved_y() as i32,
                width: self.width,
                height: self.height,
                color: self.color,
                direction: self.reflected_direction() as i32,
                delay: self.delay,
            }
        }
    }

    /// The update arithmetic stays inside `i32`: the direction is a signed
    /// unit, one velocity step fits in either direction, and comparing the
    /// moved position plus the height against the window height cannot
    /// overflow.
    pub open spec fn update_safe(self) -> bool {
        &&& self.unit_direction()
        &&& i32::MIN + BOX_VELOCITY <= self.y
        &&& self.y + BOX_VELOCITY + self.height <= i32::MAX
        &&& self.height <= i32::MAX
    }

    /// Every state the animation actually reaches lies in this band: an
    /// entity moving up sits strictly below the top edge, an entity moving
    /// down sits strictly above the bottom edge, and either way the overshoot
    /// past an edge is less than one velocity step.
    pub open spec fn in_bounds(self) -> bool {
        &&& self.unit_direction()
        &&& self.height < WINDOW_HEIGHT
        &&& self.direction == -1 ==> 1 <= self.y && self.y + self.height <= WINDOW_HEIGHT + BOX_VELOCITY - 1
        &&& self.direction == 1 ==> 1 - BOX_VELOCITY <= self.y && self.y + self.height <= WINDOW_HEIGHT - 1
    }

    /// Build an entity with exactly the given parameters. No validation is
    /// performed; the caller guarantees sane values.
    pub fn new(
        x: i32,
        y: i32,
        width: u32,
        height: u32,
        color: Rgb,
        direction: i32,
        delay: u64,
    ) -> (entity: AnimatedRectangle)
        ensures
            entity == (AnimatedRectangle { x, y, width, height, color, direction, delay }),
    {
        AnimatedRectangle { x, y, width, height, color, direction, delay }
    }

    /// Advance the entity by one frame, given the total elapsed time since
    /// the animation started.
    ///
    /// Before the activation delay has elapsed this is a no-op. Afterwards
    /// the position advances one velocity step in the current direction and
    /// the reflection rule runs: the direction flips at the edges, but the
    /// position is never clamped, so it may overshoot an edge by up to one
    /// velocity step for one frame.
    pub fn update(&mut self, elapsed_time: u64)
        requires
            old(self).update_safe(),
        ensures
            *final(self) == old(self).spec_update(elapsed_time),
            elapsed_time < old(self).delay ==> *final(self) == *old(self),
            final(self).unit_direction(),
    {
        if elapsed_time >= self.delay {
            self.y = self.y + self.direction * BOX_VELOCITY;
            if self.y <= 0 {
                self.direction = 1;
            } else if self.y + (self.height as i32) >= (WINDOW_HEIGHT as i32) {
                self.direction = -1;
            }
        }
    }

    /// Law: one update keeps the direction a signed unit, whatever the
    /// elapsed time.
    pub proof fn lemma_update_preserves_unit_direction(self, elapsed_time: u64)
        requires
            self.unit_direction(),
        ensures
            self.spec_update(elapsed_time).unit_direction(),
    {
    }

    /// Law: before the activation delay has elapsed, an update changes
    /// nothing at all.
    pub proof fn lemma_update_before_delay_is_noop(self, elapsed_time: u64)
        requires
            elapsed_time < self.delay,
        ensures
            self.spec_update(elapsed_time) == self,
    {
    }

    /// Law: an entity with no activation delay that is moving up descends by
    /// exactly one velocity step on its first update.
    pub proof fn lemma_immediate_upward_step(self, elapsed_time: u64)
        requires
            self.update_safe(),
            self.delay == 0,
            self.direction == -1,
        ensures
            self.spec_update(elapsed_time).y == self.y - BOX_VELOCITY,
    {
    }

    /// Law: one update keeps a reachable entity inside the bounded-overshoot
    /// band, so the animation can never drift away from the window.
    pub proof fn lemma_update_preserves_in_bounds(self, elapsed_time: u64)
        requires
            self.in_bounds(),
        ensures
            self.spec_update(elapsed_time).in_bounds(),
    {
    }

    /// Law: a reachable entity is always safe to update.
    pub proof fn lemma_in_bounds_implies_update_safe(self)
        requires
            self.in_bounds(),
        ensures
            self.update_safe(),
    {
    }
}

/// The state an entity reaches after one update per entry of `times`,
/// applied in order.
pub open spec fn run_updates(entity: AnimatedRectangle, times: Seq<u64>) -> AnimatedRectangle
    decreases times.len(),
{
    if times.len() == 0 {
        entity
    } else {
        run_updates(entity.spec_update(times[0]), times.skip(1))
    }
}

/// Law: across any sequence of update calls, the direction stays exactly
/// `1` or `-1`, never any other value.
pub proof fn lemma_direction_always_unit(entity: AnimatedRectangle, times: Seq<u64>)
    requires
        entity.unit_direction(),
    ensures
        run_updates(entity, times).unit_direction(),
    decreases times.len(),
{
    if times.len() > 0 {
        entity.lemma_update_preserves_unit_direction(times[0]);
        lemma_direction_always_unit(entity.spec_update(times[0]), times.skip(1));
    }
}

/// Law: from any reachable state, any sequence of update calls leaves the
/// entity inside the bounded-overshoot band around the window.
pub proof fn lemma_run_updates_in_bounds(entity: AnimatedRectangle, times: Seq<u64>)
    requires
        entity.in_bounds(),
    ensures
        run_updates(entity, times).in_bounds(),
    decreases times.len(),
{
    if times.len() > 0 {
        entity.lemma_update_preserves_in_bounds(times[0]);
        lemma_run_updates_in_bounds(entity.spec_update(times[0]), times.skip(1));
    }
}

} // verus!
