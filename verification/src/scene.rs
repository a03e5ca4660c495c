use vstd::prelude::*;
use crate::entity::AnimatedRectangle;
use crate::entity::Rgb;
use crate::entity::BOX_DELAY;
use crate::entity::BOX_INSTANCE_DELAY;

verus! {

/// Number of animated rectangles the startup policy creates.
pub const ENTITY_COUNT: usize = 10;

/// The exact entity the startup policy places at index `i` of the scene:
/// spread horizontally fifty pixels apart, level at y = 200, thirty pixels
/// square, dark green, moving up, and activated one hundred milliseconds
/// later than its left neighbor.
pub open spec fn initial_entity(i: int) -> AnimatedRectangle {
    AnimatedRectangle {
        x: (i * 50 + 50) as i32,
        y: 200,
        width: 30,
        height: 30,
        color: Rgb { r: 0, g: 100, b: 0 },
        direction: -1i32,
        delay: (i * BOX_DELAY) as u64,
    }
}

/// Build the whole scene once, at startup, per the initial-placement policy.
/// Every entity starts inside the bounded-overshoot band, so the whole
/// animation stays there forever.
pub fn initial_entities() -> (entities: Vec<AnimatedRectangle>)
    ensures
        entities@.len() == ENTITY_COUNT,
        forall|i: int| 0 <= i < ENTITY_COUNT as int ==> entities@[i] == initial_entity(i),
        forall|i: int| 0 <= i < ENTITY_COUNT as int ==> entities@[i].in_bounds(),
{
    let mut entities: Vec<AnimatedRectangle> = Vec::new();
    let mut i: usize = 0;
    while i < ENTITY_COUNT
        invariant
            i <= ENTITY_COUNT,
            entities@.len() == i as int,
            forall|j: int| 0 <= j < i as int ==> entities@[j] == initial_entity(j),
        decreases ENTITY_COUNT - i,
    {
        let x: i32 = (i as i32) * 50 + 50;
        let direction: i32 = if (i as i32) % BOX_INSTANCE_DELAY == 0 { -1 } else { 1 };
        let delay: u64 = (i as u64) * BOX_DELAY;
        let entity = AnimatedRectangle::new(
            x,
            200,
            30,
            30,
            Rgb { r: 0, g: 100, b: 0 },
            direction,
            delay,
        );
        entities.push(entity);
        i = i + 1;
    }
    proof {
        assert forall|i: int| 0 <= i < ENTITY_COUNT as int implies entities@[i].in_bounds() by {
            assert(entities@[i] == initial_entity(i));
        }
    }
    entities
}

/// The input observations the animation loop reacts to, stripped of every
/// detail the loop ignores.
#[derive(Clone, Copy, PartialEq, Eq, Structural, Debug)]
pub enum InputEvent {
    /// The window was asked to close.
    Quit,
    /// The escape key was pressed.
    EscapeKeyDown,
    /// Any other input; the loop ignores it.
    Other,
}

/// Whether a single event asks the animation loop to stop.
pub open spec fn is_quit_event(event: InputEvent) -> bool {
    event == InputEvent::Quit || event == InputEvent::EscapeKeyDown
}

/// Whether any event in a fully drained batch asks the loop to stop.
pub open spec fn spec_quit_requested(events: Seq<InputEvent>) -> bool {
    exists|i: int| 0 <= i < events.len() && is_quit_event(events[i])
}

/// Decide from one frame's drained event batch whether the loop must stop.
pub fn quit_requested(events: &Vec<InputEvent>) -> (quit: bool)
    ensures
        quit == spec_quit_requested(events@),
{
    let mut k: usize = 0;
    while k < events.len()
        invariant
            k <= events@.len(),
            forall|i: int| 0 <= i < k as int ==> !is_quit_event(events@[i]),
        decreases events@.len() - k,
    {
        let event = events[k];
        if event == InputEvent::Quit || event == InputEvent::EscapeKeyDown {
            return true;
        }
        k = k + 1;
    }
    false
}

/// Advance every entity of the scene by one frame, in sequence order, at the
/// given elapsed time.
pub fn update_all(entities: &mut Vec<AnimatedRectangle>, elapsed_time: u64)
    requires
        forall|i: int| 0 <= i < old(entities)@.len() ==> old(entities)@[i].update_safe(),
    ensures
        final(entities)@.len() == old(entities)@.len(),
        forall|i: int| 0 <= i < old(entities)@.len()
            ==> final(entities)@[i] == old(entities)@[i].spec_update(elapsed_time),
{
    let ghost orig = entities@;
    let n: usize = entities.len();
    let mut k: usize = 0;
    while k < n
        invariant
            k <= n,
            n as int == entities@.len(),
            orig.len() == n as int,
            forall|i: int| 0 <= i < n as int ==> orig[i].update_safe(),
            forall|i: int| k as int <= i < n as int ==> entities@[i] == orig[i],
            forall|i: int| 0 <= i < k as int ==> entities@[i] == orig[i].spec_update(elapsed_time),
        decreases n - k,
    {
        let mut entity = entities[k];
        assert(entity == orig[k as int] && orig[k as int].update_safe());
        entity.update(elapsed_time);
        entities.set(k, entity);
        k = k + 1;
    }
}

/// One iteration of the animation loop's decisions: if any event of the
/// drained batch asks to quit, stop on this very iteration with no entity
/// updated; otherwise advance every entity one frame. The caller draws the
/// scene only when this returns `false`.
pub fn frame_step(
    entities: &mut Vec<AnimatedRectangle>,
    events: &Vec<InputEvent>,
    elapsed_time: u64,
) -> (quit: bool)
    requires
        forall|i: int| 0 <= i < old(entities)@.len() ==> old(entities)@[i].update_safe(),
    ensures
        quit == spec_quit_requested(events@),
        quit ==> final(entities)@ == old(entities)@,
        !quit ==> final(entities)@.len() == old(entities)@.len(),
        !quit ==> forall|i: int| 0 <= i < old(entities)@.len()
            ==> final(entities)@[i] == old(entities)@[i].spec_update(elapsed_time),
{
    if quit_requested(events) {
        true
    } else {
        update_all(entities, elapsed_time);
        false
    }
}

} // verus!
