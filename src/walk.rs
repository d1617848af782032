use vstd::prelude::*;

verus! {

/// Number of scatter steps after which a light path is cut off and contributes black.
pub const MAX_DEPTH: u32 = 50;

/// What the scene query and the material reported for the current ray.
#[derive(Clone, Copy, Debug, PartialEq, Eq, Structural)]
pub enum Event {
    /// The ray left the scene: it sees the background.
    Miss,
    /// The ray hit a surface; `scattered` tells whether the material sent out a new ray.
    Hit { scattered: bool },
}

/// What the estimator does next.
#[derive(Clone, Copy, Debug, PartialEq, Eq, Structural)]
pub enum Step {
    /// Return the background gradient for the ray's direction.
    Background,
    /// Return black: the ray was absorbed or the depth budget is spent.
    Black,
    /// Multiply by the attenuation and follow the scattered ray at this depth.
    Follow { depth: u32 },
}

pub open spec fn step_spec(depth: u32, event: Event) -> Step {
    match event {
        Event::Miss => Step::Background,
        Event::Hit { scattered } => if depth < MAX_DEPTH && scattered {
            Step::Follow { depth: (depth + 1) as u32 }
        } else {
            Step::Black
        },
    }
}

/// Decides what the radiance estimator does with a ray at `depth` scatter steps.
pub fn step(depth: u32, event: Event) -> (r: Step)
    requires
        depth <= MAX_DEPTH,
    ensures
        r == step_spec(depth, event),
{
    match event {
        Event::Miss => Step::Background,
        Event::Hit { scattered } => {
            if depth < MAX_DEPTH && scattered {
                Step::Follow { depth: depth + 1 }
            } else {
                Step::Black
            }
        },
    }
}

/// Number of `Follow` steps a walk starting at `depth` takes over `events`,
/// stopping at the first step that ends the walk.
pub open spec fn follows(depth: u32, events: Seq<Event>) -> nat
    decreases events.len(),
{
    if events.len() == 0 {
        0
    } else {
        match step_spec(depth, events[0]) {
            Step::Follow { depth: d } => 1 + follows(d, events.drop_first()),
            _ => 0,
        }
    }
}

/// The step that ends a walk starting at `depth` over `events`, if one is reached.
pub open spec fn outcome(depth: u32, events: Seq<Event>) -> Option<Step>
    decreases events.len(),
{
    if events.len() == 0 {
        None
    } else {
        match step_spec(depth, events[0]) {
            Step::Follow { depth: d } => outcome(d, events.drop_first()),
            s => Some(s),
        }
    }
}

/// Whatever the scene and the materials report, a walk that starts at `depth`
/// follows at most `MAX_DEPTH - depth` scattered rays, and never ends in a `Follow`.
pub proof fn lemma_walk_bounded(depth: u32, events: Seq<Event>)
    requires
        depth <= MAX_DEPTH,
    ensures
        follows(depth, events) <= MAX_DEPTH - depth,
        outcome(depth, events) matches Some(s) ==> !(s is Follow),
    decreases events.len(),
{
    if events.len() > 0 {
        if let Step::Follow { depth: d } = step_spec(depth, events[0]) {
            lemma_walk_bounded(d, events.drop_first());
        }
    }
}

/// A path that keeps scattering is cut off: after exactly `MAX_DEPTH - depth`
/// followed rays the walk ends in black.
pub proof fn lemma_walk_cut_off(depth: u32, events: Seq<Event>)
    requires
        depth <= MAX_DEPTH,
        events.len() > MAX_DEPTH - depth,
        forall|i: int| 0 <= i < events.len() ==> events[i] == (Event::Hit { scattered: true }),
    ensures
        follows(depth, events) == MAX_DEPTH - depth,
        outcome(depth, events) == Some(Step::Black),
    decreases events.len(),
{
    if depth < MAX_DEPTH {
        let rest = events.drop_first();
        assert forall|i: int| 0 <= i < rest.len() implies rest[i] == (Event::Hit { scattered: true }) by {
            assert(rest[i] == events[i + 1]);
        }
        lemma_walk_cut_off((depth + 1) as u32, rest);
    }
}

} // verus!
