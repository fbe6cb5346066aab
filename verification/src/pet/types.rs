//! The pet's behavior vocabulary.
use vstd::prelude::*;

verus! {

/// How the pet behaves when hovered and how often its expression changes.
#[derive(Debug, Clone, Copy, PartialEq, Eq, Structural)]
pub enum Personality {
    Calm,
    Cheerful,
    Lively,
}

/// The mode that decides which animation chain the pet plays.
#[derive(Debug, Clone, Copy, PartialEq, Eq, Structural)]
pub enum BehaviorMode {
    Default,
    Action,
    Hovered,
    Dragging,
    Walking,
    Hidden,
    Notifying,
}

/// The rows of the bundled sprite sheet, one per animation group.
#[derive(Debug, Clone, Copy, PartialEq, Eq, Structural)]
pub enum AnimationGroup {
    Idle,
    Blink,
    Happy,
    Curious,
    Sleepy,
    HoverCalm,
    HoverCheerful,
    HoverLively,
    WalkRight,
    Drag,
}

/// The pet's autonomous locomotion state.
#[derive(Debug, Clone, Copy, PartialEq, Eq, Structural)]
pub enum PetState {
    Idle,
    Walk,
    Sleep,
}

/// The direction the pet faces and walks.
#[derive(Debug, Clone, Copy, PartialEq, Eq, Structural)]
pub enum Direction {
    Left,
    Right,
}

/// What the workspace observer asks the pet to do next.
#[derive(Debug, Clone, Copy, PartialEq, Eq, Structural)]
pub enum BehaviorIntent {
    Idle,
    ChaseHorizontal { direction: Direction },
    AvoidHorizontal { direction: Direction },
    AvoidRectHorizontal { direction: Direction },
}

/// The other direction.
pub open spec fn opposite(d: Direction) -> Direction {
    match d {
        Direction::Left => Direction::Right,
        Direction::Right => Direction::Left,
    }
}

impl Direction {
    /// The opposite direction.
    pub fn reversed(self) -> (r: Direction)
        ensures
            r == opposite(self),
    {
        match self {
            Direction::Left => Direction::Right,
            Direction::Right => Direction::Left,
        }
    }
}

} // verus!
