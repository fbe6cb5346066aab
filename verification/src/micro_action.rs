//! Short, timed actions (a nap, a cheer-up) that override the pet's animation.
//!
//! Durations are counted in nanoseconds.
use vstd::prelude::*;

use crate::pet::AnimationGroup;

verus! {

/// Nanoseconds in one second.
pub const NANOS_PER_SEC: u64 = 1_000_000_000;

/// A micro action the user can trigger from the menu.
#[derive(Debug, Clone, Copy, PartialEq, Eq, Structural)]
pub enum MicroAction {
    Nap,
    CheerUp,
}

/// How long an action lasts, in nanoseconds: a nap 30 s, a cheer-up 8 s.
pub open spec fn action_duration(action: MicroAction) -> u64 {
    match action {
        MicroAction::Nap => 30_000_000_000,
        MicroAction::CheerUp => 8_000_000_000,
    }
}

/// The animation group an action plays.
pub open spec fn action_group(action: MicroAction) -> AnimationGroup {
    match action {
        MicroAction::Nap => AnimationGroup::Sleepy,
        MicroAction::CheerUp => AnimationGroup::Happy,
    }
}

/// A running micro action and the time it has left.
#[derive(Debug, Clone, Copy, PartialEq, Eq)]
pub struct ActionOverride {
    action: MicroAction,
    remaining: u64,
}

impl MicroAction {
    /// How long this action lasts, in nanoseconds.
    pub fn duration(self) -> (d: u64)
        ensures
            d == action_duration(self),
    {
        match self {
            MicroAction::Nap => 30 * NANOS_PER_SEC,
            MicroAction::CheerUp => 8 * NANOS_PER_SEC,
        }
    }
}

impl ActionOverride {
    /// The action being played.
    pub closed spec fn spec_action(&self) -> MicroAction {
        self.action
    }

    /// The time left, in nanoseconds.
    pub closed spec fn spec_remaining(&self) -> u64 {
        self.remaining
    }

    /// Start `action` with its full duration.
    pub fn new(action: MicroAction) -> (r: Self)
        ensures
            r.spec_action() == action,
            r.spec_remaining() == action_duration(action),
    {
        ActionOverride { action, remaining: action.duration() }
    }

    /// The action being played.
    pub fn action(&self) -> (a: MicroAction)
        ensures
            a == self.spec_action(),
    {
        self.action
    }

    /// The time left, in nanoseconds.
    pub fn remaining(&self) -> (r: u64)
        ensures
            r == self.spec_remaining(),
    {
        self.remaining
    }

    /// The animation group the action plays.
    pub fn animation_group(&self) -> (g: AnimationGroup)
        ensures
            g == action_group(self.spec_action()),
    {
        match self.action {
            MicroAction::Nap => AnimationGroup::Sleepy,
            MicroAction::CheerUp => AnimationGroup::Happy,
        }
    }

    /// A nap keeps the pet in place.
    pub fn disables_movement(&self) -> (r: bool)
        ensures
            r <==> self.spec_action() == MicroAction::Nap,
    {
        match self.action {
            MicroAction::Nap => true,
            MicroAction::CheerUp => false,
        }
    }

    /// Count `dt` nanoseconds off the remaining time (never below zero); returns
    /// whether the action has run out.
    pub fn tick(&mut self, dt: u64) -> (done: bool)
        ensures
            final(self).spec_action() == old(self).spec_action(),
            final(self).spec_remaining() == if dt >= old(self).spec_remaining() {
                0
            } else {
                (old(self).spec_remaining() - dt) as u64
            },
            done <==> final(self).spec_remaining() == 0,
    {
        self.remaining = self.remaining.saturating_sub(dt);
        self.remaining == 0
    }
}

} // verus!
