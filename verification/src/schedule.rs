//! When the app ticks the pet next, and how long a tick may be.
//!
//! Times are in nanoseconds.
use vstd::prelude::*;

use crate::pet::{BehaviorMode, PetState};

verus! {

/// Frame time while the pet animates smoothly (about 60 per second).
pub const TARGET_FRAME_TIME: u64 = 16_000_000;
/// Tick period of an idle pet.
pub const IDLE_FRAME_TIME: u64 = 200_000_000;
/// Tick period of a sleeping pet, an auto-hidden pet, or while the settings
/// window is open.
pub const SLEEP_FRAME_TIME: u64 = 500_000_000;
/// Tick period while the pet is not shown.
pub const HIDDEN_FRAME_TIME: u64 = 5_000_000_000;
/// The longest time one tick may account for.
pub const MAX_TICK_DELTA: u64 = 1_000_000_000;

/// The wait before the next tick: slow while the settings window is open,
/// the pet is not visible or auto-hidden; otherwise by behavior mode, smooth
/// while anything moves on screen.
pub open spec fn tick_interval_spec(
    settings_visible: bool,
    pet_visible: bool,
    auto_hidden: bool,
    mode: BehaviorMode,
    state: PetState,
) -> u64 {
    if settings_visible {
        SLEEP_FRAME_TIME
    } else if !pet_visible {
        HIDDEN_FRAME_TIME
    } else if auto_hidden {
        SLEEP_FRAME_TIME
    } else {
        match mode {
            BehaviorMode::Hidden => HIDDEN_FRAME_TIME,
            BehaviorMode::Default => match state {
                PetState::Walk => TARGET_FRAME_TIME,
                PetState::Idle => IDLE_FRAME_TIME,
                PetState::Sleep => SLEEP_FRAME_TIME,
            },
            _ => TARGET_FRAME_TIME,
        }
    }
}

/// The wait before the next tick (see `tick_interval_spec`).
pub fn next_tick_interval(
    settings_visible: bool,
    pet_visible: bool,
    auto_hidden: bool,
    mode: BehaviorMode,
    state: PetState,
) -> (d: u64)
    ensures
        d == tick_interval_spec(settings_visible, pet_visible, auto_hidden, mode, state),
{
    if settings_visible {
        return SLEEP_FRAME_TIME;
    }
    if !pet_visible {
        return HIDDEN_FRAME_TIME;
    }
    if auto_hidden {
        return SLEEP_FRAME_TIME;
    }
    match mode {
        BehaviorMode::Hidden => HIDDEN_FRAME_TIME,
        BehaviorMode::Default => match state {
            PetState::Walk => TARGET_FRAME_TIME,
            PetState::Idle => IDLE_FRAME_TIME,
            PetState::Sleep => SLEEP_FRAME_TIME,
        },
        _ => TARGET_FRAME_TIME,
    }
}

/// The time a tick accounts for: what elapsed, at most `MAX_TICK_DELTA`.
pub fn capped_tick_delta(elapsed: u64) -> (d: u64)
    ensures
        d == if elapsed <= MAX_TICK_DELTA {
            elapsed
        } else {
            MAX_TICK_DELTA
        },
{
    if elapsed <= MAX_TICK_DELTA {
        elapsed
    } else {
        MAX_TICK_DELTA
    }
}

/// With the settings closed and the pet on screen, every mode in which
/// something moves (walking, hovered, dragged, an action, a notification)
/// ticks at the smooth frame time of 16 ms, shorter than an idle pet's tick.
pub proof fn lemma_moving_pet_ticks_smoothly(mode: BehaviorMode, state: PetState)
    requires
        mode == BehaviorMode::Walking || mode == BehaviorMode::Hovered || mode
            == BehaviorMode::Dragging || mode == BehaviorMode::Action || mode
            == BehaviorMode::Notifying,
    ensures
        tick_interval_spec(false, true, false, mode, state) == 16_000_000u64,
        tick_interval_spec(false, true, false, mode, state) < tick_interval_spec(
            false,
            true,
            false,
            BehaviorMode::Default,
            PetState::Idle,
        ),
{
}

/// Capping a tick never shortens a scheduled wait while the pet is on
/// screen: every such wait is at most `MAX_TICK_DELTA`, so a tick that comes
/// on time accounts for the whole wait.
pub proof fn lemma_cap_keeps_visible_intervals(
    settings_visible: bool,
    auto_hidden: bool,
    mode: BehaviorMode,
    state: PetState,
)
    requires
        mode != BehaviorMode::Hidden,
    ensures
        tick_interval_spec(settings_visible, true, auto_hidden, mode, state) <= MAX_TICK_DELTA,
{
}

} // verus!
