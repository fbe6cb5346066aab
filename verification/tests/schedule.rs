use happy_cappy::pet::{BehaviorMode, PetState};
use happy_cappy::schedule::{
    capped_tick_delta, next_tick_interval, HIDDEN_FRAME_TIME, IDLE_FRAME_TIME, MAX_TICK_DELTA,
    SLEEP_FRAME_TIME, TARGET_FRAME_TIME,
};

#[test]
fn tick_delta_cap_does_not_clip_scheduled_pet_intervals() {
    assert!(MAX_TICK_DELTA >= IDLE_FRAME_TIME);
    assert!(MAX_TICK_DELTA >= SLEEP_FRAME_TIME);
}

#[test]
fn hidden_pet_uses_slow_tick_interval() {
    assert_eq!(
        next_tick_interval(false, false, false, BehaviorMode::Hidden, PetState::Idle),
        5_000_000_000
    );
}

#[test]
fn hovered_pet_uses_target_frame_interval() {
    assert_eq!(
        next_tick_interval(false, true, false, BehaviorMode::Hovered, PetState::Idle),
        TARGET_FRAME_TIME
    );
}

#[test]
fn open_settings_window_slows_ticks_even_when_hidden() {
    assert_eq!(
        next_tick_interval(true, false, false, BehaviorMode::Hidden, PetState::Idle),
        SLEEP_FRAME_TIME
    );
}

#[test]
fn default_mode_interval_follows_locomotion_state() {
    assert_eq!(
        next_tick_interval(false, true, false, BehaviorMode::Default, PetState::Idle),
        IDLE_FRAME_TIME
    );
    assert_eq!(
        next_tick_interval(false, true, false, BehaviorMode::Default, PetState::Sleep),
        SLEEP_FRAME_TIME
    );
    assert_eq!(
        next_tick_interval(false, true, false, BehaviorMode::Default, PetState::Walk),
        TARGET_FRAME_TIME
    );
    assert_eq!(
        next_tick_interval(false, true, true, BehaviorMode::Walking, PetState::Walk),
        SLEEP_FRAME_TIME
    );
    assert_eq!(
        next_tick_interval(false, true, false, BehaviorMode::Notifying, PetState::Idle),
        TARGET_FRAME_TIME
    );
}

#[test]
fn visible_intervals_fit_under_the_delta_cap() {
    for mode in [
        BehaviorMode::Default,
        BehaviorMode::Action,
        BehaviorMode::Hovered,
        BehaviorMode::Dragging,
        BehaviorMode::Walking,
        BehaviorMode::Notifying,
    ] {
        for state in [PetState::Idle, PetState::Walk, PetState::Sleep] {
            for settings in [false, true] {
                for auto_hidden in [false, true] {
                    assert!(next_tick_interval(settings, true, auto_hidden, mode, state) <= MAX_TICK_DELTA);
                }
            }
        }
    }
    assert!(HIDDEN_FRAME_TIME > MAX_TICK_DELTA);
}

#[test]
fn tick_delta_is_capped_at_one_second() {
    assert_eq!(capped_tick_delta(16_000_000), 16_000_000);
    assert_eq!(capped_tick_delta(1_000_000_000), 1_000_000_000);
    assert_eq!(capped_tick_delta(7_000_000_000), MAX_TICK_DELTA);
}
