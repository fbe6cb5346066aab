use happy_cappy::micro_action::MicroAction;
use happy_cappy::notification::NotificationEvent;
use happy_cappy::pet::engine::{is_runnable, PetEngine, WalkUpdate};
use happy_cappy::pet::manifest::{Animation, Frame, FrameGeometry, PetManifest};
use happy_cappy::pet::table::AnimationTable;
use happy_cappy::pet::{BehaviorIntent, BehaviorMode, Direction, Personality, PetState};

const MS: u64 = 1_000_000;
const SEC: u64 = 1_000_000_000;
/// How long a walk segment lasts at the default speed (120 px at 45 px/s).
const WALK_NANOS: u64 = 2_666_666_667;

fn manifest(animations: Vec<(&str, Animation)>, columns: u32) -> PetManifest {
    let mut table = AnimationTable::new();
    for (name, animation) in animations {
        table.insert(name.to_string(), animation);
    }
    PetManifest {
        manifest_version: 1,
        id: "fixture".into(),
        display_name: "Fixture".into(),
        spritesheet_path: "x.png".into(),
        frame: FrameGeometry { width: 16, height: 16, columns, rows: 1 },
        animations: table,
    }
}

fn timed(frames: &[(u32, u32)], loop_start: Option<usize>, one_shot: bool) -> Animation {
    Animation {
        frames: frames.iter().map(|&(index, ms)| Frame { index, ms: Some(ms) }).collect(),
        loop_start,
        fallback: if one_shot { Some("idle".to_string()) } else { None },
        one_shot,
    }
}

fn lifecycle_fixture(name: &str, animation: Animation) -> PetEngine {
    PetEngine::new_with_manifest(manifest(
        vec![("idle", Animation::from_indices(&[0, 1, 2, 3])), (name, animation)],
        8,
    ))
}

fn event(kind: &str) -> NotificationEvent {
    NotificationEvent {
        kind: kind.to_string(),
        animation_name: None,
        label: None,
        body: None,
        ttl_ms: None,
        priority: None,
    }
}

fn playing(name: &str) -> NotificationEvent {
    let mut ev = event("message");
    ev.animation_name = Some(name.to_string());
    ev.ttl_ms = Some(60_000);
    ev
}

fn notify_fixture() -> PetEngine {
    PetEngine::new_with_manifest(manifest(
        vec![
            ("idle", Animation::from_indices(&[0, 1, 2, 3])),
            ("notify-running", Animation::from_indices(&[4, 5])),
            ("notify-failed", Animation::from_indices(&[6, 7])),
        ],
        8,
    ))
}

fn walking_pet(seed: u64) -> PetEngine {
    let mut pet = PetEngine::new_with_seed(seed);
    let tick = pet.tick(5 * SEC, false);
    assert_eq!(tick.walk, WalkUpdate::Full);
    assert_eq!(pet.state(), PetState::Walk);
    pet
}

#[test]
fn starts_idle_on_frame_zero() {
    let pet = PetEngine::new();
    assert_eq!(pet.state(), PetState::Idle);
    assert_eq!(pet.frame_index(), 0);
}

#[test]
fn cheerful_is_default_personality() {
    let pet = PetEngine::new();
    assert_eq!(pet.personality(), Personality::Cheerful);
    assert_eq!(pet.behavior_mode(), BehaviorMode::Default);
}

#[test]
fn personality_changes_hover_group() {
    let mut pet = PetEngine::new();
    pet.apply_personality(Personality::Calm);
    pet.set_hovered(true);
    assert_eq!(pet.current_animation_name(), "hover-calm");
    pet.apply_personality(Personality::Cheerful);
    assert_eq!(pet.current_animation_name(), "hover-cheerful");
    pet.apply_personality(Personality::Lively);
    assert_eq!(pet.current_animation_name(), "hover-lively");
}

#[test]
fn dragging_overrides_hover_and_movement() {
    let mut pet = PetEngine::new();
    pet.set_hovered(true);
    pet.set_dragging(true);
    let tick = pet.tick(100 * MS, false);
    assert_eq!(pet.behavior_mode(), BehaviorMode::Dragging);
    assert_eq!(pet.current_animation_name(), "drag");
    assert_eq!(tick.walking, None);
}

#[test]
fn dragging_pauses_autonomous_state_progression() {
    let mut pet = PetEngine::new();
    pet.set_dragging(true);
    let tick = pet.tick(10 * SEC, false);
    assert_eq!(pet.state(), PetState::Idle);
    assert_eq!(pet.behavior_mode(), BehaviorMode::Dragging);
    assert_eq!(tick.walking, None);
}

#[test]
fn dragging_pauses_walk_distance_consumption() {
    let mut pet = walking_pet(0);
    pet.set_dragging(true);
    let tick = pet.tick(WALK_NANOS, true);
    assert_eq!(pet.state(), PetState::Walk);
    assert_eq!(pet.behavior_mode(), BehaviorMode::Dragging);
    assert_eq!(tick.walk, WalkUpdate::Keep);
}

#[test]
fn expression_loop_advances_without_requiring_walk() {
    let mut pet = PetEngine::new();
    let first = pet.current_animation_name().to_string();
    pet.tick(3 * SEC, false);
    let second = pet.current_animation_name().to_string();
    assert_ne!(first, second);
    assert_eq!(second, "blink");
    assert_eq!(pet.behavior_mode(), BehaviorMode::Default);
}

#[test]
fn movement_speed_zero_disables_walk_speed() {
    let mut pet = PetEngine::new();
    pet.set_speed_positive(false);
    assert_eq!(pet.set_intent(BehaviorIntent::AvoidRectHorizontal { direction: Direction::Right }), WalkUpdate::Full);
    let tick = pet.tick(16 * MS, false);
    assert_eq!(pet.state(), PetState::Idle);
    assert_eq!(pet.behavior_mode(), BehaviorMode::Default);
    assert_eq!(tick.walking, None);
    assert_eq!(tick.walk, WalkUpdate::Empty);
}

#[test]
fn movement_speed_zero_prevents_entering_stuck_walk_state() {
    let mut pet = PetEngine::new();
    pet.set_speed_positive(false);
    let tick = pet.tick(5 * SEC, false);
    assert_eq!(pet.state(), PetState::Idle);
    assert_eq!(pet.behavior_mode(), BehaviorMode::Default);
    assert_eq!(tick.walking, None);
    assert_eq!(tick.walk, WalkUpdate::Empty);
}

#[test]
fn movement_speed_update_refreshes_behavior_immediately() {
    let mut pet = walking_pet(0);
    assert_eq!(pet.behavior_mode(), BehaviorMode::Walking);
    pet.set_speed_positive(false);
    assert_eq!(pet.behavior_mode(), BehaviorMode::Default);
    assert_eq!(pet.current_animation_name(), "idle");
}

#[test]
fn nap_micro_action_uses_sleepy_group_and_stops_movement() {
    let mut pet = walking_pet(0);
    pet.start_micro_action(MicroAction::Nap);
    let tick = pet.tick(16 * MS, false);
    assert_eq!(pet.behavior_mode(), BehaviorMode::Action);
    assert_eq!(pet.current_animation_name(), "sleepy");
    assert_eq!(tick.walking, None);
}

#[test]
fn cheer_up_micro_action_uses_happy_group_temporarily() {
    let mut pet = PetEngine::new();
    pet.start_micro_action(MicroAction::CheerUp);
    pet.tick(7 * SEC, false);
    assert_eq!(pet.behavior_mode(), BehaviorMode::Action);
    assert_eq!(pet.current_animation_name(), "happy");
    pet.tick(SEC, false);
    assert_eq!(pet.behavior_mode(), BehaviorMode::Walking);
    assert_eq!(pet.current_animation_name(), "walk-right");
}

#[test]
fn hover_overrides_micro_action_until_hover_ends() {
    let mut pet = PetEngine::new();
    pet.start_micro_action(MicroAction::CheerUp);
    pet.set_hovered(true);
    assert_eq!(pet.behavior_mode(), BehaviorMode::Hovered);
    assert_eq!(pet.current_animation_name(), "hover-cheerful");
    pet.set_hovered(false);
    assert_eq!(pet.behavior_mode(), BehaviorMode::Action);
    assert_eq!(pet.current_animation_name(), "happy");
}

#[test]
fn idle_animation_advances_every_200ms() {
    let mut pet = PetEngine::new();
    let tick = pet.tick(200 * MS, false);
    assert_eq!(tick.frame_index, 1);
    assert_eq!(tick.state, PetState::Idle);
}

#[test]
fn idle_transitions_to_walk_after_threshold() {
    let mut pet = PetEngine::new_with_seed(1);
    pet.tick(5 * SEC, false);
    assert_eq!(pet.state(), PetState::Walk);
}

#[test]
fn idle_transitions_to_walk_after_incremental_expression_ticks() {
    let mut pet = PetEngine::new_with_seed(1);
    for _ in 0..25 {
        pet.tick(200 * MS, false);
    }
    assert_eq!(pet.state(), PetState::Walk);
}

#[test]
fn walk_speed_sign_follows_seed_direction() {
    let mut right_pet = walking_pet(0);
    assert_eq!(right_pet.direction(), Direction::Right);
    assert_eq!(right_pet.tick(0, false).walking, Some(Direction::Right));

    let mut left_pet = walking_pet(1);
    assert_eq!(left_pet.direction(), Direction::Left);
    assert_eq!(left_pet.tick(0, false).walking, Some(Direction::Left));
}

#[test]
fn turn_around_reverses_walk_speed_direction() {
    let mut pet = walking_pet(0);
    pet.turn_around();
    assert_eq!(pet.direction(), Direction::Left);
    assert_eq!(pet.tick(0, false).walking, Some(Direction::Left));
}

#[test]
fn walk_returns_to_idle_after_configured_distance() {
    let mut pet = walking_pet(0);
    let tick = pet.tick(WALK_NANOS, true);
    assert_eq!(pet.state(), PetState::Idle);
    assert_eq!(tick.state, PetState::Idle);
    assert_eq!(tick.frame_index, 0);
    assert_eq!(tick.walking, None);
    assert_eq!(tick.walk, WalkUpdate::Empty);
}

#[test]
fn walking_short_of_the_distance_consumes_it() {
    let mut pet = walking_pet(0);
    let tick = pet.tick(16 * MS, false);
    assert_eq!(tick.walk, WalkUpdate::Consume);
    assert_eq!(tick.walking, Some(Direction::Right));
}

fn sleeping_pet() -> PetEngine {
    let mut pet = PetEngine::new();
    for _ in 0..2 {
        pet.tick(5 * SEC, false);
        assert_eq!(pet.state(), PetState::Walk);
        pet.tick(WALK_NANOS, true);
        assert_eq!(pet.state(), PetState::Idle);
    }
    let tick = pet.tick(5 * SEC, false);
    assert_eq!(tick.state, PetState::Sleep);
    pet
}

#[test]
fn sleep_is_naturally_reachable_after_two_walk_cycles() {
    let mut pet = PetEngine::new();
    for _ in 0..2 {
        pet.tick(5 * SEC, false);
        assert_eq!(pet.state(), PetState::Walk);
        pet.tick(WALK_NANOS, true);
        assert_eq!(pet.state(), PetState::Idle);
    }
    let tick = pet.tick(5 * SEC, false);
    assert_eq!(pet.state(), PetState::Sleep);
    assert_eq!(tick.state, PetState::Sleep);
    assert_eq!(tick.frame_index, 0);
    assert_eq!(tick.walking, None);
}

#[test]
fn sleep_returns_to_idle_after_12_seconds() {
    let mut pet = sleeping_pet();
    let tick = pet.tick(12 * SEC, false);
    assert_eq!(pet.state(), PetState::Idle);
    assert_eq!(tick.state, PetState::Idle);
    assert_eq!(tick.frame_index, 0);
    assert_eq!(tick.walking, None);
}

#[test]
fn naturally_reached_sleep_returns_to_idle_after_12_seconds() {
    let mut pet = sleeping_pet();
    pet.tick(11 * SEC, false);
    assert_eq!(pet.state(), PetState::Sleep);
    pet.tick(SEC, false);
    assert_eq!(pet.state(), PetState::Idle);
}

#[test]
fn tick_reports_walk_at_idle_to_walk_boundary() {
    let mut pet = PetEngine::new_with_seed(1);
    let tick = pet.tick(5 * SEC, false);
    assert_eq!(pet.state(), PetState::Walk);
    assert_eq!(tick.state, PetState::Walk);
    assert_eq!(tick.frame_index, 0);
    assert_eq!(tick.walking, Some(Direction::Left));
}

#[test]
fn sleep_uses_slow_animation_rate() {
    let mut pet = sleeping_pet();
    pet.tick(499 * MS, false);
    assert_eq!(pet.frame_index(), 0);
    pet.tick(MS, false);
    assert_eq!(pet.frame_index(), 1);
}

#[test]
fn set_intent_stores_intent() {
    let mut pet = PetEngine::new_with_seed(0);
    let w = pet.set_intent(BehaviorIntent::ChaseHorizontal { direction: Direction::Right });
    assert_eq!(w, WalkUpdate::Keep);
    assert_eq!(pet.intent(), BehaviorIntent::ChaseHorizontal { direction: Direction::Right });
}

#[test]
fn default_intent_is_idle() {
    let pet = PetEngine::new_with_seed(0);
    assert_eq!(pet.intent(), BehaviorIntent::Idle);
}

#[test]
fn set_intent_avoid_rect_interrupts_idle_into_walk() {
    let mut pet = PetEngine::new_with_seed(0);
    pet.tick(0, false);
    assert_eq!(pet.state(), PetState::Idle);
    let w = pet.set_intent(BehaviorIntent::AvoidRectHorizontal { direction: Direction::Left });
    assert_eq!(w, WalkUpdate::Full);
    assert_eq!(pet.state(), PetState::Walk);
    assert_eq!(pet.tick(0, false).walking, Some(Direction::Left));
}

#[test]
fn set_intent_avoid_rect_redirects_mid_walk() {
    let mut pet = PetEngine::new_with_seed(0);
    pet.tick(0, false);
    while pet.state() != PetState::Walk {
        pet.tick(200 * MS, false);
    }
    let w = pet.set_intent(BehaviorIntent::AvoidRectHorizontal { direction: Direction::Left });
    assert_eq!(w, WalkUpdate::Full);
    assert_eq!(pet.state(), PetState::Walk, "should stay in Walk, not re-enter");
    assert_eq!(pet.tick(0, false).walking, Some(Direction::Left));
}

#[test]
fn set_intent_chase_does_not_interrupt_mid_walk() {
    let mut pet = PetEngine::new_with_seed(0);
    pet.tick(0, false);
    while pet.state() != PetState::Walk {
        pet.tick(200 * MS, false);
    }
    pet.set_intent(BehaviorIntent::ChaseHorizontal { direction: Direction::Left });
    assert_eq!(pet.tick(0, false).walking, Some(Direction::Right));
}

#[test]
fn chase_intent_sets_direction_of_the_next_walk() {
    let mut pet = PetEngine::new_with_seed(0);
    pet.set_intent(BehaviorIntent::ChaseHorizontal { direction: Direction::Left });
    pet.tick(5 * SEC, false);
    assert_eq!(pet.direction(), Direction::Left);
}

#[test]
fn current_animation_name_is_idle_at_construction() {
    let pet = PetEngine::new();
    assert_eq!(pet.current_animation_name(), "idle");
}

#[test]
fn current_animation_name_is_hover_calm_for_calm_hovered() {
    let mut pet = PetEngine::new();
    pet.apply_personality(Personality::Calm);
    pet.set_hovered(true);
    assert_eq!(pet.current_animation_name(), "hover-calm");
}

#[test]
fn current_animation_name_is_walk_right_when_walking() {
    let pet = walking_pet(0);
    assert_eq!(pet.current_animation_name(), "walk-right");
}

#[test]
fn current_sprite_index_starts_at_idle_frame_zero() {
    let pet = PetEngine::new();
    assert_eq!(pet.current_sprite_index(), 0);
}

#[test]
fn current_sprite_index_for_walk_starts_at_thirty_two() {
    let pet = walking_pet(0);
    assert_eq!(pet.current_sprite_index(), 32);
}

#[test]
fn frame_size_returns_manifest_geometry() {
    let pet = PetEngine::new();
    assert_eq!(pet.frame_size(), (64, 64));
}

#[test]
fn animation_name_change_does_not_reset_frame_index() {
    let mut pet = walking_pet(0);
    pet.tick(250 * MS, false);
    assert_eq!(pet.frame_index(), 2);
    assert_eq!(pet.current_animation_name(), "walk-right");

    pet.set_hovered(true);
    assert_eq!(pet.current_animation_name(), "hover-cheerful");
    assert_eq!(pet.frame_index(), 2);
    assert_eq!(pet.current_sprite_index(), 26);
}

#[test]
fn entering_non_lifecycle_animation_preserves_cursor() {
    let mut pet = walking_pet(0);
    pet.tick(250 * MS, false);
    assert_eq!(pet.frame_index(), 2);
    pet.set_hovered(true);
    assert_eq!(pet.frame_index(), 2);
}

#[test]
fn hover_intensity_fractional_value_preserves_rounding_boundary() {
    let mut pet = PetEngine::new();
    pet.apply_personality(Personality::Cheerful);
    pet.set_hover_frame_ms(108);
    pet.set_hovered(true);
    pet.tick(107 * MS, false);
    assert_eq!(pet.frame_index(), 0);
    pet.tick(MS, false);
    assert_eq!(pet.frame_index(), 1);
}

#[test]
fn advance_animation_wraps_at_manifest_frame_count_not_fixed_constant() {
    let mut pet = PetEngine::new_with_manifest(manifest(
        vec![("idle", Animation::from_indices(&[0, 1, 2, 3, 4, 5]))],
        6,
    ));
    for _ in 0..5 {
        pet.tick(200 * MS, false);
    }
    assert_eq!(pet.frame_index(), 5);
    assert_eq!(pet.current_sprite_index(), 5);
    pet.tick(200 * MS, false);
    assert_eq!(pet.frame_index(), 0);
    assert_eq!(pet.current_sprite_index(), 0);
}

#[test]
fn new_with_manifest_uses_provided_manifest() {
    let mut m = manifest(vec![("idle", Animation::from_indices(&[0, 1, 2, 3]))], 4);
    m.id = "custom".to_string();
    m.frame = FrameGeometry { width: 32, height: 48, columns: 4, rows: 1 };
    let pet = PetEngine::new_with_manifest(m);
    assert_eq!(pet.manifest().id, "custom");
    assert_eq!(pet.frame_size(), (32, 48));
}

#[test]
fn per_frame_ms_overrides_runtime_timing() {
    let mut pet = lifecycle_fixture("idle2", timed(&[(0, 50), (1, 50)], None, false));
    pet.set_notification(&playing("idle2"));
    assert_eq!(pet.current_animation_name(), "idle2");
    pet.tick(50 * MS, false);
    assert_eq!(pet.frame_index(), 1);
    pet.tick(50 * MS, false);
    assert_eq!(pet.frame_index(), 0);
}

#[test]
fn zero_frame_duration_does_not_hang_advance_animation() {
    let mut pet = lifecycle_fixture("zero", timed(&[(0, 0)], None, false));
    pet.set_notification(&playing("zero"));
    pet.tick(100 * MS, false);
    assert_eq!(pet.frame_index(), 0);
}

#[test]
fn loop_start_wraps_to_intro_boundary_not_zero() {
    let mut pet = lifecycle_fixture("loopy", timed(&[(0, 50), (1, 50), (2, 50)], Some(1), false));
    pet.set_notification(&playing("loopy"));
    assert_eq!(pet.frame_index(), 0);
    pet.tick(50 * MS, false);
    pet.tick(50 * MS, false);
    assert_eq!(pet.frame_index(), 2);
    pet.tick(50 * MS, false);
    assert_eq!(pet.frame_index(), 1);
}

#[test]
fn entering_lifecycle_animation_resets_cursor() {
    let happy = Animation {
        frames: vec![Frame { index: 5, ms: None }, Frame { index: 6, ms: None }],
        loop_start: Some(1),
        fallback: None,
        one_shot: false,
    };
    let mut pet = lifecycle_fixture("happy", happy);
    pet.tick(200 * MS, false);
    pet.tick(200 * MS, false);
    assert_ne!(pet.frame_index(), 0);
    pet.start_micro_action(MicroAction::CheerUp);
    assert_eq!(pet.current_animation_name(), "happy");
    assert_eq!(pet.frame_index(), 0);
}

#[test]
fn one_shot_completion_fires_after_final_frame_full_duration() {
    let mut pet = lifecycle_fixture("success", timed(&[(4, 50), (5, 50)], None, true));
    pet.set_notification(&playing("success"));
    let t1 = pet.tick(50 * MS, false);
    assert_eq!(pet.frame_index(), 1);
    assert!(!t1.oneshot_completed);
    let t2 = pet.tick(50 * MS, false);
    assert!(t2.oneshot_completed, "completion should fire after final frame duration");
    assert_eq!(pet.frame_index(), 1, "one-shot holds the last frame (no wrap)");
}

#[test]
fn one_shot_completion_does_not_refire_while_held() {
    let mut pet = lifecycle_fixture("success", timed(&[(4, 50), (5, 50)], None, true));
    pet.set_notification(&playing("success"));
    pet.tick(50 * MS, false);
    let t2 = pet.tick(50 * MS, false);
    assert!(t2.oneshot_completed);
    let t3 = pet.tick(50 * MS, false);
    assert!(!t3.oneshot_completed);
    assert_eq!(pet.frame_index(), 1);
}

#[test]
fn looping_animation_never_reports_oneshot_completed() {
    let mut pet = PetEngine::new();
    let t = pet.tick(200 * MS, false);
    assert!(!t.oneshot_completed);
}

#[test]
fn current_fallback_exposes_manifest_value() {
    let mut pet = lifecycle_fixture("success", timed(&[(4, 50)], None, true));
    assert_eq!(pet.current_fallback(), "idle");
    pet.set_notification(&playing("success"));
    assert_eq!(pet.current_animation_name(), "success");
    assert_eq!(pet.current_fallback(), "idle");
}

#[test]
fn fresh_runtime_has_no_notification() {
    assert_eq!(PetEngine::new().notification_animation(), None);
}

#[test]
fn set_notification_resolves_kind_animation() {
    let mut pet = notify_fixture();
    pet.set_notification(&event("running"));
    assert_eq!(pet.notification_animation(), Some("notify-running"));
}

#[test]
fn set_notification_falls_back_when_animation_absent() {
    let mut pet = notify_fixture();
    pet.set_notification(&event("needs-review"));
    assert_eq!(pet.notification_animation(), Some("notify-running"));
}

#[test]
fn higher_priority_preempts_lower() {
    let mut pet = notify_fixture();
    pet.set_notification(&event("running"));
    pet.set_notification(&event("failed"));
    assert_eq!(pet.notification_animation(), Some("notify-failed"));
}

#[test]
fn lower_priority_is_ignored() {
    let mut pet = notify_fixture();
    pet.set_notification(&event("failed"));
    pet.set_notification(&event("running"));
    assert_eq!(pet.notification_animation(), Some("notify-failed"));
}

#[test]
fn explicit_priority_is_clamped() {
    let mut pet = notify_fixture();
    let mut ev = event("running");
    ev.priority = Some(10_000);
    pet.set_notification(&ev);
    pet.set_notification(&event("failed"));
    assert_eq!(pet.notification_animation(), Some("notify-running"));
}

#[test]
fn notifying_pins_resolved_animation() {
    let mut pet = notify_fixture();
    pet.set_notification(&event("running"));
    assert_eq!(pet.behavior_mode(), BehaviorMode::Notifying);
    assert_eq!(pet.current_animation_name(), "notify-running");
}

#[test]
fn drag_and_hover_outrank_notification() {
    let mut pet = notify_fixture();
    pet.set_notification(&event("running"));
    pet.set_hovered(true);
    assert_ne!(pet.behavior_mode(), BehaviorMode::Notifying);
    pet.set_hovered(false);
    assert_eq!(pet.behavior_mode(), BehaviorMode::Notifying);
    pet.set_dragging(true);
    assert_eq!(pet.behavior_mode(), BehaviorMode::Dragging);
}

#[test]
fn notification_outranks_micro_action_and_walk() {
    let mut pet = notify_fixture();
    pet.start_micro_action(MicroAction::CheerUp);
    pet.set_notification(&event("running"));
    assert_eq!(pet.behavior_mode(), BehaviorMode::Notifying);
}

#[test]
fn ttl_expires_and_clears_notification() {
    let mut pet = notify_fixture();
    let mut ev = event("running");
    ev.ttl_ms = Some(100);
    pet.set_notification(&ev);
    pet.tick(60 * MS, false);
    assert!(pet.notification_animation().is_some());
    pet.tick(60 * MS, false);
    assert_eq!(pet.notification_animation(), None);
}

#[test]
fn ttl_counts_down_while_hidden() {
    let mut pet = notify_fixture();
    let mut ev = event("running");
    ev.ttl_ms = Some(100);
    pet.set_notification(&ev);
    pet.set_hidden(true);
    pet.tick(120 * MS, false);
    assert_eq!(pet.notification_animation(), None, "TTL must keep counting while hidden");
}

#[test]
fn one_shot_notification_clears_on_completion_before_ttl() {
    let mut pet = PetEngine::new_with_manifest(manifest(
        vec![
            ("idle", Animation::from_indices(&[0, 1, 2, 3])),
            ("notify-running", Animation::from_indices(&[4, 5])),
            ("notify-success", timed(&[(6, 50), (7, 50)], None, true)),
        ],
        8,
    ));
    let mut ev = event("succeeded");
    ev.animation_name = Some("notify-success".to_string());
    ev.ttl_ms = Some(60_000);
    pet.set_notification(&ev);
    assert_eq!(pet.current_animation_name(), "notify-success");
    pet.tick(50 * MS, false);
    let t = pet.tick(50 * MS, false);
    assert!(t.oneshot_completed);
    assert_eq!(pet.notification_animation(), None, "one-shot completion clears the notification");
    assert_ne!(pet.behavior_mode(), BehaviorMode::Notifying);
}

#[test]
fn hidden_pet_stands_still_and_reports_no_movement() {
    let mut pet = walking_pet(0);
    pet.set_hidden(true);
    assert_eq!(pet.behavior_mode(), BehaviorMode::Hidden);
    let tick = pet.tick(10 * SEC, true);
    assert_eq!(tick.state, PetState::Walk);
    assert_eq!(tick.walk, WalkUpdate::Keep);
    assert_eq!(tick.walking, None);
    assert!(!tick.oneshot_completed);
    pet.set_hidden(false);
    assert_eq!(pet.behavior_mode(), BehaviorMode::Walking);
}

#[test]
fn clearing_action_and_notification_restores_the_chain() {
    let mut pet = notify_fixture();
    pet.start_micro_action(MicroAction::Nap);
    assert_eq!(pet.behavior_mode(), BehaviorMode::Action);
    assert!(!pet.movement_enabled());
    pet.set_notification(&event("running"));
    pet.clear_notification();
    assert_eq!(pet.behavior_mode(), BehaviorMode::Action);
    pet.clear_micro_action();
    assert_eq!(pet.behavior_mode(), BehaviorMode::Default);
    assert!(pet.movement_enabled());
}

#[test]
fn runnable_manifests_need_idle_frames_and_a_sane_loop_start() {
    assert!(is_runnable(&PetManifest::load_embedded_happy_cappy()));
    assert!(!is_runnable(&manifest(vec![("walk", Animation::from_indices(&[0]))], 1)));
    assert!(!is_runnable(&manifest(vec![("idle", Animation::from_indices(&[]))], 1)));
    let mut bad = Animation::from_indices(&[0]);
    bad.loop_start = Some(usize::MAX);
    assert!(!is_runnable(&manifest(vec![("idle", Animation::from_indices(&[0])), ("x", bad)], 1)));
}

#[test]
fn mode_follows_flag_priority_through_operations() {
    let mut pet = PetEngine::new_with_seed(0);
    assert_eq!(pet.behavior_mode(), BehaviorMode::Default);
    pet.start_micro_action(MicroAction::CheerUp);
    assert_eq!(pet.behavior_mode(), BehaviorMode::Action);
    pet.set_hovered(true);
    assert_eq!(pet.behavior_mode(), BehaviorMode::Hovered);
    pet.set_dragging(true);
    assert_eq!(pet.behavior_mode(), BehaviorMode::Dragging);
    pet.set_hidden(true);
    assert_eq!(pet.behavior_mode(), BehaviorMode::Hidden);
    pet.set_hidden(false);
    pet.set_dragging(false);
    pet.set_hovered(false);
    pet.tick(10 * MS, false);
    assert_eq!(pet.behavior_mode(), BehaviorMode::Action);
    pet.clear_micro_action();
    assert_eq!(pet.behavior_mode(), BehaviorMode::Default);
}
