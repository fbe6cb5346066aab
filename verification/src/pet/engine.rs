//! The pet's behavior engine: locomotion state, animation cursor, behavior
//! mode and notification slot, advanced in whole nanoseconds.
//!
//! The engine decides; the caller moves the window. Walking distance and
//! on-screen speed are measured by the caller, which tells the engine each
//! tick whether the current walk segment would be used up, and learns back
//! what became of the segment ([`WalkUpdate`]).
use vstd::prelude::*;

use crate::micro_action::{ActionOverride, MicroAction};
use crate::notification::{
    clamp_priority, clamp_priority_spec, clamp_ttl, clamp_ttl_spec, preset_for, preset_spec,
    NotificationEvent,
};
use crate::pet::manifest::{is_bundled_happy_cappy, required_animation_names, plays_row, Animation, PetManifest};
use crate::pet::resolver::{
    lemma_first_present_declared, chain_spec, first_present, lookup_with_fallback, lookup_with_fallback_dynamic, names_view,
    resolve_animation_chain,
};
use crate::pet::types::opposite;
use crate::pet::{BehaviorIntent, BehaviorMode, Direction, Personality, PetState};
use crate::text::{concat, opt_string_view, str_eq};

verus! {

/// Nanoseconds in a millisecond.
pub const NANOS_PER_MILLI: u64 = 1_000_000;
/// Frame length while idle.
pub const IDLE_FRAME_NANOS: u64 = 200_000_000;
/// Frame length while walking.
pub const WALK_FRAME_NANOS: u64 = 100_000_000;
/// Frame length while asleep.
pub const SLEEP_FRAME_NANOS: u64 = 500_000_000;
/// How long the pet idles before it walks or falls asleep.
pub const IDLE_PERIOD_NANOS: u64 = 5_000_000_000;
/// How long the pet sleeps.
pub const SLEEP_PERIOD_NANOS: u64 = 12_000_000_000;
/// Completed walks after which the next idle period ends in sleep.
pub const WALKS_BEFORE_SLEEP: u32 = 2;
/// Hover frame length for a cheerful pet at hover intensity 1.
pub const DEFAULT_HOVER_FRAME_MS: u32 = 140;

/// What became of the caller's walk segment during an operation.
#[derive(Debug, Clone, Copy, PartialEq, Eq, Structural)]
pub enum WalkUpdate {
    /// Untouched.
    Keep,
    /// The pet walked for the tick: the caller takes the tick's distance off.
    Consume,
    /// The segment ended: nothing is left.
    Empty,
    /// A new segment began: the full walking distance is left.
    Full,
}

/// What one tick reports.
#[derive(Debug, Clone, Copy, PartialEq, Eq, Structural)]
pub struct EngineTick {
    pub state: PetState,
    pub frame_index: usize,
    /// A one-shot animation reached the end of its final frame in this tick.
    pub oneshot_completed: bool,
    pub walk: WalkUpdate,
    /// The direction the pet moves in after the tick, if it moves.
    pub walking: Option<Direction>,
}

/// The active notification, as plain values.
pub struct SlotView {
    pub animation: Seq<char>,
    /// Time to live left, in nanoseconds.
    pub remaining: u64,
    pub priority: i32,
    pub label: Option<Seq<char>>,
    pub body: Option<Seq<char>>,
}

/// The engine's whole state, as plain values.
pub struct EngineView {
    pub state: PetState,
    pub direction: Direction,
    pub frame_index: usize,
    pub frame_elapsed: u64,
    pub state_elapsed: u64,
    pub completed_walk_cycles: u32,
    pub personality: Personality,
    pub behavior_mode: BehaviorMode,
    pub expression_index: usize,
    pub expression_elapsed: u64,
    /// The caller's speed multiplier is above zero.
    pub speed_positive: bool,
    pub hover_frame_ms: u32,
    /// The running micro action and its time left.
    pub action: Option<(MicroAction, u64)>,
    pub hovered: bool,
    pub dragging: bool,
    pub hidden: bool,
    pub intent: BehaviorIntent,
    pub manifest: PetManifest,
    /// The name of the animation being played.
    pub current: Seq<char>,
    /// A one-shot animation holds its final frame and has reported completion.
    pub oneshot_held: bool,
    pub notification: Option<SlotView>,
}

/// The engine can run on these animations: `idle` is declared, every
/// animation has a frame (and no more than an index can count), and no loop
/// start is the largest index.
pub open spec fn runnable(animations: Map<Seq<char>, Animation>) -> bool {
    &&& animations.contains_key("idle"@)
    &&& forall|k: Seq<char>| #[trigger]
        animations.contains_key(k) ==> 0 < animations[k].frames@.len() <= usize::MAX && (
        animations[k].loop_start matches Some(s) ==> s < usize::MAX)
}

/// The engine's standing facts.
pub open spec fn engine_wf(v: EngineView) -> bool {
    &&& runnable(v.manifest.animations@)
    &&& v.manifest.animations@.contains_key(v.current)
    &&& v.frame_index < usize::MAX
    &&& (v.notification matches Some(n) ==> v.manifest.animations@.contains_key(n.animation))
}

/// Speed is above zero and no nap holds the pet in place.
pub open spec fn movement_enabled_spec(v: EngineView) -> bool {
    v.speed_positive && !(v.action matches Some((a, _)) && a == MicroAction::Nap)
}

/// The behavior mode the flags call for: hidden, dragging, hovered,
/// notifying, action, walking, default, in that priority.
pub open spec fn mode_spec(v: EngineView) -> BehaviorMode {
    if v.hidden {
        BehaviorMode::Hidden
    } else if v.dragging {
        BehaviorMode::Dragging
    } else if v.hovered {
        BehaviorMode::Hovered
    } else if v.notification is Some {
        BehaviorMode::Notifying
    } else if v.action is Some {
        BehaviorMode::Action
    } else if v.state == PetState::Walk && movement_enabled_spec(v) {
        BehaviorMode::Walking
    } else {
        BehaviorMode::Default
    }
}

/// The running action, without its time.
pub open spec fn action_of(v: EngineView) -> Option<MicroAction> {
    match v.action {
        Some((a, _)) => Some(a),
        None => None,
    }
}

/// The animation named `name` drives its own cursor.
pub open spec fn lifecycle_named(animations: Map<Seq<char>, Animation>, name: Seq<char>) -> bool {
    animations.contains_key(name) && (animations[name].one_shot || animations[name].loop_start is Some)
}

/// Play `name`: a new lifecycle animation starts from its first frame, any
/// other change of name keeps the cursor.
pub open spec fn select_spec(v: EngineView, name: Seq<char>) -> EngineView {
    if name == v.current {
        v
    } else if lifecycle_named(v.manifest.animations@, name) {
        EngineView { current: name, frame_index: 0, frame_elapsed: 0, oneshot_held: false, ..v }
    } else {
        EngineView { current: name, ..v }
    }
}

/// Recompute the behavior mode and play its animation: the notification's
/// animation while notifying, else the first declared name of the mode's chain.
pub open spec fn refresh_spec(v: EngineView) -> EngineView {
    let m = mode_spec(v);
    let v1 = EngineView { behavior_mode: m, ..v };
    if m == BehaviorMode::Notifying {
        select_spec(v1, v.notification->Some_0.animation)
    } else {
        select_spec(
            v1,
            first_present(
                v.manifest.animations@,
                chain_spec(m, v.personality, v.expression_index, action_of(v)),
            ),
        )
    }
}

/// The direction an intent walks in, if it names one.
pub open spec fn intent_direction(intent: BehaviorIntent, otherwise: Direction) -> Direction {
    match intent {
        BehaviorIntent::ChaseHorizontal { direction } => direction,
        BehaviorIntent::AvoidHorizontal { direction } => direction,
        BehaviorIntent::AvoidRectHorizontal { direction } => direction,
        BehaviorIntent::Idle => otherwise,
    }
}

/// Enter `Idle`: cursor and clocks restart.
pub open spec fn enter_idle_spec(v: EngineView) -> EngineView {
    EngineView {
        state: PetState::Idle,
        frame_index: 0,
        frame_elapsed: 0,
        state_elapsed: 0,
        expression_elapsed: 0,
        ..v
    }
}

/// Enter `Walk`, facing the intent's direction when it has one.
pub open spec fn enter_walk_spec(v: EngineView) -> EngineView {
    EngineView {
        direction: intent_direction(v.intent, v.direction),
        state: PetState::Walk,
        frame_index: 0,
        frame_elapsed: 0,
        state_elapsed: 0,
        expression_elapsed: 0,
        ..v
    }
}

/// Enter `Sleep`: clocks restart and the walk count is reset.
pub open spec fn enter_sleep_spec(v: EngineView) -> EngineView {
    EngineView {
        state: PetState::Sleep,
        frame_index: 0,
        frame_elapsed: 0,
        state_elapsed: 0,
        expression_elapsed: 0,
        completed_walk_cycles: 0,
        ..v
    }
}

/// The pet is shown walking: visible, not dragged, able to move, in `Walk`.
pub open spec fn walking_spec(v: EngineView) -> Option<Direction> {
    if !v.hidden && !v.dragging && movement_enabled_spec(v) && v.state == PetState::Walk {
        Some(v.direction)
    } else {
        None
    }
}

/// `a + b`, or the largest `u64` when that overflows.
pub open spec fn sat_add(a: u64, b: u64) -> u64 {
    if a + b > u64::MAX {
        u64::MAX
    } else {
        (a + b) as u64
    }
}

/// `a - b`, or zero when `b` is larger.
pub open spec fn sat_sub(a: u64, b: u64) -> u64 {
    if a < b {
        0
    } else {
        (a - b) as u64
    }
}

/// The per-frame override at `pos` (wrapping around the frames), if any.
pub open spec fn frame_ms_at(a: Animation, pos: usize) -> Option<u32> {
    if a.frames@.len() == 0 {
        None
    } else {
        a.frames@[pos as int % a.frames@.len() as int].ms
    }
}

/// How long the frame at `pos` shows: its override, else `base`.
pub open spec fn frame_nanos(a: Animation, base: u64, pos: usize) -> u64 {
    match frame_ms_at(a, pos) {
        Some(ms) => (ms as u64 * NANOS_PER_MILLI) as u64,
        None => base,
    }
}

/// The frame count, counting an empty animation as one frame.
pub open spec fn frame_count_spec(a: Animation) -> int {
    if a.frames@.len() == 0 {
        1
    } else {
        a.frames@.len() as int
    }
}

/// The frame after `pos`: the next one, or the loop start (frame zero
/// without one) after the last.
pub open spec fn next_frame(a: Animation, pos: usize) -> usize {
    if pos + 1 >= frame_count_spec(a) {
        match a.loop_start {
            Some(s) => s,
            None => 0,
        }
    } else {
        (pos + 1) as usize
    }
}

/// An animation cursor: frame, time spent on it, whether a one-shot holds its
/// last frame, and whether it has just completed.
pub struct Cursor {
    pub index: usize,
    pub elapsed: u64,
    pub held: bool,
    pub completed: bool,
}

/// Move the cursor through every frame whose full length has elapsed. A
/// zero-length frame stops the cursor. A one-shot animation stops on its last
/// frame, restarts the clock there, and reports completion only the first
/// time.
pub open spec fn advance_spec(a: Animation, base: u64, index: usize, elapsed: u64, held: bool) -> Cursor
    decreases elapsed,
{
    let d = frame_nanos(a, base, index);
    if d == 0 || elapsed < d {
        Cursor { index, elapsed, held, completed: false }
    } else if a.one_shot && index + 1 >= frame_count_spec(a) {
        Cursor { index, elapsed: 0, held: true, completed: !held }
    } else {
        advance_spec(a, base, next_frame(a, index), (elapsed - d) as u64, held)
    }
}

/// The frame length when no override applies: the hover length while
/// hovered, else the state's own.
pub open spec fn base_frame_nanos(v: EngineView) -> u64 {
    if v.behavior_mode == BehaviorMode::Hovered {
        (v.hover_frame_ms as u64 * NANOS_PER_MILLI) as u64
    } else {
        match v.state {
            PetState::Idle => IDLE_FRAME_NANOS,
            PetState::Walk => WALK_FRAME_NANOS,
            PetState::Sleep => SLEEP_FRAME_NANOS,
        }
    }
}

/// Advance the current animation's cursor; reports a one-shot completion.
pub open spec fn advance_animation_spec(v: EngineView) -> (EngineView, bool) {
    let c = advance_spec(
        v.manifest.animations@[v.current],
        base_frame_nanos(v),
        v.frame_index,
        v.frame_elapsed,
        v.oneshot_held,
    );
    (EngineView { frame_index: c.index, frame_elapsed: c.elapsed, oneshot_held: c.held, ..v }, c.completed)
}

/// The autonomous state machine: idle for five seconds, then walk (or sleep
/// after two completed walks, or stay idle when the pet cannot move); a walk
/// ends when the caller's segment is used up or movement stops; sleep lasts
/// twelve seconds.
pub open spec fn advance_state_spec(v: EngineView, walk_done: bool) -> (EngineView, WalkUpdate) {
    match v.state {
        PetState::Idle => if v.state_elapsed >= IDLE_PERIOD_NANOS {
            if !movement_enabled_spec(v) {
                (EngineView { state_elapsed: 0, ..v }, WalkUpdate::Empty)
            } else if v.completed_walk_cycles >= WALKS_BEFORE_SLEEP {
                (enter_sleep_spec(v), WalkUpdate::Empty)
            } else {
                (enter_walk_spec(v), WalkUpdate::Full)
            }
        } else {
            (v, WalkUpdate::Keep)
        },
        PetState::Walk => if !movement_enabled_spec(v) {
            (enter_idle_spec(v), WalkUpdate::Empty)
        } else if walk_done {
            (
                enter_idle_spec(
                    EngineView {
                        completed_walk_cycles: if v.completed_walk_cycles == u32::MAX {
                            u32::MAX
                        } else {
                            (v.completed_walk_cycles + 1) as u32
                        },
                        ..v
                    },
                ),
                WalkUpdate::Empty,
            )
        } else {
            (v, WalkUpdate::Consume)
        },
        PetState::Sleep => if v.state_elapsed >= SLEEP_PERIOD_NANOS {
            (enter_idle_spec(v), WalkUpdate::Empty)
        } else {
            (v, WalkUpdate::Keep)
        },
    }
}

/// How often the expression changes: calm every five seconds, cheerful every
/// three, lively every two.
pub open spec fn expression_interval_nanos(p: Personality) -> u64 {
    match p {
        Personality::Calm => 5_000_000_000,
        Personality::Cheerful => 3_000_000_000,
        Personality::Lively => 2_000_000_000,
    }
}

/// Count `dt` off the micro action; a finished action is dropped and the
/// mode recomputed.
pub open spec fn tick_action_spec(v: EngineView, dt: u64) -> EngineView {
    match v.action {
        Some((a, rem)) => if sat_sub(rem, dt) == 0 {
            refresh_spec(EngineView { action: None, ..v })
        } else {
            EngineView { action: Some((a, sat_sub(rem, dt))), ..v }
        },
        None => v,
    }
}

/// Count `dt` off the notification, whatever the pet is doing; an expired
/// notification is dropped and the mode recomputed.
pub open spec fn tick_notification_spec(v: EngineView, dt: u64) -> EngineView {
    match v.notification {
        Some(n) => if sat_sub(n.remaining, dt) == 0 {
            refresh_spec(EngineView { notification: None, ..v })
        } else {
            EngineView { notification: Some(SlotView { remaining: sat_sub(n.remaining, dt), ..n }), ..v }
        },
        None => v,
    }
}

/// The clocks after `dt`: the frame clock always runs, the state and
/// expression clocks stop while the pet is dragged.
pub open spec fn run_clocks_spec(v: EngineView, dt: u64) -> EngineView {
    EngineView {
        frame_elapsed: sat_add(v.frame_elapsed, dt),
        state_elapsed: if v.dragging {
            v.state_elapsed
        } else {
            sat_add(v.state_elapsed, dt)
        },
        expression_elapsed: if v.dragging {
            v.expression_elapsed
        } else {
            sat_add(v.expression_elapsed, dt)
        },
        ..v
    }
}

/// Move to the next expression when its interval has passed, unless an
/// action ran at the start of the tick or the pet is hovered or dragged.
pub open spec fn next_expression_spec(v: EngineView, had_action: bool) -> EngineView {
    if !had_action && !v.hovered && !v.dragging && v.expression_elapsed >= expression_interval_nanos(
        v.personality,
    ) {
        EngineView {
            expression_index: if v.expression_index == usize::MAX {
                0
            } else {
                (v.expression_index + 1) as usize
            },
            expression_elapsed: 0,
            ..v
        }
    } else {
        v
    }
}

/// One tick of `dt` nanoseconds; `walk_done` tells whether the caller's walk
/// segment would be used up by walking for the tick. A hidden pet only
/// counts down its action and notification. Otherwise the clocks run, the
/// animation advances (a completed one-shot ends the notification), the
/// state machine steps unless the pet is dragged, the expression may move on,
/// and the mode is recomputed.
pub open spec fn tick_spec(v: EngineView, dt: u64, walk_done: bool) -> (EngineView, EngineTick) {
    let had_action = v.action is Some;
    let v2 = tick_notification_spec(tick_action_spec(v, dt), dt);
    if v2.hidden {
        let v3 = refresh_spec(v2);
        (
            v3,
            EngineTick {
                state: v3.state,
                frame_index: v3.frame_index,
                oneshot_completed: false,
                walk: WalkUpdate::Keep,
                walking: None,
            },
        )
    } else {
        let (v4, completed) = advance_animation_spec(run_clocks_spec(v2, dt));
        let v5 = if completed {
            EngineView { notification: None, ..v4 }
        } else {
            v4
        };
        let (v6, walk) = if v5.dragging {
            (v5, WalkUpdate::Keep)
        } else {
            advance_state_spec(v5, walk_done)
        };
        let v8 = refresh_spec(next_expression_spec(v6, had_action));
        (
            v8,
            EngineTick {
                state: v8.state,
                frame_index: v8.frame_index,
                oneshot_completed: completed,
                walk,
                walking: walking_spec(v8),
            },
        )
    }
}

/// The priority an event carries: its own or its kind's preset, clamped.
pub open spec fn event_priority(ev: NotificationEvent) -> i32 {
    clamp_priority_spec(
        match ev.priority {
            Some(p) => p,
            None => preset_spec(ev.kind@).0,
        },
    )
}

/// The time to live an event carries, in milliseconds: its own or its kind's
/// preset, clamped.
pub open spec fn event_ttl_ms(ev: NotificationEvent) -> u64 {
    clamp_ttl_spec(
        match ev.ttl_ms {
            Some(t) => t,
            None => preset_spec(ev.kind@).1,
        },
    )
}

/// The animations an event asks for, most specific first: its explicit name
/// (else `notify-<kind>`), `notify-<kind>`, `notify-message`,
/// `notify-running`, `idle`.
pub open spec fn event_chain(ev: NotificationEvent) -> Seq<Seq<char>> {
    let kind_name = "notify-"@ + ev.kind@;
    seq![
        match ev.animation_name {
            Some(a) => a@,
            None => kind_name,
        },
        kind_name,
        "notify-message"@,
        "notify-running"@,
        "idle"@,
    ]
}

/// Show `ev` unless a notification of higher priority is active: the slot
/// takes the first declared animation of the event's chain, its time to live
/// and priority, and the mode is recomputed.
pub open spec fn set_notification_spec(v: EngineView, ev: NotificationEvent) -> EngineView {
    if v.notification matches Some(active) && event_priority(ev) < active.priority {
        v
    } else {
        refresh_spec(
            EngineView {
                notification: Some(
                    SlotView {
                        animation: first_present(v.manifest.animations@, event_chain(ev)),
                        remaining: (event_ttl_ms(ev) * NANOS_PER_MILLI) as u64,
                        priority: event_priority(ev),
                        label: opt_string_view(ev.label),
                        body: opt_string_view(ev.body),
                    },
                ),
                ..v
            },
        )
    }
}

/// Set the intent. Avoiding a rectangle turns the pet that way at once and
/// starts a full walk segment (entering `Walk` from `Idle` or `Sleep`);
/// other intents only take effect when the next walk begins.
pub open spec fn set_intent_spec(v: EngineView, intent: BehaviorIntent) -> (EngineView, WalkUpdate) {
    let v1 = EngineView { intent, ..v };
    match intent {
        BehaviorIntent::AvoidRectHorizontal { direction } => {
            let v2 = EngineView { direction, ..v1 };
            if v2.state == PetState::Walk {
                (v2, WalkUpdate::Full)
            } else {
                (enter_walk_spec(v2), WalkUpdate::Full)
            }
        },
        _ => (v1, WalkUpdate::Keep),
    }
}

/// The engine as it starts on `manifest`: idle on frame zero, cheerful,
/// facing right for an even `seed` and left for an odd one, playing `idle`.
pub open spec fn initial_view(manifest: PetManifest, seed: u64) -> EngineView {
    EngineView {
        state: PetState::Idle,
        direction: if seed % 2 == 0 {
            Direction::Right
        } else {
            Direction::Left
        },
        frame_index: 0,
        frame_elapsed: 0,
        state_elapsed: 0,
        completed_walk_cycles: 0,
        personality: Personality::Cheerful,
        behavior_mode: BehaviorMode::Default,
        expression_index: 0,
        expression_elapsed: 0,
        speed_positive: true,
        hover_frame_ms: DEFAULT_HOVER_FRAME_MS,
        action: None,
        hovered: false,
        dragging: false,
        hidden: false,
        intent: BehaviorIntent::Idle,
        manifest,
        current: "idle"@,
        oneshot_held: false,
        notification: None,
    }
}

/// The bundled pet's animations can drive the engine.
pub proof fn lemma_bundled_runnable(m: PetManifest)
    requires
        is_bundled_happy_cappy(m),
    ensures
        runnable(m.animations@),
{
    let rn = required_animation_names();
    assert(rn[0] == "idle"@);
    assert(m.animations@.contains_key(rn[0]));
    assert forall|k: Seq<char>| #[trigger] m.animations@.contains_key(k) implies 0 < m.animations@[k].frames@.len()
        <= usize::MAX && (m.animations@[k].loop_start matches Some(s) ==> s < usize::MAX) by {
        assert(rn.to_set().contains(k));
        let j = choose|j: int| 0 <= j < rn.len() && rn[j] == k;
        assert(m.animations@.contains_key(rn[j]) && plays_row(m.animations@[rn[j]], j));
    }
}

/// The active notification.
pub struct NotificationSlot {
    animation_name: String,
    remaining: u64,
    priority: i32,
    label: Option<String>,
    body: Option<String>,
}

impl NotificationSlot {
    /// The same notification with `remaining` nanoseconds left.
    fn with_remaining(&self, remaining: u64) -> (r: Self)
        ensures
            r@ == (SlotView { remaining, ..self@ }),
    {
        NotificationSlot {
            animation_name: self.animation_name.clone(),
            remaining,
            priority: self.priority,
            label: match &self.label {
                Some(s) => Some(s.clone()),
                None => None,
            },
            body: match &self.body {
                Some(s) => Some(s.clone()),
                None => None,
            },
        }
    }
}

impl View for NotificationSlot {
    type V = SlotView;

    closed spec fn view(&self) -> SlotView {
        SlotView {
            animation: self.animation_name@,
            remaining: self.remaining,
            priority: self.priority,
            label: opt_string_view(self.label),
            body: opt_string_view(self.body),
        }
    }
}

/// The pet's behavior engine.
pub struct PetEngine {
    state: PetState,
    direction: Direction,
    frame_index: usize,
    frame_elapsed: u64,
    state_elapsed: u64,
    completed_walk_cycles: u32,
    personality: Personality,
    behavior_mode: BehaviorMode,
    expression_index: usize,
    expression_elapsed: u64,
    speed_positive: bool,
    hover_frame_ms: u32,
    action_override: Option<ActionOverride>,
    hovered: bool,
    dragging: bool,
    hidden: bool,
    intent: BehaviorIntent,
    manifest: PetManifest,
    current_animation_name: String,
    oneshot_held: bool,
    notification: Option<NotificationSlot>,
}

impl View for PetEngine {
    type V = EngineView;

    closed spec fn view(&self) -> EngineView {
        EngineView {
            state: self.state,
            direction: self.direction,
            frame_index: self.frame_index,
            frame_elapsed: self.frame_elapsed,
            state_elapsed: self.state_elapsed,
            completed_walk_cycles: self.completed_walk_cycles,
            personality: self.personality,
            behavior_mode: self.behavior_mode,
            expression_index: self.expression_index,
            expression_elapsed: self.expression_elapsed,
            speed_positive: self.speed_positive,
            hover_frame_ms: self.hover_frame_ms,
            action: match self.action_override {
                Some(a) => Some((a.spec_action(), a.spec_remaining())),
                None => None,
            },
            hovered: self.hovered,
            dragging: self.dragging,
            hidden: self.hidden,
            intent: self.intent,
            manifest: self.manifest,
            current: self.current_animation_name@,
            oneshot_held: self.oneshot_held,
            notification: match self.notification {
                Some(n) => Some(n@),
                None => None,
            },
        }
    }
}

impl PetEngine {
    #[verifier::type_invariant]
    spec fn inv(&self) -> bool {
        engine_wf(self@)
    }

    /// An engine on `manifest`, idle on frame zero, cheerful, facing right for
    /// an even `seed` and left for an odd one.
    pub fn new_with_manifest_and_seed(manifest: PetManifest, seed: u64) -> (e: Self)
        requires
            runnable(manifest.animations@),
        ensures
            e@ == initial_view(manifest, seed),
            mode_settled(e@),
    {
        let direction = if seed % 2 == 0 {
            Direction::Right
        } else {
            Direction::Left
        };
        PetEngine {
            state: PetState::Idle,
            direction,
            frame_index: 0,
            frame_elapsed: 0,
            state_elapsed: 0,
            completed_walk_cycles: 0,
            personality: Personality::Cheerful,
            behavior_mode: BehaviorMode::Default,
            expression_index: 0,
            expression_elapsed: 0,
            speed_positive: true,
            hover_frame_ms: DEFAULT_HOVER_FRAME_MS,
            action_override: None,
            hovered: false,
            dragging: false,
            hidden: false,
            intent: BehaviorIntent::Idle,
            manifest,
            current_animation_name: "idle".to_owned(),
            oneshot_held: false,
            notification: None,
        }
    }

    /// An engine on `manifest`, facing right.
    pub fn new_with_manifest(manifest: PetManifest) -> (e: Self)
        requires
            runnable(manifest.animations@),
        ensures
            e@ == initial_view(manifest, 0),
            mode_settled(e@),
    {
        Self::new_with_manifest_and_seed(manifest, 0)
    }

    /// An engine on the bundled pet, facing right for an even `seed` and left
    /// for an odd one.
    pub fn new_with_seed(seed: u64) -> (e: Self)
        ensures
            is_bundled_happy_cappy(e@.manifest),
            e@ == initial_view(e@.manifest, seed),
            mode_settled(e@),
    {
        let manifest = PetManifest::load_embedded_happy_cappy();
        proof {
            lemma_bundled_runnable(manifest);
        }
        Self::new_with_manifest_and_seed(manifest, seed)
    }

    /// An engine on the bundled pet, facing right.
    pub fn new() -> (e: Self)
        ensures
            is_bundled_happy_cappy(e@.manifest),
            e@ == initial_view(e@.manifest, 0),
            mode_settled(e@),
    {
        Self::new_with_seed(0)
    }

    /// The locomotion state.
    pub fn state(&self) -> (s: PetState)
        ensures
            s == self@.state,
    {
        self.state
    }

    /// The direction the pet faces.
    pub fn direction(&self) -> (d: Direction)
        ensures
            d == self@.direction,
    {
        self.direction
    }

    /// The cursor in the current animation.
    pub fn frame_index(&self) -> (i: usize)
        ensures
            i == self@.frame_index,
    {
        self.frame_index
    }

    /// The personality.
    pub fn personality(&self) -> (p: Personality)
        ensures
            p == self@.personality,
    {
        self.personality
    }

    /// The behavior mode.
    pub fn behavior_mode(&self) -> (m: BehaviorMode)
        ensures
            m == self@.behavior_mode,
    {
        self.behavior_mode
    }

    /// The intent last set.
    pub fn intent(&self) -> (i: BehaviorIntent)
        ensures
            i == self@.intent,
    {
        self.intent
    }

    /// The name of the animation being played.
    pub fn current_animation_name(&self) -> (n: &str)
        ensures
            n@ == self@.current,
    {
        self.current_animation_name.as_str()
    }

    /// The manifest the engine plays.
    pub fn manifest(&self) -> (m: &PetManifest)
        ensures
            *m == self@.manifest,
    {
        &self.manifest
    }

    /// Width and height of one frame.
    pub fn frame_size(&self) -> (s: (u32, u32))
        ensures
            s == (self@.manifest.frame.width, self@.manifest.frame.height),
    {
        (self.manifest.frame.width, self.manifest.frame.height)
    }

    /// The sprite shown now: the current animation's frame at the cursor
    /// (wrapping around its frames).
    pub fn current_sprite_index(&self) -> (i: u32)
        ensures
            ({
                let a = self@.manifest.animations@[self@.current];
                i == a.frames@[self@.frame_index as int % a.frames@.len() as int].index
            }),
    {
        proof {
            use_type_invariant(self);
        }
        let anim = self.manifest.animations.get(self.current_animation_name.as_str()).unwrap();
        anim.sprite_index(self.frame_index)
    }

    /// Where the current animation hands over when it ends (`idle` unless it
    /// names another).
    pub fn current_fallback(&self) -> (f: String)
        ensures
            f@ == match self@.manifest.animations@[self@.current].fallback {
                Some(s) => s@,
                None => "idle"@,
            },
    {
        proof {
            use_type_invariant(self);
        }
        let anim = self.manifest.animations.get(self.current_animation_name.as_str()).unwrap();
        match &anim.fallback {
            Some(s) => s.clone(),
            None => "idle".to_owned(),
        }
    }

    /// The animation the active notification plays, if there is one.
    pub fn notification_animation(&self) -> (n: Option<&str>)
        ensures
            match n {
                Some(s) => self@.notification matches Some(slot) && s@ == slot.animation,
                None => self@.notification is None,
            },
    {
        match &self.notification {
            Some(slot) => Some(slot.animation_name.as_str()),
            None => None,
        }
    }

    /// Speed is above zero and no nap holds the pet in place.
    pub fn movement_enabled(&self) -> (r: bool)
        ensures
            r == movement_enabled_spec(self@),
    {
        self.speed_positive && !match self.action_override {
            Some(a) => a.disables_movement(),
            None => false,
        }
    }

    /// The direction the pet moves in now, if it moves.
    pub fn walking_direction(&self) -> (d: Option<Direction>)
        ensures
            d == walking_spec(self@),
    {
        if !self.hidden && !self.dragging && self.movement_enabled() && self.state == PetState::Walk {
            Some(self.direction)
        } else {
            None
        }
    }

    /// Change the personality.
    pub fn apply_personality(&mut self, personality: Personality)
        ensures
            final(self)@ == refresh_spec(EngineView { personality, ..old(self)@ }),
            mode_settled(final(self)@),
    {
        proof {
            use_type_invariant(&*self);
        }
        self.personality = personality;
        self.refresh_behavior_mode();
    }

    /// Record whether the caller's speed multiplier is above zero.
    pub fn set_speed_positive(&mut self, positive: bool)
        ensures
            final(self)@ == refresh_spec(EngineView { speed_positive: positive, ..old(self)@ }),
            mode_settled(final(self)@),
    {
        proof {
            use_type_invariant(&*self);
        }
        self.speed_positive = positive;
        self.refresh_behavior_mode();
    }

    /// Set the frame length used while hovered, in milliseconds.
    pub fn set_hover_frame_ms(&mut self, ms: u32)
        ensures
            final(self)@ == (EngineView { hover_frame_ms: ms, ..old(self)@ }),
    {
        proof {
            use_type_invariant(&*self);
        }
        self.hover_frame_ms = ms;
    }

    /// The pointer is over the pet, or not.
    pub fn set_hovered(&mut self, hovered: bool)
        ensures
            final(self)@ == refresh_spec(EngineView { hovered, ..old(self)@ }),
            mode_settled(final(self)@),
    {
        proof {
            use_type_invariant(&*self);
        }
        self.hovered = hovered;
        self.refresh_behavior_mode();
    }

    /// The pet is being dragged, or not.
    pub fn set_dragging(&mut self, dragging: bool)
        ensures
            final(self)@ == refresh_spec(EngineView { dragging, ..old(self)@ }),
            mode_settled(final(self)@),
    {
        proof {
            use_type_invariant(&*self);
        }
        self.dragging = dragging;
        self.refresh_behavior_mode();
    }

    /// The pet is hidden, or not.
    pub fn set_hidden(&mut self, hidden: bool)
        ensures
            final(self)@ == refresh_spec(EngineView { hidden, ..old(self)@ }),
            mode_settled(final(self)@),
    {
        proof {
            use_type_invariant(&*self);
        }
        self.hidden = hidden;
        self.refresh_behavior_mode();
    }

    /// Set the intent (see `set_intent_spec`).
    pub fn set_intent(&mut self, intent: BehaviorIntent) -> (w: WalkUpdate)
        ensures
            (final(self)@, w) == set_intent_spec(old(self)@, intent),
    {
        proof {
            use_type_invariant(&*self);
        }
        self.intent = intent;
        match intent {
            BehaviorIntent::AvoidRectHorizontal { direction } => {
                self.direction = direction;
                if self.state == PetState::Walk {
                    WalkUpdate::Full
                } else {
                    self.enter_walk();
                    WalkUpdate::Full
                }
            },
            _ => WalkUpdate::Keep,
        }
    }

    /// Start `action` with its full duration.
    pub fn start_micro_action(&mut self, action: MicroAction)
        ensures
            final(self)@ == refresh_spec(
                EngineView {
                    action: Some((action, crate::micro_action::action_duration(action))),
                    ..old(self)@
                },
            ),
            mode_settled(final(self)@),
    {
        proof {
            use_type_invariant(&*self);
        }
        self.action_override = Some(ActionOverride::new(action));
        self.refresh_behavior_mode();
    }

    /// Stop the micro action.
    pub fn clear_micro_action(&mut self)
        ensures
            final(self)@ == refresh_spec(EngineView { action: None, ..old(self)@ }),
            mode_settled(final(self)@),
    {
        proof {
            use_type_invariant(&*self);
        }
        self.action_override = None;
        self.refresh_behavior_mode();
    }

    /// Show a notification (see `set_notification_spec`).
    pub fn set_notification(&mut self, event: &NotificationEvent)
        ensures
            final(self)@ == set_notification_spec(old(self)@, *event),
            !(old(self)@.notification matches Some(active) && event_priority(*event) < active.priority)
                ==> mode_settled(final(self)@),
            mode_settled(old(self)@) ==> mode_settled(final(self)@),
    {
        proof {
            use_type_invariant(&*self);
        }
        let (default_priority, default_ttl) = preset_for(event.kind.as_str());
        let priority = clamp_priority(
            match event.priority {
                Some(p) => p,
                None => default_priority,
            },
        );
        let ttl_ms = clamp_ttl(
            match event.ttl_ms {
                Some(t) => t,
                None => default_ttl,
            },
        );
        match &self.notification {
            Some(active) => {
                if priority < active.priority {
                    return;
                }
            },
            None => {},
        }
        let notify_kind = concat("notify-", event.kind.as_str());
        let requested = match &event.animation_name {
            Some(a) => a.clone(),
            None => notify_kind.clone(),
        };
        let chain: Vec<&str> = vec![
            requested.as_str(),
            notify_kind.as_str(),
            "notify-message",
            "notify-running",
            "idle",
        ];
        assert(names_view(chain@) =~= event_chain(*event));
        let (resolved, _) = lookup_with_fallback_dynamic(&self.manifest, chain.as_slice());
        let label = match &event.label {
            Some(s) => Some(s.clone()),
            None => None,
        };
        let body = match &event.body {
            Some(s) => Some(s.clone()),
            None => None,
        };
        self.notification = Some(
            NotificationSlot {
                animation_name: resolved,
                remaining: ttl_ms * NANOS_PER_MILLI,
                priority,
                label,
                body,
            },
        );
        self.refresh_behavior_mode();
    }

    /// Drop the notification.
    pub fn clear_notification(&mut self)
        ensures
            final(self)@ == refresh_spec(EngineView { notification: None, ..old(self)@ }),
            mode_settled(final(self)@),
    {
        proof {
            use_type_invariant(&*self);
        }
        self.notification = None;
        self.refresh_behavior_mode();
    }

    /// Face the other way.
    pub fn turn_around(&mut self)
        ensures
            final(self)@ == (EngineView { direction: opposite(old(self)@.direction), ..old(self)@ }),
    {
        proof {
            use_type_invariant(&*self);
        }
        self.direction = self.direction.reversed();
    }

    /// Advance the engine by `dt` nanoseconds (see `tick_spec`); the behavior
    /// mode then follows the flags.
    pub fn tick(&mut self, dt: u64, walk_done: bool) -> (t: EngineTick)
        ensures
            (final(self)@, t) == tick_spec(old(self)@, dt, walk_done),
            mode_settled(final(self)@),
    {
        proof {
            lemma_tick_follows_priority(self@, dt, walk_done);
        }
        self.step(dt, walk_done)
    }

    fn step(&mut self, dt: u64, walk_done: bool) -> (t: EngineTick)
        ensures
            (final(self)@, t) == tick_spec(old(self)@, dt, walk_done),
    {
        proof {
            use_type_invariant(&*self);
        }
        let had_action = self.action_override.is_some();
        self.tick_action(dt);
        self.tick_notification(dt);
        if self.hidden {
            self.refresh_behavior_mode();
            return EngineTick {
                state: self.state,
                frame_index: self.frame_index,
                oneshot_completed: false,
                walk: WalkUpdate::Keep,
                walking: None,
            };
        }
        self.run_clocks(dt);
        let completed = self.advance_animation();
        proof {
            use_type_invariant(&*self);
        }
        if completed && self.notification.is_some() {
            self.notification = None;
        }
        let walk = if !self.dragging {
            self.advance_state(walk_done)
        } else {
            WalkUpdate::Keep
        };
        self.next_expression(had_action);
        self.refresh_behavior_mode();
        EngineTick {
            state: self.state,
            frame_index: self.frame_index,
            oneshot_completed: completed,
            walk,
            walking: self.walking_direction(),
        }
    }

    fn tick_action(&mut self, dt: u64)
        ensures
            final(self)@ == tick_action_spec(old(self)@, dt),
    {
        proof {
            use_type_invariant(&*self);
        }
        match self.action_override {
            Some(a) => {
                let mut a = a;
                let done = a.tick(dt);
                if done {
                    self.clear_micro_action();
                } else {
                    self.action_override = Some(a);
                }
            },
            None => {},
        }
    }

    fn tick_notification(&mut self, dt: u64)
        ensures
            final(self)@ == tick_notification_spec(old(self)@, dt),
    {
        proof {
            use_type_invariant(&*self);
        }
        let counted = match &self.notification {
            Some(slot) => {
                let remaining = slot.remaining.saturating_sub(dt);
                if remaining == 0 {
                    None
                } else {
                    Some(slot.with_remaining(remaining))
                }
            },
            None => {
                return;
            },
        };
        let expired = counted.is_none();
        self.notification = counted;
        if expired {
            self.refresh_behavior_mode();
        }
    }

    fn run_clocks(&mut self, dt: u64)
        ensures
            final(self)@ == run_clocks_spec(old(self)@, dt),
    {
        proof {
            use_type_invariant(&*self);
        }
        self.frame_elapsed = self.frame_elapsed.saturating_add(dt);
        if !self.dragging {
            self.state_elapsed = self.state_elapsed.saturating_add(dt);
            self.expression_elapsed = self.expression_elapsed.saturating_add(dt);
        }
    }

    fn next_expression(&mut self, had_action: bool)
        ensures
            final(self)@ == next_expression_spec(old(self)@, had_action),
    {
        proof {
            use_type_invariant(&*self);
        }
        if !had_action && !self.hovered && !self.dragging && self.expression_elapsed
            >= self.expression_interval() {
            self.expression_index = if self.expression_index == usize::MAX {
                0
            } else {
                self.expression_index + 1
            };
            self.expression_elapsed = 0;
        }
    }

    /// Play `name` (see `select_spec`).
    fn set_selected_animation(&mut self, name: &str)
        requires
            old(self)@.manifest.animations@.contains_key(name@),
        ensures
            final(self)@ == select_spec(old(self)@, name@),
    {
        proof {
            use_type_invariant(&*self);
        }
        if str_eq(name, self.current_animation_name.as_str()) {
            return;
        }
        let is_lifecycle = match self.manifest.animations.get(name) {
            Some(a) => a.is_lifecycle(),
            None => false,
        };
        self.current_animation_name = name.to_owned();
        if is_lifecycle {
            self.frame_index = 0;
            self.frame_elapsed = 0;
            self.oneshot_held = false;
        }
    }

    /// Recompute the behavior mode and the animation it plays.
    fn refresh_behavior_mode(&mut self)
        ensures
            final(self)@ == refresh_spec(old(self)@),
    {
        proof {
            use_type_invariant(&*self);
        }
        let mode = if self.hidden {
            BehaviorMode::Hidden
        } else if self.dragging {
            BehaviorMode::Dragging
        } else if self.hovered {
            BehaviorMode::Hovered
        } else if self.notification.is_some() {
            BehaviorMode::Notifying
        } else if self.action_override.is_some() {
            BehaviorMode::Action
        } else if self.state == PetState::Walk && self.movement_enabled() {
            BehaviorMode::Walking
        } else {
            BehaviorMode::Default
        };
        self.behavior_mode = mode;
        if mode == BehaviorMode::Notifying {
            let name = match &self.notification {
                Some(slot) => slot.animation_name.clone(),
                None => self.current_animation_name.clone(),
            };
            self.set_selected_animation(name.as_str());
            return;
        }
        let action = match self.action_override {
            Some(a) => Some(a.action()),
            None => None,
        };
        let chain = resolve_animation_chain(mode, self.personality, self.expression_index, action);
        let (name, _) = lookup_with_fallback(&self.manifest, chain.as_slice());
        self.set_selected_animation(name);
    }

    /// The frame length when no override applies.
    fn frame_duration(&self) -> (d: u64)
        ensures
            d == base_frame_nanos(self@),
    {
        if self.behavior_mode == BehaviorMode::Hovered {
            return self.hover_frame_ms as u64 * NANOS_PER_MILLI;
        }
        match self.state {
            PetState::Idle => IDLE_FRAME_NANOS,
            PetState::Walk => WALK_FRAME_NANOS,
            PetState::Sleep => SLEEP_FRAME_NANOS,
        }
    }

    /// Advance the current animation's cursor; returns whether a one-shot
    /// animation completed.
    fn advance_animation(&mut self) -> (completed: bool)
        ensures
            (final(self)@, completed) == advance_animation_spec(old(self)@),
    {
        proof {
            use_type_invariant(&*self);
        }
        let base = self.frame_duration();
        let anim = self.manifest.animations.get(self.current_animation_name.as_str()).unwrap();
        let n = anim.frame_count();
        let frame_count: usize = if n == 0 {
            1
        } else {
            n
        };
        let loop_start: usize = match anim.loop_start {
            Some(s) => s,
            None => 0,
        };
        let one_shot = anim.one_shot;
        let mut index: usize = self.frame_index;
        let mut elapsed: u64 = self.frame_elapsed;
        let mut held = self.oneshot_held;
        let mut completed = false;
        let ghost target = advance_spec(*anim, base, index, elapsed, held);
        loop
            invariant_except_break
                index < usize::MAX,
                !completed,
                loop_start < usize::MAX,
                frame_count == frame_count_spec(*anim),
                loop_start == match anim.loop_start {
                    Some(s) => s,
                    None => 0,
                },
                one_shot == anim.one_shot,
                advance_spec(*anim, base, index, elapsed, held) == target,
            ensures
                index < usize::MAX,
                target == (Cursor { index, elapsed, held, completed }),
            decreases elapsed,
        {
            let d: u64 = match anim.frame_ms(index) {
                Some(ms) => ms as u64 * NANOS_PER_MILLI,
                None => base,
            };
            if d == 0 || elapsed < d {
                break;
            }
            elapsed = elapsed - d;
            if one_shot && index + 1 >= frame_count {
                completed = !held;
                held = true;
                elapsed = 0;
                break;
            }
            let next = index + 1;
            index = if next >= frame_count {
                loop_start
            } else {
                next
            };
        }
        self.frame_index = index;
        self.frame_elapsed = elapsed;
        self.oneshot_held = held;
        completed
    }

    fn enter_idle(&mut self)
        ensures
            final(self)@ == enter_idle_spec(old(self)@),
    {
        proof {
            use_type_invariant(&*self);
        }
        self.state = PetState::Idle;
        self.frame_index = 0;
        self.frame_elapsed = 0;
        self.state_elapsed = 0;
        self.expression_elapsed = 0;
    }

    fn enter_walk(&mut self)
        ensures
            final(self)@ == enter_walk_spec(old(self)@),
    {
        proof {
            use_type_invariant(&*self);
        }
        match self.intent {
            BehaviorIntent::ChaseHorizontal { direction }
            | BehaviorIntent::AvoidHorizontal { direction }
            | BehaviorIntent::AvoidRectHorizontal { direction } => {
                self.direction = direction;
            },
            BehaviorIntent::Idle => {},
        }
        self.state = PetState::Walk;
        self.frame_index = 0;
        self.frame_elapsed = 0;
        self.state_elapsed = 0;
        self.expression_elapsed = 0;
    }

    fn enter_sleep(&mut self)
        ensures
            final(self)@ == enter_sleep_spec(old(self)@),
    {
        proof {
            use_type_invariant(&*self);
        }
        self.state = PetState::Sleep;
        self.frame_index = 0;
        self.frame_elapsed = 0;
        self.state_elapsed = 0;
        self.expression_elapsed = 0;
        self.completed_walk_cycles = 0;
    }

    /// Step the autonomous state machine.
    fn advance_state(&mut self, walk_done: bool) -> (w: WalkUpdate)
        ensures
            (final(self)@, w) == advance_state_spec(old(self)@, walk_done),
    {
        proof {
            use_type_invariant(&*self);
        }
        match self.state {
            PetState::Idle => {
                if self.state_elapsed >= IDLE_PERIOD_NANOS {
                    if !self.movement_enabled() {
                        self.state_elapsed = 0;
                        WalkUpdate::Empty
                    } else if self.completed_walk_cycles >= WALKS_BEFORE_SLEEP {
                        self.enter_sleep();
                        WalkUpdate::Empty
                    } else {
                        self.enter_walk();
                        WalkUpdate::Full
                    }
                } else {
                    WalkUpdate::Keep
                }
            },
            PetState::Walk => {
                if !self.movement_enabled() {
                    self.enter_idle();
                    WalkUpdate::Empty
                } else if walk_done {
                    self.completed_walk_cycles = self.completed_walk_cycles.saturating_add(1);
                    self.enter_idle();
                    WalkUpdate::Empty
                } else {
                    WalkUpdate::Consume
                }
            },
            PetState::Sleep => {
                if self.state_elapsed >= SLEEP_PERIOD_NANOS {
                    self.enter_idle();
                    WalkUpdate::Empty
                } else {
                    WalkUpdate::Keep
                }
            },
        }
    }

    /// How often the expression changes.
    fn expression_interval(&self) -> (d: u64)
        ensures
            d == expression_interval_nanos(self@.personality),
    {
        match self.personality {
            Personality::Calm => 5_000_000_000,
            Personality::Cheerful => 3_000_000_000,
            Personality::Lively => 2_000_000_000,
        }
    }
}

/// A refresh leaves the mode that the flags call for.
pub proof fn lemma_refresh_follows_priority(v: EngineView)
    ensures
        refresh_spec(v).behavior_mode == mode_spec(refresh_spec(v)),
{
}

/// A refresh plays a declared animation: the notification's while notifying
/// (so a notification pins its resolved animation), else the first declared
/// name of the mode's chain.
pub proof fn lemma_refresh_keeps_wf(v: EngineView)
    requires
        engine_wf(v),
    ensures
        engine_wf(refresh_spec(v)),
        refresh_spec(v).behavior_mode == BehaviorMode::Notifying ==> refresh_spec(v).current
            == v.notification->Some_0.animation,
{
    let m = mode_spec(v);
    lemma_first_present_declared(
        v.manifest.animations@,
        chain_spec(m, v.personality, v.expression_index, action_of(v)),
    );
}

/// After every tick the mode is the one the flags call for.
pub proof fn lemma_tick_follows_priority(v: EngineView, dt: u64, walk_done: bool)
    ensures
        tick_spec(v, dt, walk_done).0.behavior_mode == mode_spec(tick_spec(v, dt, walk_done).0),
{
}

/// A one-shot completion is reported at most once: only from a cursor that
/// was not holding, and it leaves the cursor holding; a holding cursor never
/// reports one. An animation that is not one-shot never reports one.
pub proof fn lemma_oneshot_completes_once(a: Animation, base: u64, index: usize, elapsed: u64, held: bool)
    ensures
        advance_spec(a, base, index, elapsed, held).completed ==> !held && advance_spec(
            a,
            base,
            index,
            elapsed,
            held,
        ).held,
        held ==> !advance_spec(a, base, index, elapsed, held).completed,
        !a.one_shot ==> !advance_spec(a, base, index, elapsed, held).completed,
    decreases elapsed,
{
    let d = frame_nanos(a, base, index);
    if !(d == 0 || elapsed < d) && !(a.one_shot && index + 1 >= frame_count_spec(a)) {
        lemma_oneshot_completes_once(a, base, next_frame(a, index), (elapsed - d) as u64, held);
    }
}

/// The cursor stays among the animation's frames when it starts there and
/// the loop start is one of them; it never reaches the largest index when
/// neither the start nor the loop start is.
pub proof fn lemma_cursor_in_range(a: Animation, base: u64, index: usize, elapsed: u64, held: bool)
    ensures
        index < frame_count_spec(a) && (a.loop_start matches Some(s) ==> s < frame_count_spec(a))
            ==> advance_spec(a, base, index, elapsed, held).index < frame_count_spec(a),
        index < usize::MAX && a.frames@.len() <= usize::MAX && (a.loop_start matches Some(s) ==> s
            < usize::MAX) ==> advance_spec(
            a,
            base,
            index,
            elapsed,
            held,
        ).index < usize::MAX,
    decreases elapsed,
{
    let d = frame_nanos(a, base, index);
    if !(d == 0 || elapsed < d) && !(a.one_shot && index + 1 >= frame_count_spec(a)) {
        lemma_cursor_in_range(a, base, next_frame(a, index), (elapsed - d) as u64, held);
    }
}

/// Counting down the action and the notification keeps the standing facts.
proof fn lemma_countdown_keeps_wf(v: EngineView, dt: u64)
    requires
        engine_wf(v),
    ensures
        engine_wf(tick_action_spec(v, dt)),
        engine_wf(tick_notification_spec(tick_action_spec(v, dt), dt)),
{
    if let Some((a, rem)) = v.action {
        if sat_sub(rem, dt) == 0 {
            lemma_refresh_keeps_wf(EngineView { action: None, ..v });
        }
    }
    let v1 = tick_action_spec(v, dt);
    if let Some(n) = v1.notification {
        if sat_sub(n.remaining, dt) == 0 {
            lemma_refresh_keeps_wf(EngineView { notification: None, ..v1 });
        }
    }
}

/// Advancing the cursor and stepping the state machine keep the standing facts.
proof fn lemma_steps_keep_wf(v: EngineView, walk_done: bool)
    requires
        engine_wf(v),
    ensures
        engine_wf(advance_animation_spec(v).0),
        engine_wf(EngineView { notification: None, ..advance_animation_spec(v).0 }),
        engine_wf(advance_state_spec(v, walk_done).0),
{
    let a = v.manifest.animations@[v.current];
    lemma_cursor_in_range(a, base_frame_nanos(v), v.frame_index, v.frame_elapsed, v.oneshot_held);
}

/// Every tick keeps the engine's standing facts: it plays a declared
/// animation, and so does its notification.
pub proof fn lemma_tick_keeps_wf(v: EngineView, dt: u64, walk_done: bool)
    requires
        engine_wf(v),
    ensures
        engine_wf(tick_spec(v, dt, walk_done).0),
{
    lemma_countdown_keeps_wf(v, dt);
    let v2 = tick_notification_spec(tick_action_spec(v, dt), dt);
    if v2.hidden {
        lemma_refresh_keeps_wf(v2);
    } else {
        let v3 = run_clocks_spec(v2, dt);
        lemma_steps_keep_wf(v3, walk_done);
        let (v4, completed) = advance_animation_spec(v3);
        let v5 = if completed {
            EngineView { notification: None, ..v4 }
        } else {
            v4
        };
        lemma_steps_keep_wf(v5, walk_done);
        let (v6, walk) = if v5.dragging {
            (v5, WalkUpdate::Keep)
        } else {
            advance_state_spec(v5, walk_done)
        };
        lemma_refresh_keeps_wf(next_expression_spec(v6, v.action is Some));
    }
}

/// A notification of lower priority than the active one changes nothing.
pub proof fn lemma_lower_priority_ignored(v: EngineView, ev: NotificationEvent)
    requires
        v.notification matches Some(active) && event_priority(ev) < active.priority,
    ensures
        set_notification_spec(v, ev) == v,
{
}

/// Any other notification takes the slot with its own priority, time to live
/// and resolved animation (a declared one); unless the pet is hidden, dragged
/// or hovered, the pet then shows it, playing that animation.
pub proof fn lemma_notification_taken(v: EngineView, ev: NotificationEvent)
    requires
        engine_wf(v),
        !(v.notification matches Some(active) && event_priority(ev) < active.priority),
    ensures
        ({
            let r = set_notification_spec(v, ev);
            &&& r.notification matches Some(slot) && slot.priority == event_priority(ev)
                && slot.remaining == event_ttl_ms(ev) * NANOS_PER_MILLI && slot.animation
                == first_present(v.manifest.animations@, event_chain(ev))
            &&& engine_wf(r)
            &&& !v.hidden && !v.dragging && !v.hovered ==> (r.behavior_mode == BehaviorMode::Notifying
                && r.current == first_present(v.manifest.animations@, event_chain(ev)))
        }),
{
    lemma_first_present_declared(v.manifest.animations@, event_chain(ev));
    let slot = SlotView {
        animation: first_present(v.manifest.animations@, event_chain(ev)),
        remaining: (event_ttl_ms(ev) * NANOS_PER_MILLI) as u64,
        priority: event_priority(ev),
        label: opt_string_view(ev.label),
        body: opt_string_view(ev.body),
    };
    lemma_refresh_keeps_wf(EngineView { notification: Some(slot), ..v });
}

/// A notification's time to live runs in every state, hidden included: a
/// tick at least as long as what is left ends it, and a shorter tick takes
/// its length off, unless a one-shot completes in that tick.
pub proof fn lemma_ttl_counts_down(v: EngineView, dt: u64, walk_done: bool)
    requires
        v.notification is Some,
    ensures
        ({
            let (r, t) = tick_spec(v, dt, walk_done);
            &&& v.notification->Some_0.remaining <= dt ==> r.notification is None
            &&& v.notification->Some_0.remaining > dt && !t.oneshot_completed ==> (r.notification
                matches Some(slot) && slot.remaining == v.notification->Some_0.remaining - dt)
        }),
{
}

/// A hidden pet stands still: its locomotion state, state clock and walk
/// count stay as they were, its walk segment is untouched, and it reports no
/// completion and no movement.
pub proof fn lemma_hidden_tick_stands_still(v: EngineView, dt: u64, walk_done: bool)
    requires
        v.hidden,
    ensures
        ({
            let (r, t) = tick_spec(v, dt, walk_done);
            &&& r.state == v.state
            &&& r.state_elapsed == v.state_elapsed
            &&& r.completed_walk_cycles == v.completed_walk_cycles
            &&& t.walk == WalkUpdate::Keep
            &&& !t.oneshot_completed
            &&& t.walking is None
        }),
{
}

/// Dragging pauses the autonomous behavior: the locomotion state, state and
/// expression clocks and walk segment stay as they were, and the pet does
/// not move on its own.
pub proof fn lemma_drag_pauses_autonomy(v: EngineView, dt: u64, walk_done: bool)
    requires
        v.dragging,
    ensures
        ({
            let (r, t) = tick_spec(v, dt, walk_done);
            &&& r.state == v.state
            &&& r.state_elapsed == v.state_elapsed
            &&& r.expression_elapsed == v.expression_elapsed
            &&& r.expression_index == v.expression_index
            &&& t.walk == WalkUpdate::Keep
            &&& t.walking is None
        }),
{
}

/// Falling asleep clears the walk count: a tick that takes the pet into
/// `Sleep` leaves no completed walks, so after the nap the pet walks again
/// before it sleeps again.
pub proof fn lemma_falling_asleep_resets_walks(v: EngineView, dt: u64, walk_done: bool)
    requires
        v.state != PetState::Sleep,
        tick_spec(v, dt, walk_done).0.state == PetState::Sleep,
    ensures
        tick_spec(v, dt, walk_done).0.completed_walk_cycles == 0,
{
}

/// A visible, movable pet whose idle period runs out in a tick, with fewer
/// than two walks behind it, sets off on a full walk in that tick.
pub proof fn lemma_rested_pet_walks(v: EngineView, dt: u64, walk_done: bool)
    requires
        v.state == PetState::Idle,
        !v.hidden,
        !v.dragging,
        v.action is None,
        v.speed_positive,
        v.completed_walk_cycles < 2,
        v.state_elapsed + dt >= 5_000_000_000,
    ensures
        tick_spec(v, dt, walk_done).0.state == PetState::Walk,
        tick_spec(v, dt, walk_done).1.walk == WalkUpdate::Full,
{
}

/// A notification that is shown plays, among the names it can fall back to,
/// the most specific one the pet declares: the requested animation, else
/// `notify-<kind>`, else `notify-message`, else `notify-running`, else `idle`.
pub proof fn lemma_notification_animation_fallback(v: EngineView, ev: NotificationEvent)
    requires
        !(v.notification matches Some(active) && event_priority(ev) < active.priority),
    ensures
        ({
            let anims = v.manifest.animations@;
            let kind_name = "notify-"@ + ev.kind@;
            let shown = set_notification_spec(v, ev).notification->Some_0.animation;
            let requested_declared = match ev.animation_name {
                Some(a) => anims.contains_key(a@),
                None => false,
            };
            &&& requested_declared ==> shown == ev.animation_name->Some_0@
            &&& !requested_declared && anims.contains_key(kind_name) ==> shown == kind_name
            &&& !requested_declared && !anims.contains_key(kind_name) && anims.contains_key(
                "notify-message"@,
            ) ==> shown == "notify-message"@
            &&& !requested_declared && !anims.contains_key(kind_name) && !anims.contains_key(
                "notify-message"@,
            ) && anims.contains_key("notify-running"@) ==> shown == "notify-running"@
            &&& !requested_declared && !anims.contains_key(kind_name) && !anims.contains_key(
                "notify-message"@,
            ) && !anims.contains_key("notify-running"@) ==> shown == "idle"@
        }),
{
    let c = event_chain(ev);
    reveal_with_fuel(first_present, 6);
    assert(c.drop_first()[0] == c[1]);
}

/// The behavior mode is the one the flags call for.
pub open spec fn mode_settled(v: EngineView) -> bool {
    v.behavior_mode == mode_spec(v)
}

/// The behavior mode follows the flags' priority on every engine the
/// operations reach: a new engine starts settled; every operation that
/// refreshes (the flag setters, personality, speed, micro actions, clearing a
/// notification) and every tick leaves it settled; showing a notification,
/// turning around, the hover frame length and an intent keep it settled. The
/// one exception is an intent to avoid a rectangle while the pet is not
/// walking: it enters `Walk` at once and the mode follows at the next tick.
pub proof fn lemma_mode_settled(
    manifest: PetManifest,
    seed: u64,
    v: EngineView,
    ev: NotificationEvent,
    dt: u64,
    walk_done: bool,
    ms: u32,
    intent: BehaviorIntent,
)
    ensures
        mode_settled(initial_view(manifest, seed)),
        mode_settled(refresh_spec(v)),
        mode_settled(tick_spec(v, dt, walk_done).0),
        mode_settled(v) ==> mode_settled(set_notification_spec(v, ev)),
        mode_settled(v) ==> mode_settled(EngineView { direction: opposite(v.direction), ..v }),
        mode_settled(v) ==> mode_settled(EngineView { hover_frame_ms: ms, ..v }),
        mode_settled(v) && !(intent is AvoidRectHorizontal && v.state != PetState::Walk)
            ==> mode_settled(set_intent_spec(v, intent).0),
{
    lemma_refresh_follows_priority(v);
    lemma_tick_follows_priority(v, dt, walk_done);
    if !(v.notification matches Some(active) && event_priority(ev) < active.priority) {
        let slot = SlotView {
            animation: first_present(v.manifest.animations@, event_chain(ev)),
            remaining: (event_ttl_ms(ev) * NANOS_PER_MILLI) as u64,
            priority: event_priority(ev),
            label: opt_string_view(ev.label),
            body: opt_string_view(ev.body),
        };
        lemma_refresh_follows_priority(EngineView { notification: Some(slot), ..v });
    }
}

/// Whether the engine can run on `manifest` (see `runnable`).
pub fn is_runnable(manifest: &PetManifest) -> (r: bool)
    ensures
        r == runnable(manifest.animations@),
{
    let n = manifest.animations.len();
    let mut i: usize = 0;
    while i < n
        invariant
            i <= n,
            n == manifest.animations.spec_keys().len(),
            n == manifest.animations.spec_values().len(),
            manifest.animations@.dom() == manifest.animations.spec_keys().to_set(),
            forall|j: int| 0 <= j < n ==> #[trigger] manifest.animations@[manifest.animations.spec_keys()[j]] == manifest.animations.spec_values()[j],
            forall|j: int|
                0 <= j < i ==> 0 < (#[trigger] manifest.animations.spec_values()[j]).frames@.len()
                    <= usize::MAX && (manifest.animations.spec_values()[j].loop_start matches Some(s)
                    ==> s < usize::MAX),
        decreases n - i,
    {
        let a = manifest.animations.value_at(i);
        if a.frames.len() == 0 {
            proof {
                let k = manifest.animations.spec_keys()[i as int];
                assert(manifest.animations@.contains_key(k) && manifest.animations@[k] == *a);
                assert(manifest.animations@.contains_key(k));
                assert(manifest.animations@[k].frames@.len() == 0);
                assert(!runnable(manifest.animations@));
            }
            return false;
        }
        match a.loop_start {
            Some(s) => {
                if s == usize::MAX {
                    proof {
                        let k = manifest.animations.spec_keys()[i as int];
                        assert(manifest.animations@.contains_key(k) && manifest.animations@[k] == *a);
                        assert(a.loop_start == Some(usize::MAX));
                        assert(!runnable(manifest.animations@));
                    }
                    return false;
                }
            },
            None => {},
        }
        i += 1;
    }
    proof {
        assert forall|k: Seq<char>| #[trigger] manifest.animations@.contains_key(k) implies 0
            < manifest.animations@[k].frames@.len() <= usize::MAX && (manifest.animations@[k].loop_start
            matches Some(s) ==> s < usize::MAX) by {
            assert(manifest.animations.spec_keys().to_set().contains(k));
            let j = choose|j: int| 0 <= j < n && manifest.animations.spec_keys()[j] == k;
            assert(manifest.animations@[manifest.animations.spec_keys()[j]] == manifest.animations.spec_values()[j]);
        }
    }
    manifest.animations.contains_key("idle")
}

} // verus!
