//! Pointer interaction with the pet: hover, drag and context-menu decisions.
//!
//! The decisions depend only on which button is used and whether the pointer
//! is over a visible pixel of the pet; the pointer's coordinates stay with
//! the caller, which attaches them to the signals. `has_pointer` records
//! whether the caller holds a previous pointer position.
use vstd::prelude::*;

use crate::pixels::{pixel_offset, RgbaImage};
use crate::sprite::FrameRect;

verus! {

/// Which mouse button an event concerns.
#[derive(Debug, Clone, Copy, PartialEq, Eq, Structural)]
pub enum MouseButtonKind {
    Left,
    Right,
    Other,
}

/// What an interaction step reports to the app.
#[derive(Debug, Clone, Copy, PartialEq, Eq, Structural)]
pub enum InteractionSignal {
    /// The pointer entered (true) or left (false) the pet's visible pixels.
    HoverChanged(bool),
    /// A drag began at the pointer.
    DragStarted,
    /// The pointer moved while dragging, from the previous pointer position.
    DragMoved,
    /// The drag ended at the pointer.
    DragEnded,
    /// The context menu was asked for at the pointer.
    ContextMenuRequested,
}

/// The interaction state as plain values.
pub struct InteractionView {
    pub hovered: bool,
    pub dragging: bool,
    pub has_pointer: bool,
}

/// The pointer moved: while dragging it reports the move (when a previous
/// position exists); otherwise it reports a change of hover. The position is
/// recorded either way.
pub open spec fn pointer_moved_spec(v: InteractionView, hit: bool) -> (InteractionView, Seq<InteractionSignal>) {
    if v.dragging {
        (
            InteractionView { has_pointer: true, ..v },
            if v.has_pointer {
                seq![InteractionSignal::DragMoved]
            } else {
                Seq::empty()
            },
        )
    } else if v.hovered != hit {
        (
            InteractionView { hovered: hit, has_pointer: true, ..v },
            seq![InteractionSignal::HoverChanged(hit)],
        )
    } else {
        (InteractionView { has_pointer: true, ..v }, Seq::empty())
    }
}

/// A button went down: on a transparent pixel nothing happens; otherwise
/// the left button starts a drag, the right one asks for the context menu,
/// and the position is recorded (the third component).
pub open spec fn mouse_pressed_spec(v: InteractionView, button: MouseButtonKind, hit: bool) -> (
    InteractionView,
    Seq<InteractionSignal>,
    bool,
) {
    if !hit {
        (v, Seq::empty(), false)
    } else {
        match button {
            MouseButtonKind::Left => (
                InteractionView { dragging: true, has_pointer: true, ..v },
                seq![InteractionSignal::DragStarted],
                true,
            ),
            MouseButtonKind::Right => (
                InteractionView { has_pointer: true, ..v },
                seq![InteractionSignal::ContextMenuRequested],
                true,
            ),
            MouseButtonKind::Other => (InteractionView { has_pointer: true, ..v }, Seq::empty(), true),
        }
    }
}

/// A button went up: releasing the left button ends a drag, reconciles the
/// hover state with where the drag ended, and records the position (the third
/// component); anything else changes nothing.
pub open spec fn mouse_released_spec(v: InteractionView, button: MouseButtonKind, hit: bool) -> (
    InteractionView,
    Seq<InteractionSignal>,
    bool,
) {
    if button != MouseButtonKind::Left || !v.dragging {
        (v, Seq::empty(), false)
    } else if v.hovered != hit {
        (
            InteractionView { dragging: false, hovered: hit, has_pointer: true },
            seq![InteractionSignal::DragEnded, InteractionSignal::HoverChanged(hit)],
            true,
        )
    } else {
        (
            InteractionView { dragging: false, has_pointer: true, ..v },
            seq![InteractionSignal::DragEnded],
            true,
        )
    }
}

/// Hover and drag tracking.
#[derive(Debug, Clone, Copy)]
pub struct InteractionState {
    hovered: bool,
    dragging: bool,
    has_pointer: bool,
}

impl View for InteractionState {
    type V = InteractionView;

    closed spec fn view(&self) -> InteractionView {
        InteractionView { hovered: self.hovered, dragging: self.dragging, has_pointer: self.has_pointer }
    }
}

impl InteractionState {
    /// Not hovered, not dragging, no pointer seen yet.
    pub fn new() -> (s: Self)
        ensures
            s@ == (InteractionView { hovered: false, dragging: false, has_pointer: false }),
    {
        InteractionState { hovered: false, dragging: false, has_pointer: false }
    }

    /// A drag is in progress.
    pub fn is_dragging(&self) -> (r: bool)
        ensures
            r == self@.dragging,
    {
        self.dragging
    }

    /// The pointer is over a visible pixel of the pet.
    pub fn is_hovered(&self) -> (r: bool)
        ensures
            r == self@.hovered,
    {
        self.hovered
    }

    /// The pointer moved (see `pointer_moved_spec`).
    pub fn pointer_moved(&mut self, hit_visible_pixel: bool) -> (signals: Vec<InteractionSignal>)
        ensures
            (final(self)@, signals@) == pointer_moved_spec(old(self)@, hit_visible_pixel),
    {
        let mut signals: Vec<InteractionSignal> = Vec::new();
        if self.dragging {
            if self.has_pointer {
                signals.push(InteractionSignal::DragMoved);
            }
            self.has_pointer = true;
            return signals;
        }
        if self.hovered != hit_visible_pixel {
            self.hovered = hit_visible_pixel;
            signals.push(InteractionSignal::HoverChanged(hit_visible_pixel));
        }
        self.has_pointer = true;
        signals
    }

    /// A button went down; the flag tells whether the pointer's position is
    /// to be recorded (see `mouse_pressed_spec`).
    pub fn mouse_pressed(&mut self, button: MouseButtonKind, hit_visible_pixel: bool) -> (r: (
        Vec<InteractionSignal>,
        bool,
    ))
        ensures
            (final(self)@, r.0@, r.1) == mouse_pressed_spec(old(self)@, button, hit_visible_pixel),
    {
        if !hit_visible_pixel {
            return (Vec::new(), false);
        }
        self.has_pointer = true;
        match button {
            MouseButtonKind::Left => {
                self.dragging = true;
                (vec![InteractionSignal::DragStarted], true)
            },
            MouseButtonKind::Right => (vec![InteractionSignal::ContextMenuRequested], true),
            MouseButtonKind::Other => (Vec::new(), true),
        }
    }

    /// A button went up; the flag tells whether the pointer's position is to
    /// be recorded (see `mouse_released_spec`).
    pub fn mouse_released(&mut self, button: MouseButtonKind, hit_visible_pixel: bool) -> (r: (
        Vec<InteractionSignal>,
        bool,
    ))
        ensures
            (final(self)@, r.0@, r.1) == mouse_released_spec(old(self)@, button, hit_visible_pixel),
    {
        if button != MouseButtonKind::Left || !self.dragging {
            return (Vec::new(), false);
        }
        self.dragging = false;
        self.has_pointer = true;
        let mut signals: Vec<InteractionSignal> = vec![InteractionSignal::DragEnded];
        if self.hovered != hit_visible_pixel {
            self.hovered = hit_visible_pixel;
            signals.push(InteractionSignal::HoverChanged(hit_visible_pixel));
        }
        (signals, true)
    }
}

/// A hover change is reported once: moving again over the same kind of
/// pixel reports nothing, and every reported change names the new state.
pub proof fn lemma_hover_reported_once(v: InteractionView, hit: bool)
    requires
        !v.dragging,
    ensures
        pointer_moved_spec(pointer_moved_spec(v, hit).0, hit).1.len() == 0,
        pointer_moved_spec(v, hit).0.hovered == hit,
        forall|i: int|
            0 <= i < pointer_moved_spec(v, hit).1.len() ==> #[trigger] pointer_moved_spec(v, hit).1[i]
                == InteractionSignal::HoverChanged(hit),
{
}

/// A left release ends any drag and leaves the hover state matching where
/// the pointer is; a press on a transparent pixel changes nothing.
pub proof fn lemma_release_ends_drag(v: InteractionView, button: MouseButtonKind, hit: bool)
    ensures
        button == MouseButtonKind::Left ==> !mouse_released_spec(v, button, hit).0.dragging,
        button == MouseButtonKind::Left && v.dragging ==> mouse_released_spec(v, button, hit).0.hovered
            == hit,
        mouse_pressed_spec(v, button, false).0 == v,
        mouse_pressed_spec(v, button, false).1.len() == 0,
{
}

/// The sheet column a local `x` samples: mirrored within the frame when
/// `flip_x`.
pub open spec fn sampled_column(rect: FrameRect, local_x: int, flip_x: bool) -> int {
    if flip_x {
        rect.x + rect.width - 1 - local_x
    } else {
        rect.x + local_x
    }
}

/// The pixel at `(local_x, local_y)` of the frame `rect` (mirrored when
/// `flip_x`) is on the image and more than faintly opaque (alpha above 16).
pub open spec fn alpha_hit_spec(
    source: RgbaImage,
    rect: FrameRect,
    local_x: int,
    local_y: int,
    flip_x: bool,
) -> bool {
    let sx = sampled_column(rect, local_x, flip_x);
    let sy = rect.y + local_y;
    &&& 0 <= local_x < rect.width
    &&& 0 <= local_y < rect.height
    &&& flip_x ==> rect.x + rect.width <= u32::MAX
    &&& 0 <= sx < source.spec_width()
    &&& sy <= u32::MAX
    &&& sy < source.spec_height()
    &&& source.spec_data()[pixel_offset(source.spec_width() as int, sx, sy) + 3] > 16
}

/// Whether the frame pixel under a pointer at whole pixel `(local_x,
/// local_y)` inside `rect` is visible (see `alpha_hit_spec`).
pub fn alpha_hit_test_pixel(
    source: &RgbaImage,
    rect: FrameRect,
    local_x: u32,
    local_y: u32,
    flip_x: bool,
) -> (r: bool)
    ensures
        r == alpha_hit_spec(*source, rect, local_x as int, local_y as int, flip_x),
{
    if local_x >= rect.width || local_y >= rect.height {
        return false;
    }
    let source_x = if flip_x {
        match rect.x.checked_add(rect.width) {
            Some(end) => end - 1 - local_x,
            None => {
                return false;
            },
        }
    } else {
        match rect.x.checked_add(local_x) {
            Some(x) => x,
            None => {
                return false;
            },
        }
    };
    let source_y = match rect.y.checked_add(local_y) {
        Some(y) => y,
        None => {
            return false;
        },
    };
    if source_x >= source.width() || source_y >= source.height() {
        return false;
    }
    source.get_pixel(source_x, source_y)[3] > 16
}

} // verus!
