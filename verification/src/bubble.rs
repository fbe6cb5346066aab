//! The speech-bubble content model: what a bubble shows and how it is accented.
use vstd::prelude::*;

use crate::text::{opt_string_view, str_eq, trim, trim_spec};

verus! {

/// Per-kind accent for the bubble's dot, derived from a notification `kind`.
#[derive(Debug, Clone, Copy, PartialEq, Eq, Structural)]
pub enum BubbleAccent {
    Running,
    Message,
    Succeeded,
    NeedsReview,
    Failed,
}

/// What the bubble renders.
#[derive(Debug, Clone, PartialEq, Eq)]
pub struct BubbleContent {
    pub title: Option<String>,
    pub body: Option<String>,
    pub accent: BubbleAccent,
}

/// The accent for a notification kind; unknown kinds borrow `Message`.
pub open spec fn accent_for_kind(kind: Seq<char>) -> BubbleAccent {
    if kind == "running"@ {
        BubbleAccent::Running
    } else if kind == "succeeded"@ {
        BubbleAccent::Succeeded
    } else if kind == "needs-review"@ {
        BubbleAccent::NeedsReview
    } else if kind == "failed"@ {
        BubbleAccent::Failed
    } else {
        BubbleAccent::Message
    }
}

/// A text field after cleaning: trimmed, and absent when nothing is left.
pub open spec fn cleaned_field(s: Option<&str>) -> Option<Seq<char>> {
    match s {
        Some(t) => if trim_spec(t@).len() == 0 {
            None
        } else {
            Some(trim_spec(t@))
        },
        None => None,
    }
}

impl BubbleAccent {
    /// Map a notification `kind` to an accent. Unknown kinds borrow `Message`.
    pub fn for_kind(kind: &str) -> (r: Self)
        ensures
            r == accent_for_kind(kind@),
    {
        if str_eq(kind, "running") {
            BubbleAccent::Running
        } else if str_eq(kind, "succeeded") {
            BubbleAccent::Succeeded
        } else if str_eq(kind, "needs-review") {
            BubbleAccent::NeedsReview
        } else if str_eq(kind, "failed") {
            BubbleAccent::Failed
        } else {
            BubbleAccent::Message
        }
    }

    /// `needs-review` / `failed` use a larger dot to draw the eye.
    pub fn emphasized(self) -> (r: bool)
        ensures
            r <==> (self == BubbleAccent::NeedsReview || self == BubbleAccent::Failed),
    {
        match self {
            BubbleAccent::NeedsReview | BubbleAccent::Failed => true,
            _ => false,
        }
    }
}

fn clean(s: Option<&str>) -> (r: Option<String>)
    ensures
        opt_string_view(r) == cleaned_field(s),
{
    match s {
        Some(t) => {
            let trimmed = trim(t);
            if trimmed.as_str().is_empty() {
                None
            } else {
                Some(trimmed)
            }
        },
        None => None,
    }
}

impl BubbleContent {
    /// Build content from a notification's `kind` and raw `label`/`body`. Each
    /// text field is trimmed; an empty or whitespace-only field becomes `None`.
    /// Returns `None` when both title and body are empty (no bubble is shown).
    pub fn from_parts(kind: &str, label: Option<&str>, body: Option<&str>) -> (r: Option<Self>)
        ensures
            r is None <==> (cleaned_field(label) is None && cleaned_field(body) is None),
            r matches Some(c) ==> {
                &&& opt_string_view(c.title) == cleaned_field(label)
                &&& opt_string_view(c.body) == cleaned_field(body)
                &&& c.accent == accent_for_kind(kind@)
            },
    {
        let title = clean(label);
        let body = clean(body);
        if title.is_none() && body.is_none() {
            return None;
        }
        Some(BubbleContent { title, body, accent: BubbleAccent::for_kind(kind) })
    }
}

} // verus!
