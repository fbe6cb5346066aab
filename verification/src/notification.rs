//! External notification events: presets per kind, clamping and bounding.
use vstd::prelude::*;
use vstd::string::*;

use crate::external::json_error_text;
use crate::text::{concat, str_eq};

verus! {

broadcast use vstd::utf8::group_utf8_lib;

/// Maximum bytes accepted for one socket event line.
pub const MAX_LINE_BYTES: usize = 65536;
/// Identifier cap for `kind` (an over-length identifier rejects the event).
pub const KIND_MAX_BYTES: usize = 64;
/// Identifier cap for `animation_name`.
pub const ANIMATION_NAME_MAX_BYTES: usize = 64;
/// Free-text cap (over-length text is truncated at a char boundary).
pub const TEXT_MAX_BYTES: usize = 1024;
/// Lowest priority an event can carry.
pub const PRIORITY_MIN: i32 = 0;
/// Highest priority an event can carry.
pub const PRIORITY_MAX: i32 = 100;
/// Shortest time-to-live, in milliseconds.
pub const TTL_MIN_MS: u64 = 1;
/// Longest time-to-live (one day), in milliseconds.
pub const TTL_MAX_MS: u64 = 86_400_000;

/// One notification sent to the running pet.
#[derive(Debug, Clone, PartialEq, Eq)]
pub struct NotificationEvent {
    pub kind: String,
    pub animation_name: Option<String>,
    pub label: Option<String>,
    pub body: Option<String>,
    pub ttl_ms: Option<u64>,
    pub priority: Option<i32>,
}

/// Why an event line was refused.
#[derive(Debug)]
pub enum NotifyParseError {
    TooLong,
    MissingKind,
    FieldTooLong(&'static str),
    Json(serde_json::Error),
}

impl NotifyParseError {
    /// The error's message (what its `Display` writes); a JSON error ends in
    /// `serde_json`'s own text.
    pub fn describe(&self) -> (r: String)
        ensures
            match *self {
                NotifyParseError::TooLong => r@ == "event line exceeds 65536 bytes"@,
                NotifyParseError::MissingKind => r@ == "event is missing a non-empty 'kind'"@,
                NotifyParseError::FieldTooLong(field) => r@ == "field '"@ + field@
                    + "' exceeds its length cap"@,
                NotifyParseError::Json(_) => "invalid event JSON: "@.is_prefix_of(r@),
            },
    {
        match self {
            NotifyParseError::TooLong => "event line exceeds 65536 bytes".to_owned(),
            NotifyParseError::MissingKind => "event is missing a non-empty 'kind'".to_owned(),
            NotifyParseError::FieldTooLong(field) => {
                let a = concat("field '", field);
                concat(a.as_str(), "' exceeds its length cap")
            },
            NotifyParseError::Json(e) => {
                let t = json_error_text(e);
                let r = concat("invalid event JSON: ", t.as_str());
                assert(r@.subrange(0, "invalid event JSON: "@.len() as int) =~= "invalid event JSON: "@);
                r
            },
        }
    }
}

/// The command line of the program.
#[derive(Debug)]
pub struct Cli {
    pub command: Option<Command>,
}

/// The program's subcommands.
#[derive(Debug)]
pub enum Command {
    /// Send a notification to the running pet over its control socket.
    Notify(NotifyArgs),
}

/// Arguments of `notify`.
#[derive(Debug)]
pub struct NotifyArgs {
    /// Event kind, e.g. running | succeeded | failed | needs-review | message (open string).
    pub kind: String,
    /// Explicit animation name override (else `notify-<kind>`).
    pub animation: Option<String>,
    pub label: Option<String>,
    pub body: Option<String>,
    /// Time-to-live in seconds (converted to ms).
    pub ttl: Option<u64>,
    pub priority: Option<i32>,
}

/// Default `(priority, ttl_ms)` of a kind; unknown kinds use the `message` preset.
pub open spec fn preset_spec(kind: Seq<char>) -> (i32, u64) {
    if kind == "running"@ {
        (10, 180_000)
    } else if kind == "message"@ {
        (20, 10_000)
    } else if kind == "succeeded"@ {
        (30, 8_000)
    } else if kind == "needs-review"@ {
        (80, 120_000)
    } else if kind == "failed"@ {
        (90, 30_000)
    } else {
        (20, 10_000)
    }
}

/// Default `(priority, ttl_ms)` for a kind. Unknown kinds use the `message` preset.
/// Priorities order attention states (needs-review, failed) above informational ones.
pub fn preset_for(kind: &str) -> (r: (i32, u64))
    ensures
        r == preset_spec(kind@),
{
    if str_eq(kind, "running") {
        (10, 180_000)
    } else if str_eq(kind, "message") {
        (20, 10_000)
    } else if str_eq(kind, "succeeded") {
        (30, 8_000)
    } else if str_eq(kind, "needs-review") {
        (80, 120_000)
    } else if str_eq(kind, "failed") {
        (90, 30_000)
    } else {
        (20, 10_000)
    }
}

/// `p` clamped into `[PRIORITY_MIN, PRIORITY_MAX]`.
pub open spec fn clamp_priority_spec(p: i32) -> i32 {
    if p < PRIORITY_MIN {
        PRIORITY_MIN
    } else if p > PRIORITY_MAX {
        PRIORITY_MAX
    } else {
        p
    }
}

/// `ms` clamped into `[TTL_MIN_MS, TTL_MAX_MS]`.
pub open spec fn clamp_ttl_spec(ms: u64) -> u64 {
    if ms < TTL_MIN_MS {
        TTL_MIN_MS
    } else if ms > TTL_MAX_MS {
        TTL_MAX_MS
    } else {
        ms
    }
}

/// Clamp a priority into `[PRIORITY_MIN, PRIORITY_MAX]`.
pub fn clamp_priority(p: i32) -> (r: i32)
    ensures
        r == clamp_priority_spec(p),
{
    if p < PRIORITY_MIN {
        PRIORITY_MIN
    } else if p > PRIORITY_MAX {
        PRIORITY_MAX
    } else {
        p
    }
}

/// Clamp a time-to-live into `[TTL_MIN_MS, TTL_MAX_MS]`.
pub fn clamp_ttl(ms: u64) -> (r: u64)
    ensures
        r == clamp_ttl_spec(ms),
{
    if ms < TTL_MIN_MS {
        TTL_MIN_MS
    } else if ms > TTL_MAX_MS {
        TTL_MAX_MS
    } else {
        ms
    }
}

/// The largest char boundary of `bytes` at or below `end`.
pub open spec fn boundary_at_or_below(bytes: Seq<u8>, end: int) -> int
    decreases end,
{
    if end <= 0 {
        0
    } else if vstd::utf8::is_char_boundary(bytes, end) {
        end
    } else {
        boundary_at_or_below(bytes, end - 1)
    }
}

/// Where `truncate_text` cuts: the whole text when it fits, otherwise the largest
/// char boundary at or below `cap`.
pub open spec fn truncation_point(bytes: Seq<u8>, cap: int) -> int {
    if bytes.len() <= cap {
        bytes.len() as int
    } else {
        boundary_at_or_below(bytes, cap)
    }
}

proof fn lemma_boundary_at_or_below(bytes: Seq<u8>, end: int)
    requires
        vstd::utf8::valid_utf8(bytes),
        end <= bytes.len(),
    ensures
        0 <= boundary_at_or_below(bytes, end) <= if end < 0 { 0 } else { end },
        vstd::utf8::is_char_boundary(bytes, boundary_at_or_below(bytes, end)),
    decreases end,
{
    if end > 0 && !vstd::utf8::is_char_boundary(bytes, end) {
        lemma_boundary_at_or_below(bytes, end - 1);
    }
}

/// Truncation never goes past the cap, keeps text that fits whole, and cuts
/// a longer text at a char boundary no more than three bytes below the cap
/// (a UTF-8 character is at most four bytes long).
pub proof fn lemma_truncation_within_cap(bytes: Seq<u8>, cap: int)
    requires
        vstd::utf8::valid_utf8(bytes),
        cap >= 0,
    ensures
        0 <= truncation_point(bytes, cap) <= bytes.len(),
        truncation_point(bytes, cap) <= cap || bytes.len() <= cap,
        bytes.len() <= cap ==> truncation_point(bytes, cap) == bytes.len(),
        vstd::utf8::is_char_boundary(bytes, truncation_point(bytes, cap)),
{
    if bytes.len() > cap {
        lemma_boundary_at_or_below(bytes, cap);
    } else {
        assert(vstd::utf8::is_char_boundary(bytes, bytes.len() as int));
    }
}

/// Truncate free text to the largest UTF-8 char boundary at or below `cap` bytes.
pub fn truncate_text(s: &str, cap: usize) -> (r: String)
    ensures
        vstd::utf8::encode_utf8(r@) == s.spec_bytes().subrange(
            0,
            truncation_point(s.spec_bytes(), cap as int),
        ),
        truncation_point(s.spec_bytes(), cap as int) <= cap || s.spec_bytes().len() <= cap,
        vstd::utf8::encode_utf8(r@).len() <= cap || s.spec_bytes().len() <= cap,
{
    let byte_len: usize = s.as_bytes().len();
    if byte_len <= cap {
        proof {
            assert(s.spec_bytes().subrange(0, s.spec_bytes().len() as int) =~= s.spec_bytes());
        }
        return s.to_owned();
    }
    let mut end: usize = cap;
    while end > 0 && !s.is_char_boundary(end)
        invariant
            end <= cap,
            cap < s.spec_bytes().len(),
            boundary_at_or_below(s.spec_bytes(), end as int) == boundary_at_or_below(
                s.spec_bytes(),
                cap as int,
            ),
        decreases end,
    {
        end -= 1;
    }
    proof {
        vstd::utf8::encode_utf8_valid_utf8(s@);
        lemma_boundary_at_or_below(s.spec_bytes(), cap as int);
    }
    let (head, _) = s.split_at(end);
    let r = head.to_owned();
    proof {
        vstd::utf8::decode_utf8_encode_utf8(head.spec_bytes());
    }
    r
}

/// The UTF-8 bytes of a string's characters.
pub open spec fn utf8_bytes(s: Seq<char>) -> Seq<u8> {
    vstd::utf8::encode_utf8(s)
}

/// The event names no kind.
pub open spec fn kind_missing(ev: NotificationEvent) -> bool {
    ev.kind@.len() == 0
}

/// The event's kind exceeds its byte cap.
pub open spec fn kind_too_long(ev: NotificationEvent) -> bool {
    utf8_bytes(ev.kind@).len() > KIND_MAX_BYTES
}

/// The event's animation name exceeds its byte cap.
pub open spec fn animation_name_too_long(ev: NotificationEvent) -> bool {
    ev.animation_name matches Some(a) && utf8_bytes(a@).len() > ANIMATION_NAME_MAX_BYTES
}

/// `out` is `text` truncated to `TEXT_MAX_BYTES` at a char boundary.
pub open spec fn text_truncated(out: Option<String>, text: Option<String>) -> bool {
    match (out, text) {
        (None, None) => true,
        (Some(o), Some(t)) => utf8_bytes(o@) == utf8_bytes(t@).subrange(
            0,
            truncation_point(utf8_bytes(t@), TEXT_MAX_BYTES as int),
        ),
        _ => false,
    }
}

/// Byte length of a string.
fn byte_len(s: &String) -> (n: usize)
    ensures
        n == utf8_bytes(s@).len(),
{
    s.as_str().as_bytes().len()
}

fn truncate_opt(text: Option<String>) -> (r: Option<String>)
    ensures
        text_truncated(r, text),
{
    match text {
        Some(t) => Some(truncate_text(t.as_str(), TEXT_MAX_BYTES)),
        None => None,
    }
}

/// Refuse a line longer than `MAX_LINE_BYTES` before anything decodes it.
pub fn check_line_length(line: &str) -> (r: Result<(), NotifyParseError>)
    ensures
        r is Ok <==> line.spec_bytes().len() <= MAX_LINE_BYTES,
        r is Err ==> r matches Err(NotifyParseError::TooLong),
{
    if line.as_bytes().len() > MAX_LINE_BYTES {
        Err(NotifyParseError::TooLong)
    } else {
        Ok(())
    }
}

/// Bound a decoded event: an empty kind, or an identifier over its cap, rejects
/// the event; the free-text label and body are truncated at a char boundary.
pub fn bound_event(ev: NotificationEvent) -> (r: Result<NotificationEvent, NotifyParseError>)
    ensures
        kind_missing(ev) ==> r matches Err(NotifyParseError::MissingKind),
        !kind_missing(ev) && kind_too_long(ev) ==> (r matches Err(
            NotifyParseError::FieldTooLong(f),
        ) && f@ == "kind"@),
        !kind_missing(ev) && !kind_too_long(ev) && animation_name_too_long(ev) ==> (r matches Err(
            NotifyParseError::FieldTooLong(f),
        ) && f@ == "animation_name"@),
        !kind_missing(ev) && !kind_too_long(ev) && !animation_name_too_long(ev) ==> (r matches Ok(
            out,
        ) && {
            &&& out.kind == ev.kind
            &&& out.animation_name == ev.animation_name
            &&& out.ttl_ms == ev.ttl_ms
            &&& out.priority == ev.priority
            &&& text_truncated(out.label, ev.label)
            &&& text_truncated(out.body, ev.body)
        }),
{
    if ev.kind.as_str().is_empty() {
        return Err(NotifyParseError::MissingKind);
    }
    if byte_len(&ev.kind) > KIND_MAX_BYTES {
        return Err(NotifyParseError::FieldTooLong("kind"));
    }
    match &ev.animation_name {
        Some(a) => {
            if byte_len(a) > ANIMATION_NAME_MAX_BYTES {
                return Err(NotifyParseError::FieldTooLong("animation_name"));
            }
        },
        None => {},
    }
    let NotificationEvent { kind, animation_name, label, body, ttl_ms, priority } = ev;
    Ok(
        NotificationEvent {
            kind,
            animation_name,
            label: truncate_opt(label),
            body: truncate_opt(body),
            ttl_ms,
            priority,
        },
    )
}

/// Seconds to milliseconds, saturating at `u64::MAX`.
pub open spec fn seconds_to_ms(s: u64) -> u64 {
    if s * 1000 > u64::MAX {
        u64::MAX
    } else {
        (s * 1000) as u64
    }
}

fn clone_opt(o: &Option<String>) -> (r: Option<String>)
    ensures
        r == *o,
{
    match o {
        Some(s) => Some(s.clone()),
        None => None,
    }
}

impl NotifyArgs {
    /// The event these arguments describe; the time-to-live goes from seconds to
    /// milliseconds.
    pub fn to_event(&self) -> (ev: NotificationEvent)
        ensures
            ev.kind == self.kind,
            ev.animation_name == self.animation,
            ev.label == self.label,
            ev.body == self.body,
            ev.ttl_ms == match self.ttl {
                Some(s) => Some(seconds_to_ms(s)),
                None => None,
            },
            ev.priority == self.priority,
    {
        let ttl_ms = match self.ttl {
            Some(s) => Some(
                if s <= u64::MAX / 1000 {
                    s * 1000
                } else {
                    u64::MAX
                },
            ),
            None => None,
        };
        NotificationEvent {
            kind: self.kind.clone(),
            animation_name: clone_opt(&self.animation),
            label: clone_opt(&self.label),
            body: clone_opt(&self.body),
            ttl_ms,
            priority: self.priority,
        }
    }
}

/// Attention states outrank informational ones: running < succeeded <
/// needs-review < failed, and an unknown kind is treated as a message.
pub proof fn lemma_preset_priority_order(unknown: Seq<char>)
    requires
        unknown != "running"@,
        unknown != "message"@,
        unknown != "succeeded"@,
        unknown != "needs-review"@,
        unknown != "failed"@,
    ensures
        preset_spec("running"@).0 < preset_spec("succeeded"@).0,
        preset_spec("succeeded"@).0 < preset_spec("needs-review"@).0,
        preset_spec("needs-review"@).0 < preset_spec("failed"@).0,
        preset_spec(unknown) == preset_spec("message"@),
{
    reveal_strlit("running");
    reveal_strlit("message");
    reveal_strlit("succeeded");
    reveal_strlit("needs-review");
    reveal_strlit("failed");
    assert("succeeded"@[0] != "running"@[0]);
    assert("succeeded"@[0] != "message"@[0]);
    assert("needs-review"@[0] != "running"@[0]);
    assert("needs-review"@[0] != "message"@[0]);
    assert("needs-review"@[0] != "succeeded"@[0]);
    assert("failed"@[0] != "running"@[0]);
    assert("failed"@[0] != "message"@[0]);
    assert("failed"@[0] != "succeeded"@[0]);
    assert("failed"@[0] != "needs-review"@[0]);
}

/// A running task is shown longest: a `running` notification sent without a
/// time to live stays three minutes, and every other kind's preset time to
/// live, unknown kinds included, is shorter.
pub proof fn lemma_running_preset_lasts_longest(kind: Seq<char>)
    ensures
        preset_spec("running"@).0 == 10,
        preset_spec("running"@).1 == 3 * 60 * 1000,
        kind != "running"@ ==> preset_spec(kind).1 < preset_spec("running"@).1,
{
}

/// Clamping always lands in range and leaves in-range values alone.
pub proof fn lemma_clamps_in_range(p: i32, ms: u64)
    ensures
        PRIORITY_MIN <= clamp_priority_spec(p) <= PRIORITY_MAX,
        TTL_MIN_MS <= clamp_ttl_spec(ms) <= TTL_MAX_MS,
        PRIORITY_MIN <= p <= PRIORITY_MAX ==> clamp_priority_spec(p) == p,
        TTL_MIN_MS <= ms <= TTL_MAX_MS ==> clamp_ttl_spec(ms) == ms,
        clamp_priority_spec(clamp_priority_spec(p)) == clamp_priority_spec(p),
        clamp_ttl_spec(clamp_ttl_spec(ms)) == clamp_ttl_spec(ms),
{
}

} // verus!
