//! Pet manifests: frame geometry and named animations, with their validation.
use vstd::prelude::*;

use crate::external::{io_error_text, json_error_text};
use crate::pet::table::AnimationTable;
use crate::text::{concat, decimal, decimal_spec};

verus! {

/// Most frames one animation may hold.
pub const MAX_FRAMES_PER_ANIMATION: usize = 64;

/// The size of one frame and the grid of frames on the sprite sheet.
#[derive(Debug, Clone, Copy, PartialEq, Eq, Structural)]
pub struct FrameGeometry {
    pub width: u32,
    pub height: u32,
    pub columns: u32,
    pub rows: u32,
}

/// One animation frame: a sprite index plus an optional per-frame duration.
#[derive(Debug, Clone, Copy, PartialEq, Eq, Structural)]
pub struct Frame {
    pub index: u32,
    /// `None`: the runtime uses its state/personality-derived duration.
    pub ms: Option<u32>,
}

impl From<u32> for Frame {
    fn from(index: u32) -> (f: Self) {
        Frame { index, ms: None }
    }
}

impl vstd::std_specs::convert::FromSpecImpl<u32> for Frame {
    open spec fn obeys_from_spec() -> bool {
        true
    }

    open spec fn from_spec(index: u32) -> Frame {
        Frame { index, ms: None }
    }
}

/// A named animation: its frames and its lifecycle fields.
#[derive(Debug, Clone)]
pub struct Animation {
    pub frames: Vec<Frame>,
    pub loop_start: Option<usize>,
    pub fallback: Option<String>,
    pub one_shot: bool,
}

impl Animation {
    /// A plain animation over the given sprite indices (no per-frame ms, no
    /// lifecycle fields).
    pub fn from_indices(indices: &[u32]) -> (a: Self)
        ensures
            a.frames@.len() == indices@.len(),
            forall|i: int|
                0 <= i < indices@.len() ==> #[trigger] a.frames@[i] == (Frame {
                    index: indices@[i],
                    ms: None,
                }),
            a.loop_start is None,
            a.fallback is None,
            !a.one_shot,
    {
        let mut frames: Vec<Frame> = Vec::new();
        let mut i: usize = 0;
        while i < indices.len()
            invariant
                i <= indices@.len(),
                frames@.len() == i,
                forall|j: int|
                    0 <= j < i ==> #[trigger] frames@[j] == (Frame { index: indices@[j], ms: None }),
            decreases indices@.len() - i,
        {
            frames.push(Frame { index: indices[i], ms: None });
            i += 1;
        }
        Animation { frames, loop_start: None, fallback: None, one_shot: false }
    }

    /// Number of frames.
    pub fn frame_count(&self) -> (n: usize)
        ensures
            n == self.frames@.len(),
    {
        self.frames.len()
    }

    /// Sprite index at `pos`, wrapping around the frames; it never panics:
    /// an animation without frames gives sprite 0.
    pub fn sprite_index(&self, pos: usize) -> (i: u32)
        ensures
            i == if self.frames@.len() == 0 {
                0
            } else {
                self.frames@[pos as int % self.frames@.len() as int].index
            },
    {
        if self.frames.len() == 0 {
            0
        } else {
            self.frames[pos % self.frames.len()].index
        }
    }

    /// Per-frame duration override at `pos` (wrapping), if the manifest set one.
    pub fn frame_ms(&self, pos: usize) -> (ms: Option<u32>)
        ensures
            ms == if self.frames@.len() == 0 {
                None
            } else {
                self.frames@[pos as int % self.frames@.len() as int].ms
            },
    {
        if self.frames.len() == 0 {
            None
        } else {
            self.frames[pos % self.frames.len()].ms
        }
    }

    /// A lifecycle animation drives its own cursor (intro or one-shot) and must
    /// start at frame 0 on entry.
    pub fn is_lifecycle(&self) -> (r: bool)
        ensures
            r <==> (self.one_shot || self.loop_start is Some),
    {
        self.one_shot || self.loop_start.is_some()
    }
}

/// A pet: its identity, sprite sheet and animations.
#[derive(Debug)]
pub struct PetManifest {
    pub manifest_version: u32,
    pub id: String,
    pub display_name: String,
    pub spritesheet_path: String,
    pub frame: FrameGeometry,
    pub animations: AnimationTable,
}

/// Why a manifest could not be loaded or was refused.
#[derive(Debug)]
pub enum ManifestError {
    Io(std::io::Error),
    Json(serde_json::Error),
    InvalidVersion(u32),
    EmptyField(&'static str),
    InvalidIdChars,
    ZeroGeometry,
    EmptyAnimation { name: String },
    TooManyFrames { name: String, count: usize },
    SpriteIndexOutOfBounds { animation: String, frame_pos: usize, index: u32, max: u32 },
    ZeroFrameDuration { animation: String, frame_pos: usize },
    MissingIdleAnimation,
    MissingRequiredAnimation { name: &'static str },
}

/// The id holds a path separator or a NUL.
pub open spec fn id_has_forbidden_char(id: Seq<char>) -> bool {
    id.contains('/') || id.contains('\\') || id.contains('\0')
}

/// A geometry value is zero.
pub open spec fn geometry_has_zero(g: FrameGeometry) -> bool {
    g.width == 0 || g.height == 0 || g.columns == 0 || g.rows == 0
}

/// The manifest passes every check that comes before the per-animation checks.
pub open spec fn header_valid(m: PetManifest) -> bool {
    &&& m.manifest_version >= 1
    &&& m.id@.len() > 0
    &&& !id_has_forbidden_char(m.id@)
    &&& m.display_name@.len() > 0
    &&& m.spritesheet_path@.len() > 0
    &&& !geometry_has_zero(m.frame)
}

/// Number of sprites on the sheet.
pub open spec fn sprite_count(g: FrameGeometry) -> int {
    g.columns as int * g.rows as int
}

/// The frame shows a sprite on the sheet (index below `max`) and, where it sets
/// its own duration, that duration is above zero.
pub open spec fn frame_ok(f: Frame, max: int) -> bool {
    f.index < max && f.ms != Some(0u32)
}

/// The position of the first frame from `from` on that fails `frame_ok`
/// (the frame count when there is none).
pub open spec fn first_bad_frame(frames: Seq<Frame>, max: int, from: int) -> int
    decreases frames.len() - from,
{
    if from < 0 || from >= frames.len() {
        frames.len() as int
    } else if !frame_ok(frames[from], max) {
        from
    } else {
        first_bad_frame(frames, max, from + 1)
    }
}

/// The animation has frames, not too many, every frame is on the sheet and
/// no frame has a zero duration.
pub open spec fn animation_valid(a: Animation, max: int) -> bool {
    &&& a.frames@.len() > 0
    &&& a.frames@.len() <= MAX_FRAMES_PER_ANIMATION
    &&& forall|p: int| 0 <= p < a.frames@.len() ==> frame_ok(#[trigger] a.frames@[p], max)
}

/// The position of the first animation from `from` on that fails its checks
/// (the animation count when there is none).
pub open spec fn first_bad_animation(values: Seq<Animation>, max: int, from: int) -> int
    decreases values.len() - from,
{
    if from < 0 || from >= values.len() {
        values.len() as int
    } else if !animation_valid(values[from], max) {
        from
    } else {
        first_bad_animation(values, max, from + 1)
    }
}

/// Every animation passes its checks.
pub open spec fn animations_valid(t: Map<Seq<char>, Animation>, max: int) -> bool {
    forall|k: Seq<char>| #[trigger] t.contains_key(k) ==> animation_valid(t[k], max)
}

/// The manifest passes all checks.
pub open spec fn manifest_valid(m: PetManifest) -> bool {
    &&& header_valid(m)
    &&& animations_valid(m.animations@, sprite_count(m.frame))
    &&& m.animations@.contains_key("idle"@)
}

/// The error `validate` reports for a manifest that fails a check: the first
/// failing check, in the order header, animations (in name order), idle.
pub open spec fn expected_fault(m: PetManifest, e: ManifestError) -> bool {
    if m.manifest_version < 1 {
        e matches ManifestError::InvalidVersion(v) && v == m.manifest_version
    } else if m.id@.len() == 0 {
        e matches ManifestError::EmptyField(f) && f@ == "id"@
    } else if id_has_forbidden_char(m.id@) {
        e is InvalidIdChars
    } else if m.display_name@.len() == 0 {
        e matches ManifestError::EmptyField(f) && f@ == "displayName"@
    } else if m.spritesheet_path@.len() == 0 {
        e matches ManifestError::EmptyField(f) && f@ == "spritesheetPath"@
    } else if geometry_has_zero(m.frame) {
        e is ZeroGeometry
    } else if !animations_valid(m.animations@, sprite_count(m.frame)) {
        let max = sprite_count(m.frame);
        let i = first_bad_animation(m.animations.spec_values(), max, 0);
        let name = m.animations.spec_keys()[i];
        let a = m.animations.spec_values()[i];
        if a.frames@.len() == 0 {
            e matches ManifestError::EmptyAnimation { name: n } && n@ == name
        } else if a.frames@.len() > MAX_FRAMES_PER_ANIMATION {
            e matches ManifestError::TooManyFrames { name: n, count } && n@ == name && count
                == a.frames@.len()
        } else {
            let pos = first_bad_frame(a.frames@, max, 0);
            if a.frames@[pos].index >= max {
                e matches ManifestError::SpriteIndexOutOfBounds {
                    animation: n,
                    frame_pos,
                    index,
                    max: mx,
                } && n@ == name && frame_pos == pos && index == a.frames@[pos].index && mx == max
            } else {
                e matches ManifestError::ZeroFrameDuration { animation: n, frame_pos } && n@ == name
                    && frame_pos == pos
            }
        }
    } else {
        e is MissingIdleAnimation
    }
}

proof fn lemma_first_bad_frame(frames: Seq<Frame>, max: int, from: int)
    requires
        0 <= from <= frames.len(),
    ensures
        from <= first_bad_frame(frames, max, from) <= frames.len(),
        first_bad_frame(frames, max, from) < frames.len() ==> !frame_ok(
            frames[first_bad_frame(frames, max, from)],
            max,
        ),
        forall|p: int| from <= p < first_bad_frame(frames, max, from) ==> frame_ok(#[trigger] frames[p], max),
    decreases frames.len() - from,
{
    if from < frames.len() && frame_ok(frames[from], max) {
        lemma_first_bad_frame(frames, max, from + 1);
    }
}

proof fn lemma_first_bad_animation(values: Seq<Animation>, max: int, from: int)
    requires
        0 <= from <= values.len(),
    ensures
        from <= first_bad_animation(values, max, from) <= values.len(),
        first_bad_animation(values, max, from) < values.len() ==> !animation_valid(
            values[first_bad_animation(values, max, from)],
            max,
        ),
        forall|p: int|
            from <= p < first_bad_animation(values, max, from) ==> animation_valid(
                #[trigger] values[p],
                max,
            ),
    decreases values.len() - from,
{
    if from < values.len() && animation_valid(values[from], max) {
        lemma_first_bad_animation(values, max, from + 1);
    }
}

fn contains_char(s: &str, c: char) -> (r: bool)
    ensures
        r == s@.contains(c),
{
    let cs = crate::text::chars_of(s);
    let mut i: usize = 0;
    while i < cs.len()
        invariant
            cs@ == s@,
            i <= cs@.len(),
            forall|j: int| 0 <= j < i ==> cs@[j] != c,
        decreases cs@.len() - i,
    {
        if cs[i] == c {
            proof {
                assert(s@[i as int] == c);
            }
            return true;
        }
        i += 1;
    }
    false
}

fn check_animation(name: &String, anim: &Animation, max_index: u32) -> (r: Result<(), ManifestError>)
    ensures
        r is Ok <==> animation_valid(*anim, max_index as int),
        r matches Err(e) ==> {
            if anim.frames@.len() == 0 {
                e matches ManifestError::EmptyAnimation { name: n } && n@ == name@
            } else if anim.frames@.len() > MAX_FRAMES_PER_ANIMATION {
                e matches ManifestError::TooManyFrames { name: n, count } && n@ == name@ && count
                    == anim.frames@.len()
            } else {
                let pos = first_bad_frame(anim.frames@, max_index as int, 0);
                if anim.frames@[pos].index >= max_index {
                    e matches ManifestError::SpriteIndexOutOfBounds {
                        animation: n,
                        frame_pos,
                        index,
                        max: mx,
                    } && n@ == name@ && frame_pos == pos && index == anim.frames@[pos].index && mx
                        == max_index
                } else {
                    e matches ManifestError::ZeroFrameDuration { animation: n, frame_pos } && n@
                        == name@ && frame_pos == pos
                }
            }
        },
{
    if anim.frames.len() == 0 {
        return Err(ManifestError::EmptyAnimation { name: name.clone() });
    }
    if anim.frames.len() > MAX_FRAMES_PER_ANIMATION {
        return Err(ManifestError::TooManyFrames { name: name.clone(), count: anim.frames.len() });
    }
    let mut pos: usize = 0;
    proof {
        lemma_first_bad_frame(anim.frames@, max_index as int, 0);
    }
    while pos < anim.frames.len()
        invariant
            pos <= anim.frames@.len(),
            0 < anim.frames@.len() <= MAX_FRAMES_PER_ANIMATION,
            forall|p: int| 0 <= p < pos ==> frame_ok(#[trigger] anim.frames@[p], max_index as int),
            first_bad_frame(anim.frames@, max_index as int, 0) == first_bad_frame(
                anim.frames@,
                max_index as int,
                pos as int,
            ),
        decreases anim.frames@.len() - pos,
    {
        let frame = anim.frames[pos];
        if frame.index >= max_index {
            proof {
                assert(first_bad_frame(anim.frames@, max_index as int, pos as int) == pos as int);
            }
            return Err(
                ManifestError::SpriteIndexOutOfBounds {
                    animation: name.clone(),
                    frame_pos: pos,
                    index: frame.index,
                    max: max_index,
                },
            );
        }
        if frame.ms == Some(0u32) {
            proof {
                assert(first_bad_frame(anim.frames@, max_index as int, pos as int) == pos as int);
            }
            return Err(ManifestError::ZeroFrameDuration { animation: name.clone(), frame_pos: pos });
        }
        pos += 1;
    }
    Ok(())
}

/// The names every Happy Cappy-style manifest must declare, in checking order.
pub open spec fn required_animation_names() -> Seq<Seq<char>> {
    seq![
        "idle"@,
        "blink"@,
        "happy"@,
        "curious"@,
        "sleepy"@,
        "hover-calm"@,
        "hover-cheerful"@,
        "hover-lively"@,
        "walk-right"@,
        "drag"@,
    ]
}

fn required_names() -> (v: Vec<&'static str>)
    ensures
        v@.len() == required_animation_names().len(),
        forall|i: int| 0 <= i < v@.len() ==> (#[trigger] v@[i])@ == required_animation_names()[i],
{
    let v: Vec<&'static str> = vec![
        "idle",
        "blink",
        "happy",
        "curious",
        "sleepy",
        "hover-calm",
        "hover-cheerful",
        "hover-lively",
        "walk-right",
        "drag",
    ];
    v
}

/// The position of the first required name from `from` on that `t` lacks (the
/// list's length when there is none).
pub open spec fn first_missing_required(t: Map<Seq<char>, Animation>, from: int) -> int
    decreases required_animation_names().len() - from,
{
    if from < 0 || from >= required_animation_names().len() {
        required_animation_names().len() as int
    } else if !t.contains_key(required_animation_names()[from]) {
        from
    } else {
        first_missing_required(t, from + 1)
    }
}

proof fn lemma_first_missing_required(t: Map<Seq<char>, Animation>, from: int)
    requires
        0 <= from <= required_animation_names().len(),
    ensures
        from <= first_missing_required(t, from) <= required_animation_names().len(),
        first_missing_required(t, from) < required_animation_names().len() ==> !t.contains_key(
            required_animation_names()[first_missing_required(t, from)],
        ),
        forall|p: int|
            from <= p < first_missing_required(t, from) ==> t.contains_key(
                #[trigger] required_animation_names()[p],
            ),
    decreases required_animation_names().len() - from,
{
    if from < required_animation_names().len() && t.contains_key(required_animation_names()[from]) {
        lemma_first_missing_required(t, from + 1);
    }
}

impl PetManifest {
    /// Check the manifest: version, identity fields, geometry, every animation
    /// (in name order), and that an `idle` animation exists. Reports the first
    /// failing check.
    pub fn validate(&self) -> (r: Result<(), ManifestError>)
        requires
            header_valid(*self) ==> sprite_count(self.frame) <= u32::MAX,
        ensures
            r is Ok <==> manifest_valid(*self),
            r matches Err(e) ==> expected_fault(*self, e),
    {
        if self.manifest_version < 1 {
            return Err(ManifestError::InvalidVersion(self.manifest_version));
        }
        if self.id.as_str().is_empty() {
            return Err(ManifestError::EmptyField("id"));
        }
        if contains_char(self.id.as_str(), '/') || contains_char(self.id.as_str(), '\\')
            || contains_char(self.id.as_str(), '\0') {
            return Err(ManifestError::InvalidIdChars);
        }
        if self.display_name.as_str().is_empty() {
            return Err(ManifestError::EmptyField("displayName"));
        }
        if self.spritesheet_path.as_str().is_empty() {
            return Err(ManifestError::EmptyField("spritesheetPath"));
        }
        if self.frame.width == 0 || self.frame.height == 0 || self.frame.columns == 0
            || self.frame.rows == 0 {
            return Err(ManifestError::ZeroGeometry);
        }
        let max_index: u32 = self.frame.columns * self.frame.rows;
        let ghost values = self.animations.spec_values();
        let n: usize = self.animations.len();
        proof {
            lemma_first_bad_animation(values, max_index as int, 0);
        }
        let mut i: usize = 0;
        while i < n
            invariant
                n == values.len(),
                n == self.animations.spec_keys().len(),
                values == self.animations.spec_values(),
                i <= n,
                header_valid(*self),
                self.animations@.dom() == self.animations.spec_keys().to_set(),
                forall|j: int|
                    0 <= j < n ==> #[trigger] self.animations@[self.animations.spec_keys()[j]]
                        == values[j],
                max_index as int == sprite_count(self.frame),
                forall|p: int| 0 <= p < i ==> animation_valid(#[trigger] values[p], max_index as int),
                first_bad_animation(values, max_index as int, 0) == first_bad_animation(
                    values,
                    max_index as int,
                    i as int,
                ),
            decreases n - i,
        {
            let name = self.animations.key_at(i);
            let anim = self.animations.value_at(i);
            match check_animation(name, anim, max_index) {
                Ok(()) => {},
                Err(e) => {
                    proof {
                        assert(first_bad_animation(values, max_index as int, i as int) == i as int);
                        assert(!animation_valid(self.animations.spec_values()[i as int], max_index as int));
                        let k = self.animations.spec_keys()[i as int];
                        assert(self.animations.spec_keys().to_set().contains(k));
                        assert(self.animations@.contains_key(k));
                    }
                    return Err(e);
                },
            }
            i += 1;
        }
        proof {
            assert forall|k: Seq<char>| #[trigger] self.animations@.contains_key(k) implies animation_valid(
                self.animations@[k],
                max_index as int,
            ) by {
                assert(self.animations.spec_keys().to_set().contains(k));
                let j = choose|j: int| 0 <= j < n && self.animations.spec_keys()[j] == k;
                assert(self.animations@[self.animations.spec_keys()[j]] == values[j]);
            }
        }
        if !self.animations.contains_key("idle") {
            return Err(ManifestError::MissingIdleAnimation);
        }
        Ok(())
    }

    /// Check that every animation a Happy Cappy-style pet needs is declared;
    /// reports the first missing one.
    pub fn validate_happy_cappy_required_keys(&self) -> (r: Result<(), ManifestError>)
        ensures
            r is Ok <==> forall|i: int|
                0 <= i < required_animation_names().len() ==> self.animations@.contains_key(
                    #[trigger] required_animation_names()[i],
                ),
            r matches Err(e) ==> (e matches ManifestError::MissingRequiredAnimation { name } && name@
                == required_animation_names()[first_missing_required(self.animations@, 0)]),
    {
        let names = required_names();
        proof {
            lemma_first_missing_required(self.animations@, 0);
        }
        let mut i: usize = 0;
        while i < names.len()
            invariant
                names@.len() == required_animation_names().len(),
                forall|j: int| 0 <= j < names@.len() ==> (#[trigger] names@[j])@ == required_animation_names()[j],
                i <= names@.len(),
                forall|p: int| 0 <= p < i ==> self.animations@.contains_key(
                    #[trigger] required_animation_names()[p],
                ),
                first_missing_required(self.animations@, 0) == first_missing_required(
                    self.animations@,
                    i as int,
                ),
            decreases names@.len() - i,
        {
            let name = names[i];
            if !self.animations.contains_key(name) {
                return Err(ManifestError::MissingRequiredAnimation { name });
            }
            i += 1;
        }
        Ok(())
    }
}

/// The animation plays row `row` of the sheet: four frames, no timing
/// overrides, no lifecycle fields.
pub open spec fn plays_row(a: Animation, row: int) -> bool {
    &&& a.frames@.len() == 4
    &&& forall|k: int|
        0 <= k < 4 ==> #[trigger] a.frames@[k] == (Frame { index: (4 * row + k) as u32, ms: None })
    &&& a.loop_start is None
    &&& a.fallback is None
    &&& !a.one_shot
}

/// The bundled Happy Cappy pet: a 4 x 10 sheet of 64-pixel frames whose rows,
/// top to bottom, play the required animations in their listed order.
pub open spec fn is_bundled_happy_cappy(m: PetManifest) -> bool {
    &&& m.manifest_version == 1
    &&& m.id@ == "happy-cappy"@
    &&& m.display_name@ == "Happy Cappy"@
    &&& m.spritesheet_path@ == "happy_cappy_spritesheet.png"@
    &&& m.frame == (FrameGeometry { width: 64, height: 64, columns: 4, rows: 10 })
    &&& m.animations@.dom() == required_animation_names().to_set()
    &&& forall|i: int|
        0 <= i < required_animation_names().len() ==> #[trigger] m.animations@.contains_key(
            required_animation_names()[i],
        ) && plays_row(m.animations@[required_animation_names()[i]], i)
}

/// The required names are pairwise distinct.
pub proof fn lemma_required_names_distinct()
    ensures
        required_animation_names().no_duplicates(),
{
    reveal_strlit("idle");
    reveal_strlit("blink");
    reveal_strlit("happy");
    reveal_strlit("curious");
    reveal_strlit("sleepy");
    reveal_strlit("hover-calm");
    reveal_strlit("hover-cheerful");
    reveal_strlit("hover-lively");
    reveal_strlit("walk-right");
    reveal_strlit("drag");
    let names = required_animation_names();
    assert forall|i: int, j: int| 0 <= i < names.len() && 0 <= j < names.len() && i != j implies names[i]
        != names[j] by {
        if names[i] == names[j] {
            assert(names[i].len() == names[j].len());
            assert(names[i][0] == names[j][0]);
        }
    }
}

impl PetManifest {
    /// The bundled Happy Cappy pet: a 4 x 10 sheet of 64-pixel frames whose rows,
    /// top to bottom, are idle, blink, happy, curious, sleepy, hover-calm,
    /// hover-cheerful, hover-lively, walk-right and drag.
    pub fn load_embedded_happy_cappy() -> (m: Self)
        ensures
            is_bundled_happy_cappy(m),
            manifest_valid(m),
    {
        let names = required_names();
        let mut animations = AnimationTable::new();
        proof {
            lemma_required_names_distinct();
        }
        let mut i: usize = 0;
        while i < names.len()
            invariant
                names@.len() == required_animation_names().len(),
                forall|j: int| 0 <= j < names@.len() ==> (#[trigger] names@[j])@ == required_animation_names()[j],
                required_animation_names().no_duplicates(),
                i <= names@.len(),
                animations@.dom() == required_animation_names().take(i as int).to_set(),
                forall|j: int|
                    0 <= j < i ==> #[trigger] animations@.contains_key(required_animation_names()[j])
                        && plays_row(animations@[required_animation_names()[j]], j),
            decreases names@.len() - i,
        {
            let base: u32 = 4 * (i as u32);
            let indices: Vec<u32> = vec![base, base + 1, base + 2, base + 3];
            let anim = Animation::from_indices(indices.as_slice());
            assert(plays_row(anim, i as int));
            let name = names[i];
            let ghost before = animations@;
            animations.insert(name.to_owned(), anim);
            proof {
                let rn = required_animation_names();
                assert(rn.take(i + 1) =~= rn.take(i as int).push(rn[i as int]));
                assert forall|k: Seq<char>| animations@.dom().contains(k) <==> rn.take(i + 1).to_set().contains(k) by {
                    if k == rn[i as int] {
                        assert(rn.take(i + 1)[i as int] == k);
                    } else if rn.take(i + 1).contains(k) {
                        let q = choose|q: int| 0 <= q < i + 1 && #[trigger] rn.take(i + 1)[q] == k;
                        assert(rn.take(i as int)[q] == k);
                    } else if rn.take(i as int).contains(k) {
                        let q = choose|q: int| 0 <= q < i && #[trigger] rn.take(i as int)[q] == k;
                        assert(rn.take(i + 1)[q] == k);
                    }
                }
                assert(animations@.dom() =~= rn.take(i + 1).to_set());
                assert forall|j: int| 0 <= j < i + 1 implies #[trigger] animations@.contains_key(
                    rn[j],
                ) && plays_row(animations@[rn[j]], j) by {
                    assert(animations@ == before.insert(rn[i as int], anim));
                    if j < i {
                        assert(rn[j] != rn[i as int]);
                        assert(before.contains_key(rn[j]) && plays_row(before[rn[j]], j));
                        assert(animations@[rn[j]] == before[rn[j]]);
                    } else {
                        assert(animations@[rn[i as int]] == anim);
                    }
                }
            }
            i += 1;
        }
        let m = PetManifest {
            manifest_version: 1,
            id: "happy-cappy".to_owned(),
            display_name: "Happy Cappy".to_owned(),
            spritesheet_path: "happy_cappy_spritesheet.png".to_owned(),
            frame: FrameGeometry { width: 64, height: 64, columns: 4, rows: 10 },
            animations,
        };
        proof {
            let rn = required_animation_names();
            assert(rn.take(10) =~= rn);
            reveal_strlit("happy-cappy");
            reveal_strlit("Happy Cappy");
            reveal_strlit("happy_cappy_spritesheet.png");
            assert(!m.id@.contains('/'));
            assert(!m.id@.contains('\\'));
            assert(!m.id@.contains('\0'));
            assert forall|k: Seq<char>| #[trigger] m.animations@.contains_key(k) implies animation_valid(
                m.animations@[k],
                40,
            ) by {
                assert(rn.to_set().contains(k));
                let j = choose|j: int| 0 <= j < rn.len() && rn[j] == k;
                assert(plays_row(m.animations@[rn[j]], j));
            }
            assert(m.animations@.contains_key(rn[0]));
            assert(rn[0] == "idle"@);
            assert(m.animations@.contains_key("idle"@));
            assert(header_valid(m));
            assert(animations_valid(m.animations@, sprite_count(m.frame)));
        }
        m
    }
}

/// The message of a manifest error that carries no outside error.
pub open spec fn manifest_error_text(e: ManifestError) -> Seq<char> {
    match e {
        ManifestError::InvalidVersion(v) => "invalid manifest_version: "@ + decimal_spec(v as nat),
        ManifestError::EmptyField(name) => "field '"@ + name@ + "' must not be empty"@,
        ManifestError::InvalidIdChars => "id must not contain '/', '\\\\', or null bytes"@,
        ManifestError::ZeroGeometry => "frame geometry values must be > 0"@,
        ManifestError::EmptyAnimation { name } => "animation '"@ + name@ + "' has no frames"@,
        ManifestError::TooManyFrames { name, count } => "animation '"@ + name@ + "' has "@
            + decimal_spec(count as nat) + " frames, max is 64"@,
        ManifestError::SpriteIndexOutOfBounds { animation, frame_pos, index, max } => "animation '"@
            + animation@ + "' frame["@ + decimal_spec(frame_pos as nat) + "] index "@
            + decimal_spec(index as nat) + " >= "@ + decimal_spec(max as nat),
        ManifestError::ZeroFrameDuration { animation, frame_pos } => "animation '"@ + animation@
            + "' frame["@ + decimal_spec(frame_pos as nat) + "] ms must be > 0"@,
        ManifestError::MissingIdleAnimation => "manifest must declare an 'idle' animation"@,
        ManifestError::MissingRequiredAnimation { name } => "manifest is missing required animation '"@
            + name@ + "'"@,
        _ => Seq::empty(),
    }
}

/// Whether `msg` is a message for `e`: the exact text where `e` carries no
/// outside error, and a text behind the category's prefix where it does.
pub open spec fn manifest_message(e: ManifestError, msg: Seq<char>) -> bool {
    match e {
        ManifestError::Io(_) => "manifest I/O error: "@.is_prefix_of(msg),
        ManifestError::Json(_) => "manifest JSON error: "@.is_prefix_of(msg),
        _ => msg == manifest_error_text(e),
    }
}

impl ManifestError {
    /// The error's message (what its `Display` writes).
    pub fn describe(&self) -> (r: String)
        ensures
            manifest_message(*self, r@),
    {
        match self {
            ManifestError::Io(e) => {
                let t = io_error_text(e);
                let r = concat("manifest I/O error: ", t.as_str());
                assert("manifest I/O error: "@.is_prefix_of(r@)) by {
                    assert(r@.subrange(0, "manifest I/O error: "@.len() as int) =~= "manifest I/O error: "@);
                }
                r
            },
            ManifestError::Json(e) => {
                let t = json_error_text(e);
                let r = concat("manifest JSON error: ", t.as_str());
                assert("manifest JSON error: "@.is_prefix_of(r@)) by {
                    assert(r@.subrange(0, "manifest JSON error: "@.len() as int) =~= "manifest JSON error: "@);
                }
                r
            },
            ManifestError::InvalidVersion(v) => {
                let d = decimal(*v as u64);
                concat("invalid manifest_version: ", d.as_str())
            },
            ManifestError::EmptyField(name) => {
                let a = concat("field '", name);
                concat(a.as_str(), "' must not be empty")
            },
            ManifestError::InvalidIdChars => "id must not contain '/', '\\\\', or null bytes".to_owned(),
            ManifestError::ZeroGeometry => "frame geometry values must be > 0".to_owned(),
            ManifestError::EmptyAnimation { name } => {
                let a = concat("animation '", name.as_str());
                concat(a.as_str(), "' has no frames")
            },
            ManifestError::TooManyFrames { name, count } => {
                let a = concat("animation '", name.as_str());
                let b = concat(a.as_str(), "' has ");
                let d = decimal(*count as u64);
                let c = concat(b.as_str(), d.as_str());
                concat(c.as_str(), " frames, max is 64")
            },
            ManifestError::SpriteIndexOutOfBounds { animation, frame_pos, index, max } => {
                let a = concat("animation '", animation.as_str());
                let b = concat(a.as_str(), "' frame[");
                let d1 = decimal(*frame_pos as u64);
                let c = concat(b.as_str(), d1.as_str());
                let e = concat(c.as_str(), "] index ");
                let d2 = decimal(*index as u64);
                let f = concat(e.as_str(), d2.as_str());
                let g = concat(f.as_str(), " >= ");
                let d3 = decimal(*max as u64);
                concat(g.as_str(), d3.as_str())
            },
            ManifestError::ZeroFrameDuration { animation, frame_pos } => {
                let a = concat("animation '", animation.as_str());
                let b = concat(a.as_str(), "' frame[");
                let d = decimal(*frame_pos as u64);
                let c = concat(b.as_str(), d.as_str());
                concat(c.as_str(), "] ms must be > 0")
            },
            ManifestError::MissingIdleAnimation => "manifest must declare an 'idle' animation".to_owned(),
            ManifestError::MissingRequiredAnimation { name } => {
                let a = concat("manifest is missing required animation '", name);
                concat(a.as_str(), "'")
            },
        }
    }
}

} // verus!
