//! The immutable clip data model: keyframe sets, animation clips and named
//! clip sets.
//!
//! Everything here is read-only after construction. The constructors state the
//! well-formedness conditions a producer (typically a manifest loader) must
//! uphold; no re-validation happens at access time.

use vstd::prelude::*;

verus! {

/// Upper bound on a single clip duration, keyframe timestamp, or per-tick
/// delta, in ticks. At a microsecond resolution this is about eleven days.
/// Keeping individual time values under this bound lets the playback
/// arithmetic stay within `i64` without overflow.
pub const MAX_TICKS: i64 = 1_000_000_000_000;

/// An opaque, cheaply copyable, non-owning reference to an asset stored
/// outside this crate (a clip, a standalone image, or a tile atlas).
/// Handles are compared by identity alone.
#[derive(Clone, Copy, Debug, PartialEq, Eq, Structural)]
pub struct AssetHandle {
    /// Identity of the referenced asset, chosen by the asset layer.
    pub id: u64,
}

impl Default for AssetHandle {
    /// The default handle references nothing meaningful; it exists so a
    /// player can be created before a clip is bound.
    fn default() -> (h: Self)
        ensures
            h.id == 0,
    {
        AssetHandle { id: 0 }
    }
}

/// Keyframes for a 2D animation: what to show at each step, in order.
pub enum Keyframes2D {
    /// Spritesheet animation: a handle to a shared tile atlas plus an ordered
    /// list of tile indices, one per keyframe.
    SpriteSheet(AssetHandle, Vec<usize>),
    /// Sprite animation: an ordered list of standalone image handles, one per
    /// keyframe.
    Sprite(Vec<AssetHandle>),
}

impl Keyframes2D {
    /// Number of keyframes, whichever shape holds them.
    pub open spec fn spec_len(&self) -> nat {
        match self {
            Keyframes2D::SpriteSheet(_, indices) => indices@.len(),
            Keyframes2D::Sprite(images) => images@.len(),
        }
    }

    /// Number of keyframes, whichever shape holds them.
    pub fn len(&self) -> (n: usize)
        ensures
            n == self.spec_len(),
    {
        match self {
            Keyframes2D::SpriteSheet(_, indices) => indices.len(),
            Keyframes2D::Sprite(images) => images.len(),
        }
    }
}

impl Default for Keyframes2D {
    /// The empty keyframe set: a sprite animation with no images.
    fn default() -> (k: Self)
        ensures
            k.spec_len() == 0,
            k is Sprite,
    {
        Keyframes2D::Sprite(Vec::new())
    }
}

/// An immutable clip: ordered keyframes, one timestamp per keyframe, and a
/// total duration, all in ticks.
pub struct AnimationClip2D {
    /// Timestamp of each keyframe, in ticks from clip start.
    pub keyframe_timestamps: Vec<i64>,
    /// The keyframes themselves, same length as `keyframe_timestamps`.
    pub keyframes: Keyframes2D,
    /// Total clip length in ticks.
    pub duration: i64,
}

impl AnimationClip2D {
    /// Well-formedness of a clip: as many timestamps as keyframes, timestamps
    /// non-decreasing and starting at zero, every timestamp within the
    /// duration, and a positive duration no larger than [`MAX_TICKS`].
    pub open spec fn wf(&self) -> bool {
        &&& self.keyframes.spec_len() == self.keyframe_timestamps@.len()
        &&& forall|i: int, j: int|
            0 <= i <= j < self.keyframe_timestamps@.len()
                ==> self.keyframe_timestamps@[i] <= self.keyframe_timestamps@[j]
        &&& self.keyframe_timestamps@.len() > 0 ==> self.keyframe_timestamps@[0] == 0
        &&& forall|i: int|
            0 <= i < self.keyframe_timestamps@.len()
                ==> 0 <= #[trigger] self.keyframe_timestamps@[i] <= self.duration
        &&& 0 < self.duration <= MAX_TICKS
    }

    /// Builds a clip. The producer is responsible for the well-formedness
    /// conditions; they are stated here as preconditions and assumed by every
    /// reader afterwards.
    pub fn new(keyframe_timestamps: Vec<i64>, keyframes: Keyframes2D, duration: i64) -> (clip:
        Self)
        requires
            keyframes.spec_len() == keyframe_timestamps@.len(),
            forall|i: int, j: int|
                0 <= i <= j < keyframe_timestamps@.len()
                    ==> keyframe_timestamps@[i] <= keyframe_timestamps@[j],
            keyframe_timestamps@.len() > 0 ==> keyframe_timestamps@[0] == 0,
            forall|i: int|
                0 <= i < keyframe_timestamps@.len() ==> 0 <= #[trigger] keyframe_timestamps@[i]
                    <= duration,
            0 < duration <= MAX_TICKS,
        ensures
            clip.wf(),
            clip.keyframe_timestamps@ == keyframe_timestamps@,
            clip.keyframes == keyframes,
            clip.duration == duration,
    {
        AnimationClip2D { keyframe_timestamps, keyframes, duration }
    }

    /// Timestamps for each keyframe, in ticks from clip start.
    pub fn keyframe_timestamps(&self) -> (r: &Vec<i64>)
        ensures
            r@ == self.keyframe_timestamps@,
    {
        &self.keyframe_timestamps
    }

    /// Ordered keyframes of this animation.
    pub fn keyframes(&self) -> (r: &Keyframes2D)
        ensures
            *r == self.keyframes,
    {
        &self.keyframes
    }

    /// Total duration of this animation clip in ticks.
    pub fn duration(&self) -> (d: i64)
        ensures
            d == self.duration,
    {
        self.duration
    }
}

/// A named group of animation clips: an optional display name plus a mapping
/// from animation name to clip handle, read-only after construction.
pub struct AnimationClipSet2D {
    /// Optional name of this animation set.
    pub name: Option<String>,
    /// All animations in this set, each identified by a unique name.
    pub animations: Vec<(String, AssetHandle)>,
}

impl AnimationClipSet2D {
    /// Well-formedness of a clip set: animation names are unique.
    pub open spec fn wf(&self) -> bool {
        forall|i: int, j: int|
            0 <= i < j < self.animations@.len()
                ==> self.animations@[i].0@ != self.animations@[j].0@
    }

    /// Builds a clip set from unique name/handle pairs.
    pub fn new(name: Option<String>, animations: Vec<(String, AssetHandle)>) -> (set: Self)
        requires
            forall|i: int, j: int|
                0 <= i < j < animations@.len() ==> animations@[i].0@ != animations@[j].0@,
        ensures
            set.wf(),
            set.name == name,
            set.animations@ == animations@,
    {
        AnimationClipSet2D { name, animations }
    }

    /// Name of this animation set, if one was given.
    pub fn name(&self) -> (r: &Option<String>)
        ensures
            *r == self.name,
    {
        &self.name
    }

    /// All animations in this set, as name/handle pairs.
    pub fn animations(&self) -> (r: &Vec<(String, AssetHandle)>)
        ensures
            r@ == self.animations@,
    {
        &self.animations
    }

    /// Looks the named animation up: returns its handle exactly when the set
    /// holds an entry under that name.
    pub fn get(&self, name: &String) -> (r: Option<AssetHandle>)
        requires
            self.wf(),
        ensures
            match r {
                Some(h) => exists|i: int|
                    0 <= i < self.animations@.len() && self.animations@[i].0@ == name@ && h
                        == self.animations@[i].1,
                None => forall|i: int|
                    0 <= i < self.animations@.len() ==> self.animations@[i].0@ != name@,
            },
    {
        let mut k: usize = 0;
        while k < self.animations.len()
            invariant
                0 <= k <= self.animations@.len(),
                forall|i: int| 0 <= i < k ==> self.animations@[i].0@ != name@,
            decreases self.animations@.len() - k,
        {
            if self.animations[k].0 == *name {
                return Some(self.animations[k].1);
            }
            k = k + 1;
        }
        None
    }
}

/// Marker for manifest-driven loading of the clip data model. The loader that
/// produces [`AnimationClip2D`] and [`AnimationClipSet2D`] values lives with
/// the host engine; this crate only states, on the constructors above, the
/// invariants that loader must establish.
pub struct Animation2DLoaderPlugin;

} // verus!
