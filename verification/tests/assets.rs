//! Tests for the clip data model: keyframe sets, clips and named clip sets.

use trickfilm::animation::RepeatAnimation;
use trickfilm::asset::{AnimationClip2D, AnimationClipSet2D, AssetHandle, Keyframes2D};
use trickfilm::prelude::AnimationPlayer2D;

fn run_clip() -> AnimationClip2D {
    AnimationClip2D::new(
        vec![0, 100, 200, 300, 400, 500],
        Keyframes2D::SpriteSheet(AssetHandle { id: 40 }, vec![1, 2, 3, 4, 5, 6]),
        600,
    )
}

#[test]
fn clip_accessors_return_what_was_built() {
    let clip = run_clip();
    assert_eq!(clip.keyframe_timestamps(), &vec![0, 100, 200, 300, 400, 500]);
    assert_eq!(clip.duration(), 600);
    match clip.keyframes() {
        Keyframes2D::SpriteSheet(atlas, indices) => {
            assert_eq!(*atlas, AssetHandle { id: 40 });
            assert_eq!(*indices, vec![1, 2, 3, 4, 5, 6]);
        }
        Keyframes2D::Sprite(_) => panic!("expected a spritesheet keyframe set"),
    }
}

#[test]
fn keyframe_set_lengths() {
    let sheet = Keyframes2D::SpriteSheet(AssetHandle { id: 1 }, vec![0, 1, 2]);
    assert_eq!(sheet.len(), 3);
    let sprites = Keyframes2D::Sprite(vec![AssetHandle { id: 2 }, AssetHandle { id: 3 }]);
    assert_eq!(sprites.len(), 2);
    let empty = Keyframes2D::default();
    assert_eq!(empty.len(), 0);
    assert!(matches!(empty, Keyframes2D::Sprite(_)));
}

#[test]
fn default_handle_is_the_null_identity() {
    assert_eq!(AssetHandle::default(), AssetHandle { id: 0 });
}

#[test]
fn clip_set_lookup_by_name() {
    let idle = AssetHandle { id: 50 };
    let run = AssetHandle { id: 51 };
    let set = AnimationClipSet2D::new(
        Some(String::from("gabe")),
        vec![(String::from("idle"), idle), (String::from("run"), run)],
    );
    assert_eq!(set.name(), &Some(String::from("gabe")));
    assert_eq!(set.animations().len(), 2);
    assert_eq!(set.get(&String::from("idle")), Some(idle));
    assert_eq!(set.get(&String::from("run")), Some(run));
    assert_eq!(set.get(&String::from("walk")), None);
}

#[test]
fn unnamed_empty_clip_set() {
    let set = AnimationClipSet2D::new(None, Vec::new());
    assert_eq!(set.name(), &None);
    assert!(set.animations().is_empty());
    assert_eq!(set.get(&String::from("anything")), None);
}

#[test]
fn count_policy_scenario_on_a_loaded_clip() {
    // a six-keyframe clip, played twice under Count(2) with full-length ticks
    let clip = run_clip();
    let handle = AssetHandle { id: 41 };
    let mut player = AnimationPlayer2D::default();
    player.start(handle);
    player.set_repeat(RepeatAnimation::Count(2));
    player.tick(600, clip.duration());
    assert!(!player.is_finished());
    player.tick(600, clip.duration());
    assert!(player.is_finished());
}
