//! Scenario tests for the playback state machine and the player facade.

use trickfilm::animation::{
    AnimationPlayer2D, PlayingAnimation2D, RepeatAnimation, SPEED_SCALE,
};
use trickfilm::asset::AssetHandle;

fn playing_player(handle: AssetHandle) -> AnimationPlayer2D {
    let mut player = AnimationPlayer2D::default();
    player.start(handle);
    player
}

#[test]
fn count_policy_completions_never_exceed_n() {
    let mut player = playing_player(AssetHandle { id: 1 });
    player.set_repeat(RepeatAnimation::Count(3));
    for step in 0..50 {
        assert_eq!(player.is_finished(), step >= 3);
        // each delta spans many virtual loops of the 1000-tick clip
        player.tick(7500, 1000);
        assert!(player.completions() <= 3);
    }
    assert_eq!(player.completions(), 3);
    assert!(player.is_finished());
}

#[test]
fn count_policy_finishes_exactly_at_n() {
    let mut player = playing_player(AssetHandle { id: 1 });
    player.set_repeat(RepeatAnimation::Count(2));
    player.tick(1000, 1000);
    assert_eq!(player.completions(), 1);
    assert!(!player.is_finished());
    player.tick(1000, 1000);
    assert_eq!(player.completions(), 2);
    assert!(player.is_finished());
}

#[test]
fn never_policy_finishes_after_one_traversal_then_stays_finished() {
    let mut player = playing_player(AssetHandle { id: 2 });
    assert_eq!(player.repeat_mode(), RepeatAnimation::Never);
    player.tick(999, 1000);
    assert!(!player.is_finished());
    player.tick(1, 1000);
    assert!(player.is_finished());
    assert_eq!(player.completions(), 1);
    let frozen = player;
    for _ in 0..10 {
        player.tick(12345, 1000);
        assert!(player.is_finished());
    }
    // a finished animation ignores further deltas entirely
    assert_eq!(player, frozen);
}

#[test]
fn forever_policy_is_never_finished() {
    let mut player = playing_player(AssetHandle { id: 3 });
    player.repeat();
    assert_eq!(player.repeat_mode(), RepeatAnimation::Forever);
    for _ in 0..100 {
        player.tick(1000, 1000);
        assert!(!player.is_finished());
    }
    assert_eq!(player.completions(), 100);
    // the raw boundary signal is independent of the repeat policy
    assert!(player.is_clip_finished());
}

#[test]
fn play_twice_with_same_handle_does_not_restart() {
    let handle = AssetHandle { id: 4 };
    let mut player = AnimationPlayer2D::default();
    player.play(handle);
    player.tick(400, 1000);
    assert_eq!(player.seek_time(), 400);
    let after_first = {
        let mut p = player;
        p.play(handle);
        p
    };
    let after_second = {
        let mut p = after_first;
        p.play(handle);
        p
    };
    assert_eq!(after_first, after_second);
    // and neither call reset the running playback
    assert_eq!(after_second.seek_time(), 400);
}

#[test]
fn play_with_other_handle_or_while_paused_restarts() {
    let first = AssetHandle { id: 5 };
    let second = AssetHandle { id: 6 };
    let mut player = AnimationPlayer2D::default();
    player.play(first);
    player.tick(250, 1000);
    player.play(second);
    assert_eq!(player.animation_clip(), second);
    assert_eq!(player.seek_time(), 0);
    player.tick(250, 1000);
    player.pause();
    player.play(second);
    // restarted because the player was paused, but the pause flag stays
    assert!(player.is_paused());
    assert_eq!(player.seek_time(), 0);
}

#[test]
fn replay_resets_counters_and_nothing_else() {
    let handle = AssetHandle { id: 7 };
    let mut player = playing_player(handle);
    player.set_repeat(RepeatAnimation::Count(5));
    player.set_speed(2 * SPEED_SCALE);
    player.reverse();
    player.tick(300, 1000);
    player.replay();
    assert_eq!(player.seek_time(), 0);
    assert_eq!(player.elapsed(), 0);
    assert_eq!(player.completions(), 0);
    assert_eq!(player.repeat_mode(), RepeatAnimation::Count(5));
    assert!(player.is_reverse());
    assert_eq!(player.speed(), 2 * SPEED_SCALE);
    assert_eq!(player.animation_clip(), handle);
}

#[test]
fn forward_overshoot_wraps_and_counts_one_completion() {
    // one update spanning two and a half clip lengths registers exactly one
    // completion and keeps the wrapped remainder
    let mut player = playing_player(AssetHandle { id: 8 });
    player.repeat();
    player.tick(2500, 1000);
    assert_eq!(player.seek_time(), 500);
    assert_eq!(player.completions(), 1);
}

#[test]
fn reverse_boundary_wraps_without_completion_until_exact_hit() {
    let mut player = playing_player(AssetHandle { id: 9 });
    player.repeat();
    player.reverse();
    player.seek_to(300);
    player.tick(500, 1000);
    assert_eq!(player.seek_time(), 800);
    assert_eq!(player.completions(), 0);
    player.tick(800, 1000);
    assert_eq!(player.seek_time(), 1000);
    assert_eq!(player.completions(), 1);
}

#[test]
fn paused_player_ignores_ticks() {
    let mut player = playing_player(AssetHandle { id: 10 });
    player.tick(100, 1000);
    player.pause();
    assert!(player.is_paused());
    let frozen = player;
    player.tick(700, 1000);
    assert_eq!(player, frozen);
    player.resume();
    assert!(!player.is_paused());
    player.tick(700, 1000);
    assert_eq!(player.seek_time(), 800);
}

#[test]
fn speed_scales_the_cursor_but_not_elapsed() {
    let mut player = playing_player(AssetHandle { id: 11 });
    player.set_speed(SPEED_SCALE / 2);
    player.tick(1000, 10_000);
    assert_eq!(player.seek_time(), 500);
    assert_eq!(player.elapsed(), 1000);
    player.set_speed(3 * SPEED_SCALE);
    player.tick(1000, 10_000);
    assert_eq!(player.seek_time(), 3500);
    assert_eq!(player.elapsed(), 2000);
}

#[test]
fn fractional_speed_rounds_toward_zero() {
    let mut player = playing_player(AssetHandle { id: 12 });
    player.set_speed(SPEED_SCALE + SPEED_SCALE / 2);
    player.tick(333, 10_000);
    // 333 * 1500 / 1000 = 499.5, and the half tick is dropped
    assert_eq!(player.seek_time(), 499);
}

#[test]
fn negative_speed_moves_backwards_without_reverse_flag() {
    let mut player = playing_player(AssetHandle { id: 13 });
    player.seek_to(300);
    player.set_speed(-SPEED_SCALE);
    assert!(player.is_playback_reversed());
    assert!(!player.is_reverse());
    player.tick(200, 1000);
    assert_eq!(player.seek_time(), 100);
    assert_eq!(player.completions(), 0);
    // crossing the start without the reverse flag wraps but never completes
    player.tick(300, 1000);
    assert_eq!(player.seek_time(), 800);
    assert_eq!(player.completions(), 0);
}

#[test]
fn negative_speed_and_reverse_flag_cancel_out() {
    let mut player = playing_player(AssetHandle { id: 14 });
    player.reverse();
    player.set_speed(-SPEED_SCALE);
    player.tick(400, 1000);
    // both controls flip the direction, so the cursor moves forward
    assert_eq!(player.seek_time(), 400);
}

#[test]
fn reverse_controls_toggle_the_flag_only() {
    let mut player = playing_player(AssetHandle { id: 15 });
    player.repeat();
    player.tick(650, 1000);
    player.reverse();
    assert!(player.is_reverse());
    assert_eq!(player.seek_time(), 650);
    assert_eq!(player.completions(), 0);
    player.tick(650, 1000);
    assert_eq!(player.seek_time(), 1000);
    assert_eq!(player.completions(), 1);
    player.stop_reverse();
    assert!(!player.is_reverse());
    assert_eq!(player.seek_time(), 1000);
}

#[test]
fn seek_out_of_range_is_wrapped_by_the_next_tick() {
    let mut player = playing_player(AssetHandle { id: 16 });
    player.repeat();
    player.seek_to(1500);
    assert_eq!(player.seek_time(), 1500);
    player.tick(0, 1000);
    assert_eq!(player.seek_time(), 500);
    assert_eq!(player.completions(), 1);
}

#[test]
fn start_resets_everything_but_the_pause_flag() {
    let first = AssetHandle { id: 17 };
    let second = AssetHandle { id: 18 };
    let mut player = playing_player(first);
    player.repeat();
    player.reverse();
    player.set_speed(4 * SPEED_SCALE);
    player.tick(123, 1000);
    player.pause();
    player.start(second);
    assert!(player.is_paused());
    assert_eq!(player.animation_clip(), second);
    assert_eq!(player.repeat_mode(), RepeatAnimation::Never);
    assert!(!player.is_reverse());
    assert_eq!(player.speed(), SPEED_SCALE);
    assert_eq!(player.seek_time(), 0);
    assert_eq!(player.elapsed(), 0);
    assert_eq!(player.completions(), 0);
    assert!(!player.is_clip_finished());
}

#[test]
fn default_player_state() {
    let player = AnimationPlayer2D::default();
    assert!(!player.is_paused());
    assert!(!player.is_finished());
    assert_eq!(player.animation_clip(), AssetHandle { id: 0 });
    assert_eq!(player.speed(), SPEED_SCALE);
    assert_eq!(player.repeat_mode(), RepeatAnimation::Never);
    assert_eq!(player.seek_time(), 0);
    assert_eq!(player.elapsed(), 0);
    assert_eq!(player.completions(), 0);
    assert!(!player.is_reverse());
    assert!(!player.is_clip_finished());
    assert!(!player.is_playback_reversed());
}

#[test]
fn is_playing_clip_compares_handles() {
    let handle = AssetHandle { id: 19 };
    let player = playing_player(handle);
    assert!(player.is_playing_clip(&AssetHandle { id: 19 }));
    assert!(!player.is_playing_clip(&AssetHandle { id: 20 }));
}

#[test]
fn playing_animation_update_drives_the_raw_state() {
    let mut anim = PlayingAnimation2D::default();
    anim.repeat = RepeatAnimation::Count(2);
    anim.update(600, 600);
    assert_eq!(anim.completions, 1);
    assert_eq!(anim.seek_time, 0);
    assert!(anim.clip_finished);
    assert!(!anim.is_finished());
    anim.update(600, 600);
    assert_eq!(anim.completions, 2);
    assert!(anim.is_finished());
    // finished: the third update must leave the state untouched
    let frozen = anim;
    anim.update(600, 600);
    assert_eq!(anim, frozen);
}

#[test]
fn elapsed_accumulates_even_in_reverse() {
    let mut anim = PlayingAnimation2D::default();
    anim.repeat = RepeatAnimation::Forever;
    anim.reverse = true;
    anim.update(250, 1000);
    anim.update(250, 1000);
    assert_eq!(anim.elapsed, 500);
    assert_eq!(anim.seek_time, 500);
}
