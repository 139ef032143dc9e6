use bili_avatar::avatar::{AnimatedAvatar, FallbackSource};
use bili_avatar::decode::{assemble_animation, AnimationData};
use bili_avatar::engine::{is_animatable_path, AnimationEngine, ResourceStatus};
use bili_avatar::playback::{FrameChoice, PlaybackState};
use bili_avatar::timing::frame_delays;

fn frames(n: usize) -> Vec<Option<Vec<u8>>> {
    (0..n).map(|i| Some(vec![i as u8; 3])).collect()
}

fn animation(delays: &[u64]) -> AnimationData {
    assemble_animation(frames(delays.len()), &delays.to_vec()).expect("at least two frames")
}

fn key(s: &str) -> String {
    s.to_string()
}

#[test]
fn five_frame_timestamps_give_expected_delays() {
    assert_eq!(frame_delays(&vec![0, 100, 250, 300, 420]), vec![100, 100, 150, 50, 120]);
}

#[test]
fn first_delay_is_default_and_later_delays_are_floored() {
    assert_eq!(frame_delays(&vec![0, 5, 5, 1000, 990]), vec![100, 16, 16, 995, 16]);
    assert_eq!(frame_delays(&vec![40]), vec![100]);
    assert_eq!(frame_delays(&vec![]), Vec::<u64>::new());
    assert_eq!(frame_delays(&vec![i32::MIN, i32::MAX]), vec![100, u32::MAX as u64]);
}

#[test]
fn five_frame_animation_warms_up_then_cycles() {
    let mut engine = AnimationEngine::new();
    let k = key("/tmp/face.webp");
    assert!(engine.classify_or_start(&k, true));
    engine.publish(&k, Some(animation(&[100, 100, 150, 50, 120])), 0);
    assert_eq!(engine.status(&k), ResourceStatus::Animated);
    assert_eq!(
        engine.playback(&k),
        Some(PlaybackState { current_frame: 0, last_advance: 0, warmed_up: false, warmup_cursor: 0 })
    );
    for t in 1..=5u64 {
        let c = engine.select_frame(&k, t);
        assert_eq!(c, FrameChoice::Frame { index: 0, preload: Some((t - 1) as usize) });
        let p = engine.playback(&k).unwrap();
        assert_eq!(p.warmup_cursor, t as usize);
        assert_eq!(p.warmed_up, t == 5);
    }
    assert_eq!(engine.playback(&k).unwrap().last_advance, 5);
    let steps: [(u64, usize); 8] =
        [(50, 0), (105, 1), (204, 1), (205, 2), (355, 3), (405, 4), (525, 0), (625, 1)];
    for (t, want) in steps {
        assert_eq!(engine.select_frame(&k, t), FrameChoice::Frame { index: want, preload: None });
    }
    let p = engine.playback(&k).unwrap();
    assert!(p.warmed_up);
    assert_eq!(p.warmup_cursor, 5);
}

#[test]
fn one_advance_per_query_after_a_stall() {
    let mut engine = AnimationEngine::new();
    let k = key("a.gif");
    engine.classify_or_start(&k, true);
    engine.publish(&k, Some(animation(&[10, 10, 10])), 0);
    for t in 1..=3u64 {
        engine.select_frame(&k, t);
    }
    assert_eq!(engine.select_frame(&k, 10_000), FrameChoice::Frame { index: 1, preload: None });
    assert_eq!(engine.select_frame(&k, 10_000), FrameChoice::Frame { index: 1, preload: None });
    assert_eq!(engine.select_frame(&k, 10_010), FrameChoice::Frame { index: 2, preload: None });
}

#[test]
fn clock_before_last_advance_counts_as_no_time() {
    let mut engine = AnimationEngine::new();
    let k = key("b.webp");
    engine.classify_or_start(&k, true);
    engine.publish(&k, Some(animation(&[16, 16])), 1000);
    engine.select_frame(&k, 1000);
    engine.select_frame(&k, 1000);
    assert_eq!(engine.select_frame(&k, 10), FrameChoice::Frame { index: 0, preload: None });
    assert_eq!(engine.select_frame(&k, 1016), FrameChoice::Frame { index: 1, preload: None });
}

#[test]
fn same_key_dispatches_one_decode() {
    let mut engine = AnimationEngine::new();
    let (a, first) = AnimatedAvatar::new("/data/avatar.webp", 40, true, &mut engine);
    let (b, second) = AnimatedAvatar::new("/data/avatar.webp", 20, true, &mut engine);
    assert!(first);
    assert!(!second);
    assert_eq!(engine.status(&key("/data/avatar.webp")), ResourceStatus::Checking);
    assert!(engine.is_checking(&key("/data/avatar.webp")));
    assert_eq!(a.render(&mut engine, 1), FrameChoice::Fallback);
    assert_eq!(b.render(&mut engine, 1), FrameChoice::Fallback);
    assert_eq!(b.render_size(), 20);
}

#[test]
fn static_resources_never_dispatch() {
    let mut engine = AnimationEngine::new();
    for _ in 0..3 {
        let (a, d) = AnimatedAvatar::new("/data/photo.png", 40, true, &mut engine);
        assert!(!d);
        assert_eq!(engine.status(&key("/data/photo.png")), ResourceStatus::Unknown);
        assert_eq!(a.render(&mut engine, 7), FrameChoice::Fallback);
    }
    let k = key("/data/still.webp");
    assert!(engine.classify_or_start(&k, true));
    engine.publish(&k, None, 3);
    for _ in 0..3 {
        assert!(!engine.classify_or_start(&k, true));
        assert_eq!(engine.status(&k), ResourceStatus::Static);
        assert_eq!(engine.select_frame(&k, 9), FrameChoice::Fallback);
    }
}

#[test]
fn missing_file_or_url_is_not_checked() {
    let mut engine = AnimationEngine::new();
    let (a, d) = AnimatedAvatar::new("https://i0.hdslb.com/bfs/face/x.webp", 40, false, &mut engine);
    assert!(!d);
    assert!(matches!(a.image_source(), FallbackSource::Url(u) if u == "https://i0.hdslb.com/bfs/face/x.webp"));
    assert_eq!(engine.status(a.image_path()), ResourceStatus::Unknown);
    let (b, _) = AnimatedAvatar::new("/data/x.webp", 40, true, &mut engine);
    assert!(matches!(b.image_source(), FallbackSource::LocalFile(p) if p == "/data/x.webp"));
    let b = b.size(64);
    assert_eq!(b.render_size(), 64);
    assert_eq!(b.image_path(), "/data/x.webp");
}

#[test]
fn single_frame_is_static_without_playback() {
    assert!(assemble_animation(frames(1), &vec![100]).is_none());
    let mut engine = AnimationEngine::new();
    let k = key("one.webp");
    engine.classify_or_start(&k, true);
    engine.publish(&k, assemble_animation(frames(1), &vec![100]), 0);
    assert_eq!(engine.status(&k), ResourceStatus::Static);
    assert_eq!(engine.playback(&k), None);
    assert_eq!(engine.select_frame(&k, 100), FrameChoice::Fallback);
}

#[test]
fn failed_conversions_drop_frame_and_delay_together() {
    let a = assemble_animation(vec![Some(vec![1]), None, Some(vec![3])], &vec![100, 200, 300]).unwrap();
    assert_eq!(a.frame_count(), 2);
    assert_eq!(a.frame(0), &vec![1]);
    assert_eq!(a.frame(1), &vec![3]);
    assert_eq!(a.delay(0), 100);
    assert_eq!(a.delay(1), 300);
    assert!(assemble_animation(vec![Some(vec![1]), None, None], &vec![1, 2, 3]).is_none());
    assert!(assemble_animation(vec![], &vec![]).is_none());
}

#[test]
fn decode_finishes_after_every_avatar_is_gone() {
    let mut engine = AnimationEngine::new();
    let (a, d) = AnimatedAvatar::new("/data/loop.webp", 40, true, &mut engine);
    assert!(d);
    drop(a);
    engine.publish(&key("/data/loop.webp"), Some(animation(&[100, 100])), 0);
    assert_eq!(engine.status(&key("/data/loop.webp")), ResourceStatus::Animated);
    let (b, d) = AnimatedAvatar::new("/data/loop.webp", 40, true, &mut engine);
    assert!(!d);
    assert_eq!(b.render(&mut engine, 1), FrameChoice::Frame { index: 0, preload: Some(0) });
    assert_eq!(engine.frame(&key("/data/loop.webp"), 1), Some(&vec![1u8, 1, 1]));
    assert_eq!(engine.frame(&key("/data/loop.webp"), 2), None);
}

#[test]
fn publish_only_settles_resources_being_checked() {
    let mut engine = AnimationEngine::new();
    let k = key("c.webp");
    engine.classify_or_start(&k, true);
    engine.publish(&k, None, 0);
    engine.publish(&k, Some(animation(&[1, 2])), 0);
    assert_eq!(engine.status(&k), ResourceStatus::Static);
    let j = key("d.webp");
    engine.publish(&j, Some(animation(&[1, 2])), 0);
    assert_eq!(engine.status(&j), ResourceStatus::Unknown);
    assert_eq!(engine.playback(&j), None);
}

#[test]
fn animatable_extensions_ignore_ascii_case() {
    assert!(is_animatable_path("a.webp"));
    assert!(is_animatable_path("A.WebP"));
    assert!(is_animatable_path("x/y.GIF"));
    assert!(is_animatable_path(".gif"));
    assert!(!is_animatable_path("a.png"));
    assert!(!is_animatable_path("webp"));
    assert!(!is_animatable_path("a.webpx"));
    assert!(!is_animatable_path(""));
}
