use bili_avatar::decode::decode_animation;
use bili_avatar::engine::{AnimationEngine, ResourceStatus};
use bili_avatar::playback::FrameChoice;

const PNG_MAGIC: [u8; 8] = [0x89, b'P', b'N', b'G', 0x0D, 0x0A, 0x1A, 0x0A];

fn solid(w: u32, h: u32, rgba: [u8; 4]) -> Vec<u8> {
    rgba.iter().copied().cycle().take((w * h * 4) as usize).collect()
}

fn webp(frames: &[([u8; 4], i32)], end: i32) -> Vec<u8> {
    let mut enc = webp_animation::Encoder::new((4, 4)).unwrap();
    for (color, ts) in frames {
        enc.add_frame(&solid(4, 4, *color), *ts).unwrap();
    }
    enc.finalize(end).unwrap().to_vec()
}

#[test]
fn decodes_animated_webp_into_png_frames() {
    let data = webp(&[([255, 0, 0, 255], 0), ([0, 255, 0, 255], 100), ([0, 0, 255, 255], 250)], 400);
    let a = decode_animation(&data).expect("three distinct frames");
    assert_eq!(a.frame_count(), 3);
    for i in 0..3 {
        assert_eq!(&a.frame(i)[..8], &PNG_MAGIC);
    }
    assert_eq!(a.delay(0), 100);
    for i in 1..3 {
        assert!(a.delay(i) >= 16);
    }
}

#[test]
fn single_frame_webp_is_not_an_animation() {
    let data = webp(&[([10, 20, 30, 255], 0)], 100);
    assert!(decode_animation(&data).is_none());
    let mut engine = AnimationEngine::new();
    let k = "still.webp".to_string();
    engine.classify_or_start(&k, true);
    engine.publish(&k, decode_animation(&data), 0);
    assert_eq!(engine.status(&k), ResourceStatus::Static);
    assert_eq!(engine.playback(&k), None);
}

#[test]
fn corrupt_file_is_static_after_one_attempt() {
    let data = b"RIFF\x10\x00\x00\x00WEBPVP8X garbage".to_vec();
    assert!(decode_animation(&data).is_none());
    assert!(decode_animation(&Vec::new()).is_none());
    let mut engine = AnimationEngine::new();
    let k = "broken.webp".to_string();
    assert!(engine.classify_or_start(&k, true));
    engine.publish(&k, decode_animation(&data), 0);
    assert_eq!(engine.status(&k), ResourceStatus::Static);
    assert!(!engine.classify_or_start(&k, true));
    assert_eq!(engine.select_frame(&k, 1), FrameChoice::Fallback);
}

fn gif(frames: &[([u8; 4], u32)]) -> Vec<u8> {
    let mut out = Vec::new();
    {
        let mut enc = image::codecs::gif::GifEncoder::new(&mut out);
        for (color, ms) in frames {
            let buf = image::RgbaImage::from_raw(4, 4, solid(4, 4, *color)).unwrap();
            let frame = image::Frame::from_parts(buf, 0, 0, image::Delay::from_numer_denom_ms(*ms, 1));
            enc.encode_frame(frame).unwrap();
        }
    }
    out
}

#[test]
fn decodes_animated_gif_into_png_frames() {
    let data = gif(&[([255, 0, 0, 255], 70), ([0, 255, 0, 255], 250), ([0, 0, 255, 255], 0)]);
    assert_eq!(&data[..4], b"GIF8");
    let a = decode_animation(&data).expect("three distinct frames");
    assert_eq!(a.frame_count(), 3);
    for i in 0..3 {
        assert_eq!(&a.frame(i)[..8], &PNG_MAGIC);
    }
    assert_eq!(a.delay(0), 100);
    assert_eq!(a.delay(1), 250);
    assert_eq!(a.delay(2), 16);
}

#[test]
fn multi_frame_gif_becomes_animated() {
    let data = gif(&[([1, 2, 3, 255], 100), ([4, 5, 6, 255], 100)]);
    let mut engine = AnimationEngine::new();
    let k = "face.gif".to_string();
    assert!(engine.classify_or_start(&k, true));
    engine.publish(&k, decode_animation(&data), 0);
    assert_eq!(engine.status(&k), ResourceStatus::Animated);
    assert_eq!(engine.select_frame(&k, 1), FrameChoice::Frame { index: 0, preload: Some(0) });
}

#[test]
fn single_frame_or_broken_gif_is_not_an_animation() {
    assert!(decode_animation(&gif(&[([9, 9, 9, 255], 100)])).is_none());
    assert!(decode_animation(&b"GIF89a broken".to_vec()).is_none());
}
