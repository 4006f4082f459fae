use silent_shot::config::{preserve_raw, should_enqueue_conversion, Config, ImageFormat, Opt};
use silent_shot::crop::{clamp, crop_frame_and_return_dims, crop_full_frame, flip_vertical, Rect};
use silent_shot::keys::{KeyEdgeDetector, KeyEvent, KeyState, VirtualKey};
use silent_shot::sched::{choose_crop, react_to_frame, CaptureScheduler, CropMode, FrameReaction, FrameStatus};

const DOWN: u32 = 0x8000;
const UP: u32 = 0;

fn sample(trigger_down: bool, modifier_down: bool) -> KeyState {
    KeyState {
        vk_snapshot: VirtualKey::new(if trigger_down { DOWN } else { UP }),
        vk_menu: VirtualKey::new(if modifier_down { DOWN } else { UP }),
    }
}

#[test]
fn virtual_key_reads_high_bit() {
    assert!(VirtualKey::new(0x8000).is_down());
    assert!(VirtualKey::new(0xFFFF).is_down());
    assert!(!VirtualKey::new(0x0001).is_down());
    assert!(!VirtualKey::new(0).is_down());
}

#[test]
fn one_fire_per_run_of_down_samples() {
    let mut det = KeyEdgeDetector::new();
    let samples = [false, true, true, true, false, true, false, false, true, true];
    let mut fires = 0;
    let mut events = Vec::new();
    for &down in samples.iter() {
        let ev = det.update(&sample(down, false));
        if ev == KeyEvent::Fire {
            fires += 1;
        }
        events.push(ev);
    }
    // Three maximal runs of consecutive "down" samples, three fires.
    assert_eq!(fires, 3);
    assert_eq!(
        events,
        vec![
            KeyEvent::Up,
            KeyEvent::Fire,
            KeyEvent::Down,
            KeyEvent::Down,
            KeyEvent::Up,
            KeyEvent::Fire,
            KeyEvent::Up,
            KeyEvent::Up,
            KeyEvent::Fire,
            KeyEvent::Down,
        ]
    );
}

#[test]
fn long_hold_still_fires_once() {
    let mut det = KeyEdgeDetector::new();
    let mut fires = 0;
    for i in 0..1000 {
        let ev = det.update(&sample(i >= 1, false));
        if ev == KeyEvent::Fire {
            fires += 1;
        }
    }
    assert_eq!(fires, 1);
}

#[test]
fn clamp_empty_range_is_none() {
    assert_eq!(clamp(5, 10, 3), None);
    assert_eq!(clamp(0, 1, 0), None);
}

#[test]
fn clamp_saturates_into_range() {
    assert_eq!(clamp(5, 0, 10), Some(5));
    assert_eq!(clamp(-3, 0, 10), Some(0));
    assert_eq!(clamp(15, 0, 10), Some(10));
    assert_eq!(clamp(0, 0, 10), Some(0));
    assert_eq!(clamp(10, 0, 10), Some(10));
}

/// A frame whose byte at (row, col-byte) is a recognisable pattern.
fn patterned_frame(stride: usize, height: usize) -> Vec<u8> {
    let mut buf = vec![0u8; stride * height];
    for r in 0..height {
        for c in 0..stride {
            buf[r * stride + c] = ((r * 31 + c * 7) % 251) as u8;
        }
    }
    buf
}

#[test]
fn windowed_crop_inset_arithmetic() {
    let (width, height) = (1920usize, 1080usize);
    let stride = 4 * width;
    let src = patterned_frame(stride, height);
    let mut buf = src.clone();
    let rect = Rect { left: 50, top: 100, right: 250, bottom: 300 };
    let (w, h) = crop_frame_and_return_dims(&mut buf, rect, width, height);
    // left' = 50+7 = 57, right' = 250-7 = 243, top' = 100, bottom' = 300-7 = 293.
    assert_eq!(w, 243 - 57);
    assert_eq!(h, 293 - 100);
    assert_eq!((w, h), (186, 193));
    assert_eq!(buf.len(), 4 * w * h);
    // Spot-check the copied bytes against the source scanlines.
    for r in [0usize, 1, 192] {
        for c in [0usize, 1, 4 * 186 - 1] {
            assert_eq!(buf[r * (4 * 186) + c], src[(100 + r) * stride + 4 * 57 + c]);
        }
    }
}

#[test]
fn windowed_crop_fully_offscreen_is_empty() {
    let (width, height) = (640usize, 480usize);
    let stride = 4 * width;
    let mut buf = patterned_frame(stride, height);
    let rect = Rect { left: -500, top: -500, right: -100, bottom: -100 };
    let (w, h) = crop_frame_and_return_dims(&mut buf, rect, width, height);
    assert_eq!((w, h), (0, 0));
    assert!(buf.is_empty());
}

#[test]
fn windowed_crop_inverted_rect_is_empty() {
    let (width, height) = (640usize, 480usize);
    let stride = 4 * width;
    let mut buf = patterned_frame(stride, height);
    let rect = Rect { left: 400, top: 300, right: 100, bottom: 50 };
    let (w, h) = crop_frame_and_return_dims(&mut buf, rect, width, height);
    assert_eq!((w, h), (0, 0));
    assert!(buf.is_empty());
}

#[test]
fn full_frame_crop_strips_exactly_the_padding() {
    let (width, height) = (3usize, 2usize);
    let stride = 16usize; // 4 bytes of padding per 12-byte row
    let src = patterned_frame(stride, height);
    let mut buf = src.clone();
    crop_full_frame(&mut buf, width, height);
    assert_eq!(buf.len(), 4 * width * height);
    for r in 0..height {
        for c in 0..4 * width {
            assert_eq!(buf[r * 4 * width + c], src[r * stride + c]);
        }
    }
}

#[test]
fn full_frame_crop_tight_buffer_is_identity() {
    let (width, height) = (5usize, 4usize);
    let stride = 4 * width;
    let src = patterned_frame(stride, height);
    let mut buf = src.clone();
    crop_full_frame(&mut buf, width, height);
    assert_eq!(buf, src);
}

#[test]
fn flip_vertical_reverses_rows() {
    let (width, height) = (2usize, 3usize);
    let row_len = 4 * width;
    let src = patterned_frame(row_len, height);
    let out = flip_vertical(&src, width, height);
    assert_eq!(out.len(), src.len());
    for r in 0..height {
        assert_eq!(&out[r * row_len..(r + 1) * row_len], &src[(height - 1 - r) * row_len..(height - r) * row_len]);
    }
}

#[test]
fn react_to_frame_statuses() {
    assert_eq!(react_to_frame(&FrameStatus::Ready), FrameReaction::Proceed);
    assert_eq!(react_to_frame(&FrameStatus::NotReady), FrameReaction::RetryAfterTick);
    assert_eq!(react_to_frame(&FrameStatus::Fatal), FrameReaction::Abort);
}

#[test]
fn crop_mode_choice() {
    let rect = Rect { left: 1, top: 2, right: 3, bottom: 4 };
    assert_eq!(choose_crop(true, Some(rect)), CropMode::Windowed(rect));
    assert_eq!(choose_crop(true, None), CropMode::Full);
    assert_eq!(choose_crop(false, Some(rect)), CropMode::Full);
    assert_eq!(choose_crop(false, None), CropMode::Full);
}

#[test]
fn scheduler_fires_once_per_press() {
    let mut sched = CaptureScheduler::new();
    assert_eq!(sched.tick(&sample(true, false)), KeyEvent::Fire);
    assert_eq!(sched.tick(&sample(true, false)), KeyEvent::Down);
    assert_eq!(sched.tick(&sample(false, false)), KeyEvent::Up);
    assert_eq!(sched.tick(&sample(true, true)), KeyEvent::Fire);
}

#[test]
fn capture_indices_never_collide_within_one_tick() {
    let mut sched = CaptureScheduler::new();
    let now = 1_700_000_000_000_000_123u128;
    let a = sched.next_capture_index(now);
    let b = sched.next_capture_index(now); // same clock reading, same millisecond
    assert_eq!(a, now);
    assert_eq!(b, now + 1);
    assert!(b > a);
    let c = sched.next_capture_index(now + 5);
    assert_eq!(c, now + 5);
}

#[test]
fn config_defaults() {
    let c = Config::default();
    assert!(matches!(c.save_folder, Opt::Default));
    assert_eq!(c.image_format, ImageFormat::Png);
    assert!(!c.enable_startup);
}

#[test]
fn enqueue_and_preserve_rules() {
    assert!(should_enqueue_conversion(&ImageFormat::Png));
    assert!(should_enqueue_conversion(&ImageFormat::Both));
    assert!(!should_enqueue_conversion(&ImageFormat::Tga));
    assert!(preserve_raw(&ImageFormat::Both));
    assert!(!preserve_raw(&ImageFormat::Png));
    assert!(!preserve_raw(&ImageFormat::Tga));
}
