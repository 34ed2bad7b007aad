use webp_animation::Encoder;
use webp_to_gif::converter::{
    convert_webp_bytes, encode_animation, gif_frame_delays, inspect_gif_bytes, inspection_of_delays, sum_delays,
    ConvertError, GifInspection, WebpAnimation, WebpFrame,
};

fn animated_webp() -> Vec<u8> {
    let dimensions = (4, 4);
    let red = [255, 0, 0, 255].repeat(16);
    let blue = [0, 0, 255, 255].repeat(16);
    let mut encoder = Encoder::new(dimensions).unwrap();
    encoder.add_frame(&red, 0).unwrap();
    encoder.add_frame(&blue, 120).unwrap();
    encoder.finalize(240).unwrap().to_vec()
}

#[test]
fn animated_webp_converts_to_multi_frame_gif() {
    let webp = animated_webp();

    let (gif, summary) = convert_webp_bytes(&webp).unwrap().unwrap();
    let inspected = inspect_gif_bytes(&gif).unwrap().unwrap();

    assert_eq!(summary.frame_count, 2);
    assert_eq!(inspected.frame_count, 2);
    assert!(inspected.total_delay_cs >= 20);
    assert_eq!(inspected.total_delay_cs, summary.total_delay_cs);
    assert!(gif.starts_with(b"GIF89a"));
}

#[test]
fn malformed_webp_returns_readable_error() {
    let error = convert_webp_bytes(b"not a webp").unwrap().unwrap_err();

    assert!(error.message().contains("无法读取 WebP 动画"));
    assert!(matches!(error, ConvertError::WebP(_)));
}

#[test]
fn delays_follow_timestamps() {
    // 0 ms after the start is clamped to 20 ms; 120 ms later gives 12 cs.
    assert_eq!(gif_frame_delays(&[0, 120]), vec![2, 12]);
    // A timestamp that goes back counts from the latest one.
    assert_eq!(gif_frame_delays(&[100, 50, 300]), vec![10, 2, 20]);
    // Half hundredths round up, the rest to the nearest.
    assert_eq!(gif_frame_delays(&[25, 59, 103]), vec![3, 3, 4]);
    // Very long delays saturate.
    assert_eq!(gif_frame_delays(&[i32::MAX]), vec![65535]);
    assert_eq!(gif_frame_delays(&[655_344, 1_310_698]), vec![65534, 65535]);
    assert_eq!(gif_frame_delays(&[]), Vec::<u16>::new());
}

#[test]
fn delay_sums_detect_overflow() {
    assert_eq!(sum_delays(&[2, 12, 65535]), Some(65549));
    assert_eq!(sum_delays(&[]), Some(0));
    let many = vec![65535u16; 65538];
    assert_eq!(sum_delays(&many), None);
    assert_eq!(sum_delays(&many[..65537]), Some(65535 * 65537));
}

#[test]
fn error_messages_name_the_failure() {
    assert_eq!(ConvertError::WebP("bad".into()).message(), "无法读取 WebP 动画：bad");
    assert_eq!(ConvertError::EmptyAnimation.message(), "WebP 没有可转换的画面");
    assert_eq!(ConvertError::ImageTooLarge.message(), "图片尺寸太大，无法写入 GIF");
    let io = ConvertError::Io(std::io::Error::new(std::io::ErrorKind::NotFound, "gone"));
    assert_eq!(io.message(), "无法读取文件：gone");
}

#[test]
fn empty_animation_is_refused() {
    let animation = WebpAnimation { width: 4, height: 4, frames: Vec::new() };
    assert!(matches!(encode_animation(&animation), Some(Err(ConvertError::EmptyAnimation))));
}

#[test]
fn oversized_canvas_is_refused_before_frames_are_looked_at() {
    let animation = WebpAnimation { width: 70000, height: 1, frames: Vec::new() };
    assert!(matches!(encode_animation(&animation), Some(Err(ConvertError::ImageTooLarge))));
    let animation = WebpAnimation { width: 1, height: 65536, frames: Vec::new() };
    assert!(matches!(encode_animation(&animation), Some(Err(ConvertError::ImageTooLarge))));
}

#[test]
fn decoded_frames_encode_with_their_delays() {
    let frame = |t: i32, rgba: [u8; 4]| WebpFrame { timestamp: t, rgba: rgba.repeat(4) };
    let animation = WebpAnimation {
        width: 2,
        height: 2,
        frames: vec![frame(50, [1, 2, 3, 255]), frame(50, [9, 9, 9, 0]), frame(1000, [0, 0, 0, 255])],
    };
    let (gif, summary) = encode_animation(&animation).unwrap().unwrap();
    assert_eq!(summary.frame_count, 3);
    assert_eq!(summary.total_delay_cs, 5 + 2 + 95);
    let inspected = inspect_gif_bytes(&gif).unwrap().unwrap();
    assert_eq!(inspected.frame_count, 3);
    assert_eq!(inspected.total_delay_cs, 102);
}

#[test]
fn garbage_is_not_a_gif() {
    assert!(matches!(inspect_gif_bytes(b"definitely not a gif"), Some(Err(ConvertError::GifDecode(_)))));
}

#[test]
fn delays_match_float_rounding() {
    let float_cs = |ms: i32| ((ms as f32) / 10.0).round().max(2.0) as u16;
    let mut samples: Vec<i32> = (20..=1_000_000).collect();
    samples.extend([16_777_215, 16_777_217, 100_000_007, i32::MAX - 1, i32::MAX]);
    for ms in samples {
        assert_eq!(gif_frame_delays(&[ms]), vec![float_cs(ms)], "{ms} ms");
    }
}

#[test]
fn inspection_counts_frames_and_sums_delays() {
    assert_eq!(
        inspection_of_delays(&[2, 12, 65535]).unwrap().unwrap(),
        GifInspection { frame_count: 3, total_delay_cs: 65549 }
    );
    assert_eq!(inspection_of_delays(&[]).unwrap().unwrap(), GifInspection { frame_count: 0, total_delay_cs: 0 });
    assert!(inspection_of_delays(&vec![65535u16; 65538]).is_none());
}


#[test]
fn play_time_follows_a_steady_timeline() {
    let timestamps = [25, 59, 103, 1103, 1125];
    let delays = gif_frame_delays(&timestamps);
    let total = sum_delays(&delays).unwrap() as i64;
    assert_eq!(delays, vec![3, 3, 4, 100, 2]);
    assert!((10 * total - 1125).abs() <= 5 * timestamps.len() as i64);
}

#[test]
fn frames_are_read_as_read_next_frame_gives_them() {
    let mut gif = Vec::new();
    {
        let mut encoder = gif::Encoder::new(&mut gif, 1, 1, &[0, 0, 0, 255, 255, 255]).unwrap();
        for (width, delay) in [(1u16, 3u16), (0, 4), (1, 5)] {
            let mut frame = gif::Frame::default();
            frame.width = width;
            frame.height = width;
            frame.delay = delay;
            frame.buffer = std::borrow::Cow::Owned(vec![1; usize::from(width)]);
            encoder.write_frame(&frame).unwrap();
        }
    }
    // The frames that `read_next_frame` gives, one call after another.
    let mut options = gif::DecodeOptions::new();
    options.set_color_output(gif::ColorOutput::RGBA);
    let mut decoder = options.read_info(gif.as_slice()).unwrap();
    let mut expected = Ok(Vec::new());
    loop {
        match decoder.read_next_frame() {
            Ok(Some(frame)) => expected.as_mut().unwrap().push(frame.delay),
            Ok(None) => break,
            Err(_) => {
                expected = Err(());
                break;
            }
        }
    }
    match (inspect_gif_bytes(&gif), expected) {
        (Some(Ok(inspected)), Ok(delays)) => {
            assert_eq!(inspected.frame_count, delays.len());
            assert_eq!(inspected.total_delay_cs, delays.iter().map(|&d| u32::from(d)).sum::<u32>());
        }
        (Some(Err(ConvertError::GifDecode(_))), Err(())) => {}
        _ => panic!("reading back differs from read_next_frame"),
    }
}
