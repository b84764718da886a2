use bsky_gif_unfucker::gif_unfuck::{decode_gif, duration_cs, process, process_frames, DecodedGif};
use bsky_gif_unfucker::model::{Disposal, GifError, GifFrame, PreviewFrame};
use bsky_gif_unfucker::preview::{decode_preview, prepare_preview, swap_red_blue};
use std::borrow::Cow;

fn make_gif(delays: &[u16]) -> Vec<u8> {
    let mut out = Vec::new();
    {
        let mut encoder = gif::Encoder::new(&mut out, 2, 2, &[255, 0, 0, 0, 0, 255]).unwrap();
        for &delay in delays {
            let mut frame = gif::Frame::default();
            frame.width = 2;
            frame.height = 2;
            frame.delay = delay;
            frame.buffer = Cow::Owned(vec![0, 1, 1, 0]);
            encoder.write_frame(&frame).unwrap();
        }
    }
    out
}

fn frame_delays(bytes: &[u8]) -> (Vec<u16>, gif::Repeat) {
    let mut decoder = gif::DecodeOptions::new().read_info(bytes).unwrap();
    let mut delays = Vec::new();
    while let Some(frame) = decoder.read_next_frame().unwrap() {
        assert_eq!(&frame.buffer[..], &[0, 1, 1, 0]);
        delays.push(frame.delay);
    }
    (delays, decoder.repeat())
}

fn model_frame(delay: u16) -> GifFrame {
    GifFrame {
        delay,
        dispose: Disposal::Keep,
        transparent: None,
        needs_user_input: false,
        top: 0,
        left: 0,
        width: 1,
        height: 1,
        interlaced: false,
        palette: None,
        buffer: vec![0],
    }
}

#[test]
fn short_gif_is_repeated_to_a_second() {
    let processed = process(&make_gif(&[5, 5])).unwrap();
    assert_eq!(processed.original_centis, 10);
    let unfucked = processed.unfucked.unwrap();
    assert_eq!(unfucked.centis, 100);
    let (delays, repeat) = frame_delays(&unfucked.gif);
    assert_eq!(delays, vec![5; 20]);
    assert_eq!(repeat, gif::Repeat::Infinite);
}

#[test]
fn tiny_delays_count_as_ten() {
    let processed = process(&make_gif(&[0, 1, 0])).unwrap();
    assert_eq!(processed.original_centis, 30);
    let unfucked = processed.unfucked.unwrap();
    assert_eq!(unfucked.centis, 120);
    let (delays, _) = frame_delays(&unfucked.gif);
    assert_eq!(delays.len(), 12);
}

#[test]
fn uneven_duration_rounds_loops_up() {
    let processed = process(&make_gif(&[30])).unwrap();
    assert_eq!(processed.original_centis, 30);
    assert_eq!(processed.unfucked.unwrap().centis, 120);
}

#[test]
fn long_gif_is_left_alone() {
    let processed = process(&make_gif(&[60, 40])).unwrap();
    assert_eq!(processed.original_centis, 100);
    assert!(processed.unfucked.is_none());
}

#[test]
fn gif_without_frames_is_refused() {
    let result = process(&make_gif(&[]));
    assert!(matches!(result, Err(GifError::Decoding(_))));
    let gif = DecodedGif { width: 1, height: 1, global_palette: None, frames: Vec::new() };
    assert!(matches!(process_frames(&gif), Err(GifError::NoFrames)));
    assert_eq!(GifError::NoFrames.message(), "gif contains no frames");
}

#[test]
fn garbage_is_refused() {
    assert!(matches!(process(b"not a gif"), Err(GifError::Decoding(_))));
    assert!(matches!(process(&[]), Err(GifError::Decoding(_))));
}

#[test]
fn decoded_frames_are_deinterlaced() {
    let gif = decode_gif(&make_gif(&[5, 7])).unwrap();
    assert_eq!(gif.width, 2);
    assert_eq!(gif.frames.len(), 2);
    assert_eq!(gif.frames[1].delay, 7);
    assert!(gif.frames.iter().all(|f| !f.interlaced));
    assert_eq!(gif.global_palette.as_ref().map(|p| p.len()), Some(6));
}

#[test]
fn durations_sum_effective_delays() {
    let frames = vec![model_frame(0), model_frame(5), model_frame(1)];
    assert_eq!(duration_cs(&frames), Some(25));
    assert_eq!(duration_cs(&Vec::new()), Some(0));
}

#[test]
fn frames_without_any_palette_cannot_be_encoded() {
    let gif = DecodedGif { width: 1, height: 1, global_palette: None, frames: vec![model_frame(5)] };
    assert!(matches!(process_frames(&gif), Err(GifError::Encoding(_))));
}

#[test]
fn empty_frame_with_pixels_is_refused() {
    let mut frame = model_frame(5);
    frame.width = 0;
    let gif = DecodedGif { width: 1, height: 1, global_palette: Some(vec![0, 0, 0]), frames: vec![frame] };
    assert!(matches!(process_frames(&gif), Err(GifError::EmptyFrameWithData)));
}

#[test]
fn model_frames_are_encoded() {
    let gif = DecodedGif {
        width: 1,
        height: 1,
        global_palette: Some(vec![0, 0, 0, 9, 9, 9]),
        frames: vec![model_frame(20), model_frame(30)],
    };
    let processed = process_frames(&gif).unwrap();
    assert_eq!(processed.original_centis, 50);
    let unfucked = processed.unfucked.unwrap();
    assert_eq!(unfucked.centis, 100);
    let mut decoder = gif::DecodeOptions::new().read_info(&unfucked.gif[..]).unwrap();
    let mut delays = Vec::new();
    while let Some(frame) = decoder.read_next_frame().unwrap() {
        delays.push(frame.delay);
    }
    assert_eq!(delays, vec![20, 30, 20, 30]);
}

#[test]
fn red_and_blue_swap() {
    let mut pixels = vec![1, 2, 3, 4, 5, 6, 7, 8, 9, 10];
    swap_red_blue(&mut pixels);
    assert_eq!(pixels, vec![3, 2, 1, 4, 7, 6, 5, 8, 9, 10]);
    swap_red_blue(&mut pixels);
    assert_eq!(pixels, vec![1, 2, 3, 4, 5, 6, 7, 8, 9, 10]);
}

#[test]
fn preview_needs_frames() {
    assert!(matches!(prepare_preview(Vec::new()), Err(GifError::NoFrames)));
    let frame = PreviewFrame {
        delay_numer_ms: 50,
        delay_denom_ms: 1,
        left: 0,
        top: 0,
        width: 1,
        height: 1,
        pixels: vec![10, 20, 30, 40],
    };
    let out = prepare_preview(vec![frame]).unwrap();
    assert_eq!(out[0].pixels, vec![30, 20, 10, 40]);
    assert_eq!(out[0].delay_numer_ms, 50);
}

#[test]
fn preview_is_bgra() {
    let frames = decode_preview(&make_gif(&[5, 5])).unwrap();
    assert_eq!(frames.len(), 2);
    assert_eq!(frames[0].width, 2);
    assert_eq!(frames[0].pixels.len(), 16);
    assert_eq!(&frames[0].pixels[4..8], &[255, 0, 0, 255]);
    assert_eq!(&frames[0].pixels[0..4], &[0, 0, 255, 255]);
    assert_eq!(frames[0].delay_numer_ms / frames[0].delay_denom_ms, 50);
}

#[test]
fn preview_of_garbage_is_refused() {
    assert!(matches!(decode_preview(b"GIF89a"), Err(GifError::Decoding(_))));
    assert!(matches!(decode_preview(&make_gif(&[])), Err(GifError::Decoding(_))));
}
