//! Decoding a GIF for the on-screen preview, whose renderer takes pixels in
//! BGRA order.
use vstd::prelude::*;
use crate::model::{out_of_memory_message, GifError, PreviewFrame, PreviewFrameView};
use crate::preview_codec::{
    gif_preview_decoding, image_error_text, next_preview_frame, open_preview_frames,
    preview_frames_fails, preview_frames_pending, PreviewReadError,
};

verus! {

/// `pixels` with the first and third byte of every complete group of four
/// exchanged (RGBA to BGRA and back); a trailing incomplete group is kept.
pub open spec fn bgra_of(pixels: Seq<u8>) -> Seq<u8> {
    let whole = pixels.len() - pixels.len() % 4;
    Seq::new(
        pixels.len(),
        |i: int|
            if i < whole && i % 4 == 0 {
                pixels[i + 2]
            } else if i < whole && i % 4 == 2 {
                pixels[i - 2]
            } else {
                pixels[i]
            },
    )
}

/// Exchanges the red and blue byte of every whole four-byte pixel.
pub fn swap_red_blue(pixels: &mut Vec<u8>)
    ensures
        final(pixels)@ == bgra_of(old(pixels)@),
{
    let ghost orig = pixels@;
    let len = pixels.len();
    let whole = len - len % 4;
    let mut k: usize = 0;
    while k < whole
        invariant
            len == pixels@.len(),
            len == orig.len(),
            whole == len - len % 4,
            k % 4 == 0,
            k <= whole,
            forall|i: int| 0 <= i < k ==> pixels@[i] == #[trigger] bgra_of(orig)[i],
            forall|i: int| k <= i < len ==> pixels@[i] == #[trigger] orig[i],
        decreases whole - k,
    {
        assert(k + 4 <= whole);
        let red = pixels[k];
        let blue = pixels[k + 2];
        pixels.set(k, blue);
        pixels.set(k + 2, red);
        proof {
            assert forall|i: int| 0 <= i < k + 4 implies pixels@[i] == #[trigger] bgra_of(orig)[i] by {
                if i >= k {
                    assert(i % 4 == i - k);
                }
            }
        }
        k = k + 4;
    }
    assert(pixels@ =~= bgra_of(orig));
}

/// Law: exchanging red and blue twice gives the pixels back.
pub proof fn law_bgra_involution(pixels: Seq<u8>)
    ensures
        bgra_of(bgra_of(pixels)) == pixels,
{
    let once = bgra_of(pixels);
    assert forall|i: int| 0 <= i < pixels.len() implies #[trigger] bgra_of(once)[i] == pixels[i] by {
        let whole = pixels.len() - pixels.len() % 4;
        if i < whole && i % 4 == 0 {
            assert((i + 2) % 4 == 2);
            assert(i + 2 < whole);
        } else if i < whole && i % 4 == 2 {
            assert((i - 2) % 4 == 0);
        }
    }
    assert(bgra_of(once) =~= pixels);
}

/// `f` with the same geometry and delay as `g` and the pixels of `g` in BGRA
/// order.
pub open spec fn is_bgra_of(f: PreviewFrame, g: PreviewFrame) -> bool {
    &&& f.delay_numer_ms == g.delay_numer_ms
    &&& f.delay_denom_ms == g.delay_denom_ms
    &&& f.left == g.left
    &&& f.top == g.top
    &&& f.width == g.width
    &&& f.height == g.height
    &&& f.pixels@ == bgra_of(g.pixels@)
}

/// `out` holds the frames of `decoded`, in order, each in BGRA order.
pub open spec fn frames_bgra_of(out: Seq<PreviewFrame>, decoded: Seq<PreviewFrame>) -> bool {
    out.len() == decoded.len() && forall|i: int|
        0 <= i < decoded.len() ==> #[trigger] is_bgra_of(out[i], decoded[i])
}

/// Turns decoded RGBA frames into the preview's BGRA frames, in order; a
/// GIF without frames has no preview.
pub fn prepare_preview(frames: Vec<PreviewFrame>) -> (r: Result<Vec<PreviewFrame>, GifError>)
    ensures
        frames@.len() == 0 <==> r matches Err(GifError::NoFrames),
        r is Err ==> r matches Err(GifError::NoFrames),
        r matches Ok(out) ==> frames_bgra_of(out@, frames@),
{
    if frames.len() == 0 {
        return Err(GifError::NoFrames);
    }
    let mut frames = frames;
    let ghost orig = frames@;
    let mut i: usize = 0;
    while i < frames.len()
        invariant
            frames@.len() == orig.len(),
            i <= frames@.len(),
            forall|k: int| 0 <= k < i ==> #[trigger] is_bgra_of(frames@[k], orig[k]),
            forall|k: int| i <= k < frames@.len() ==> #[trigger] frames@[k] == orig[k],
        decreases frames@.len() - i,
    {
        let mut frame = PreviewFrame {
            delay_numer_ms: 0,
            delay_denom_ms: 1,
            left: 0,
            top: 0,
            width: 0,
            height: 0,
            pixels: Vec::new(),
        };
        frames.set_and_swap(i, &mut frame);
        swap_red_blue(&mut frame.pixels);
        frames.set_and_swap(i, &mut frame);
        i = i + 1;
    }
    Ok(frames)
}

/// The views of `frames`.
pub open spec fn preview_views(frames: Seq<PreviewFrame>) -> Seq<PreviewFrameView> {
    frames.map_values(|f: PreviewFrame| f@)
}

/// Decodes `bytes` into the composited RGBA frames of the animation: all the
/// frames `image`'s decoder reads from `bytes`, in order. Bytes the decoder
/// refuses give its message; bytes it accepts are decoded unless it runs out
/// of memory, which gives [`out_of_memory_message`].
pub fn decode_preview_frames(bytes: &[u8]) -> (r: Result<Vec<PreviewFrame>, GifError>)
    ensures
        r matches Ok(frames) ==> gif_preview_decoding(bytes@) == Some(preview_views(frames@)),
        gif_preview_decoding(bytes@) is None ==> r is Err,
        r matches Err(e) ==> e is Decoding,
        gif_preview_decoding(bytes@) is Some ==> r is Ok || (r matches Err(GifError::Decoding(t)) && t@
            == out_of_memory_message()),
{
    let mut frames_iter = match open_preview_frames(bytes) {
        Ok(it) => it,
        Err(PreviewReadError::OutOfMemory) => {
            return Err(GifError::Decoding(String::from_str("out of memory")));
        },
        Err(PreviewReadError::Refused(e)) => {
            return Err(GifError::Decoding(image_error_text(&e)));
        },
    };
    let ghost dec = gif_preview_decoding(bytes@);
    let ghost all = match dec {
        Some(d) => d,
        None => Seq::<PreviewFrameView>::empty(),
    };
    let mut frames: Vec<PreviewFrame> = Vec::new();
    loop
        invariant
            dec == gif_preview_decoding(bytes@),
            preview_frames_fails(frames_iter) == (dec is None),
            dec is Some ==> dec == Some(all) && preview_views(frames@) + preview_frames_pending(frames_iter) == all,
        ensures
            dec == Some(all),
            preview_views(frames@) == all,
        decreases preview_frames_pending(frames_iter).len(),
    {
        let ghost pending = preview_frames_pending(frames_iter);
        match next_preview_frame(&mut frames_iter) {
            Some(Ok(frame)) => {
                let ghost before = frames@;
                frames.push(frame);
                proof {
                    assert(preview_views(frames@) =~= preview_views(before).push(pending[0]));
                    assert(preview_views(frames@) + pending.drop_first() =~= preview_views(before) + pending);
                }
            },
            Some(Err(PreviewReadError::OutOfMemory)) => {
                return Err(GifError::Decoding(String::from_str("out of memory")));
            },
            Some(Err(PreviewReadError::Refused(e))) => {
                return Err(GifError::Decoding(image_error_text(&e)));
            },
            None => {
                assert(preview_views(frames@) + pending =~= preview_views(frames@));
                break;
            },
        }
    }
    Ok(frames)
}

/// What decoding the GIF file `bytes` for the preview gives: the frames
/// `image`'s decoder reads from it, composited, in order, each in BGRA
/// order; no frames is an error, and bytes the decoder refuses give its
/// message. Bytes it accepts are decoded unless it runs out of memory, which
/// gives [`out_of_memory_message`].
pub open spec fn preview_outcome(bytes: Seq<u8>, r: Result<Vec<PreviewFrame>, GifError>) -> bool {
    &&& r matches Ok(out) ==> gif_preview_decoding(bytes) matches Some(d) && d.len() > 0
        && exists|decoded: Seq<PreviewFrame>| preview_views(decoded) == d && #[trigger] frames_bgra_of(out@, decoded)
    &&& r matches Err(GifError::NoFrames) ==> gif_preview_decoding(bytes) matches Some(d) && d.len() == 0
    &&& gif_preview_decoding(bytes) is None ==> (r matches Err(GifError::Decoding(_)))
    &&& r matches Err(e) ==> e is Decoding || e is NoFrames
    &&& gif_preview_decoding(bytes) is Some ==> r is Ok || (r matches Err(GifError::NoFrames)) || (r matches Err(
        GifError::Decoding(t)) && t@ == out_of_memory_message())
}

/// Decodes `bytes` into the preview's frames: the frames `image`'s decoder
/// reads from `bytes`, composited, in order, each in BGRA order. Bytes the
/// decoder refuses give its message, and a GIF without frames has no
/// preview.
pub fn decode_preview(bytes: &[u8]) -> (r: Result<Vec<PreviewFrame>, GifError>)
    ensures
        preview_outcome(bytes@, r),
{
    let frames = decode_preview_frames(bytes)?;
    let ghost decoded = frames@;
    let r = prepare_preview(frames);
    if let Ok(out) = &r {
        assert(preview_views(decoded) == gif_preview_decoding(bytes@)->Some_0 && frames_bgra_of(out@, decoded));
    }
    r
}

/// Law: every frame `image`'s decoder reads from a GIF it accepts is shown,
/// in order, with its place, size and delay, and its red and blue
/// exchanged, whatever the frames hold; the one other outcome is running out
/// of memory.
pub proof fn law_accepted_gif_is_previewed_whole(bytes: Seq<u8>, r: Result<Vec<PreviewFrame>, GifError>)
    requires
        preview_outcome(bytes, r),
        gif_preview_decoding(bytes) matches Some(d) && d.len() > 0,
    ensures
        r is Ok || (r matches Err(GifError::Decoding(t)) && t@ == "out of memory"@),
        r matches Ok(out) ==> gif_preview_decoding(bytes) matches Some(d) && out@.len() == d.len() && forall|i: int|
            0 <= i < d.len() ==> {
                &&& (#[trigger] out@[i]).delay_numer_ms == d[i].delay_numer_ms
                &&& out@[i].delay_denom_ms == d[i].delay_denom_ms
                &&& out@[i].left == d[i].left
                &&& out@[i].top == d[i].top
                &&& out@[i].width == d[i].width
                &&& out@[i].height == d[i].height
                &&& out@[i].pixels@ == bgra_of(d[i].pixels)
            },
{
    if r is Ok {
        let out = r->Ok_0;
        let d = gif_preview_decoding(bytes)->Some_0;
        let decoded = choose|decoded: Seq<PreviewFrame>| preview_views(decoded) == d && #[trigger] frames_bgra_of(out@, decoded);
        assert forall|i: int| 0 <= i < d.len() implies {
            &&& (#[trigger] out@[i]).delay_numer_ms == d[i].delay_numer_ms
            &&& out@[i].delay_denom_ms == d[i].delay_denom_ms
            &&& out@[i].left == d[i].left
            &&& out@[i].top == d[i].top
            &&& out@[i].width == d[i].width
            &&& out@[i].height == d[i].height
            &&& out@[i].pixels@ == bgra_of(d[i].pixels)
        } by {
            assert(is_bgra_of(out@[i], decoded[i]));
            assert(d[i] == decoded[i]@);
        }
    }
}

} // verus!
