//! The calls into the `image` crate that decode a GIF into composited RGBA
//! frames for the preview.
use vstd::prelude::*;
use std::error::Error;
use image::AnimationDecoder;
use crate::model::{PreviewFrame, PreviewFrameView};

verus! {

#[verifier::external_type_specification]
#[verifier::external_body]
pub struct ExImageFrames<'a>(image::Frames<'a>);

#[verifier::external_type_specification]
#[verifier::external_body]
pub struct ExImageFrame(image::Frame);

#[verifier::external_type_specification]
#[verifier::external_body]
pub struct ExImageError(image::ImageError);

/// The composited RGBA frames, field by field and in order, that `image`'s
/// GIF decoder reads from the GIF file `bytes` and hands out through its
/// frame iterator before it reports the end; `None` when the decoder refuses
/// `bytes`, at the header or at a frame (its checks depend on the bytes
/// alone).
pub uninterp spec fn gif_preview_decoding(bytes: Seq<u8>) -> Option<Seq<PreviewFrameView>>;

/// The frames a frame iterator has still to hand out, in order, before it
/// reports the end or fails.
pub uninterp spec fn preview_frames_pending(frames: image::Frames) -> Seq<PreviewFrameView>;

/// Whether a frame iterator, after its pending frames, refuses the rest of
/// its input instead of reporting the end.
pub uninterp spec fn preview_frames_fails(frames: image::Frames) -> bool;

/// Why `image`'s GIF decoder failed: the `gif` decoder under it could not
/// reserve memory (its `DecodingError::OutOfMemory`, shown as "Out of
/// Memory"), or it refused its input.
pub(crate) enum PreviewReadError {
    OutOfMemory,
    Refused(image::ImageError),
}

/// `image::codecs::gif::GifDecoder::new` over `bytes`, turned into its frame
/// iterator by `AnimationDecoder::into_frames`. An iterator it gives for
/// bytes the decoder accepts has their frames to hand out and then reports
/// the end; for bytes it refuses, the iterator fails after its pending
/// frames. Apart from running out of memory, the source fails only on
/// bytes the decoder refuses.
#[verifier::external_body]
pub(crate) fn open_preview_frames<'a>(bytes: &'a [u8]) -> (r: Result<image::Frames<'a>, PreviewReadError>)
    ensures
        r matches Err(PreviewReadError::Refused(_)) ==> gif_preview_decoding(bytes@) is None,
        r matches Ok(frames) ==> match gif_preview_decoding(bytes@) {
            Some(d) => preview_frames_pending(frames) == d && !preview_frames_fails(frames),
            None => preview_frames_fails(frames),
        },
{
    match image::codecs::gif::GifDecoder::new(std::io::Cursor::new(bytes)) {
        Ok(d) => Ok(d.into_frames()),
        Err(e) if matches!(e.source(), Some(s) if s.to_string() == "Out of Memory") => Err(PreviewReadError::OutOfMemory),
        Err(e) => Err(PreviewReadError::Refused(e)),
    }
}

/// `Iterator::next` of `image::Frames`: the next composited RGBA frame,
/// copied field by field, an error, or `None` at the end. A frame that comes
/// back is the next pending one; the end comes only when none is pending
/// and the iterator does not fail; apart from running out of memory, an
/// error comes only when none is pending and the iterator fails.
#[verifier::external_body]
pub(crate) fn next_preview_frame(frames: &mut image::Frames) -> (r: Option<Result<PreviewFrame, PreviewReadError>>)
    ensures
        r matches Some(Err(PreviewReadError::Refused(_))) ==> preview_frames_pending(*old(frames)).len() == 0
            && preview_frames_fails(*old(frames)),
        r matches Some(Ok(f)) ==> {
            &&& preview_frames_pending(*old(frames)).len() > 0
            &&& f@ == preview_frames_pending(*old(frames))[0]
            &&& preview_frames_pending(*final(frames)) == preview_frames_pending(*old(frames)).drop_first()
            &&& preview_frames_fails(*final(frames)) == preview_frames_fails(*old(frames))
        },
        r is None ==> preview_frames_pending(*old(frames)).len() == 0 && !preview_frames_fails(*old(frames))
            && preview_frames_pending(*final(frames)).len() == 0 && !preview_frames_fails(*final(frames)),
{
    match frames.next() {
        Some(Ok(f)) => {
            let (delay_numer_ms, delay_denom_ms) = f.delay().numer_denom_ms();
            let (left, top, buffer) = (f.left(), f.top(), f.into_buffer());
            let (width, height) = (buffer.width(), buffer.height());
            Some(Ok(PreviewFrame { delay_numer_ms, delay_denom_ms, left, top, width, height, pixels: buffer.into_raw() }))
        },
        Some(Err(e)) if matches!(e.source(), Some(s) if s.to_string() == "Out of Memory") => Some(Err(PreviewReadError::OutOfMemory)),
        Some(Err(e)) => Some(Err(PreviewReadError::Refused(e))),
        None => None,
    }
}

/// The `Display` text of an `image::ImageError`. Nothing is claimed of it.
#[verifier::external_body]
pub(crate) fn image_error_text(e: &image::ImageError) -> String {
    e.to_string()
}

} // verus!
