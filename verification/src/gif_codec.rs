//! The calls into the `gif` crate: decoding frames and encoding them again.
use vstd::prelude::*;
use std::io::ErrorKind;
use crate::model::{option_bytes_view, Disposal, GifBlock, GifFrame, GifFrameView};

verus! {

/// A `gif::Decoder` reading from a byte slice.
#[verifier::external_body]
pub struct GifReader<'a> {
    decoder: gif::Decoder<&'a [u8]>,
}

#[verifier::external_type_specification]
#[verifier::external_body]
pub struct ExGifDecodingError(gif::DecodingError);

/// A `gif::Encoder` writing into a vector.
#[verifier::external_body]
pub struct GifWriter {
    encoder: gif::Encoder<Vec<u8>>,
}

#[verifier::external_type_specification]
#[verifier::external_body]
pub struct ExGifEncodingError(gif::EncodingError);

#[verifier::external_type_specification]
#[verifier::external_body]
pub struct ExIoError(std::io::Error);

/// What `gif` reads from the GIF file `bytes` with indexed colour output:
/// the logical screen (width, height, global colour table) that
/// `DecodeOptions::read_info` reads, and, field by field, the frames that
/// `Decoder::read_next_frame` then hands out, in order, before it reports
/// the end; `None` when the decoder refuses `bytes`, at the header or at a
/// frame (its checks, the 50 MB limit included, depend on the bytes alone).
pub uninterp spec fn gif_decoding(bytes: Seq<u8>) -> Option<(u16, u16, Option<Seq<u8>>, Seq<GifFrameView>)>;

/// The logical screen a reader has read: width, height, global colour table.
pub uninterp spec fn gif_reader_screen(r: GifReader) -> (u16, u16, Option<Seq<u8>>);

/// The frames a reader has still to hand out, in order, before it reports
/// the end or fails.
pub uninterp spec fn gif_reader_pending(r: GifReader) -> Seq<GifFrameView>;

/// Whether a reader, after its pending frames, refuses the rest of its input
/// instead of reporting the end.
pub uninterp spec fn gif_reader_fails(r: GifReader) -> bool;

/// The logical screen an encoder was opened with: width, height and the
/// global colour table it was given.
pub uninterp spec fn gif_encoder_screen(w: GifWriter) -> (u16, u16, Seq<u8>);

/// The blocks an encoder has written after its logical screen, in order.
pub uninterp spec fn gif_encoder_blocks(w: GifWriter) -> Seq<GifBlock>;

/// The bytes of the GIF file that `gif::Encoder` produces for a screen and
/// the blocks written after it, trailer included.
pub uninterp spec fn gif_file_bytes(screen: (u16, u16, Seq<u8>), blocks: Seq<GifBlock>) -> Seq<u8>;

/// Why the `gif` decoder failed: it could not reserve memory, which it
/// reports as an I/O error of kind `OutOfMemory`, or it refused its input.
pub(crate) enum GifReadError {
    OutOfMemory,
    Refused(gif::DecodingError),
}

/// `gif::DecodeOptions::read_info` with options `DecodeOptions::new` set to
/// `ColorOutput::Indexed`: reads the header and logical screen of `bytes`.
/// A reader it gives for bytes the decoder accepts has read their screen,
/// has their frames to hand out and then reports the end; for bytes it
/// refuses, the reader fails after its pending frames. Apart from running
/// out of memory, the source fails only on bytes the decoder refuses.
#[verifier::external_body]
pub(crate) fn read_gif_info<'a>(bytes: &'a [u8]) -> (r: Result<GifReader<'a>, GifReadError>)
    ensures
        r matches Err(GifReadError::Refused(_)) ==> gif_decoding(bytes@) is None,
        r matches Ok(reader) ==> match gif_decoding(bytes@) {
            Some(d) => {
                &&& gif_reader_screen(reader) == (d.0, d.1, d.2)
                &&& gif_reader_pending(reader) == d.3
                &&& !gif_reader_fails(reader)
            },
            None => gif_reader_fails(reader),
        },
{
    let mut options = gif::DecodeOptions::new();
    options.set_color_output(gif::ColorOutput::Indexed);
    match options.read_info(bytes) {
        Ok(decoder) => Ok(GifReader { decoder }),
        Err(gif::DecodingError::Io(e)) if e.kind() == ErrorKind::OutOfMemory => Err(GifReadError::OutOfMemory),
        Err(e) => Err(GifReadError::Refused(e)),
    }
}

/// `gif::Decoder::width`: the logical screen width.
#[verifier::external_body]
pub(crate) fn gif_width(reader: &GifReader) -> (w: u16)
    ensures
        w == gif_reader_screen(*reader).0,
{
    reader.decoder.width()
}

/// `gif::Decoder::height`: the logical screen height.
#[verifier::external_body]
pub(crate) fn gif_height(reader: &GifReader) -> (h: u16)
    ensures
        h == gif_reader_screen(*reader).1,
{
    reader.decoder.height()
}

/// `gif::Decoder::global_palette`, copied into a vector.
#[verifier::external_body]
pub(crate) fn gif_global_palette(reader: &GifReader) -> (p: Option<Vec<u8>>)
    ensures
        option_bytes_view(p) == gif_reader_screen(*reader).2,
{
    reader.decoder.global_palette().map(|p| p.to_vec())
}

/// `gif::Decoder::read_next_frame`: the next frame (deinterlaced), copied
/// field by field, or `None` at the end. A frame that comes back is the next
/// pending one; the end comes only when none is pending and the reader does
/// not fail, and, apart from running out of memory, the source fails only
/// when no frame is pending and the reader fails.
#[verifier::external_body]
pub(crate) fn gif_read_next_frame(reader: &mut GifReader) -> (r: Result<Option<GifFrame>, GifReadError>)
    ensures
        r matches Err(GifReadError::Refused(_)) ==> gif_reader_pending(*old(reader)).len() == 0
            && gif_reader_fails(*old(reader)),
        gif_reader_screen(*final(reader)) == gif_reader_screen(*old(reader)),
        r matches Ok(Some(f)) ==> {
            &&& gif_reader_pending(*old(reader)).len() > 0
            &&& f@ == gif_reader_pending(*old(reader))[0]
            &&& gif_reader_pending(*final(reader)) == gif_reader_pending(*old(reader)).drop_first()
            &&& gif_reader_fails(*final(reader)) == gif_reader_fails(*old(reader))
        },
        r matches Ok(None) ==> gif_reader_pending(*old(reader)).len() == 0
            && !gif_reader_fails(*old(reader)) && gif_reader_pending(*final(reader)).len() == 0
            && !gif_reader_fails(*final(reader)),
{
    match reader.decoder.read_next_frame() {
        Ok(Some(f)) => Ok(Some(GifFrame { delay: f.delay, dispose: match f.dispose {
            gif::DisposalMethod::Any => Disposal::Any, gif::DisposalMethod::Keep => Disposal::Keep,
            gif::DisposalMethod::Background => Disposal::Background,
            gif::DisposalMethod::Previous => Disposal::Previous },
            transparent: f.transparent, needs_user_input: f.needs_user_input, top: f.top, left: f.left,
            width: f.width, height: f.height, interlaced: f.interlaced,
            palette: f.palette.clone(), buffer: f.buffer.to_vec() })),
        Ok(None) => Ok(None),
        Err(gif::DecodingError::Io(e)) if e.kind() == ErrorKind::OutOfMemory => Err(GifReadError::OutOfMemory),
        Err(e) => Err(GifReadError::Refused(e)),
    }
}

/// The `Display` text of a `gif::DecodingError`. Nothing is claimed of it.
#[verifier::external_body]
pub(crate) fn decoding_error_text(e: &gif::DecodingError) -> String {
    e.to_string()
}

/// `gif::Encoder::new` over a vector: writes the header and the logical
/// screen with `global_palette` as global colour table. The source fails
/// only when the table holds more than 256 colours (writing into a vector
/// does not fail); on success nothing has been written after the screen.
#[verifier::external_body]
pub(crate) fn new_gif_encoder(width: u16, height: u16, global_palette: &[u8]) -> (r: Result<GifWriter, gif::EncodingError>)
    ensures
        r is Ok <==> global_palette@.len() / 3 <= 256,
        r matches Ok(e) ==> gif_encoder_screen(e) == (width, height, global_palette@)
            && gif_encoder_blocks(e) == Seq::<GifBlock>::empty(),
{
    gif::Encoder::new(Vec::new(), width, height, global_palette).map(|encoder| GifWriter { encoder })
}

/// `gif::Encoder::set_repeat` with `Repeat::Infinite`: appends the looping
/// extension. Writing into a vector does not fail.
#[verifier::external_body]
pub(crate) fn set_repeat_infinite(writer: &mut GifWriter) -> (r: Result<(), gif::EncodingError>)
    ensures
        r is Ok,
        gif_encoder_screen(*final(writer)) == gif_encoder_screen(*old(writer)),
        gif_encoder_blocks(*final(writer)) == gif_encoder_blocks(*old(writer)).push(GifBlock::LoopForever),
{
    writer.encoder.set_repeat(gif::Repeat::Infinite)
}

/// Why `gif::Encoder::write_frame` failed: it could not reserve memory for
/// the compressed image, or it refused the frame.
pub(crate) enum FrameWriteError {
    OutOfMemory,
    Refused(gif::EncodingError),
}

/// `gif::Encoder::write_frame`: appends one image. The source refuses a
/// frame whose buffer is shorter than `width * height`, a frame without a
/// local colour table when the screen has no global one, and a local colour
/// table of more than 256 colours; any other frame is written unless memory
/// for its compressed image cannot be reserved, which the source reports as
/// an I/O error of kind `OutOfMemory` (writing into a vector fails in no
/// other way). The source asserts, in debug builds, that a frame without
/// pixels has an empty buffer. After a failure nothing is claimed of what
/// was written.
#[verifier::external_body]
pub(crate) fn write_gif_frame(writer: &mut GifWriter, frame: &GifFrame) -> (r: Result<(), FrameWriteError>)
    requires
        (frame.width > 0 && frame.height > 0) || frame.buffer@.len() == 0,
    ensures
        gif_encoder_screen(*final(writer)) == gif_encoder_screen(*old(writer)),
        r is Ok ==> {
            &&& frame.buffer@.len() >= frame.width * frame.height
            &&& match frame.palette {
                Some(p) => p@.len() / 3 <= 256,
                None => gif_encoder_screen(*old(writer)).2.len() >= 3,
            }
        },
        ({
            &&& frame.buffer@.len() >= frame.width * frame.height
            &&& match frame.palette {
                Some(p) => p@.len() / 3 <= 256,
                None => gif_encoder_screen(*old(writer)).2.len() >= 3,
            }
        }) ==> (r is Ok || r matches Err(FrameWriteError::OutOfMemory)),
        r is Ok ==> gif_encoder_blocks(*final(writer)) == gif_encoder_blocks(*old(writer)).push(GifBlock::Image(frame@)),
{
    let f = gif::Frame { delay: frame.delay, dispose: match frame.dispose {
        Disposal::Any => gif::DisposalMethod::Any, Disposal::Keep => gif::DisposalMethod::Keep,
        Disposal::Background => gif::DisposalMethod::Background,
        Disposal::Previous => gif::DisposalMethod::Previous },
        transparent: frame.transparent, needs_user_input: frame.needs_user_input, top: frame.top,
        left: frame.left, width: frame.width, height: frame.height, interlaced: frame.interlaced,
        palette: frame.palette.clone(), buffer: std::borrow::Cow::Borrowed(&frame.buffer) };
    match writer.encoder.write_frame(&f) {
        Ok(()) => Ok(()),
        Err(gif::EncodingError::Io(e)) if e.kind() == ErrorKind::OutOfMemory => Err(FrameWriteError::OutOfMemory),
        Err(e) => Err(FrameWriteError::Refused(e)),
    }
}

/// `gif::Encoder::into_inner`: writes the trailer and hands back the bytes,
/// which are the encoding of the screen and of the blocks written. Writing
/// into a vector does not fail.
#[verifier::external_body]
pub(crate) fn finish_gif(writer: GifWriter) -> (r: Result<Vec<u8>, std::io::Error>)
    ensures
        r is Ok,
        r matches Ok(bytes) ==> bytes@ == gif_file_bytes(gif_encoder_screen(writer), gif_encoder_blocks(writer)),
{
    writer.encoder.into_inner()
}

/// The `Display` text of a `gif::EncodingError`. Nothing is claimed of it.
#[verifier::external_body]
pub(crate) fn encoding_error_text(e: &gif::EncodingError) -> String {
    e.to_string()
}

} // verus!
