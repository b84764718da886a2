use vstd::prelude::*;

verus! {

/// What a viewer does with a frame's area before drawing the next one.
#[derive(Clone, Copy, Debug, PartialEq, Eq, Structural)]
pub enum Disposal {
    /// No action is required.
    Any,
    /// Leave the frame in place.
    Keep,
    /// Restore the area to the background colour.
    Background,
    /// Restore the area to what it was before the frame.
    Previous,
}

/// One frame of an indexed-colour GIF, as read from a file and written back.
#[derive(Debug)]
pub struct GifFrame {
    /// Delay in centiseconds.
    pub delay: u16,
    pub dispose: Disposal,
    /// Palette index that is drawn transparent, if any.
    pub transparent: Option<u8>,
    pub needs_user_input: bool,
    pub top: u16,
    pub left: u16,
    pub width: u16,
    pub height: u16,
    pub interlaced: bool,
    /// Local colour table, `[r, g, b, ...]`.
    pub palette: Option<Vec<u8>>,
    /// Palette indices, row by row.
    pub buffer: Vec<u8>,
}

/// The mathematical content of a [`GifFrame`].
pub struct GifFrameView {
    pub delay: u16,
    pub dispose: Disposal,
    pub transparent: Option<u8>,
    pub needs_user_input: bool,
    pub top: u16,
    pub left: u16,
    pub width: u16,
    pub height: u16,
    pub interlaced: bool,
    pub palette: Option<Seq<u8>>,
    pub buffer: Seq<u8>,
}

pub open spec fn option_bytes_view(p: Option<Vec<u8>>) -> Option<Seq<u8>> {
    match p {
        Some(v) => Some(v@),
        None => None,
    }
}

impl View for GifFrame {
    type V = GifFrameView;

    open spec fn view(&self) -> GifFrameView {
        GifFrameView {
            delay: self.delay,
            dispose: self.dispose,
            transparent: self.transparent,
            needs_user_input: self.needs_user_input,
            top: self.top,
            left: self.left,
            width: self.width,
            height: self.height,
            interlaced: self.interlaced,
            palette: option_bytes_view(self.palette),
            buffer: self.buffer@,
        }
    }
}

} // verus!

verus! {

/// What a GIF encoder writes after the logical screen descriptor.
pub enum GifBlock {
    /// The application extension that makes the animation loop forever.
    LoopForever,
    /// One image, with its graphic control extension.
    Image(GifFrameView),
}

/// Why a GIF could not be unfucked.
#[derive(Debug)]
pub enum GifError {
    /// The GIF decoder refused the input; the text is its message.
    Decoding(String),
    /// The GIF holds no frame.
    NoFrames,
    /// The sum of the frame delays does not fit in 32 bits.
    DurationOverflow,
    /// A frame has no pixels but a non-empty pixel buffer.
    EmptyFrameWithData,
    /// The GIF encoder refused the output; the text is its message.
    Encoding(String),
}

} // verus!

verus! {

/// One RGBA frame of a GIF as composited by the preview decoder.
#[derive(Debug)]
pub struct PreviewFrame {
    /// Delay as the ratio `delay_numer_ms / delay_denom_ms` milliseconds.
    pub delay_numer_ms: u32,
    pub delay_denom_ms: u32,
    pub left: u32,
    pub top: u32,
    pub width: u32,
    pub height: u32,
    /// Four bytes per pixel, row by row.
    pub pixels: Vec<u8>,
}

/// The mathematical content of a [`PreviewFrame`].
pub struct PreviewFrameView {
    pub delay_numer_ms: u32,
    pub delay_denom_ms: u32,
    pub left: u32,
    pub top: u32,
    pub width: u32,
    pub height: u32,
    pub pixels: Seq<u8>,
}

impl View for PreviewFrame {
    type V = PreviewFrameView;

    open spec fn view(&self) -> PreviewFrameView {
        PreviewFrameView {
            delay_numer_ms: self.delay_numer_ms,
            delay_denom_ms: self.delay_denom_ms,
            left: self.left,
            top: self.top,
            width: self.width,
            height: self.height,
            pixels: self.pixels@,
        }
    }
}

} // verus!

verus! {

/// The message of a decoding or an encoding that failed for want of memory.
pub open spec fn out_of_memory_message() -> Seq<char> {
    "out of memory"@
}

/// The message of an error.
pub open spec fn error_message(e: GifError) -> Seq<char> {
    match e {
        GifError::Decoding(m) => m@,
        GifError::NoFrames => "gif contains no frames"@,
        GifError::DurationOverflow => "gif is too long"@,
        GifError::EmptyFrameWithData => "gif has a frame without pixels but with pixel data"@,
        GifError::Encoding(m) => m@,
    }
}

impl GifError {
    /// The text shown for this error.
    pub fn message(&self) -> (s: String)
        ensures
            s@ == error_message(*self),
    {
        match self {
            GifError::Decoding(m) => m.clone(),
            GifError::NoFrames => String::from_str("gif contains no frames"),
            GifError::DurationOverflow => String::from_str("gif is too long"),
            GifError::EmptyFrameWithData => String::from_str("gif has a frame without pixels but with pixel data"),
            GifError::Encoding(m) => m.clone(),
        }
    }
}

} // verus!
