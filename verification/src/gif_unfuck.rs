//! Reading a GIF, deciding how often its frames must be repeated, and
//! writing the lengthened GIF.
use vstd::prelude::*;
use crate::gif_codec::{
    decoding_error_text, encoding_error_text, finish_gif, gif_encoder_blocks, gif_encoder_screen,
    gif_decoding, gif_file_bytes, FrameWriteError, GifReadError, gif_global_palette, gif_height, gif_read_next_frame,
    gif_reader_fails, gif_reader_pending, gif_width, new_gif_encoder, read_gif_info,
    set_repeat_infinite, write_gif_frame,
};
use crate::model::{option_bytes_view, out_of_memory_message, GifBlock, GifError, GifFrame, GifFrameView};
use crate::timing::{
    effective_delay, effective_delay_cs, law_loops_least_reaching_minimum, loops_for, loops_needed,
    MIN_DURATION_CS,
};

verus! {

/// A decoded GIF: its logical screen and its frames in order.
#[derive(Debug)]
pub struct DecodedGif {
    pub width: u16,
    pub height: u16,
    /// Global colour table, `[r, g, b, ...]`.
    pub global_palette: Option<Vec<u8>>,
    pub frames: Vec<GifFrame>,
}

/// A GIF lengthened by repetition of its frames.
#[derive(Debug)]
pub struct Unfucked {
    /// Duration of the lengthened animation, in centiseconds.
    pub centis: u32,
    /// The bytes of the lengthened GIF file.
    pub gif: Vec<u8>,
}

/// The outcome of processing a GIF.
#[derive(Debug)]
pub struct Processed {
    /// Duration of the original animation, in centiseconds.
    pub original_centis: u32,
    /// The lengthened GIF, when the original was too short.
    pub unfucked: Option<Unfucked>,
}

/// Sum of the effective delays of `frames`, in centiseconds.
pub open spec fn total_duration(frames: Seq<GifFrame>) -> nat
    decreases frames.len(),
{
    if frames.len() == 0 {
        0
    } else {
        total_duration(frames.drop_last()) + effective_delay(frames.last().delay)
    }
}

/// The views of `frames`.
pub open spec fn frame_views(frames: Seq<GifFrame>) -> Seq<GifFrameView> {
    frames.map_values(|f: GifFrame| f@)
}

/// `frames` played `n` times back to back.
pub open spec fn repeated(frames: Seq<GifFrameView>, n: nat) -> Seq<GifFrameView>
    decreases n,
{
    if n == 0 {
        Seq::empty()
    } else {
        repeated(frames, (n - 1) as nat) + frames
    }
}

/// The images an encoder writes for `frames`, in order.
pub open spec fn image_blocks(frames: Seq<GifFrameView>) -> Seq<GifBlock> {
    frames.map_values(|f: GifFrameView| GifBlock::Image(f))
}

/// The global colour table handed to the encoder: the decoded one, or none.
pub open spec fn palette_or_empty(p: Option<Vec<u8>>) -> Seq<u8> {
    match p {
        Some(v) => v@,
        None => Seq::empty(),
    }
}

/// A frame without pixels carries no pixel data.
pub open spec fn frame_sized(f: GifFrame) -> bool {
    (f.width > 0 && f.height > 0) || f.buffer@.len() == 0
}

/// No frame without pixels carries pixel data.
pub open spec fn all_sized(frames: Seq<GifFrame>) -> bool {
    forall|i: int| 0 <= i < frames.len() ==> #[trigger] frame_sized(frames[i])
}

/// The encoder accepts `f` on a screen whose global colour table is `global`.
pub open spec fn frame_encodable(f: GifFrame, global: Seq<u8>) -> bool {
    &&& f.buffer@.len() >= f.width * f.height
    &&& match f.palette {
        Some(p) => p@.len() / 3 <= 256,
        None => global.len() >= 3,
    }
}

/// The encoder accepts the screen and every frame of `g`.
pub open spec fn gif_encodable(g: DecodedGif) -> bool {
    &&& palette_or_empty(g.global_palette).len() / 3 <= 256
    &&& forall|i: int| 0 <= i < g.frames@.len()
        ==> #[trigger] frame_encodable(g.frames@[i], palette_or_empty(g.global_palette))
}

/// The GIF file that plays the frames of `g` `loops` times, looping forever.
pub open spec fn looped_gif_bytes(g: DecodedGif, loops: nat) -> Seq<u8> {
    gif_file_bytes(
        (g.width, g.height, palette_or_empty(g.global_palette)),
        seq![GifBlock::LoopForever] + image_blocks(repeated(frame_views(g.frames@), loops)),
    )
}

/// What processing the decoded GIF `g` gives: no frame is an error; an
/// animation of at least [`MIN_DURATION_CS`] is left alone; a shorter one is
/// encoded again with its frames repeated [`loops_needed`] times, which
/// fails when the encoder refuses a frame and otherwise succeeds unless the
/// encoder cannot reserve memory, which gives [`out_of_memory_message`].
pub open spec fn unfuck_outcome(g: DecodedGif, r: Result<Processed, GifError>) -> bool {
    let d = total_duration(g.frames@);
    if g.frames@.len() == 0 {
        r matches Err(GifError::NoFrames)
    } else if d > u32::MAX {
        r matches Err(GifError::DurationOverflow)
    } else if d >= MIN_DURATION_CS {
        r matches Ok(p) && p.original_centis == d && p.unfucked is None
    } else if !all_sized(g.frames@) {
        r matches Err(GifError::EmptyFrameWithData)
    } else {
        &&& r is Err ==> (r matches Err(GifError::Encoding(_)))
        &&& !gif_encodable(g) ==> r is Err
        &&& gif_encodable(g) ==> r is Ok || (r matches Err(GifError::Encoding(t)) && t@ == out_of_memory_message())
        &&& r matches Ok(p) ==> {
            &&& gif_encodable(g)
            &&& p.original_centis == d
            &&& p.unfucked matches Some(u)
            &&& u.centis == d * loops_needed(d)
            &&& u.gif@ == looped_gif_bytes(g, loops_needed(d))
        }
    }
}

proof fn lemma_total_duration_monotone(frames: Seq<GifFrame>, i: int)
    requires
        0 <= i <= frames.len(),
    ensures
        total_duration(frames.take(i)) <= total_duration(frames),
    decreases frames.len(),
{
    if i < frames.len() {
        assert(frames.drop_last().take(i) =~= frames.take(i));
        lemma_total_duration_monotone(frames.drop_last(), i);
    } else {
        assert(frames.take(i) =~= frames);
    }
}

/// The summed effective delay of `frames`, or `None` when it does not fit in
/// 32 bits.
pub fn duration_cs(frames: &Vec<GifFrame>) -> (r: Option<u32>)
    ensures
        match r {
            Some(d) => d == total_duration(frames@),
            None => total_duration(frames@) > u32::MAX,
        },
{
    let mut sum: u32 = 0;
    let mut i: usize = 0;
    while i < frames.len()
        invariant
            i <= frames.len(),
            sum == total_duration(frames@.take(i as int)),
        decreases frames.len() - i,
    {
        assert(frames@.take(i + 1).drop_last() =~= frames@.take(i as int));
        let delay = effective_delay_cs(frames[i].delay);
        match sum.checked_add(delay) {
            Some(s) => {
                sum = s;
            },
            None => {
                proof {
                    lemma_total_duration_monotone(frames@, i + 1);
                }
                return None;
            },
        }
        i = i + 1;
    }
    assert(frames@.take(frames.len() as int) =~= frames@);
    Some(sum)
}

fn all_frames_sized(frames: &Vec<GifFrame>) -> (r: bool)
    ensures
        r == all_sized(frames@),
{
    let mut i: usize = 0;
    while i < frames.len()
        invariant
            i <= frames.len(),
            forall|k: int| 0 <= k < i ==> #[trigger] frame_sized(frames@[k]),
        decreases frames.len() - i,
    {
        let f = &frames[i];
        if !((f.width > 0 && f.height > 0) || f.buffer.len() == 0) {
            assert(!frame_sized(frames@[i as int]));
            return false;
        }
        i = i + 1;
    }
    true
}

proof fn lemma_image_blocks_concat(a: Seq<GifFrameView>, b: Seq<GifFrameView>)
    ensures
        image_blocks(a + b) == image_blocks(a) + image_blocks(b),
{
    assert(image_blocks(a + b) =~= image_blocks(a) + image_blocks(b));
}

/// Encodes the frames of `gif` played `loops` times, looping forever.
fn encode_looped(gif: &DecodedGif, loops: u32) -> (r: Result<Vec<u8>, GifError>)
    requires
        loops >= 1,
        gif.frames@.len() >= 1,
        all_sized(gif.frames@),
    ensures
        !gif_encodable(*gif) ==> r is Err,
        r is Ok ==> gif_encodable(*gif),
        r matches Ok(bytes) ==> bytes@ == looped_gif_bytes(*gif, loops as nat),
        r matches Err(e) ==> e is Encoding,
        gif_encodable(*gif) ==> r is Ok || (r matches Err(GifError::Encoding(t)) && t@ == out_of_memory_message()),
{
    let empty: Vec<u8> = Vec::new();
    let palette: &[u8] = match &gif.global_palette {
        Some(p) => p.as_slice(),
        None => empty.as_slice(),
    };
    let ghost screen_palette = palette_or_empty(gif.global_palette);
    assert(palette@ == screen_palette);
    let mut writer = match new_gif_encoder(gif.width, gif.height, palette) {
        Ok(w) => w,
        Err(e) => {
            return Err(GifError::Encoding(encoding_error_text(&e)));
        },
    };
    match set_repeat_infinite(&mut writer) {
        Ok(()) => {},
        Err(e) => {
            return Err(GifError::Encoding(encoding_error_text(&e)));
        },
    }
    let ghost views = frame_views(gif.frames@);
    let ghost screen = (gif.width, gif.height, screen_palette);
    let n = gif.frames.len();
    let mut pass: u32 = 0;
    while pass < loops
        invariant
            n == gif.frames@.len(),
            n >= 1,
            views == frame_views(gif.frames@),
            screen == (gif.width, gif.height, screen_palette),
            screen_palette == palette_or_empty(gif.global_palette),
            screen_palette.len() / 3 <= 256,
            all_sized(gif.frames@),
            pass <= loops,
            gif_encoder_screen(writer) == screen,
            gif_encoder_blocks(writer) == seq![GifBlock::LoopForever] + image_blocks(repeated(views, pass as nat)),
            pass > 0 ==> forall|i: int| 0 <= i < n ==> #[trigger] frame_encodable(gif.frames@[i], screen_palette),
        decreases loops - pass,
    {
        let mut j: usize = 0;
        while j < n
            invariant
                n == gif.frames@.len(),
                views == frame_views(gif.frames@),
                screen_palette == palette_or_empty(gif.global_palette),
                all_sized(gif.frames@),
                pass < loops,
                j <= n,
                screen == (gif.width, gif.height, screen_palette),
                gif_encoder_screen(writer) == screen,
                gif_encoder_blocks(writer) == seq![GifBlock::LoopForever] + image_blocks(repeated(views, pass as nat))
                    + image_blocks(views.take(j as int)),
                forall|i: int| 0 <= i < j ==> #[trigger] frame_encodable(gif.frames@[i], screen_palette),
                pass > 0 ==> forall|i: int| 0 <= i < n ==> #[trigger] frame_encodable(gif.frames@[i], screen_palette),
            decreases n - j,
        {
            let frame = &gif.frames[j];
            assert(frame_sized(gif.frames@[j as int]));
            let ghost before = gif_encoder_blocks(writer);
            match write_gif_frame(&mut writer, frame) {
                Ok(()) => {},
                Err(FrameWriteError::OutOfMemory) => {
                    return Err(GifError::Encoding(String::from_str("out of memory")));
                },
                Err(FrameWriteError::Refused(e)) => {
                    assert(!frame_encodable(gif.frames@[j as int], screen_palette));
                    return Err(GifError::Encoding(encoding_error_text(&e)));
                },
            }
            proof {
                assert(views.take(j + 1) =~= views.take(j as int).push(frame@));
                lemma_image_blocks_concat(views.take(j as int), seq![frame@]);
                assert(image_blocks(seq![frame@]) =~= seq![GifBlock::Image(frame@)]);
            }
            j = j + 1;
        }
        proof {
            assert(views.take(n as int) =~= views);
            lemma_image_blocks_concat(repeated(views, pass as nat), views);
            assert(repeated(views, (pass + 1) as nat) == repeated(views, pass as nat) + views);
        }
        pass = pass + 1;
    }
    assert(gif_encodable(*gif));
    match finish_gif(writer) {
        Ok(bytes) => Ok(bytes),
        Err(_) => Err(GifError::Encoding(String::new())),
    }
}

/// Every frame of `g` is stored deinterlaced.
pub open spec fn all_deinterlaced(g: DecodedGif) -> bool {
    forall|i: int| 0 <= i < g.frames@.len() ==> !(#[trigger] g.frames@[i]).interlaced
}

/// `f` marked as not interlaced.
pub open spec fn deinterlaced(f: GifFrameView) -> GifFrameView {
    GifFrameView {
        delay: f.delay,
        dispose: f.dispose,
        transparent: f.transparent,
        needs_user_input: f.needs_user_input,
        top: f.top,
        left: f.left,
        width: f.width,
        height: f.height,
        interlaced: false,
        palette: f.palette,
        buffer: f.buffer,
    }
}

/// Every frame of `frames` marked as not interlaced.
pub open spec fn all_frames_deinterlaced(frames: Seq<GifFrameView>) -> Seq<GifFrameView> {
    frames.map_values(|f: GifFrameView| deinterlaced(f))
}

/// `g` is what the `gif` decoder reads from `bytes` ([`gif_decoding`]): the
/// decoder accepts `bytes`, and `g` has the same logical screen and the same
/// frames, in order, marked as not interlaced.
pub open spec fn decoded_from(g: DecodedGif, bytes: Seq<u8>) -> bool {
    match gif_decoding(bytes) {
        Some(d) => {
            &&& g.width == d.0
            &&& g.height == d.1
            &&& option_bytes_view(g.global_palette) == d.2
            &&& frame_views(g.frames@) == all_frames_deinterlaced(d.3)
        },
        None => false,
    }
}

/// Decodes `bytes` as an indexed-colour GIF and marks every frame as not
/// interlaced (the decoder hands the rows out in order). A decoded GIF holds
/// the screen and all frames the decoder reads from `bytes`; bytes the
/// decoder refuses give its message. Bytes it accepts are decoded unless it
/// cannot reserve memory, which gives [`out_of_memory_message`].
pub fn decode_gif(bytes: &[u8]) -> (r: Result<DecodedGif, GifError>)
    ensures
        r matches Ok(g) ==> all_deinterlaced(g) && decoded_from(g, bytes@),
        gif_decoding(bytes@) is None ==> r is Err,
        r matches Err(e) ==> e is Decoding,
        gif_decoding(bytes@) is Some ==> r is Ok || (r matches Err(GifError::Decoding(t)) && t@
            == out_of_memory_message()),
{
    let mut reader = match read_gif_info(bytes) {
        Ok(reader) => reader,
        Err(GifReadError::OutOfMemory) => {
            return Err(GifError::Decoding(String::from_str("out of memory")));
        },
        Err(GifReadError::Refused(e)) => {
            return Err(GifError::Decoding(decoding_error_text(&e)));
        },
    };
    let width = gif_width(&reader);
    let height = gif_height(&reader);
    let global_palette = gif_global_palette(&reader);
    let ghost dec = gif_decoding(bytes@);
    let ghost all = match dec {
        Some(d) => d.3,
        None => Seq::<GifFrameView>::empty(),
    };
    let mut frames: Vec<GifFrame> = Vec::new();
    loop
        invariant
            forall|i: int| 0 <= i < frames@.len() ==> !(#[trigger] frames@[i]).interlaced,
            dec == gif_decoding(bytes@),
            gif_reader_fails(reader) == (dec is None),
            dec matches Some(d) ==> {
                &&& all == d.3
                &&& width == d.0
                &&& height == d.1
                &&& option_bytes_view(global_palette) == d.2
                &&& frame_views(frames@) + all_frames_deinterlaced(gif_reader_pending(reader))
                    == all_frames_deinterlaced(all)
            },
        ensures
            dec is Some,
            frame_views(frames@) == all_frames_deinterlaced(all),
        decreases gif_reader_pending(reader).len(),
    {
        let ghost pending = gif_reader_pending(reader);
        match gif_read_next_frame(&mut reader) {
            Ok(Some(frame)) => {
                let mut frame = frame;
                frame.interlaced = false;
                let ghost before = frames@;
                frames.push(frame);
                proof {
                    assert(frame@ == deinterlaced(pending[0]));
                    assert(frame_views(frames@) =~= frame_views(before).push(frame@));
                    assert(all_frames_deinterlaced(pending) =~= seq![deinterlaced(pending[0])]
                        + all_frames_deinterlaced(pending.drop_first()));
                    assert(frame_views(frames@) + all_frames_deinterlaced(pending.drop_first())
                        =~= frame_views(before) + all_frames_deinterlaced(pending));
                }
            },
            Ok(None) => {
                proof {
                    assert(all_frames_deinterlaced(pending) =~= Seq::<GifFrameView>::empty());
                    assert(frame_views(frames@) + all_frames_deinterlaced(pending) =~= frame_views(frames@));
                }
                break;
            },
            Err(GifReadError::OutOfMemory) => {
                return Err(GifError::Decoding(String::from_str("out of memory")));
            },
            Err(GifReadError::Refused(e)) => {
                return Err(GifError::Decoding(decoding_error_text(&e)));
            },
        }
    }
    Ok(DecodedGif { width, height, global_palette, frames })
}

/// Decides what to do with a decoded GIF and does it: a GIF that plays for
/// at least [`MIN_DURATION_CS`] is left alone; a shorter one is encoded again
/// with its frames repeated until it plays at least that long, looping
/// forever.
pub fn process_frames(gif: &DecodedGif) -> (r: Result<Processed, GifError>)
    ensures
        unfuck_outcome(*gif, r),
{
    if gif.frames.len() == 0 {
        return Err(GifError::NoFrames);
    }
    let duration = match duration_cs(&gif.frames) {
        Some(d) => d,
        None => {
            return Err(GifError::DurationOverflow);
        },
    };
    if duration >= MIN_DURATION_CS {
        return Ok(Processed { original_centis: duration, unfucked: None });
    }
    if !all_frames_sized(&gif.frames) {
        return Err(GifError::EmptyFrameWithData);
    }
    proof {
        lemma_total_positive(gif.frames@);
    }
    let loops = loops_for(duration);
    proof {
        law_loops_least_reaching_minimum(duration as nat);
    }
    match encode_looped(gif, loops) {
        Ok(bytes) => Ok(
            Processed {
                original_centis: duration,
                unfucked: Some(Unfucked { centis: duration * loops, gif: bytes }),
            },
        ),
        Err(e) => Err(e),
    }
}

proof fn lemma_total_positive(frames: Seq<GifFrame>)
    requires
        frames.len() > 0,
    ensures
        total_duration(frames) >= 2,
    decreases frames.len(),
{
    if frames.len() > 1 {
        lemma_total_positive(frames.drop_last());
    }
}

/// What processing the GIF file `bytes` gives: the decoder's refusal of
/// bytes it does not accept; otherwise what [`process_frames`] gives for the
/// deinterlaced GIF the decoder reads from `bytes`, unless the decoder runs
/// out of memory ([`out_of_memory_message`]).
pub open spec fn process_outcome(bytes: Seq<u8>, r: Result<Processed, GifError>) -> bool {
    &&& gif_decoding(bytes) is None ==> (r matches Err(GifError::Decoding(_)))
    &&& (r matches Err(GifError::Decoding(t)) && (gif_decoding(bytes) is None || t@ == out_of_memory_message()))
        || exists|g: DecodedGif|
        decoded_from(g, bytes) && all_deinterlaced(g) && #[trigger] unfuck_outcome(g, r)
}

/// Reads a GIF from `bytes` and processes it as [`process_frames`] does.
pub fn process(bytes: &[u8]) -> (r: Result<Processed, GifError>)
    ensures
        process_outcome(bytes@, r),
{
    let gif = match decode_gif(bytes) {
        Ok(g) => g,
        Err(e) => {
            return Err(e);
        },
    };
    let r = process_frames(&gif);
    assert(decoded_from(gif, bytes@) && all_deinterlaced(gif) && unfuck_outcome(gif, r));
    r
}

/// Sum of the effective delays of frame views, in centiseconds.
pub open spec fn views_duration(frames: Seq<GifFrameView>) -> nat
    decreases frames.len(),
{
    if frames.len() == 0 {
        0
    } else {
        views_duration(frames.drop_last()) + effective_delay(frames.last().delay)
    }
}

proof fn lemma_views_duration_of_frames(frames: Seq<GifFrame>)
    ensures
        views_duration(frame_views(frames)) == total_duration(frames),
    decreases frames.len(),
{
    if frames.len() > 0 {
        assert(frame_views(frames).drop_last() =~= frame_views(frames.drop_last()));
        lemma_views_duration_of_frames(frames.drop_last());
    }
}

proof fn lemma_views_duration_concat(a: Seq<GifFrameView>, b: Seq<GifFrameView>)
    ensures
        views_duration(a + b) == views_duration(a) + views_duration(b),
    decreases b.len(),
{
    if b.len() > 0 {
        assert((a + b).drop_last() =~= a + b.drop_last());
        lemma_views_duration_concat(a, b.drop_last());
    } else {
        assert(a + b =~= a);
    }
}

/// Law: frames played `n` times back to back last `n` times as long as
/// they do once.
pub proof fn law_repetition_multiplies_duration(frames: Seq<GifFrameView>, n: nat)
    ensures
        views_duration(repeated(frames, n)) == n * views_duration(frames),
    decreases n,
{
    let t = views_duration(frames);
    if n > 0 {
        let m = (n - 1) as nat;
        law_repetition_multiplies_duration(frames, m);
        lemma_views_duration_concat(repeated(frames, m), frames);
        assert(repeated(frames, n) == repeated(frames, m) + frames);
        assert(n * t == m * t + t) by (nonlinear_arith)
            requires n == m + 1;
    } else {
        assert(repeated(frames, n) =~= Seq::<GifFrameView>::empty());
        assert(n * t == 0) by (nonlinear_arith)
            requires n == 0;
    }
}

/// Law: when a GIF is lengthened, the original played for less than the
/// minimum, the lengthened GIF holds its frames repeated, plays for exactly
/// the recorded duration, reaches the minimum, and one repetition fewer
/// would not.
pub proof fn law_unfucked_gif_is_long_enough(g: DecodedGif, r: Result<Processed, GifError>)
    requires
        unfuck_outcome(g, r),
        r matches Ok(p) && p.unfucked is Some,
    ensures
        r matches Ok(p) && p.unfucked matches Some(u) && {
            let loops = loops_needed(p.original_centis as nat);
            &&& p.original_centis < MIN_DURATION_CS
            &&& u.gif@ == looped_gif_bytes(g, loops)
            &&& views_duration(repeated(frame_views(g.frames@), loops)) == u.centis
            &&& u.centis >= MIN_DURATION_CS
            &&& u.centis - p.original_centis < MIN_DURATION_CS
        },
{
    let d = total_duration(g.frames@);
    lemma_total_positive(g.frames@);
    law_loops_least_reaching_minimum(d);
    lemma_views_duration_of_frames(g.frames@);
    let l = loops_needed(d);
    law_repetition_multiplies_duration(frame_views(g.frames@), l);
    assert(d * l - d == d * (l - 1)) by (nonlinear_arith);
    assert(l * d == d * l) by (nonlinear_arith);
    let p = r->Ok_0;
    let u = p.unfucked->Some_0;
    assert(p.original_centis == d);
    assert(u.centis == d * l);
    assert(u.gif@ == looped_gif_bytes(g, l));
    assert(views_duration(repeated(frame_views(g.frames@), l)) == u.centis);
}

/// Law: a GIF that plays for at least the minimum is never re-encoded, and
/// a decoded GIF with frames whose delays fit in 32 bits is always read.
pub proof fn law_long_gif_left_alone(g: DecodedGif, r: Result<Processed, GifError>)
    requires
        unfuck_outcome(g, r),
        g.frames@.len() > 0,
        MIN_DURATION_CS <= total_duration(g.frames@) <= u32::MAX,
    ensures
        r matches Ok(p) && p.unfucked is None && p.original_centis == total_duration(g.frames@),
{
}

/// A colour table, or none as an empty table.
pub open spec fn table_or_empty(p: Option<Seq<u8>>) -> Seq<u8> {
    match p {
        Some(t) => t,
        None => Seq::empty(),
    }
}

proof fn lemma_views_duration_deinterlaced(frames: Seq<GifFrameView>)
    ensures
        views_duration(all_frames_deinterlaced(frames)) == views_duration(frames),
    decreases frames.len(),
{
    if frames.len() > 0 {
        assert(all_frames_deinterlaced(frames).drop_last() =~= all_frames_deinterlaced(frames.drop_last()));
        lemma_views_duration_deinterlaced(frames.drop_last());
    }
}

/// Law: whenever processing the bytes of a GIF succeeds, the result plays
/// for at least the minimum. The recorded original duration is that of the
/// frames the decoder reads from the bytes; a GIF at least that long is left
/// alone, and a shorter one comes back as the GIF file that loops forever
/// over those frames repeated, as often as needed and no more, whose
/// recorded duration is what the repetitions play for.
pub proof fn law_processed_gif_is_long_enough(bytes: Seq<u8>, r: Result<Processed, GifError>)
    requires
        process_outcome(bytes, r),
        r is Ok,
    ensures
        gif_decoding(bytes) matches Some(d) && r matches Ok(p) && {
            let frames = all_frames_deinterlaced(d.3);
            let loops = loops_needed(p.original_centis as nat);
            &&& d.3.len() > 0
            &&& p.original_centis == views_duration(d.3)
            &&& match p.unfucked {
                None => p.original_centis >= MIN_DURATION_CS,
                Some(u) => {
                    &&& p.original_centis < MIN_DURATION_CS
                    &&& u.gif@ == gif_file_bytes(
                        (d.0, d.1, table_or_empty(d.2)),
                        seq![GifBlock::LoopForever] + image_blocks(repeated(frames, loops)),
                    )
                    &&& views_duration(repeated(frames, loops)) == u.centis
                    &&& u.centis >= MIN_DURATION_CS
                    &&& u.centis - p.original_centis < MIN_DURATION_CS
                },
            }
        },
{
    let g = choose|g: DecodedGif| decoded_from(g, bytes) && all_deinterlaced(g) && #[trigger] unfuck_outcome(g, r);
    let d = gif_decoding(bytes)->Some_0;
    lemma_views_duration_of_frames(g.frames@);
    lemma_views_duration_deinterlaced(d.3);
    assert(frame_views(g.frames@).len() == g.frames@.len());
    assert(palette_or_empty(g.global_palette) == table_or_empty(d.2));
    if r->Ok_0.unfucked is Some {
        law_unfucked_gif_is_long_enough(g, r);
    }
}

/// Law: a GIF with frames that plays for less than the minimum, whose
/// frames all carry pixel data only where they have pixels, and whose screen
/// and frames the encoder accepts, is lengthened, however many times its
/// frames must be repeated; the one other outcome is running out of memory.
pub proof fn law_encodable_short_gif_is_lengthened(g: DecodedGif, r: Result<Processed, GifError>)
    requires
        unfuck_outcome(g, r),
        g.frames@.len() > 0,
        total_duration(g.frames@) < MIN_DURATION_CS,
        all_sized(g.frames@),
        gif_encodable(g),
    ensures
        r matches Ok(p) ==> p.unfucked is Some,
        r is Ok || (r matches Err(GifError::Encoding(t)) && t@ == "out of memory"@),
{
}

} // verus!
