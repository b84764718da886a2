//! The viewer's state and the decisions it takes on each user action; the
//! window, the file dialogs and the background work live outside.
use vstd::prelude::*;
use crate::paths::{
    dot_followed_by, fits_save_target, is_gif_path, is_gif_word, plain_gif_path, plain_path, save_target,
    SaveTarget,
};
use crate::text::{duration_label, duration_label_text, spinner_frames, spinner_glyph};
use crate::url::{file_url_path, file_url_to_path};
use vstd::utf8::encode_utf8;

verus! {

/// A lengthened GIF written to a temporary file.
#[derive(Debug)]
pub struct TempGif {
    pub path: String,
    /// Duration of the lengthened animation, in centiseconds.
    pub centis: u32,
}

/// A GIF on screen, with its preview handle `P`.
pub struct Loaded<P> {
    /// The path the GIF was read from.
    pub source: String,
    pub preview: P,
    /// Duration of the GIF, in centiseconds.
    pub original_centis: u32,
    /// The lengthened GIF, when the original is too short.
    pub unfucked: Option<TempGif>,
}

/// What the viewer shows.
pub enum GifState<P> {
    Empty,
    Loading,
    Loaded(Loaded<P>),
    Error(String),
}

/// The viewer: what it shows, the spinner's tick, and the preview handles
/// that left the screen and still have to be released by the renderer.
pub struct GifUnfucker<P> {
    pub state: GifState<P>,
    pub spinner_frame: usize,
    pub retired_previews: Vec<P>,
}

/// The message shown for a file that is not a GIF.
pub open spec fn not_a_gif_message() -> Seq<char> {
    "That's not a .gif file."@
}

/// The message shown when a GIF could not be read.
pub open spec fn read_error_message(error: Seq<char>) -> Seq<char> {
    "Couldn't read that gif: "@ + error
}

/// The message shown when the lengthened GIF could not be saved.
pub open spec fn save_error_message(error: Seq<char>) -> Seq<char> {
    "Couldn't save the gif: "@ + error
}

/// The retired previews after `state` left the screen: a copy of its preview
/// is added when it showed a GIF.
pub open spec fn retired_after<P: Clone>(state: GifState<P>, retired: Seq<P>, now: Seq<P>) -> bool {
    match state {
        GifState::Loaded(l) => now.len() == retired.len() + 1 && now.take(retired.len() as int)
            == retired && cloned::<P>(l.preview, now.last()),
        _ => now == retired,
    }
}

/// The viewer went from `before` to `after` on opening the file at `path`,
/// and `start` says whether the file is to be read. A file taken for a GIF
/// holds a `.` followed by `gif` in any case, and for a plain path that is
/// its own extension; it is loading, with the spinner from the start, and the
/// GIF that was shown is retired. Any other file gives the not-a-GIF message
/// and nothing else changes.
pub open spec fn load_outcome<P: Clone>(before: GifUnfucker<P>, after: GifUnfucker<P>, path: Seq<char>, start: bool) -> bool {
    &&& start ==> exists|i: int, w: Seq<char>| #[trigger] dot_followed_by(path, i, w) && is_gif_word(w)
    &&& plain_path(path) ==> (start == plain_gif_path(path))
    &&& !start ==> {
        &&& after.state matches GifState::Error(m) && m@ == not_a_gif_message()
        &&& after.spinner_frame == before.spinner_frame
        &&& after.retired_previews@ == before.retired_previews@
    }
    &&& start ==> {
        &&& after.state is Loading
        &&& after.spinner_frame == 0
        &&& retired_after(before.state, before.retired_previews@, after.retired_previews@)
    }
}

/// What the window shows for a state.
pub enum Screen {
    /// The drop zone, with an error message above the prompt when there is one.
    DropZone { error: Option<String> },
    /// The drop zone with a spinner glyph.
    Loading { glyph: &'static str },
    /// The preview, its duration label, and whether a lengthened GIF can be
    /// saved.
    Loaded { label: String, can_save: bool },
}

impl<P: Clone> GifUnfucker<P> {
    /// An empty viewer.
    pub fn new() -> (v: Self)
        ensures
            v.state is Empty,
            v.spinner_frame == 0,
            v.retired_previews@.len() == 0,
    {
        GifUnfucker { state: GifState::Empty, spinner_frame: 0, retired_previews: Vec::new() }
    }

    /// Hands a copy of the shown preview, if any, to the renderer for
    /// release; the state is left as it is.
    pub fn retire_preview(&mut self)
        ensures
            final(self).state == old(self).state,
            final(self).spinner_frame == old(self).spinner_frame,
            retired_after(old(self).state, old(self).retired_previews@, final(self).retired_previews@),
    {
        if let GifState::Loaded(loaded) = &self.state {
            let preview = loaded.preview.clone();
            let ghost before = self.retired_previews@;
            self.retired_previews.push(preview);
            assert(self.retired_previews@.take(before.len() as int) =~= before);
        }
    }

    /// Starts loading a file that is a GIF when `is_gif` holds; otherwise
    /// an error is shown instead. Returns whether the file is to be read.
    pub fn begin_load(&mut self, is_gif: bool) -> (start: bool)
        ensures
            start == is_gif,
            !is_gif ==> {
                &&& final(self).state matches GifState::Error(m) && m@ == not_a_gif_message()
                &&& final(self).spinner_frame == old(self).spinner_frame
                &&& final(self).retired_previews@ == old(self).retired_previews@
            },
            is_gif ==> {
                &&& final(self).state is Loading
                &&& final(self).spinner_frame == 0
                &&& retired_after(old(self).state, old(self).retired_previews@, final(self).retired_previews@)
            },
    {
        if !is_gif {
            let message = String::from_str("That's not a .gif file.");
            self.state = GifState::Error(message);
            return false;
        }
        self.retire_preview();
        self.state = GifState::Loading;
        self.spinner_frame = 0;
        true
    }

    /// Opens the file at `path` as [`Self::begin_load`] does, deciding by its
    /// extension whether it is a GIF. Returns whether the file is to be read.
    pub fn load_gif(&mut self, path: &str) -> (start: bool)
        ensures
            load_outcome(*old(self), *final(self), path@, start),
    {
        let is_gif = is_gif_path(path);
        self.begin_load(is_gif)
    }

    /// Files dropped on the window: ignored while loading; otherwise the
    /// first one, if any, is opened as [`Self::load_gif`] does. Returns
    /// whether it is to be read.
    pub fn drop_file(&mut self, first: Option<&str>) -> (start: bool)
        ensures
            (old(self).state is Loading || first is None) ==> !start && final(self).state
                == old(self).state && final(self).spinner_frame == old(self).spinner_frame
                && final(self).retired_previews@ == old(self).retired_previews@,
            !(old(self).state is Loading) ==> (first matches Some(path) ==> load_outcome(
                *old(self),
                *final(self),
                path@,
                start,
            )),
    {
        if let GifState::Loading = self.state {
            return false;
        }
        match first {
            Some(path) => self.load_gif(path),
            None => false,
        }
    }

    /// One tick of the spinner timer: while loading, the spinner advances and
    /// the timer keeps running; otherwise nothing changes and it stops.
    pub fn spinner_tick(&mut self) -> (still_loading: bool)
        requires
            old(self).state is Loading ==> old(self).spinner_frame < usize::MAX,
        ensures
            still_loading == old(self).state is Loading,
            final(self).state == old(self).state,
            final(self).retired_previews@ == old(self).retired_previews@,
            final(self).spinner_frame == if still_loading {
                old(self).spinner_frame + 1
            } else {
                old(self).spinner_frame as int
            },
    {
        if let GifState::Loading = self.state {
            self.spinner_frame = self.spinner_frame + 1;
            true
        } else {
            false
        }
    }

    /// The background work finished: the GIF is shown, or the error.
    pub fn finish_load(&mut self, outcome: Result<Loaded<P>, String>)
        ensures
            final(self).spinner_frame == old(self).spinner_frame,
            final(self).retired_previews@ == old(self).retired_previews@,
            match outcome {
                Ok(l) => final(self).state == GifState::Loaded(l),
                Err(e) => final(self).state matches GifState::Error(m) && m@ == read_error_message(e@),
            },
    {
        match outcome {
            Ok(loaded) => {
                self.state = GifState::Loaded(loaded);
            },
            Err(error) => {
                let mut message = String::from_str("Couldn't read that gif: ");
                message.append(error.as_str());
                self.state = GifState::Error(message);
            },
        }
    }

    /// The close button of the preview: the preview is retired and the drop
    /// zone shown.
    pub fn clear(&mut self)
        ensures
            final(self).state is Empty,
            final(self).spinner_frame == old(self).spinner_frame,
            retired_after(old(self).state, old(self).retired_previews@, final(self).retired_previews@),
    {
        self.retire_preview();
        self.state = GifState::Empty;
    }

    /// Where to offer saving the lengthened GIF, and the temporary file that
    /// holds it; `None` when no lengthened GIF is shown.
    pub fn save_unfucked(&self) -> (r: Option<(SaveTarget, String)>)
        ensures
            r is Some <==> (self.state matches GifState::Loaded(l) && l.unfucked is Some),
            r matches Some((target, temp)) ==> (self.state matches GifState::Loaded(l)
                && l.unfucked matches Some(u) && temp@ == u.path@ && fits_save_target(l.source@, target)),
    {
        match &self.state {
            GifState::Loaded(loaded) => match &loaded.unfucked {
                Some(unfucked) => Some((save_target(loaded.source.as_str()), unfucked.path.clone())),
                None => None,
            },
            _ => None,
        }
    }

    /// Copying the lengthened GIF to where the user chose failed.
    pub fn save_failed(&mut self, error: &str)
        ensures
            final(self).state matches GifState::Error(m) && m@ == save_error_message(error@),
            final(self).spinner_frame == old(self).spinner_frame,
            final(self).retired_previews@ == old(self).retired_previews@,
    {
        let mut message = String::from_str("Couldn't save the gif: ");
        message.append(error);
        self.state = GifState::Error(message);
    }

    /// Hands the retired previews to the renderer, which releases them.
    pub fn take_retired_previews(&mut self) -> (previews: Vec<P>)
        ensures
            previews@ == old(self).retired_previews@,
            final(self).retired_previews@.len() == 0,
            final(self).state == old(self).state,
            final(self).spinner_frame == old(self).spinner_frame,
    {
        let mut previews: Vec<P> = Vec::new();
        std::mem::swap(&mut previews, &mut self.retired_previews);
        previews
    }

    /// What the window shows.
    pub fn screen(&self) -> (s: Screen)
        ensures
            match self.state {
                GifState::Empty => s matches Screen::DropZone { error } && error is None,
                GifState::Error(m) => s matches Screen::DropZone { error } && error matches Some(e)
                    && e@ == m@,
                GifState::Loading => s matches Screen::Loading { glyph } && glyph@ == spinner_frames()[(
                self.spinner_frame % 10) as int],
                GifState::Loaded(l) => s matches Screen::Loaded { label, can_save } && can_save
                    == l.unfucked is Some && label@ == duration_label_text(
                    l.original_centis as nat,
                    match l.unfucked {
                        Some(u) => Some(u.centis as nat),
                        None => None,
                    },
                ),
            },
    {
        match &self.state {
            GifState::Empty => Screen::DropZone { error: None },
            GifState::Error(message) => Screen::DropZone { error: Some(message.clone()) },
            GifState::Loading => Screen::Loading { glyph: spinner_glyph(self.spinner_frame) },
            GifState::Loaded(loaded) => {
                let unfucked_centis = match &loaded.unfucked {
                    Some(u) => Some(u.centis),
                    None => None,
                };
                Screen::Loaded {
                    label: duration_label(loaded.original_centis, unfucked_centis),
                    can_save: loaded.unfucked.is_some(),
                }
            },
        }
    }
}

/// Where `open` requests from the operating system go: held back until the
/// window exists, then handed on with the `R` needed to reach it.
pub enum GifOpener<R> {
    Pending(Vec<String>),
    Ready(R),
}

/// The texts of a sequence of strings.
pub open spec fn texts(v: Seq<String>) -> Seq<Seq<char>> {
    v.map_values(|s: String| s@)
}

impl<R> GifOpener<R> {
    /// An opener that holds requests back.
    pub fn new() -> (o: Self)
        ensures
            o matches GifOpener::Pending(p) && p@.len() == 0,
    {
        GifOpener::Pending(Vec::new())
    }

    /// URLs to open: held back while pending, handed back to be loaded now
    /// once ready.
    pub fn open_urls(&mut self, urls: Vec<String>) -> (now: Vec<String>)
        ensures
            match *old(self) {
                GifOpener::Pending(p) => (*final(self) matches GifOpener::Pending(q) && q@ == p@ + urls@)
                    && now@.len() == 0,
                GifOpener::Ready(_) => *final(self) == *old(self) && now@ == urls@,
            },
    {
        let mut current: GifOpener<R> = GifOpener::Pending(Vec::new());
        std::mem::swap(self, &mut current);
        match current {
            GifOpener::Pending(pending) => {
                let mut pending = pending;
                let mut urls = urls;
                pending.append(&mut urls);
                *self = GifOpener::Pending(pending);
                Vec::new()
            },
            GifOpener::Ready(ready) => {
                *self = GifOpener::Ready(ready);
                urls
            },
        }
    }

    /// The window exists: later requests are handed on, and those held back
    /// so far are handed back to be loaded now.
    pub fn become_ready(&mut self, ready: R) -> (held: Vec<String>)
        ensures
            *final(self) == GifOpener::Ready(ready),
            match *old(self) {
                GifOpener::Pending(p) => held@ == p@,
                GifOpener::Ready(_) => held@.len() == 0,
            },
    {
        let mut current: GifOpener<R> = GifOpener::Ready(ready);
        std::mem::swap(self, &mut current);
        match current {
            GifOpener::Pending(pending) => pending,
            GifOpener::Ready(_) => Vec::new(),
        }
    }
}

/// The paths named by those of `urls` that are file URLs ([`file_url_path`]),
/// in order.
pub open spec fn url_paths(urls: Seq<Seq<char>>) -> Seq<Seq<char>>
    decreases urls.len(),
{
    if urls.len() == 0 {
        Seq::empty()
    } else {
        let rest = url_paths(urls.drop_last());
        match file_url_path(encode_utf8(urls.last())) {
            Some(p) => rest.push(p),
            None => rest,
        }
    }
}

/// The paths to load for URLs handed over by the operating system: the
/// file URLs among them, decoded, in order; the others are skipped.
pub fn paths_from_urls(urls: &Vec<String>) -> (paths: Vec<String>)
    ensures
        texts(paths@) == url_paths(texts(urls@)),
{
    let mut paths: Vec<String> = Vec::new();
    let mut i: usize = 0;
    while i < urls.len()
        invariant
            i <= urls.len(),
            texts(paths@) == url_paths(texts(urls@.take(i as int))),
        decreases urls.len() - i,
    {
        assert(texts(urls@.take(i + 1)).drop_last() =~= texts(urls@.take(i as int)));
        assert(texts(urls@.take(i + 1)).last() == urls@[i as int]@);
        match file_url_to_path(urls[i].as_str()) {
            Some(path) => {
                let ghost before = paths@;
                paths.push(path);
                assert(texts(paths@) =~= texts(before).push(paths@.last()@));
            },
            None => {},
        }
        i = i + 1;
    }
    assert(urls@.take(urls.len() as int) =~= urls@);
    paths
}

/// The file whose frames are previewed: the lengthened GIF when there is
/// one, the file that was opened otherwise.
pub fn preview_path<'a>(source: &'a str, unfucked: &'a Option<TempGif>) -> (p: &'a str)
    ensures
        p@ == match unfucked {
            Some(u) => u.path@,
            None => source@,
        },
{
    match unfucked {
        Some(u) => u.path.as_str(),
        None => source,
    }
}

} // verus!
