# bsky_gif_unfucker

A video converter that cannot play animations shorter than one second
freezes the last frame of a short looping GIF. This library lengthens such a
GIF by repeating all of its frames until it plays for at least one second,
and holds the state and decisions of the small viewer that does this on
dropped files.

The library under `src/` is verified with Verus:

- `timing`: effective frame delays and how many repetitions are needed;
- `gif_unfuck`: decoding, deciding and re-encoding a GIF (`process`);
- `gif_codec`, `preview_codec`: the calls into the `gif` and `image` crates;
- `preview`: composited preview frames in the renderer's BGRA order;
- `url`, `paths`: file URLs and the parts of paths the viewer uses;
- `text`: durations, temporary file names and the spinner;
- `viewer`: the viewer's state machine and the queue of `open` requests.

`app/` holds the window (gpui), file I/O and the event loop around it.
