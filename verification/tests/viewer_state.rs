use bsky_gif_unfucker::viewer::{paths_from_urls, GifOpener, GifState, GifUnfucker, Loaded, Screen, TempGif};

fn loaded(preview: u32, unfucked: bool) -> Loaded<u32> {
    Loaded {
        source: "/tmp/cat.gif".to_string(),
        preview,
        original_centis: 40,
        unfucked: if unfucked {
            Some(TempGif { path: "/tmp/bsky-gif-unfucker-1-0.gif".to_string(), centis: 120 })
        } else {
            None
        },
    }
}

#[test]
fn starts_empty() {
    let v: GifUnfucker<u32> = GifUnfucker::new();
    assert!(matches!(v.state, GifState::Empty));
    assert!(matches!(v.screen(), Screen::DropZone { error: None }));
}

#[test]
fn non_gif_shows_error() {
    let mut v: GifUnfucker<u32> = GifUnfucker::new();
    assert!(!v.load_gif("/tmp/cat.png"));
    match v.screen() {
        Screen::DropZone { error: Some(e) } => assert_eq!(e, "That's not a .gif file."),
        _ => panic!("expected the drop zone with an error"),
    }
}

#[test]
fn gif_starts_loading_and_spins() {
    let mut v: GifUnfucker<u32> = GifUnfucker::new();
    assert!(v.load_gif("/tmp/cat.gif"));
    assert!(matches!(v.state, GifState::Loading));
    assert!(v.spinner_tick());
    assert!(v.spinner_tick());
    assert_eq!(v.spinner_frame, 2);
    match v.screen() {
        Screen::Loading { glyph } => assert_eq!(glyph, "\u{2839}"),
        _ => panic!("expected the spinner"),
    }
}

#[test]
fn drops_are_ignored_while_loading() {
    let mut v: GifUnfucker<u32> = GifUnfucker::new();
    assert!(v.drop_file(Some("/tmp/a.gif")));
    assert!(!v.drop_file(Some("/tmp/b.gif")));
    assert!(matches!(v.state, GifState::Loading));
    assert!(!v.drop_file(None));
}

#[test]
fn finished_load_shows_label() {
    let mut v: GifUnfucker<u32> = GifUnfucker::new();
    v.load_gif("/tmp/cat.gif");
    v.finish_load(Ok(loaded(7, true)));
    assert!(!v.spinner_tick());
    match v.screen() {
        Screen::Loaded { label, can_save } => {
            assert_eq!(label, "0.4s \u{2192} 1.2s");
            assert!(can_save);
        }
        _ => panic!("expected the preview"),
    }
    let (target, temp) = v.save_unfucked().unwrap();
    assert_eq!(temp, "/tmp/bsky-gif-unfucker-1-0.gif");
    assert_eq!(target.directory, Some("/tmp".to_string()));
    assert_eq!(target.file_name, "cat-unfucked.gif");
}

#[test]
fn long_gif_cannot_be_saved() {
    let mut v: GifUnfucker<u32> = GifUnfucker::new();
    v.finish_load(Ok(loaded(7, false)));
    assert!(v.save_unfucked().is_none());
    assert!(matches!(v.screen(), Screen::Loaded { can_save: false, .. }));
}

#[test]
fn failed_load_shows_error() {
    let mut v: GifUnfucker<u32> = GifUnfucker::new();
    v.load_gif("/tmp/cat.gif");
    v.finish_load(Err("gif contains no frames".to_string()));
    match v.screen() {
        Screen::DropZone { error: Some(e) } => assert_eq!(e, "Couldn't read that gif: gif contains no frames"),
        _ => panic!("expected an error"),
    }
}

#[test]
fn clearing_retires_the_preview() {
    let mut v: GifUnfucker<u32> = GifUnfucker::new();
    v.finish_load(Ok(loaded(7, true)));
    v.clear();
    assert!(matches!(v.state, GifState::Empty));
    assert_eq!(v.take_retired_previews(), vec![7]);
    assert!(v.take_retired_previews().is_empty());
}

#[test]
fn loading_anew_retires_the_preview() {
    let mut v: GifUnfucker<u32> = GifUnfucker::new();
    v.finish_load(Ok(loaded(3, false)));
    assert!(v.load_gif("/tmp/dog.gif"));
    assert_eq!(v.retired_previews, vec![3]);
}

#[test]
fn save_failure_shows_error() {
    let mut v: GifUnfucker<u32> = GifUnfucker::new();
    v.finish_load(Ok(loaded(3, true)));
    v.save_failed("disk full");
    match v.screen() {
        Screen::DropZone { error: Some(e) } => assert_eq!(e, "Couldn't save the gif: disk full"),
        _ => panic!("expected an error"),
    }
}

#[test]
fn opener_holds_urls_until_ready() {
    let mut opener: GifOpener<u8> = GifOpener::new();
    assert!(opener.open_urls(vec!["file:///a.gif".to_string()]).is_empty());
    assert!(opener.open_urls(vec!["file:///b.gif".to_string()]).is_empty());
    let held = opener.become_ready(1);
    assert_eq!(held, vec!["file:///a.gif".to_string(), "file:///b.gif".to_string()]);
    assert_eq!(opener.open_urls(vec!["file:///c.gif".to_string()]), vec!["file:///c.gif".to_string()]);
    assert!(opener.become_ready(2).is_empty());
}

#[test]
fn urls_become_paths() {
    let urls = vec![
        "file:///a.gif".to_string(),
        "https://x/b.gif".to_string(),
        "file:///c%20d.gif".to_string(),
    ];
    assert_eq!(paths_from_urls(&urls), vec!["/a.gif".to_string(), "/c d.gif".to_string()]);
}

#[test]
fn preview_shows_the_lengthened_gif() {
    let temp = Some(TempGif { path: "/tmp/long.gif".to_string(), centis: 100 });
    assert_eq!(bsky_gif_unfucker::viewer::preview_path("/tmp/a.gif", &temp), "/tmp/long.gif");
    assert_eq!(bsky_gif_unfucker::viewer::preview_path("/tmp/a.gif", &None), "/tmp/a.gif");
}

#[test]
fn only_gif_extensions_start_loading() {
    for path in ["a.png", "gif", "/tmp/.gif", "a.gif.png"] {
        let mut v: GifUnfucker<u32> = GifUnfucker::new();
        v.spinner_frame = 3;
        assert!(!v.load_gif(path));
        assert_eq!(v.spinner_frame, 3);
        assert!(matches!(&v.state, GifState::Error(m) if m == "That's not a .gif file."));
    }
    for path in ["a.gif", "A.GIF", "a.Gif"] {
        let mut v: GifUnfucker<u32> = GifUnfucker::new();
        v.spinner_frame = 3;
        assert!(v.load_gif(path));
        assert_eq!(v.spinner_frame, 0);
        assert!(matches!(v.state, GifState::Loading));
    }
}

#[test]
fn dropping_a_file_retires_the_preview() {
    let mut v: GifUnfucker<u32> = GifUnfucker::new();
    v.finish_load(Ok(loaded(9, false)));
    assert!(v.drop_file(Some("/tmp/next.gif")));
    assert_eq!(v.retired_previews, vec![9]);
    assert_eq!(v.spinner_frame, 0);
    v.finish_load(Ok(loaded(4, false)));
    assert!(!v.drop_file(Some("/tmp/next.png")));
    assert_eq!(v.retired_previews, vec![9]);
    assert!(matches!(&v.state, GifState::Error(m) if m == "That's not a .gif file."));
}
