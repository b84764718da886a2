use bsky_gif_unfucker::paths::{is_gif_extension, is_gif_path, save_target, save_target_from};
use bsky_gif_unfucker::url::{decode_hex_pair, file_url_to_path};

#[test]
fn plain_file_url() {
    assert_eq!(file_url_to_path("file:///tmp/a.gif"), Some("/tmp/a.gif".to_string()));
    assert_eq!(file_url_to_path("file://"), Some(String::new()));
}

#[test]
fn escapes_are_decoded() {
    assert_eq!(file_url_to_path("file:///tmp/a%20b.gif"), Some("/tmp/a b.gif".to_string()));
    assert_eq!(file_url_to_path("file:///caf%C3%A9.gif"), Some("/caf\u{e9}.gif".to_string()));
    assert_eq!(file_url_to_path("file:///caf%c3%a9"), Some("/caf\u{e9}".to_string()));
    assert_eq!(file_url_to_path("file:///a%+a"), Some("/a\n".to_string()));
}

#[test]
fn other_urls_are_refused() {
    assert_eq!(file_url_to_path("http://example.com/a.gif"), None);
    assert_eq!(file_url_to_path("file:/"), None);
    assert_eq!(file_url_to_path(""), None);
}

#[test]
fn bad_escapes_are_refused() {
    assert_eq!(file_url_to_path("file:///a%2"), None);
    assert_eq!(file_url_to_path("file:///a%"), None);
    assert_eq!(file_url_to_path("file:///a%zz"), None);
    assert_eq!(file_url_to_path("file:///a%-1"), None);
    assert_eq!(file_url_to_path("file:///a%FF"), None);
    assert_eq!(file_url_to_path("file:///a%e2%82"), None);
}

#[test]
fn non_ascii_urls_pass_through() {
    assert_eq!(file_url_to_path("file:///\u{e9}t\u{e9}.gif"), Some("/\u{e9}t\u{e9}.gif".to_string()));
}

#[test]
fn hex_pairs() {
    assert_eq!(decode_hex_pair(b'2', b'F'), Some(0x2f));
    assert_eq!(decode_hex_pair(b'f', b'f'), Some(255));
    assert_eq!(decode_hex_pair(b'+', b'9'), Some(9));
    assert_eq!(decode_hex_pair(b'9', b'+'), None);
    assert_eq!(decode_hex_pair(b'g', b'0'), None);
}

#[test]
fn gif_extensions() {
    assert!(is_gif_extension(Some("gif")));
    assert!(is_gif_extension(Some("GiF")));
    assert!(!is_gif_extension(Some("png")));
    assert!(!is_gif_extension(Some("gifs")));
    assert!(!is_gif_extension(Some("")));
    assert!(!is_gif_extension(None));
}

#[test]
fn gif_paths() {
    assert!(is_gif_path("/tmp/cat.gif"));
    assert!(is_gif_path("cat.GIF"));
    assert!(!is_gif_path("/tmp/cat.png"));
    assert!(!is_gif_path("/tmp/gif"));
    assert!(!is_gif_path("/tmp/.gif"));
    assert!(!is_gif_path(""));
}

#[test]
fn save_targets() {
    let t = save_target("/tmp/cat.gif");
    assert_eq!(t.directory, Some("/tmp".to_string()));
    assert_eq!(t.file_name, "cat-unfucked.gif");
    let t = save_target("cat.gif");
    assert_eq!(t.directory, Some(String::new()));
    assert_eq!(t.file_name, "cat-unfucked.gif");
    let t = save_target("/");
    assert_eq!(t.directory, None);
    assert_eq!(t.file_name, "gif-unfucked.gif");
    let t = save_target_from(None, None);
    assert_eq!(t.file_name, "gif-unfucked.gif");
}

#[test]
fn escaped_urls_round_trip() {
    assert_eq!(file_url_to_path("file:///tmp/100%25%20done.gif"), Some("/tmp/100% done.gif".to_string()));
    assert_eq!(file_url_to_path("file://%2f%74mp%2Fa.gif"), Some("/tmp/a.gif".to_string()));
    assert_eq!(file_url_to_path("file:///%E6%97%A5.gif"), Some("/\u{65e5}.gif".to_string()));
}

#[test]
fn only_the_last_extension_counts() {
    assert!(!is_gif_path("a.gif.png"));
    assert!(!is_gif_path("gif"));
    assert!(is_gif_path("a.png.gif"));
    assert!(is_gif_path("a.Gif"));
    assert!(is_gif_path("/tmp/.hidden.gif"));
}

#[test]
fn save_target_keeps_the_stem() {
    let t = save_target("/a/loop.gif");
    assert_eq!(t.directory, Some("/a".to_string()));
    assert_eq!(t.file_name, "loop-unfucked.gif");
    let t = save_target("/loop.tar.gif");
    assert_eq!(t.directory, Some("/".to_string()));
    assert_eq!(t.file_name, "loop.tar-unfucked.gif");
    let t = save_target("rel/.gif");
    assert_eq!(t.directory, Some("rel".to_string()));
    assert_eq!(t.file_name, ".gif-unfucked.gif");
}
