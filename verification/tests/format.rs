use transcoder::format::MediaFormat;
use transcoder::text::{characters, find_last, matches_at, starts_with, tail_is};

fn resolve(name: &str) -> MediaFormat {
    MediaFormat::from_string(&String::from(name))
}

#[test]
fn mp4_extension_resolves_to_mp4() {
    assert_eq!(resolve("out.mp4"), MediaFormat::MP4);
}

#[test]
fn mkv_extension_resolves_to_mkv() {
    assert_eq!(resolve("out.mkv"), MediaFormat::MKV);
}

#[test]
fn unrecognised_extension_resolves_to_unknown() {
    assert_eq!(resolve("out.xyz"), MediaFormat::Unknown);
    assert_eq!(resolve("out.avi"), MediaFormat::Unknown);
    assert_eq!(resolve("out.mov"), MediaFormat::Unknown);
}

#[test]
fn extension_match_is_case_sensitive() {
    assert_eq!(resolve("out.MP4"), MediaFormat::Unknown);
    assert_eq!(resolve("out.Mkv"), MediaFormat::Unknown);
    assert_eq!(resolve("out.mP4"), MediaFormat::Unknown);
}

#[test]
fn only_the_last_dot_counts() {
    assert_eq!(resolve("archive.mp4.mkv"), MediaFormat::MKV);
    assert_eq!(resolve("archive.mkv.mp4"), MediaFormat::MP4);
    assert_eq!(resolve("clip.mp4.bak"), MediaFormat::Unknown);
    assert_eq!(resolve("a.b.c.d.mp4"), MediaFormat::MP4);
}

#[test]
fn empty_extension_resolves_to_unknown() {
    assert_eq!(resolve("out."), MediaFormat::Unknown);
    assert_eq!(resolve("."), MediaFormat::Unknown);
    assert_eq!(resolve("out.mp4."), MediaFormat::Unknown);
}

#[test]
fn extension_must_match_whole() {
    assert_eq!(resolve("out.mp"), MediaFormat::Unknown);
    assert_eq!(resolve("out.mp4x"), MediaFormat::Unknown);
    assert_eq!(resolve("out.xmp4"), MediaFormat::Unknown);
    assert_eq!(resolve("out.mp4 "), MediaFormat::Unknown);
    assert_eq!(resolve("outmp4.m"), MediaFormat::Unknown);
}

#[test]
fn a_name_that_is_only_an_extension_resolves() {
    assert_eq!(resolve(".mp4"), MediaFormat::MP4);
    assert_eq!(resolve(".mkv"), MediaFormat::MKV);
}

#[test]
fn a_dot_in_a_directory_is_taken_for_the_extension() {
    assert_eq!(resolve("videos.mp4/out"), MediaFormat::Unknown);
    assert_eq!(resolve("/tmp/v1.0/out.mkv"), MediaFormat::MKV);
}

#[test]
fn names_beyond_ascii_resolve_by_character() {
    assert_eq!(resolve("vid\u{e9}o.mp4"), MediaFormat::MP4);
    assert_eq!(resolve("\u{6620}\u{753b}.mkv"), MediaFormat::MKV);
    assert_eq!(resolve("out.mp\u{ff14}"), MediaFormat::Unknown);
    assert_eq!(resolve("clip.\u{1f3ac}"), MediaFormat::Unknown);
}

#[test]
fn resolve_of_a_name_without_dot_is_none() {
    assert_eq!(MediaFormat::resolve("out"), None);
    assert_eq!(MediaFormat::resolve(""), None);
    assert_eq!(MediaFormat::resolve("mp4"), None);
}

#[test]
fn resolve_agrees_with_from_string_where_there_is_a_dot() {
    for name in ["out.mp4", "out.mkv", "out.xyz", "out.", ".mp4", "a.b.mkv", "x.MP4"] {
        assert_eq!(MediaFormat::resolve(name), Some(resolve(name)));
    }
}

#[test]
fn resolution_agrees_with_the_suffix() {
    for name in ["out.mp4", "a.mkv", "a.mp4.mkv", "out.mp4x", "mp4.", "a.b", ".mkv", "x.mkv.mp4"] {
        let expected = if name.ends_with(".mp4") {
            MediaFormat::MP4
        } else if name.ends_with(".mkv") {
            MediaFormat::MKV
        } else {
            MediaFormat::Unknown
        };
        assert_eq!(resolve(name), expected);
    }
}

#[test]
fn characters_are_the_characters_in_order() {
    assert_eq!(characters("a.b"), vec!['a', '.', 'b']);
    assert_eq!(characters(""), Vec::<char>::new());
    assert_eq!(characters("\u{e9}\u{1f3ac}x"), vec!['\u{e9}', '\u{1f3ac}', 'x']);
    for text in ["out.mp4", "vid\u{e9}o", "\u{6620}\u{753b}.mkv", ""] {
        assert_eq!(characters(text), text.chars().collect::<Vec<char>>());
    }
}

#[test]
fn find_last_gives_the_last_position() {
    assert_eq!(find_last(&characters("a.b.c"), '.'), Some(3));
    assert_eq!(find_last(&characters("abc."), '.'), Some(3));
    assert_eq!(find_last(&characters(".abc"), '.'), Some(0));
    assert_eq!(find_last(&characters("abc"), '.'), None);
    assert_eq!(find_last(&characters(""), '.'), None);
}

#[test]
fn find_last_counts_characters_not_bytes() {
    assert_eq!(find_last(&characters("\u{e9}\u{e9}.x"), '.'), Some(2));
    assert_eq!(find_last(&characters("\u{1f3ac}.\u{1f3ac}"), '.'), Some(1));
}

#[test]
fn matches_at_looks_at_one_position() {
    let text = characters("video/x-raw");
    assert!(matches_at(&text, 0, &characters("video/")));
    assert!(matches_at(&text, 6, &characters("x-raw")));
    assert!(!matches_at(&text, 1, &characters("video/")));
    assert!(!matches_at(&text, 7, &characters("x-raw")));
    assert!(matches_at(&characters("abc"), 3, &[]));
    assert!(!matches_at(&characters("abc"), 4, &[]));
    assert!(!matches_at(&characters("abc"), 2, &characters("cd")));
    assert!(!matches_at(&characters("abc"), usize::MAX, &characters("c")));
}

#[test]
fn starts_with_needs_the_whole_prefix() {
    assert!(starts_with(&characters("audio/mpeg"), &characters("audio/")));
    assert!(!starts_with(&characters("audio"), &characters("audio/")));
    assert!(!starts_with(&characters("xaudio/"), &characters("audio/")));
    assert!(starts_with(&characters("audio/"), &characters("audio/")));
    assert!(starts_with(&characters("anything"), &[]));
    assert!(!starts_with(&[], &characters("a")));
}

#[test]
fn tail_is_compares_to_the_end() {
    let name = characters("out.mp4");
    assert!(tail_is(&name, 4, &characters("mp4")));
    assert!(!tail_is(&name, 3, &characters("mp4")));
    assert!(!tail_is(&name, 5, &characters("mp4")));
    assert!(!tail_is(&characters("out.mp4x"), 4, &characters("mp4")));
    assert!(tail_is(&characters("out."), 4, &[]));
    assert!(!tail_is(&characters("out."), 5, &[]));
}

#[test]
fn a_long_name_resolves() {
    let mut name = "x".repeat(200_000);
    assert_eq!(MediaFormat::resolve(&name), None);
    name.push_str(".mkv");
    assert_eq!(MediaFormat::resolve(&name), Some(MediaFormat::MKV));
    let dotted = ".".repeat(200_000) + "mp4";
    assert_eq!(MediaFormat::resolve(&dotted), Some(MediaFormat::MP4));
}
