//! Text, names, meters and latches.
use tauri_plugin_video::desktop::access::{ensure_session, not_open};
use tauri_plugin_video::error::Error;
use tauri_plugin_video::latch::Latch;
use tauri_plugin_video::meter::FrameMeter;
use tauri_plugin_video::models::{copy_or, FrameRate};
use tauri_plugin_video::ordered::{NameMap, NameSet};
use tauri_plugin_video::text;
use tauri_plugin_video::tracks;

#[test]
fn numbers_are_written_in_decimal() {
    for value in [0, 7, 10, 99, 100, 18_446_744_073_709_551_615] {
        assert_eq!(text::decimal_text(value), value.to_string());
    }
    for value in [0, -1, 42, i64::MIN, i64::MAX] {
        assert_eq!(text::signed_decimal_text(value), value.to_string());
    }
}

#[test]
fn texts_are_compared_and_joined() {
    assert!(text::same("a\u{e4}", "a\u{e4}"));
    assert!(!text::same("a", "ab"));
    assert!(!text::same("a", "b"));
    assert_eq!(text::join("a", "b"), "ab");
    assert_eq!(text::enclose("a", "b", "c"), "abc");
    assert!(text::same_ignoring_case("Referer", "rEFERER"));
    assert!(!text::same_ignoring_case("\u{c4}", "\u{e4}"));
    assert!(!text::same_ignoring_case("a", "ab"));
    for (a, b) in [("a", "b"), ("a", "ab"), ("", "a"), ("\u{ffff}", "\u{10000}"), ("b", "a")] {
        assert_eq!(text::comes_before(a, b), a < b);
        assert_eq!(text::comes_before(b, a), b < a);
        assert!(!text::comes_before(a, a));
    }
}

#[test]
fn names_are_kept_in_order_and_once() {
    let mut set = NameSet::new();
    for name in ["b", "a", "c", "b", "\u{e4}", ""] {
        set.insert(name.to_owned());
    }
    let listed: Vec<&str> = (0..set.len()).map(|at| set.get(at)).collect();
    assert_eq!(listed, vec!["", "a", "b", "c", "\u{e4}"]);
    assert!(set.contains("c"));
    assert!(!set.contains("d"));
    let copy = set.clone();
    assert_eq!(copy.len(), 5);
}

#[test]
fn later_values_replace_earlier_ones() {
    let mut map = NameMap::new();
    map.insert("X".to_owned(), "1".to_owned());
    map.insert("A".to_owned(), "2".to_owned());
    map.insert("X".to_owned(), "3".to_owned());
    assert_eq!(map.len(), 2);
    assert_eq!((map.name(0), map.value(0)), ("A", "2"));
    assert_eq!((map.name(1), map.value(1)), ("X", "3"));
    assert_eq!(map.clone().value(1), "3");
}

#[test]
fn rates_are_taken_over_half_a_second() {
    let mut meter = FrameMeter::new(10, 1_000);
    assert_eq!(meter.measured.frames, 0);
    assert!(!meter.sample(20, 500_000_999));
    assert_eq!(meter.measured.frames, 0);
    assert!(meter.sample(40, 500_001_000));
    assert_eq!(meter.measured, FrameRate { frames: 30, nanoseconds: 500_000_000 });
    assert!(!meter.sample(50, 3));
    assert!(meter.sample(5, 2_000_001_000));
    assert_eq!(meter.measured, FrameRate { frames: 0, nanoseconds: 1_500_000_000 });
    assert_eq!(meter.last_frames, 5);
}

#[test]
fn latches_order_once() {
    let mut latch = Latch::new();
    assert!(latch.request());
    assert!(!latch.request());
    latch.release();
    assert!(latch.request());
}

#[test]
fn sessions_are_compared_exactly() {
    assert!(ensure_session("a", "a").is_ok());
    assert!(matches!(
        ensure_session("a", "A"),
        Err(Error::InvalidRequest(text)) if text == "native player session is stale"
    ));
    assert!(matches!(
        not_open(),
        Error::InvalidRequest(text) if text == "native player is not open"
    ));
}

#[test]
fn labels_prefer_titles() {
    let label = |title: &str, language: bool| {
        tracks::label(title.to_owned(), language, "EN".to_owned(), "Track 1".to_owned())
    };
    assert_eq!(label("T", true), "T");
    assert_eq!(label("", true), "EN");
    assert_eq!(label("", false), "Track 1");
    assert_eq!(copy_or(&None, "x"), "x");
    assert_eq!(copy_or(&Some("y".to_owned()), "x"), "y");
}
