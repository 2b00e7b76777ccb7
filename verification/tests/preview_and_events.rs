use filenav::app::{App, ReadOutcome};
use filenav::events::{
    classify, producer_step, remaining_budget, Event, KeyCode, KeyInput, MouseInfo, RawInput,
};
use filenav::snapshot::{FileEntry, FileManager};

fn entry(name: &str, path: &str, is_file: bool) -> FileEntry {
    FileEntry { name: name.to_string(), path: path.to_string(), is_file, size: 0 }
}

fn app_with(listing: Vec<FileEntry>) -> App {
    let fm = FileManager::new("/tmp".to_string(), None, listing);
    App::new(fm, "/tmp".to_string(), 0)
}

#[test]
fn budget_shrinks_and_clamps_to_zero() {
    assert_eq!(remaining_budget(250, 0), 250);
    assert_eq!(remaining_budget(250, 100), 150);
    assert_eq!(remaining_budget(250, 250), 0);
    assert_eq!(remaining_budget(250, 400), 0);
}

#[test]
fn classification_passes_input_through_and_drops_unsupported() {
    let k = KeyInput { code: KeyCode::Char('x'), ctrl: false };
    assert_eq!(classify(RawInput::Key(k)), Some(Event::Key(k)));
    let m = MouseInfo { column: 3, row: 7 };
    assert_eq!(classify(RawInput::Mouse(m)), Some(Event::Mouse(m)));
    assert_eq!(classify(RawInput::Resize(80, 24)), Some(Event::Resize(80, 24)));
    assert_eq!(classify(RawInput::Unsupported), None);
}

#[test]
fn input_wins_over_tick_and_keeps_the_clock() {
    let k = KeyInput { code: KeyCode::Enter, ctrl: false };
    // Input arrived well past the tick deadline: still no tick.
    let (published, last_tick) = producer_step(0, 900, 250, Some(RawInput::Key(k)));
    assert_eq!(published, Some(Event::Key(k)));
    assert_eq!(last_tick, 0);
}

#[test]
fn one_tick_per_interval_without_input() {
    // Interval not yet elapsed: nothing published, clock untouched.
    let (published, last_tick) = producer_step(0, 200, 250, None);
    assert_eq!(published, None);
    assert_eq!(last_tick, 0);
    // Interval elapsed: exactly one tick, and the clock resets.
    let (published, last_tick) = producer_step(0, 260, 250, None);
    assert_eq!(published, Some(Event::Tick));
    assert_eq!(last_tick, 260);
    // Immediately afterwards no second tick is due.
    let (published, last_tick) = producer_step(260, 400, 250, None);
    assert_eq!(published, None);
    assert_eq!(last_tick, 260);
}

#[test]
fn unsupported_input_yields_nothing_but_still_skips_the_tick() {
    let (published, last_tick) = producer_step(0, 900, 250, Some(RawInput::Unsupported));
    assert_eq!(published, None);
    assert_eq!(last_tick, 0);
}

#[test]
fn preview_caps_long_files_at_the_configured_size() {
    let mut app = app_with(vec![entry("big.txt", "/tmp/big.txt", true)]);
    let content: Vec<char> = vec!['x'; 5000];
    app.update_preview(200, Some(ReadOutcome::Content(content)));
    assert_eq!(app.preview_content.chars().count(), 1000);
    assert_eq!(app.preview_content, "x".repeat(1000));
    assert_eq!(app.last_update, 200);
}

#[test]
fn short_files_are_shown_whole() {
    let mut app = app_with(vec![entry("small.txt", "/tmp/small.txt", true)]);
    let content: Vec<char> = "hello".chars().collect();
    app.update_preview(200, Some(ReadOutcome::Content(content)));
    assert_eq!(app.preview_content, "hello");
}

#[test]
fn unreadable_files_get_the_placeholder() {
    let mut app = app_with(vec![entry("blob", "/tmp/blob", true)]);
    app.update_preview(200, Some(ReadOutcome::Unreadable));
    assert_eq!(app.preview_content, "(Binary or unreadable file)");
}

#[test]
fn directories_get_the_placeholder() {
    let mut app = app_with(vec![entry("sub", "/tmp/sub", false)]);
    app.update_preview(200, None);
    assert_eq!(app.preview_content, "(Directory)");
    assert_eq!(app.last_update, 200);
}

#[test]
fn debounce_allows_at_most_one_read_per_interval() {
    let mut app = app_with(vec![entry("f", "/tmp/f", true)]);
    // First attempt, past the debounce interval: a read happens.
    assert!(app.preview_due(150));
    let content: Vec<char> = "first".chars().collect();
    app.update_preview(150, Some(ReadOutcome::Content(content)));
    assert_eq!(app.preview_content, "first");
    assert_eq!(app.last_update, 150);
    // Second attempt only 50ms later: not due, no read, nothing changes.
    assert!(!app.preview_due(200));
    app.update_preview(200, None);
    assert_eq!(app.preview_content, "first");
    assert_eq!(app.last_update, 150);
    // Past the interval again: due, and the next read lands.
    assert!(app.preview_due(300));
    let content: Vec<char> = "second".chars().collect();
    app.update_preview(300, Some(ReadOutcome::Content(content)));
    assert_eq!(app.preview_content, "second");
    assert_eq!(app.last_update, 300);
}

#[test]
fn no_refresh_before_the_debounce_interval_elapses() {
    let mut app = app_with(vec![entry("f", "/tmp/f", true)]);
    // Exactly at the interval boundary the refresh is not yet due.
    assert!(!app.preview_due(100));
    app.update_preview(100, None);
    assert_eq!(app.preview_content, "");
    assert_eq!(app.last_update, 0);
}

#[test]
fn empty_snapshot_refresh_only_stamps_the_clock() {
    let mut app = app_with(vec![]);
    app.update_preview(500, None);
    assert_eq!(app.preview_content, "");
    assert_eq!(app.last_update, 500);
}
