use vr_core::browser::FileBrowser;
use vr_core::browser::FileEntry;

fn entry(name: &str, is_dir: bool) -> FileEntry {
    FileEntry { name: String::from(name), is_dir }
}

#[test]
fn listing_filters_sorts_and_keeps_dirs_first() {
    let mut b = FileBrowser::new();
    assert!(b.needs_refresh);
    let raw = vec![
        entry("zeta.mp4", false),
        entry("Movies", true),
        entry(".hidden", false),
        entry("alpha.MKV", false),
        entry("notes.txt", false),
        entry("downloads", true),
        entry(".cache", true),
        entry("Beta.webm", false),
    ];
    b.apply_listing(raw);
    assert!(!b.needs_refresh);
    assert_eq!(b.selected_index, 0);
    // Hidden names and non-video files are gone; directories come
    // first, each group sorted by case-folded name; extension matching
    // folds case too.
    let names: Vec<&str> = b.entries.iter().map(|e| e.name.as_str()).collect();
    assert_eq!(names, vec!["downloads", "Movies", "alpha.MKV", "Beta.webm", "zeta.mp4"]);
    assert!(b.entries[0].is_dir && b.entries[1].is_dir);
    assert!(!b.entries[2].is_dir && !b.entries[3].is_dir && !b.entries[4].is_dir);
}

#[test]
fn listing_adds_parent_entry_below_root() {
    let mut b = FileBrowser::new();
    b.apply_listing(vec![entry("Movies", true)]);
    // At the starting root there is no way up.
    assert_eq!(b.entries[0].name.as_str(), "Movies");
    b.select_current();
    assert!(b.needs_refresh);
    assert_eq!(b.current_path.last().map(|c| c.as_str()), Some("Movies"));
    // One level down the listing starts with the parent pseudo-entry.
    b.apply_listing(vec![entry("clip.mp4", false)]);
    assert_eq!(b.entries[0].name.as_str(), "..");
    assert!(b.entries[0].is_dir);
    assert_eq!(b.entries[1].name.as_str(), "clip.mp4");
}

#[test]
fn selection_moves_stop_at_both_ends() {
    let mut b = FileBrowser::new();
    b.apply_listing(vec![entry("a.mp4", false), entry("b.mp4", false), entry("c.mp4", false)]);
    b.move_up();
    assert_eq!(b.selected_index, 0);
    b.move_down();
    b.move_down();
    assert_eq!(b.selected_index, 2);
    b.move_down();
    assert_eq!(b.selected_index, 2);
    b.move_up();
    assert_eq!(b.selected_index, 1);
}

#[test]
fn selecting_a_file_closes_browser_and_hands_out_full_path() {
    let mut b = FileBrowser::new();
    b.visible = true;
    b.apply_listing(vec![entry("Movies", true)]);
    b.select_current();
    b.apply_listing(vec![entry("clip.mp4", false)]);
    // Skip the parent entry, pick the file.
    b.move_down();
    b.select_current();
    assert!(!b.visible);
    let path = b.take_selected_file().expect("a file was chosen");
    let parts: Vec<&str> = path.iter().map(|c| c.as_str()).collect();
    assert_eq!(parts, vec!["storage", "emulated", "0", "Movies", "clip.mp4"]);
    // Take-once: a second take yields nothing.
    assert!(b.take_selected_file().is_none());
}

#[test]
fn parent_entry_and_go_back_climb_but_never_above_root() {
    let mut b = FileBrowser::new();
    b.apply_listing(vec![entry("Movies", true)]);
    b.select_current();
    assert_eq!(b.current_path.len(), 4);
    // Selecting the parent pseudo-entry climbs one level.
    b.apply_listing(vec![entry("clip.mp4", false)]);
    b.select_current();
    assert_eq!(b.current_path.len(), 3);
    // At the root, going back changes nothing.
    b.go_back();
    assert_eq!(b.current_path.len(), 3);
    let parts: Vec<&str> = b.current_path.iter().map(|c| c.as_str()).collect();
    assert_eq!(parts, vec!["storage", "emulated", "0"]);
}

#[test]
fn go_back_requests_a_fresh_listing() {
    let mut b = FileBrowser::new();
    b.apply_listing(vec![entry("Movies", true)]);
    b.select_current();
    b.apply_listing(vec![]);
    assert!(!b.needs_refresh);
    b.go_back();
    assert!(b.needs_refresh);
    assert_eq!(b.current_path.len(), 3);
}

#[test]
fn read_error_is_kept_for_display() {
    let mut b = FileBrowser::new();
    b.apply_listing(vec![entry("a.mp4", false)]);
    b.set_error(String::from("permission denied"));
    assert_eq!(b.entries.len(), 0);
    assert_eq!(b.error_msg.as_deref(), Some("permission denied"));
    // A later successful listing clears the error.
    b.apply_listing(vec![entry("a.mp4", false)]);
    assert!(b.error_msg.is_none());
}

#[test]
fn select_with_no_entries_is_a_no_op() {
    let mut b = FileBrowser::new();
    b.apply_listing(vec![]);
    b.select_current();
    assert_eq!(b.current_path.len(), 3);
    assert!(b.take_selected_file().is_none());
}

#[test]
fn all_video_extensions_are_recognized() {
    let mut b = FileBrowser::new();
    let raw = vec![
        entry("a.mp4", false),
        entry("b.mkv", false),
        entry("c.avi", false),
        entry("d.webm", false),
        entry("e.mov", false),
        entry("f.m4v", false),
        entry("g.3gp", false),
        entry("h.gif", false),
        entry("mp4", false),
    ];
    b.apply_listing(raw);
    // The seven container formats stay and the image is dropped. A name
    // without any dot is its own extension when split from the right,
    // so the bare name "mp4" counts as a video too.
    assert_eq!(b.entries.len(), 8);
    assert!(b.entries.iter().all(|e| e.name.as_str() != "h.gif"));
}
