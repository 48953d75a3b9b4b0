use mustream::action::{Action, ApiCall};
use mustream::app::App;
use mustream::background::BackgroundEvent;
use mustream::model::{collect_songs, folder_names, list_entries, BrowseResponse, Song, YtResult};
use mustream::queue::position_of;

const SEC: u128 = 1_000_000_000;

fn song(id: i64) -> Song {
    Song {
        id,
        title: format!("t{}", id),
        artist: "a".to_string(),
        album: String::new(),
        path: format!("{}.mp3", id),
        duration: 60,
    }
}

fn browse(path: &str, dirs: &[&str], ids: &[i64]) -> BackgroundEvent {
    BackgroundEvent::BrowseResult(Ok(BrowseResponse {
        path: path.to_string(),
        dirs: dirs.iter().map(|d| d.to_string()).collect(),
        songs: ids.iter().map(|id| song(*id)).collect(),
    }))
}

#[test]
fn folders_come_before_songs() {
    let items = list_entries(vec!["x".to_string(), "y".to_string()], vec![song(1), song(2)]);
    let names: Vec<&str> = items.iter().map(|i| i.name.as_str()).collect();
    assert_eq!(names, vec!["x", "y", "t1", "t2"]);
    assert!(items[0].is_dir && items[0].song.is_none());
    assert!(!items[2].is_dir && items[2].song == Some(song(1)));
    assert_eq!(folder_names(&items), vec!["x".to_string(), "y".to_string()]);
    let songs = collect_songs(&items);
    assert_eq!(songs, vec![song(1), song(2)]);
    assert_eq!(position_of(&songs, 2), 1);
    assert_eq!(position_of(&songs, 3), 2);
}

#[test]
fn a_listing_replaces_the_library() {
    let mut app = App::new();
    app.trigger_browse(String::new());
    assert!(app.library_loading);
    assert_eq!(app.handle_background(browse("", &["x", "y"], &[1]), 0), Action::Idle);
    assert!(!app.library_loading);
    assert_eq!(app.library_items.len(), 3);
    assert_eq!(app.top_dirs, vec!["x".to_string(), "y".to_string()]);
    app.handle_background(browse("x", &["z"], &[]), 0);
    assert_eq!(app.current_path, "x");
    assert_eq!(app.top_dirs, vec!["x".to_string(), "y".to_string()]);
}

#[test]
fn the_selection_is_kept_in_bounds() {
    let mut app = App::new();
    app.handle_background(browse("", &["x", "y"], &[1, 2]), 0);
    assert_eq!(app.library_selected, Some(0));
    app.library_selected = Some(3);
    app.handle_background(browse("", &["x", "y"], &[1, 2]), 0);
    assert_eq!(app.library_selected, Some(3));
    app.handle_background(browse("", &["x"], &[1]), 0);
    assert_eq!(app.library_selected, Some(1));
    app.handle_background(browse("", &[], &[]), 0);
    assert_eq!(app.library_selected, None);
}

#[test]
fn results_are_shown_from_the_first() {
    let mut app = App::new();
    let result = YtResult {
        title: "t".to_string(),
        channel: "c".to_string(),
        duration: 1,
        url: "u".to_string(),
    };
    app.trigger_search("q".to_string());
    assert!(app.downloader_loading);
    app.handle_background(BackgroundEvent::SearchResult(Ok(vec![result])), 0);
    assert!(!app.downloader_loading);
    assert_eq!(app.downloader_selected, Some(0));
    assert_eq!(app.yt_results.len(), 1);
    app.handle_background(BackgroundEvent::SearchResult(Ok(vec![])), 0);
    assert_eq!(app.downloader_selected, None);
}

#[test]
fn changes_are_followed_by_a_new_listing() {
    let events = vec![
        (BackgroundEvent::DownloadResult(Ok("done".to_string())), "done", 5),
        (BackgroundEvent::MkdirResult(Ok(())), "Folder created successfully", 4),
        (BackgroundEvent::DeleteResult(Ok(())), "Deleted successfully", 4),
    ];
    for (event, message, secs) in events {
        let mut app = App::new();
        app.handle_background(browse("x/y", &[], &[]), 0);
        let action = app.handle_background(event, SEC);
        assert_eq!(action, Action::Call(ApiCall::Browse { path: "x/y".to_string() }));
        assert!(app.library_loading);
        assert_eq!(app.status_message.as_deref(), Some(message));
        assert_eq!(app.status_expiry, Some((1 + secs) * SEC));
    }
}

#[test]
fn failures_leave_a_message() {
    let e = || "oops".to_string();
    let events = vec![
        (BackgroundEvent::BrowseResult(Err(e())), "Browse error: oops", 5),
        (BackgroundEvent::SearchResult(Err(e())), "Search error: oops", 5),
        (BackgroundEvent::DownloadResult(Err(e())), "oops", 6),
        (BackgroundEvent::MkdirResult(Err(e())), "Mkdir failed: oops", 5),
        (BackgroundEvent::DeleteResult(Err(e())), "Delete failed: oops", 5),
        (BackgroundEvent::PreviewBytesResult(Err(e())), "Preview stream error: oops", 5),
    ];
    for (event, message, secs) in events {
        let mut app = App::new();
        app.handle_background(browse("x", &["d"], &[1]), 0);
        assert_eq!(app.handle_background(event, SEC), Action::Idle);
        assert_eq!(app.status_message.as_deref(), Some(message));
        assert_eq!(app.status_expiry, Some((1 + secs) * SEC));
        assert_eq!(app.library_items.len(), 2);
        assert!(!app.library_loading && !app.downloader_loading);
    }
}

#[test]
fn a_preview_that_came_is_played() {
    let mut app = App::new();
    app.trigger_preview("t".to_string(), "id".to_string());
    assert!(app.downloader_loading);
    let event = BackgroundEvent::PreviewBytesResult(Ok(("t".to_string(), vec![1, 2])));
    let action = app.handle_background(event, 0);
    assert_eq!(action, Action::PlayPreview { title: "t".to_string(), bytes: vec![1, 2] });
    assert!(!app.downloader_loading);
}

#[test]
fn requests_mark_their_panel_as_loading() {
    let mut app = App::new();
    app.trigger_mkdir("p".to_string());
    assert!(app.library_loading && !app.downloader_loading);
    let mut app = App::new();
    app.trigger_delete("p".to_string());
    assert!(app.library_loading && !app.downloader_loading);
    let mut app = App::new();
    app.trigger_download("u".to_string(), None);
    assert!(!app.library_loading && app.downloader_loading);
}
