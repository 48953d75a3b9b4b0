use mustream::action::PlayRequest;
use mustream::app::App;
use mustream::background::BackgroundEvent;
use mustream::model::{BrowseResponse, InputMode, PanelFocus, Repeat, Song, YtResult};
use mustream::screen::{percent_of, Footer, LibraryRow, ResultRow};

const SEC: u128 = 1_000_000_000;

fn song(id: i64, duration: i64) -> Song {
    Song {
        id,
        title: format!("t{}", id),
        artist: "art".to_string(),
        album: String::new(),
        path: String::new(),
        duration,
    }
}

fn player() -> App {
    let mut app = App::new();
    let browse = BrowseResponse {
        path: String::new(),
        dirs: vec!["Jazz".to_string()],
        songs: vec![song(1, 200), song(2, 65)],
    };
    app.handle_background(BackgroundEvent::BrowseResult(Ok(browse)), 0);
    app
}

#[test]
fn a_silent_player_is_shown() {
    let screen = App::new().screen(0);
    assert_eq!(screen.play_icon, "⏹ ");
    assert_eq!(screen.playing_title, "Not playing");
    assert_eq!(screen.percent, 0);
    assert_eq!(screen.progress_label, "0:00 / 0:00");
    assert_eq!((screen.shuffle_on, screen.shuffle_label.as_str()), (false, "OFF"));
    assert_eq!((screen.repeat_on, screen.repeat_label.as_str()), (false, "OFF"));
    assert!(screen.library_focused && !screen.downloader_focused);
    assert_eq!(screen.library_title, " Library: Music/ ");
    assert_eq!(screen.query_line, " Query: (Press / to search YouTube)");
    assert_eq!(screen.save_dir, "Music/ (自動)");
    assert_eq!(screen.footer, Footer::Ready("Ready".to_string()));
    assert!(screen.guide.starts_with("Tab: Switch Panel | j/k: Navigate | l/Enter"));
}

#[test]
fn a_song_that_plays_is_shown() {
    let mut app = player();
    app.finish_song(PlayRequest::Library, song(1, 200), Ok(()), 0);
    let screen = app.screen(50 * SEC + 1);
    assert_eq!(screen.play_icon, "▶ ");
    assert_eq!(screen.playing_title, "t1 - art");
    assert_eq!(screen.percent, 25);
    assert_eq!(screen.progress_label, "0:50 / 3:20");
    app.pause_playback(50 * SEC);
    assert_eq!(app.screen(900 * SEC).play_icon, "⏸ ");
    assert_eq!(app.screen(900 * SEC).percent, 25);
}

#[test]
fn entries_are_shown() {
    let mut app = player();
    app.finish_song(PlayRequest::Library, song(2, 65), Ok(()), 0);
    let rows = app.screen(0).library_rows;
    assert_eq!(rows[0], LibraryRow::Folder { icon: "📁 ".to_string(), name: "Jazz".to_string() });
    let track = |playing, icon: &str, title: &str, duration: &str| LibraryRow::Track {
        playing,
        icon: icon.to_string(),
        title: title.to_string(),
        artist: " - art ".to_string(),
        duration: duration.to_string(),
    };
    assert_eq!(rows[1], track(false, "🎵 ", "t1", "(3:20)"));
    assert_eq!(rows[2], track(true, "▶ ", "t2", "(1:05)"));
    assert_eq!(rows.len(), 3);
    app.trigger_browse(String::new());
    let screen = app.screen(0);
    assert!(screen.library_loading);
    assert!(screen.library_rows.is_empty());
}

#[test]
fn search_results_are_shown() {
    let mut app = App::new();
    let result = YtResult {
        title: "clip".to_string(),
        channel: "chan".to_string(),
        duration: 61,
        url: "u".to_string(),
    };
    app.handle_background(BackgroundEvent::SearchResult(Ok(vec![result])), 0);
    app.yt_query = "jazz".to_string();
    let screen = app.screen(0);
    assert_eq!(screen.query_line, " Query: jazz");
    assert_eq!(screen.downloader_selected, Some(0));
    let row = ResultRow {
        icon: "🔍 ".to_string(),
        title: "clip".to_string(),
        channel: " - chan ".to_string(),
        duration: "(1:01)".to_string(),
    };
    assert_eq!(screen.result_rows, vec![row]);
    app.trigger_search("x".to_string());
    assert!(app.screen(0).result_rows.is_empty());
}

#[test]
fn modes_and_folders_are_shown() {
    let mut app = player();
    app.is_shuffling = true;
    app.repeat = Repeat::One;
    app.selected_save_dir_idx = 1;
    app.active_panel = PanelFocus::Downloader;
    app.current_path = "a/b".to_string();
    let screen = app.screen(0);
    assert_eq!((screen.shuffle_on, screen.shuffle_label.as_str()), (true, "ON"));
    assert_eq!((screen.repeat_on, screen.repeat_label.as_str()), (true, "ONE"));
    assert_eq!(screen.save_dir, "Music/Jazz/");
    assert_eq!(screen.library_title, " Library: Music/a/b ");
    assert!(screen.downloader_focused && !screen.library_focused);
    assert!(screen.guide.contains("f: Cycles save folder"));
    app.repeat = Repeat::All;
    assert_eq!(app.screen(0).repeat_label, "ALL");
}

#[test]
fn the_footer_follows_the_input() {
    let mut app = App::new();
    app.set_status("hi".to_string(), 5, 0);
    assert_eq!(app.screen(0).footer, Footer::Status("hi".to_string()));
    app.input_value = "ab".to_string();
    app.input_mode = InputMode::Search;
    assert!(app.screen(0).search_active);
    assert_eq!(app.screen(0).footer, Footer::Input("Search YT: ab▋".to_string()));
    app.input_mode = InputMode::Mkdir;
    assert!(!app.screen(0).search_active);
    assert_eq!(app.screen(0).footer, Footer::Input("New Folder Name: ab▋".to_string()));
    app.input_mode = InputMode::DeleteConfirm("p".to_string());
    assert_eq!(app.screen(0).footer, Footer::Warning("Delete 'p'? (y/n) ".to_string()));
}

#[test]
fn percentages_are_rounded_down_and_bounded() {
    assert_eq!(percent_of(0, 0), 0);
    assert_eq!(percent_of(7, 0), 0);
    assert_eq!(percent_of(1, 3), 33);
    assert_eq!(percent_of(3, 3), 100);
    assert_eq!(percent_of(9, 3), 100);
    assert_eq!(percent_of(656, 1), 64);
}

#[test]
fn a_negative_length_is_shown_with_its_sign() {
    let mut app = player();
    app.finish_song(PlayRequest::Library, song(9, -65), Ok(()), 0);
    let screen = app.screen(10 * SEC);
    assert_eq!(screen.percent, 0);
    assert_eq!(screen.progress_label, "0:10 / -1:-5");
}

#[test]
fn what_cannot_be_shown_is_told() {
    let mut app = player();
    assert!(app.is_drawable_at(0));
    app.selected_save_dir_idx = 2;
    assert!(!app.is_drawable_at(0));
    app.selected_save_dir_idx = 0;
    app.finish_song(PlayRequest::Library, song(1, 200), Ok(()), 0);
    let limit = (u64::MAX / 100) as u128;
    assert!(app.is_drawable_at(limit * SEC));
    assert!(!app.is_drawable_at((limit + 1) * SEC));
}
