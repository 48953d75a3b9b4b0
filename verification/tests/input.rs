use mustream::action::{Action, ApiCall, PlayRequest};
use mustream::app::App;
use mustream::background::BackgroundEvent;
use mustream::model::{
    AppState, BrowseResponse, InputMode, KeyCode, KeyEvent, KeyEventKind, PanelFocus, Repeat,
    Song, YtResult,
};

const SEC: u128 = 1_000_000_000;

fn song(id: i64) -> Song {
    Song {
        id,
        title: format!("t{}", id),
        artist: "a".to_string(),
        album: String::new(),
        path: format!("Music/{}.mp3", id),
        duration: 60,
    }
}

fn show(app: &mut App, path: &str, dirs: &[&str], ids: &[i64]) {
    let browse = BrowseResponse {
        path: path.to_string(),
        dirs: dirs.iter().map(|d| d.to_string()).collect(),
        songs: ids.iter().map(|id| song(*id)).collect(),
    };
    app.handle_background(BackgroundEvent::BrowseResult(Ok(browse)), 0);
}

fn find(app: &mut App, urls: &[&str]) {
    let results = urls
        .iter()
        .map(|u| YtResult {
            title: format!("video {}", u),
            channel: "ch".to_string(),
            duration: 9,
            url: u.to_string(),
        })
        .collect();
    app.handle_background(BackgroundEvent::SearchResult(Ok(results)), 0);
}

fn press(app: &mut App, code: KeyCode) -> Action {
    app.handle_key(KeyEvent { code, kind: KeyEventKind::Press }, 100 * SEC)
}

fn key(app: &mut App, c: char) -> Action {
    press(app, KeyCode::Char(c))
}

fn write(app: &mut App, text: &str) {
    for c in text.chars() {
        assert_eq!(key(app, c), Action::Idle);
    }
}

#[test]
fn keys_that_are_let_go_do_nothing() {
    let mut app = App::new();
    let event = KeyEvent { code: KeyCode::Char('q'), kind: KeyEventKind::Release };
    assert_eq!(app.handle_key(event, 0), Action::Idle);
    let event = KeyEvent { code: KeyCode::Char('q'), kind: KeyEventKind::Repeat };
    assert_eq!(app.handle_key(event, 0), Action::Quit);
}

#[test]
fn tab_switches_the_panel() {
    let mut app = App::new();
    press(&mut app, KeyCode::Tab);
    assert_eq!(app.active_panel, PanelFocus::Downloader);
    press(&mut app, KeyCode::Tab);
    assert_eq!(app.active_panel, PanelFocus::Library);
}

#[test]
fn the_mode_key_goes_through_six_modes() {
    let mut app = App::new();
    let mut modes = Vec::new();
    for _ in 0..6 {
        assert_eq!(key(&mut app, 'c'), Action::Idle);
        modes.push((app.is_shuffling, app.repeat));
    }
    assert_eq!(
        modes,
        vec![
            (true, Repeat::Off),
            (false, Repeat::All),
            (true, Repeat::All),
            (false, Repeat::One),
            (true, Repeat::One),
            (false, Repeat::Off),
        ]
    );
}

#[test]
fn the_selection_goes_round_in_the_library() {
    let mut app = App::new();
    key(&mut app, 'j');
    assert_eq!(app.library_selected, None);
    show(&mut app, "", &["a", "b"], &[1]);
    assert_eq!(app.library_selected, Some(0));
    key(&mut app, 'k');
    assert_eq!(app.library_selected, Some(2));
    press(&mut app, KeyCode::Down);
    assert_eq!(app.library_selected, Some(0));
    key(&mut app, 'j');
    assert_eq!(app.library_selected, Some(1));
    press(&mut app, KeyCode::Up);
    assert_eq!(app.library_selected, Some(0));
}

#[test]
fn the_selection_goes_round_in_the_results() {
    let mut app = App::new();
    press(&mut app, KeyCode::Tab);
    key(&mut app, 'k');
    assert_eq!(app.downloader_selected, None);
    find(&mut app, &["x", "y", "z"]);
    key(&mut app, 'k');
    assert_eq!(app.downloader_selected, Some(2));
    key(&mut app, 'j');
    press(&mut app, KeyCode::Down);
    assert_eq!(app.downloader_selected, Some(1));
    press(&mut app, KeyCode::Up);
    assert_eq!(app.downloader_selected, Some(0));
}

#[test]
fn the_play_key_starts_pauses_and_goes_on() {
    let mut app = App::new();
    assert_eq!(key(&mut app, 's'), Action::Idle);
    show(&mut app, "", &["d"], &[1, 2]);
    assert_eq!(key(&mut app, 's'), Action::Idle);
    app.library_selected = Some(2);
    press(&mut app, KeyCode::Tab);
    assert_eq!(key(&mut app, 's'), Action::Idle);
    press(&mut app, KeyCode::Tab);
    let expected = Action::PlaySong { request: PlayRequest::Library, song: song(2) };
    assert_eq!(key(&mut app, 's'), expected);
    app.finish_song(PlayRequest::Library, song(2), Ok(()), 100 * SEC);
    assert_eq!(key(&mut app, 's'), Action::PauseSink);
    assert_eq!(app.state, AppState::Paused);
    assert_eq!(key(&mut app, 's'), Action::ResumeSink);
    assert_eq!(app.state, AppState::Playing);
    assert_eq!(press(&mut app, KeyCode::Esc), Action::StopSink);
    assert_eq!(app.state, AppState::Normal);
}

#[test]
fn arrows_go_through_the_queue() {
    let mut app = App::new();
    show(&mut app, "", &[], &[1, 2]);
    press(&mut app, KeyCode::Enter);
    let next = Action::PlaySong { request: PlayRequest::Next, song: song(2) };
    assert_eq!(press(&mut app, KeyCode::Right), next);
    let previous = Action::PlaySong { request: PlayRequest::Previous, song: song(1) };
    assert_eq!(press(&mut app, KeyCode::Left), previous);
    assert_eq!(key(&mut app, '>'), next);
    assert_eq!(key(&mut app, '<'), previous);
}

#[test]
fn entering_a_folder_asks_for_it_and_back_asks_for_its_parent() {
    let mut app = App::new();
    assert_eq!(key(&mut app, 'l'), Action::Idle);
    assert_eq!(key(&mut app, 'h'), Action::Idle);
    show(&mut app, "", &["Jazz"], &[]);
    let browse = |path: &str| Action::Call(ApiCall::Browse { path: path.to_string() });
    assert_eq!(key(&mut app, 'l'), browse("Jazz"));
    assert!(app.library_loading);
    show(&mut app, "Jazz", &["1959"], &[]);
    assert!(!app.library_loading);
    assert_eq!(press(&mut app, KeyCode::Enter), browse("Jazz/1959"));
    show(&mut app, "Jazz/1959", &[], &[4]);
    assert_eq!(key(&mut app, 'h'), browse("Jazz"));
    show(&mut app, "Jazz", &["1959"], &[]);
    assert_eq!(key(&mut app, 'h'), browse(""));
}

#[test]
fn enter_on_a_song_plays_it() {
    let mut app = App::new();
    show(&mut app, "", &[], &[7]);
    let expected = Action::PlaySong { request: PlayRequest::Library, song: song(7) };
    assert_eq!(press(&mut app, KeyCode::Enter), expected);
}

#[test]
fn a_new_folder_is_named_and_asked_for() {
    let mut app = App::new();
    show(&mut app, "Jazz", &[], &[]);
    key(&mut app, 'n');
    assert_eq!(app.input_mode, InputMode::Mkdir);
    write(&mut app, " qu");
    press(&mut app, KeyCode::Backspace);
    write(&mut app, "x ");
    let expected = Action::Call(ApiCall::Mkdir { path: "Jazz/qx".to_string() });
    assert_eq!(press(&mut app, KeyCode::Enter), expected);
    assert_eq!(app.input_mode, InputMode::Inactive);
    assert!(app.library_loading);
    key(&mut app, 'n');
    assert_eq!(app.input_value, "");
    write(&mut app, "  ");
    assert_eq!(press(&mut app, KeyCode::Enter), Action::Idle);
    key(&mut app, 'n');
    assert_eq!(press(&mut app, KeyCode::Backspace), Action::Idle);
    assert_eq!(press(&mut app, KeyCode::Tab), Action::Idle);
    assert_eq!(app.input_mode, InputMode::Mkdir);
    assert_eq!(press(&mut app, KeyCode::Esc), Action::Idle);
    assert_eq!(app.input_mode, InputMode::Inactive);
    show(&mut app, "", &[], &[]);
    key(&mut app, 'n');
    write(&mut app, "top");
    let expected = Action::Call(ApiCall::Mkdir { path: "top".to_string() });
    assert_eq!(press(&mut app, KeyCode::Enter), expected);
}

#[test]
fn a_search_is_typed_and_sent() {
    let mut app = App::new();
    assert_eq!(key(&mut app, '/'), Action::Idle);
    assert_eq!(app.input_mode, InputMode::Inactive);
    press(&mut app, KeyCode::Tab);
    key(&mut app, '/');
    assert_eq!(app.input_mode, InputMode::Search);
    write(&mut app, " quiet jazz ");
    let expected = Action::Call(ApiCall::Search { query: "quiet jazz".to_string() });
    assert_eq!(press(&mut app, KeyCode::Enter), expected);
    assert_eq!(app.yt_query, "quiet jazz");
    assert!(app.downloader_loading);
    key(&mut app, '/');
    assert_eq!(press(&mut app, KeyCode::Enter), Action::Idle);
    assert_eq!(app.yt_query, "quiet jazz");
    key(&mut app, '/');
    assert_eq!(press(&mut app, KeyCode::Esc), Action::Idle);
    assert_eq!(app.input_mode, InputMode::Inactive);
}

#[test]
fn deleting_asks_first() {
    let mut app = App::new();
    assert_eq!(key(&mut app, 'x'), Action::Idle);
    assert_eq!(app.input_mode, InputMode::Inactive);
    show(&mut app, "Jazz", &["old"], &[3]);
    assert_eq!(key(&mut app, 'x'), Action::Idle);
    assert_eq!(app.input_mode, InputMode::DeleteConfirm("Jazz/old".to_string()));
    assert_eq!(key(&mut app, 'q'), Action::Idle);
    assert_eq!(key(&mut app, 'n'), Action::Idle);
    assert_eq!(app.input_mode, InputMode::Inactive);
    key(&mut app, 'j');
    assert_eq!(key(&mut app, 'd'), Action::Idle);
    assert_eq!(app.input_mode, InputMode::DeleteConfirm("Music/3.mp3".to_string()));
    let expected = Action::Call(ApiCall::Delete { path: "Music/3.mp3".to_string() });
    assert_eq!(key(&mut app, 'Y'), expected);
    assert!(app.library_loading);
    assert_eq!(app.input_mode, InputMode::Inactive);
    key(&mut app, 'x');
    assert_eq!(press(&mut app, KeyCode::Esc), Action::Idle);
    key(&mut app, 'x');
    assert_eq!(key(&mut app, 'N'), Action::Idle);
    key(&mut app, 'x');
    assert_eq!(key(&mut app, 'y'), expected);
}

#[test]
fn downloads_go_to_the_chosen_folder() {
    let mut app = App::new();
    show(&mut app, "", &["Jazz", "Rock"], &[]);
    press(&mut app, KeyCode::Tab);
    assert_eq!(key(&mut app, 'd'), Action::Idle);
    find(&mut app, &["u1", "u2"]);
    let download = |folder: Option<&str>| {
        Action::Call(ApiCall::Download {
            url: "u1".to_string(),
            folder: folder.map(|f| f.to_string()),
        })
    };
    assert_eq!(press(&mut app, KeyCode::Enter), download(None));
    assert_eq!(app.status_message.as_deref(), Some("Downloading..."));
    assert_eq!(app.status_expiry, Some(160 * SEC));
    assert!(app.downloader_loading);
    key(&mut app, 'f');
    assert_eq!(key(&mut app, 'd'), download(Some("Jazz")));
    key(&mut app, 'f');
    assert_eq!(key(&mut app, 'd'), download(Some("Rock")));
    key(&mut app, 'f');
    assert_eq!(key(&mut app, 'd'), download(None));
}

#[test]
fn the_download_folder_can_get_lost_and_is_found_again() {
    let mut app = App::new();
    key(&mut app, 'f');
    show(&mut app, "", &["Jazz", "Rock"], &[]);
    press(&mut app, KeyCode::Tab);
    key(&mut app, 'f');
    key(&mut app, 'f');
    assert_eq!(app.selected_save_dir_idx, 2);
    assert!(app.is_save_dir_in_range());
    show(&mut app, "", &["Jazz"], &[]);
    assert_eq!(app.selected_save_dir_idx, 2);
    assert!(!app.is_save_dir_in_range());
    assert!(!app.is_drawable_at(0));
    key(&mut app, 'f');
    assert!(app.is_save_dir_in_range());
    show(&mut app, "", &[], &[]);
    key(&mut app, 'f');
    assert_eq!(app.selected_save_dir_idx, 0);
}

#[test]
fn previews_are_asked_for_by_id() {
    let mut app = App::new();
    press(&mut app, KeyCode::Tab);
    assert_eq!(key(&mut app, 'p'), Action::Idle);
    find(&mut app, &["https://y/watch?v=ab&t=1"]);
    let expected = Action::Call(ApiCall::Preview {
        title: "video https://y/watch?v=ab&t=1".to_string(),
        video_id: "ab".to_string(),
    });
    assert_eq!(key(&mut app, 'p'), expected);
    assert_eq!(app.status_message.as_deref(), Some("Streaming preview..."));
    assert_eq!(app.status_expiry, Some(110 * SEC));
    assert_eq!(key(&mut app, ' '), expected);
}

#[test]
fn keys_without_a_command_do_nothing() {
    let mut app = App::new();
    assert_eq!(press(&mut app, KeyCode::Other), Action::Idle);
    assert_eq!(press(&mut app, KeyCode::Backspace), Action::Idle);
    assert_eq!(key(&mut app, 'z'), Action::Idle);
    press(&mut app, KeyCode::Tab);
    assert_eq!(key(&mut app, 'x'), Action::Idle);
    assert_eq!(key(&mut app, 'h'), Action::Idle);
}

#[test]
fn every_navigation_key_is_undone_by_every_opposite() {
    let downs = [KeyCode::Char('j'), KeyCode::Down];
    let ups = [KeyCode::Char('k'), KeyCode::Up];
    let mut app = App::new();
    show(&mut app, "", &["a", "b"], &[1]);
    find(&mut app, &["x", "y"]);
    for _ in 0..2 {
        for down in downs {
            for up in ups {
                let before = (app.library_selected, app.downloader_selected);
                press(&mut app, down);
                press(&mut app, up);
                assert_eq!((app.library_selected, app.downloader_selected), before);
                press(&mut app, up);
                press(&mut app, down);
                assert_eq!((app.library_selected, app.downloader_selected), before);
            }
        }
        press(&mut app, KeyCode::Tab);
    }
    for n in 1..10_usize {
        press(&mut app, KeyCode::Up);
        assert_eq!(app.library_selected, Some((3 * n - n) % 3));
    }
}

#[test]
fn either_key_enters_folders_and_plays_songs() {
    for code in [KeyCode::Enter, KeyCode::Char('l')] {
        let mut app = App::new();
        show(&mut app, "a", &["b"], &[]);
        let expected = Action::Call(ApiCall::Browse { path: "a/b".to_string() });
        assert_eq!(press(&mut app, code), expected);
        show(&mut app, "a/b", &[], &[5]);
        let expected = Action::PlaySong { request: PlayRequest::Library, song: song(5) };
        assert_eq!(press(&mut app, code), expected);
        let expected = Action::Call(ApiCall::Browse { path: "a".to_string() });
        assert_eq!(key(&mut app, 'h'), expected);
    }
}
