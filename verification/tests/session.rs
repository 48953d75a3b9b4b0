use mustream::action::{Action, ApiCall, PlayRequest};
use mustream::app::App;
use mustream::background::BackgroundEvent;
use mustream::model::{
    AppState, BrowseResponse, InputMode, KeyCode, KeyEvent, KeyEventKind, PanelFocus, Repeat,
    Song, YtResult,
};
use mustream::screen::Footer;

const SEC: u128 = 1_000_000_000;

fn song(id: i64) -> Song {
    Song {
        id,
        title: format!("t{}", id),
        artist: "a".to_string(),
        album: String::new(),
        path: format!("{}.mp3", id),
        duration: 30,
    }
}

fn result(i: usize) -> YtResult {
    YtResult {
        title: format!("v{}", i),
        channel: "c".to_string(),
        duration: 3,
        url: format!("https://y/watch?v=id{}&x", i),
    }
}

fn listing(path: &str, dirs: usize, songs: usize) -> BackgroundEvent {
    BackgroundEvent::BrowseResult(Ok(BrowseResponse {
        path: path.to_string(),
        dirs: (0..dirs).map(|i| format!("d{}", i)).collect(),
        songs: (0..songs).map(|i| song(i as i64)).collect(),
    }))
}

fn press(app: &mut App, code: KeyCode, now: u128) -> Action {
    app.handle_key(KeyEvent { code, kind: KeyEventKind::Press }, now)
}

fn selection_fits(selected: Option<usize>, len: usize) -> bool {
    match selected {
        Some(i) => i < len,
        None => len == 0,
    }
}

fn is_sound(app: &App) -> bool {
    selection_fits(app.library_selected, app.library_items.len())
        && selection_fits(app.downloader_selected, app.yt_results.len())
        && app.library_items.iter().all(|i| i.is_dir == i.song.is_none())
        && (app.queue.is_empty() || app.queue_idx < app.queue.len())
        && (app.state == AppState::Playing) == app.playback_start.is_some()
        && (app.state == AppState::Normal) == app.currently_playing_title.is_none()
        && app.status_message.is_some() == app.status_expiry.is_some()
}

fn shape(app: &App) -> (String, usize, usize, usize) {
    (app.current_path.clone(), app.library_items.len(), app.yt_results.len(), app.top_dirs.len())
}

#[test]
fn a_long_session_stays_sound() {
    let codes = [
        KeyCode::Enter,
        KeyCode::Esc,
        KeyCode::Backspace,
        KeyCode::Tab,
        KeyCode::Left,
        KeyCode::Right,
        KeyCode::Up,
        KeyCode::Down,
        KeyCode::Other,
    ];
    let letters: Vec<char> = "scjklhnxdpfyYnN/<> ".chars().collect();
    let mut seed: u64 = 12345;
    let mut pick = |n: usize| {
        seed = seed.wrapping_mul(6364136223846793005).wrapping_add(1442695040888963407);
        (seed >> 33) as usize % n
    };
    let mut app = App::new();
    let mut now: u128 = 0;
    for _ in 0..20_000 {
        now += (pick(3_000) as u128) * (SEC / 1000);
        let mut action = match pick(10) {
            0 => app.handle_background(listing("", 3 + pick(3), pick(5)), now),
            1 => app.handle_background(listing("d0/e", pick(3), pick(5)), now),
            2 => {
                let results = (0..pick(4)).map(result).collect();
                app.handle_background(BackgroundEvent::SearchResult(Ok(results)), now)
            }
            3 => app.autoplay(pick(2) == 0),
            4 => app.handle_background(BackgroundEvent::MkdirResult(Err("e".to_string())), now),
            n => {
                let before = shape(&app);
                let code = if n < 7 {
                    codes[pick(codes.len())]
                } else {
                    KeyCode::Char(letters[pick(letters.len())])
                };
                let asked = app.input_mode.clone();
                assert!(app.is_ready_at(now));
                if !app.is_save_dir_in_range() {
                    app.selected_save_dir_idx = 0;
                }
                let action = press(&mut app, code, now);
                assert_eq!(shape(&app), before);
                if let Action::Call(ApiCall::Delete { path }) = &action {
                    assert_eq!(asked, InputMode::DeleteConfirm(path.clone()));
                }
                action
            }
        };
        while let Action::PlaySong { request, song } = action {
            let loaded = if pick(5) == 0 { Err("e".to_string()) } else { Ok(()) };
            action = app.finish_song(request, song, loaded, now);
        }
        app.check_status_expiry(now);
        assert!(is_sound(&app));
        assert!(app.current_elapsed(now) <= now);
        if app.is_drawable_at(now) {
            assert!(app.screen(now).percent <= 100);
        }
    }
}

#[test]
fn the_player_plays_its_queue_to_the_end() {
    let mut app = App::new();
    app.handle_background(listing("", 1, 4), 0);
    app.start_queue_from_library(2);
    app.finish_song(PlayRequest::Library, song(1), Ok(()), 0);
    let mut played = Vec::new();
    let mut now = 0;
    loop {
        now += 30 * SEC;
        match app.autoplay(true) {
            Action::PlaySong { request, song } => {
                played.push(song.id);
                app.finish_song(request, song, Ok(()), now);
            }
            other => {
                assert_eq!(other, Action::StopSink);
                break;
            }
        }
    }
    assert_eq!(played, vec![2, 3]);
    assert_eq!(app.state, AppState::Normal);
    app.repeat = Repeat::All;
    app.finish_song(PlayRequest::Library, song(3), Ok(()), now);
    for expected in [0, 1, 2, 3, 0] {
        match app.autoplay(true) {
            Action::PlaySong { request, song } => {
                assert_eq!(song.id, expected);
                app.finish_song(request, song, Ok(()), now);
            }
            other => panic!("{:?}", other),
        }
    }
}

#[test]
fn a_download_goes_where_the_screen_says() {
    let mut app = App::new();
    app.handle_background(listing("", 2, 0), 0);
    app.handle_background(BackgroundEvent::SearchResult(Ok(vec![result(1)])), 0);
    app.active_panel = PanelFocus::Downloader;
    press(&mut app, KeyCode::Char('f'), 0);
    press(&mut app, KeyCode::Char('f'), 0);
    assert_eq!(app.screen(0).save_dir, "Music/d1/");
    match press(&mut app, KeyCode::Enter, 0) {
        Action::Call(ApiCall::Download { folder, .. }) => {
            assert_eq!(folder.as_deref(), Some("d1"));
        }
        other => panic!("{:?}", other),
    }
}

#[test]
fn the_question_names_the_path_that_goes() {
    let mut app = App::new();
    app.handle_background(listing("x", 1, 0), 0);
    press(&mut app, KeyCode::Char('x'), 0);
    assert_eq!(app.screen(0).footer, Footer::Warning("Delete 'x/d0'? (y/n) ".to_string()));
    let expected = Action::Call(ApiCall::Delete { path: "x/d0".to_string() });
    assert_eq!(press(&mut app, KeyCode::Char('y'), 0), expected);
}

fn try_song(app: &mut App, action: Action, works: bool, now: u128) -> i64 {
    match action {
        Action::PlaySong { request, song } => {
            let id = song.id;
            let loaded = if works { Ok(()) } else { Err("gone".to_string()) };
            app.finish_song(request, song, loaded, now);
            id
        }
        other => panic!("{:?}", other),
    }
}

#[test]
fn songs_that_fail_do_not_upset_the_order() {
    let mut app = App::new();
    app.handle_background(listing("", 0, 3), 0);
    app.start_queue_from_library(1);
    app.repeat = Repeat::All;
    let mut order = Vec::new();
    for works in [false, true, false, false, true, true] {
        let action = app.play_next_song();
        order.push(try_song(&mut app, action, works, 0));
        assert_eq!(app.state == AppState::Playing, works);
        assert_eq!(app.currently_playing.is_some(), works);
    }
    assert_eq!(order, vec![2, 0, 1, 2, 0, 1]);
    app.repeat = Repeat::One;
    for works in [false, true] {
        let action = app.play_next_song();
        assert_eq!(try_song(&mut app, action, works, 0), 1);
    }
    app.repeat = Repeat::Off;
    let action = app.play_next_song();
    assert_eq!(try_song(&mut app, action, false, 0), 2);
    assert_eq!(app.play_next_song(), Action::StopSink);
    assert_eq!(app.queue_idx, 2);
}

#[test]
fn going_back_undoes_going_on_whatever_fails() {
    for (first, second) in [(true, true), (true, false), (false, true), (false, false)] {
        let mut app = App::new();
        app.handle_background(listing("", 0, 3), 0);
        app.start_queue_from_library(2);
        app.repeat = Repeat::All;
        let action = app.play_next_song();
        assert_eq!(try_song(&mut app, action, first, 0), 0);
        let action = app.play_previous_song();
        assert_eq!(try_song(&mut app, action, second, 0), 2);
        assert_eq!(app.queue_idx, 2);
        assert_eq!(app.queue.len(), 3);
    }
}

#[test]
fn a_song_that_fails_ends_the_playing() {
    let mut app = App::new();
    app.handle_background(listing("", 0, 3), 0);
    app.start_queue_from_library(0);
    app.finish_song(PlayRequest::Library, song(0), Ok(()), 0);
    let action = app.autoplay(true);
    assert_eq!(try_song(&mut app, action, false, SEC), 1);
    assert_eq!(app.state, AppState::Normal);
    assert_eq!(app.autoplay(true), Action::Idle);
}

#[test]
fn a_run_begins_with_the_top_folder() {
    let mut app = App::new();
    let expected = Action::Call(ApiCall::Browse { path: String::new() });
    assert_eq!(app.trigger_browse(String::new()), expected);
    assert!(app.library_loading);
    assert!(is_sound(&app));
}
