use mustream::action::{Action, PlayRequest};
use mustream::app::{App, MAX_TIME};
use mustream::background::BackgroundEvent;
use mustream::model::{AppState, BrowseResponse, Repeat, Song};

const SEC: u128 = 1_000_000_000;

fn song(id: i64) -> Song {
    Song {
        id,
        title: format!("title {}", id),
        artist: format!("artist {}", id),
        album: "album".to_string(),
        path: format!("/music/{}.mp3", id),
        duration: 100 + id,
    }
}

fn library(dirs: &[&str], ids: &[i64]) -> App {
    let mut app = App::new();
    let browse = BrowseResponse {
        path: String::new(),
        dirs: dirs.iter().map(|d| d.to_string()).collect(),
        songs: ids.iter().map(|id| song(*id)).collect(),
    };
    assert_eq!(app.handle_background(BackgroundEvent::BrowseResult(Ok(browse)), 0), Action::Idle);
    app
}

fn queue_ids(app: &App) -> Vec<i64> {
    app.queue.iter().map(|s| s.id).collect()
}

fn play(request: PlayRequest, id: i64) -> Action {
    Action::PlaySong { request, song: song(id) }
}

#[test]
fn a_new_player_is_silent_and_empty() {
    let app = App::new();
    assert_eq!(app.state, AppState::Normal);
    assert_eq!(app.repeat, Repeat::Off);
    assert!(!app.is_shuffling && !app.library_loading && !app.downloader_loading);
    assert!(app.library_items.is_empty() && app.queue.is_empty());
    assert_eq!(app.library_selected, None);
    assert_eq!(app.current_elapsed(7), 0);
}

#[test]
fn a_queue_holds_the_folder_in_its_order() {
    let mut app = library(&["dir"], &[1, 2, 3]);
    assert_eq!(app.start_queue_from_library(2), play(PlayRequest::Library, 2));
    assert_eq!(queue_ids(&app), vec![1, 2, 3]);
    assert_eq!(app.queue_idx, 1);
}

#[test]
fn a_folder_starts_no_queue() {
    let mut app = library(&["dir"], &[1]);
    assert_eq!(app.start_queue_from_library(0), Action::Idle);
    assert!(app.queue.is_empty());
    let mut app = library(&["dir"], &[]);
    assert_eq!(app.start_queue_from_library(9), Action::Idle);
}

#[test]
fn songs_that_share_an_id_play_the_first() {
    let mut app = library(&[], &[1, 2, 2]);
    assert_eq!(app.start_queue_from_library(2), play(PlayRequest::Library, 2));
    assert_eq!(app.queue_idx, 1);
}

#[test]
fn shuffling_puts_the_chosen_song_first_and_keeps_the_others() {
    let ids: Vec<i64> = (0..60).collect();
    let mut app = library(&[], &ids);
    app.is_shuffling = true;
    assert_eq!(app.start_queue_from_library(30), play(PlayRequest::Library, 30));
    assert_eq!(app.queue_idx, 0);
    let queue = queue_ids(&app);
    assert_eq!(queue[0], 30);
    let in_order: Vec<i64> = ids.iter().copied().filter(|id| *id != 30).collect();
    assert_ne!(queue[1..].to_vec(), in_order);
    let mut sorted = queue.clone();
    sorted.sort();
    assert_eq!(sorted, ids);
}

#[test]
fn a_shuffled_queue_takes_the_others_as_they_come() {
    let mut app = App::new();
    let action = app.start_shuffled(song(5), vec![song(9), song(7)]);
    assert_eq!(action, play(PlayRequest::Library, 5));
    assert_eq!(queue_ids(&app), vec![5, 9, 7]);
    assert_eq!(app.queue_idx, 0);
}

#[test]
fn playing_a_song_takes_note_of_it() {
    let mut app = library(&[], &[1]);
    let action = app.finish_song(PlayRequest::Library, song(1), Ok(()), 10 * SEC);
    assert_eq!(action, Action::Idle);
    assert_eq!(app.state, AppState::Playing);
    assert_eq!(app.currently_playing, Some(song(1)));
    assert_eq!(app.currently_playing_title.as_deref(), Some("title 1 - artist 1"));
    assert_eq!(app.current_elapsed(12 * SEC), 2 * SEC);
    assert_eq!(app.current_elapsed(9 * SEC), 0);
}

#[test]
fn a_song_that_fails_when_its_turn_comes_leaves_silence() {
    for (request, text) in [
        (PlayRequest::Next, "Error playing next song: gone"),
        (PlayRequest::Previous, "Error playing previous song: gone"),
    ] {
        let mut app = library(&[], &[1]);
        app.finish_song(PlayRequest::Library, song(1), Ok(()), 0);
        let action = app.finish_song(request, song(1), Err("gone".to_string()), SEC);
        assert_eq!(action, Action::StopSink);
        assert_eq!(app.state, AppState::Normal);
        assert_eq!(app.currently_playing, None);
        assert_eq!(app.status_message.as_deref(), Some(text));
        assert_eq!(app.status_expiry, Some(6 * SEC));
    }
}

#[test]
fn a_chosen_song_that_fails_leaves_a_message_only() {
    let mut app = library(&[], &[1]);
    app.finish_song(PlayRequest::Library, song(1), Ok(()), 0);
    let action = app.finish_song(PlayRequest::Library, song(2), Err("gone".to_string()), SEC);
    assert_eq!(action, Action::Idle);
    assert_eq!(app.state, AppState::Playing);
    assert_eq!(app.currently_playing, Some(song(1)));
    assert_eq!(app.status_message.as_deref(), Some("Error playing song: gone"));
}

#[test]
fn what_cannot_be_loaded_changes_nothing() {
    let mut app = App::new();
    assert_eq!(app.play_music(song(1), Err("e".to_string()), 3), Err("e".to_string()));
    assert_eq!(app.state, AppState::Normal);
    assert_eq!(app.play_preview("t".to_string(), Err("e".to_string()), 3), Err("e".to_string()));
    assert_eq!(app.state, AppState::Normal);
    assert_eq!(app.play_music(song(1), Ok(()), 3), Ok(()));
    assert_eq!(app.state, AppState::Playing);
}

#[test]
fn a_preview_shows_its_title() {
    let mut app = library(&[], &[1]);
    app.finish_song(PlayRequest::Library, song(1), Ok(()), 0);
    app.finish_preview("clip".to_string(), Ok(()), SEC);
    assert_eq!(app.currently_playing, None);
    assert_eq!(app.currently_playing_title.as_deref(), Some("試聴中 • clip"));
    assert_eq!(app.state, AppState::Playing);
    app.finish_preview("clip".to_string(), Err("bad".to_string()), SEC);
    assert_eq!(app.status_message.as_deref(), Some("Preview failed: bad"));
}

#[test]
fn pauses_do_not_count() {
    let mut app = App::new();
    assert_eq!(app.pause_playback(1), Action::Idle);
    assert_eq!(app.resume_playback(1), Action::Idle);
    app.finish_song(PlayRequest::Library, song(1), Ok(()), 10 * SEC);
    assert_eq!(app.resume_playback(11 * SEC), Action::Idle);
    assert_eq!(app.pause_playback(14 * SEC), Action::PauseSink);
    assert_eq!(app.state, AppState::Paused);
    assert_eq!(app.current_elapsed(50 * SEC), 4 * SEC);
    assert_eq!(app.resume_playback(60 * SEC), Action::ResumeSink);
    assert_eq!(app.current_elapsed(63 * SEC), 7 * SEC);
    assert_eq!(app.stop_playback(), Action::StopSink);
    assert_eq!(app.current_elapsed(70 * SEC), 0);
    assert_eq!(app.currently_playing_title, None);
}

#[test]
fn repeating_all_goes_round() {
    let mut app = library(&[], &[1, 2, 3]);
    app.start_queue_from_library(0);
    app.repeat = Repeat::All;
    let mut seen = Vec::new();
    for _ in 0..6 {
        match app.play_next_song() {
            Action::PlaySong { song, .. } => seen.push(song.id),
            other => panic!("{:?}", other),
        }
    }
    assert_eq!(seen, vec![2, 3, 1, 2, 3, 1]);
}

#[test]
fn repeating_one_stays() {
    let mut app = library(&[], &[1, 2, 3]);
    app.start_queue_from_library(1);
    app.repeat = Repeat::One;
    assert_eq!(app.play_next_song(), play(PlayRequest::Next, 2));
    assert_eq!(app.play_next_song(), play(PlayRequest::Next, 2));
}

#[test]
fn repeating_nothing_ends_in_silence() {
    let mut app = library(&[], &[1, 2]);
    app.start_queue_from_library(0);
    app.finish_song(PlayRequest::Library, song(1), Ok(()), 0);
    assert_eq!(app.play_next_song(), play(PlayRequest::Next, 2));
    assert_eq!(app.play_next_song(), Action::StopSink);
    assert_eq!(app.state, AppState::Normal);
    assert_eq!(app.queue_idx, 1);
}

#[test]
fn previous_undoes_next_song() {
    let mut app = library(&[], &[1, 2, 3]);
    app.start_queue_from_library(2);
    app.repeat = Repeat::All;
    app.play_next_song();
    assert_eq!(app.queue_idx, 0);
    assert_eq!(app.play_previous_song(), play(PlayRequest::Previous, 3));
    assert_eq!(app.play_previous_song(), play(PlayRequest::Previous, 2));
    assert_eq!(app.queue_idx, 1);
}

#[test]
fn an_empty_queue_has_no_songs() {
    let mut app = App::new();
    assert_eq!(app.play_previous_song(), Action::Idle);
    assert_eq!(app.play_next_song(), Action::StopSink);
}

#[test]
fn the_next_song_follows_the_end_of_the_sound() {
    let mut app = library(&[], &[1, 2]);
    app.start_queue_from_library(0);
    assert_eq!(app.autoplay(true), Action::Idle);
    app.finish_song(PlayRequest::Library, song(1), Ok(()), 0);
    assert_eq!(app.autoplay(false), Action::Idle);
    assert_eq!(app.autoplay(true), play(PlayRequest::Next, 2));
    app.finish_song(PlayRequest::Next, song(2), Ok(()), 1);
    app.pause_playback(2);
    assert_eq!(app.autoplay(true), Action::Idle);
}

#[test]
fn messages_last_their_time() {
    let mut app = App::new();
    app.check_status_expiry(5);
    app.set_status("hello".to_string(), 3, 10 * SEC);
    assert_eq!(app.status_expiry, Some(13 * SEC));
    app.check_status_expiry(13 * SEC);
    assert_eq!(app.status_message.as_deref(), Some("hello"));
    app.check_status_expiry(13 * SEC + 1);
    assert_eq!(app.status_message, None);
    assert_eq!(app.status_expiry, None);
}

#[test]
fn times_beyond_the_clock_are_told() {
    let mut app = App::new();
    assert!(app.is_ready_at(MAX_TIME));
    assert!(!app.is_ready_at(MAX_TIME + 1));
    app.play_music(song(1), Ok(()), 0).unwrap();
    app.playback_accumulated = MAX_TIME - 5;
    assert!(app.is_ready_at(5));
    assert!(!app.is_ready_at(6));
}
