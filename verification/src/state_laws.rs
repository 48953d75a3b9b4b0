//! Laws of the player's state: what holds of it at all times, when the commands may be given, and
//! that the mathematical views show what is there.

use vstd::prelude::*;

use crate::action::{Action, ActionView, ApiCall, ApiCallView, PlayRequest};
use crate::app::{App, AppView};
use crate::background::BackgroundEvent;
use crate::model::{AppState, KeyCode, KeyEvent, KeyEventKind, PanelFocus, Song};

verus! {

/// What holds of a sound player: each list has a selection exactly where it has entries, and it is
/// one of them; a song stands in exactly those entries that are no folder; the place in the queue
/// is one of its places; the clock runs while something plays; in silence nothing is named and no
/// time has passed; and a message has an end.
pub proof fn what_holds_of_a_sound_player(app: AppView)
    ensures
        app.wf() <==> {
            &&& match app.library_selected {
                Some(i) => 0 <= i < app.library_items.len(),
                None => app.library_items.len() == 0,
            }
            &&& match app.downloader_selected {
                Some(i) => 0 <= i < app.yt_results.len(),
                None => app.yt_results.len() == 0,
            }
            &&& forall|i: int|
                0 <= i < app.library_items.len() ==> ((#[trigger] app.library_items[i]).is_dir
                    <==> app.library_items[i].song is None)
            &&& app.queue.len() > 0 ==> 0 <= app.queue_idx < app.queue.len()
            &&& app.state == AppState::Playing <==> app.playback_start is Some
            &&& app.state == AppState::Normal <==> app.currently_playing_title is None
            &&& app.state == AppState::Normal ==> app.currently_playing is None
                && app.playback_accumulated == 0
            &&& app.status_message is Some <==> app.status_expiry is Some
            &&& app.selected_save_dir_idx >= 0
        },
{
}

/// A sound player takes every key at a moment that can be held, but for one: where the chosen
/// folder is gone, a download cannot be asked for.
pub proof fn when_a_key_may_be_pressed(
    app: &mut App,
    key: KeyEvent,
    now: u128,
    elapsed: u128,
)
    requires
        old(app)@.wf(),
        call_ensures(App::current_elapsed, (old(app), now), elapsed),
        now <= 18_446_744_073_709_551_615_999_999_999,
        elapsed <= 18_446_744_073_709_551_615_999_999_999,
        ({
            ||| old(app)@.selected_save_dir_idx <= old(app)@.top_dirs.len()
            ||| key.kind == KeyEventKind::Release
            ||| old(app)@.input_mode !is Inactive
            ||| old(app)@.active_panel == PanelFocus::Library
            ||| old(app)@.downloader_selected is None
            ||| key.code != KeyCode::Enter && key.code != KeyCode::Char('d')
        }),
    ensures
        call_requires(App::handle_key, (app, key, now)),
        call_requires(App::pause_playback, (app, now)),
        call_requires(App::current_elapsed, (old(app), now)),
{
}

/// The commands may be given at every moment that can be held, and those that move in the queue
/// wherever the place in it is one of its places.
pub proof fn when_a_command_may_be_given(
    app: &mut App,
    msg: String,
    duration_secs: u64,
    now: u128,
    event: BackgroundEvent,
    request: PlayRequest,
    song: Song,
    loaded: Result<(), String>,
    sink_empty: bool,
)
    requires
        now <= 18_446_744_073_709_551_615_999_999_999,
        old(app)@.queue.len() > 0 ==> 0 <= old(app)@.queue_idx < old(app)@.queue.len(),
    ensures
        call_requires(App::set_status, (app, msg, duration_secs, now)),
        call_requires(App::check_status_expiry, (app, now)),
        call_requires(App::handle_background, (app, event, now)),
        call_requires(App::finish_song, (app, request, song, loaded, now)),
        call_requires(App::finish_preview, (app, msg, loaded, now)),
        call_requires(App::resume_playback, (app, now)),
        call_requires(App::stop_playback, (app,)),
        call_requires(App::play_next_song, (app,)),
        call_requires(App::play_previous_song, (app,)),
        call_requires(App::autoplay, (app, sink_empty)),
{
}

/// The view of the player shows each of its fields.
pub proof fn the_view_shows_every_field(app: App)
    ensures
        app@.current_path == app.current_path@,
        app@.library_items == app.library_items@,
        app.library_selected is Some <==> app@.library_selected is Some,
        app.library_selected is Some ==> app@.library_selected->0 == app.library_selected->0,
        app@.currently_playing == app.currently_playing,
        app.currently_playing_title is Some <==> app@.currently_playing_title is Some,
        app.currently_playing_title is Some ==> app@.currently_playing_title->0
            == app.currently_playing_title->0@,
        app@.queue == app.queue@,
        app@.queue_idx == app.queue_idx,
        app@.state == app.state,
        app@.is_shuffling == app.is_shuffling,
        app@.repeat == app.repeat,
        app.playback_start is Some <==> app@.playback_start is Some,
        app.playback_start is Some ==> app@.playback_start->0 == app.playback_start->0,
        app@.playback_accumulated == app.playback_accumulated,
        app@.yt_query == app.yt_query@,
        app@.yt_results == app.yt_results@,
        app.downloader_selected is Some <==> app@.downloader_selected is Some,
        app.downloader_selected is Some ==> app@.downloader_selected->0
            == app.downloader_selected->0,
        app@.top_dirs == app.top_dirs@,
        app@.selected_save_dir_idx == app.selected_save_dir_idx,
        app@.active_panel == app.active_panel,
        app.input_mode is Inactive <==> app@.input_mode is Inactive,
        app.input_mode is Search <==> app@.input_mode is Search,
        app.input_mode is Mkdir <==> app@.input_mode is Mkdir,
        app.input_mode is DeleteConfirm <==> app@.input_mode is DeleteConfirm,
        app.input_mode is DeleteConfirm ==> app@.input_mode->DeleteConfirm_0
            == app.input_mode->DeleteConfirm_0@,
        app@.input_value == app.input_value@,
        app.status_message is Some <==> app@.status_message is Some,
        app.status_message is Some ==> app@.status_message->0 == app.status_message->0@,
        app.status_expiry is Some <==> app@.status_expiry is Some,
        app.status_expiry is Some ==> app@.status_expiry->0 == app.status_expiry->0,
        app@.library_loading == app.library_loading,
        app@.downloader_loading == app.downloader_loading,
{
}

/// The view of an action shows which one it is and what it holds.
pub proof fn the_view_shows_the_action(action: Action)
    ensures
        match (action, action@) {
            (Action::Idle, ActionView::Idle) => true,
            (Action::Quit, ActionView::Quit) => true,
            (Action::StopSink, ActionView::StopSink) => true,
            (Action::PauseSink, ActionView::PauseSink) => true,
            (Action::ResumeSink, ActionView::ResumeSink) => true,
            (
                Action::PlaySong { request, song },
                ActionView::PlaySong { request: seen_request, song: seen_song },
            ) => request == seen_request && song == seen_song,
            (
                Action::PlayPreview { title, bytes },
                ActionView::PlayPreview { title: seen_title, bytes: seen_bytes },
            ) => title@ == seen_title && bytes@ == seen_bytes,
            (Action::Call(call), ActionView::Call(seen)) => match (call, seen) {
                (ApiCall::Browse { path }, ApiCallView::Browse { path: seen_path }) => path@
                    == seen_path,
                (ApiCall::Search { query }, ApiCallView::Search { query: seen_query }) => query@
                    == seen_query,
                (
                    ApiCall::Download { url, folder },
                    ApiCallView::Download { url: seen_url, folder: seen_folder },
                ) => {
                    &&& url@ == seen_url
                    &&& folder is Some <==> seen_folder is Some
                    &&& folder is Some ==> folder->0@ == seen_folder->0
                },
                (
                    ApiCall::Preview { title, video_id },
                    ApiCallView::Preview { title: seen_title, video_id: seen_id },
                ) => title@ == seen_title && video_id@ == seen_id,
                (ApiCall::Mkdir { path }, ApiCallView::Mkdir { path: seen_path }) => path@
                    == seen_path,
                (ApiCall::Delete { path }, ApiCallView::Delete { path: seen_path }) => path@
                    == seen_path,
                _ => false,
            },
            _ => false,
        },
{
}

/// A copy of a song is that song.
pub proof fn a_copy_of_a_song_is_the_song(song: &Song, copy: Song)
    requires
        call_ensures(<Song as Clone>::clone, (song,), copy),
    ensures
        copy == *song,
{
}

} // verus!
