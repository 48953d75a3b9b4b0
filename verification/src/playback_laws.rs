//! Laws of the playback commands: what each of them leaves behind, field by field.

use vstd::prelude::*;

use crate::action::{Action, ActionView, ApiCallView, PlayRequest};
use crate::app::{App, AppView};
use crate::model::{AppState, InputModeView, PanelFocus, Repeat, Song};

verus! {

/// A new player shows nothing, plays nothing, asks for nothing and waits for nothing.
pub proof fn a_new_player_is_empty_and_silent(app: App)
    requires
        call_ensures(App::new, (), app),
    ensures
        app@.current_path.len() == 0,
        app@.library_items.len() == 0,
        app@.library_selected is None,
        app@.currently_playing is None,
        app@.currently_playing_title is None,
        app@.queue.len() == 0,
        app@.queue_idx == 0,
        app@.state == AppState::Normal,
        !app@.is_shuffling,
        app@.repeat == Repeat::Off,
        app@.playback_start is None,
        app@.playback_accumulated == 0,
        app@.yt_query.len() == 0,
        app@.yt_results.len() == 0,
        app@.downloader_selected is None,
        app@.top_dirs.len() == 0,
        app@.selected_save_dir_idx == 0,
        app@.active_panel == PanelFocus::Library,
        app@.input_mode is Inactive,
        app@.input_value.len() == 0,
        app@.status_message is None,
        app@.status_expiry is None,
        !app@.library_loading,
        !app@.downloader_loading,
{
}

/// A message replaces the one before and stays for as many seconds as were asked for; nothing
/// else changes.
pub proof fn a_message_is_shown_for_its_seconds(
    app: &mut App,
    msg: String,
    duration_secs: u64,
    now: u128,
)
    requires
        call_ensures(App::set_status, (app, msg, duration_secs, now), ()),
    ensures
        final(app)@ == (AppView {
            status_message: Some(msg@),
            status_expiry: Some((now + duration_secs * 1_000_000_000) as nat),
            ..old(app)@
        }),
{
}

/// A message goes away after its time and not before; nothing else changes.
pub proof fn a_message_goes_when_its_time_has_passed(app: &mut App, now: u128)
    requires
        call_ensures(App::check_status_expiry, (app, now), ()),
    ensures
        old(app)@.status_expiry is Some && old(app)@.status_expiry->0 < now ==> final(app)@ == (
        AppView { status_message: None, status_expiry: None, ..old(app)@ }),
        old(app)@.status_expiry is None || now <= old(app)@.status_expiry->0 ==> final(app)@
            == old(app)@,
{
}

/// While something plays the time played grows with the clock, from what had been played before;
/// otherwise it stands still.
pub proof fn the_time_played_follows_the_clock(app: &App, now: u128, elapsed: u128)
    requires
        call_ensures(App::current_elapsed, (app, now), elapsed),
    ensures
        app.state == AppState::Playing && app.playback_start is Some && app.playback_start->0 <= now
            ==> elapsed == app.playback_accumulated + (now - app.playback_start->0),
        app.state == AppState::Playing && app.playback_start is Some && now < app.playback_start->0
            ==> elapsed == app.playback_accumulated,
        app.state != AppState::Playing ==> elapsed == app.playback_accumulated,
        app.playback_start is None ==> elapsed == app.playback_accumulated,
{
}

/// A message that is set for some seconds is there until they are over, and gone after that.
pub proof fn a_message_lives_for_its_seconds(
    app: &mut App,
    msg: String,
    duration_secs: u64,
    shown: u128,
    later_app: &mut App,
    checked: u128,
)
    requires
        call_ensures(App::set_status, (app, msg, duration_secs, shown), ()),
        old(later_app)@ == final(app)@,
        call_ensures(App::check_status_expiry, (later_app, checked), ()),
    ensures
        checked <= shown + duration_secs * 1_000_000_000 ==> final(later_app)@.status_message
            == Some(msg@),
        checked > shown + duration_secs * 1_000_000_000 ==> final(later_app)@.status_message
            is None,
{
}

/// A song that could be loaded plays from its beginning, whatever played before: it is the current
/// song, the title line names it and its artist, and nothing but these and the clock changes.
pub proof fn a_song_plays_from_its_beginning(
    app: &mut App,
    song: Song,
    loaded: Result<(), String>,
    now: u128,
    result: Result<(), String>,
)
    requires
        call_ensures(App::play_music, (app, song, loaded, now), result),
    ensures
        result == loaded,
        loaded is Ok ==> final(app)@ == (AppView {
            currently_playing: Some(song),
            currently_playing_title: Some(song.title@ + " - "@ + song.artist@),
            state: AppState::Playing,
            playback_start: Some(now as nat),
            playback_accumulated: 0,
            ..old(app)@
        }),
        loaded is Err ==> final(app)@ == old(app)@,
{
}

/// A preview that could be loaded plays from its beginning, whatever played before: no song is the
/// current one, the title line names the preview, and nothing but these and the clock changes.
pub proof fn a_preview_plays_from_its_beginning(
    app: &mut App,
    title: String,
    loaded: Result<(), String>,
    now: u128,
    result: Result<(), String>,
)
    requires
        call_ensures(App::play_preview, (app, title, loaded, now), result),
    ensures
        result == loaded,
        loaded is Ok ==> final(app)@ == (AppView {
            currently_playing: None,
            currently_playing_title: Some("試聴中 • "@ + title@),
            state: AppState::Playing,
            playback_start: Some(now as nat),
            playback_accumulated: 0,
            ..old(app)@
        }),
        loaded is Err ==> final(app)@ == old(app)@,
{
}

/// Pausing stops the sound and keeps the time played; it does nothing where nothing plays.
pub proof fn pausing_keeps_the_time_played(
    app: &mut App,
    now: u128,
    elapsed: u128,
    action: Action,
)
    requires
        call_ensures(App::pause_playback, (app, now), action),
        call_ensures(App::current_elapsed, (old(app), now), elapsed),
    ensures
        old(app)@.state == AppState::Playing ==> action@ is PauseSink && final(app)@ == (AppView {
            state: AppState::Paused,
            playback_start: None,
            playback_accumulated: elapsed as nat,
            ..old(app)@
        }),
        old(app)@.state != AppState::Playing ==> action@ is Idle && final(app)@ == old(app)@,
{
}

/// Going on starts the clock anew on top of the time played; it does nothing where nothing is
/// paused.
pub proof fn going_on_keeps_the_time_played(app: &mut App, now: u128, action: Action)
    requires
        call_ensures(App::resume_playback, (app, now), action),
    ensures
        old(app)@.state == AppState::Paused ==> action@ is ResumeSink && final(app)@ == (AppView {
            state: AppState::Playing,
            playback_start: Some(now as nat),
            ..old(app)@
        }),
        old(app)@.state != AppState::Paused ==> action@ is Idle && final(app)@ == old(app)@,
{
}

/// Stopping leaves silence, and the queue, the lists and the modes as they were.
pub proof fn stopping_leaves_silence(app: &mut App, action: Action)
    requires
        call_ensures(App::stop_playback, (app,), action),
    ensures
        action@ is StopSink,
        final(app)@ == (AppView {
            currently_playing: None,
            currently_playing_title: None,
            state: AppState::Normal,
            playback_start: None,
            playback_accumulated: 0,
            ..old(app)@
        }),
{
}

/// After an attempt to play a song that went well, the time played is counted from that moment,
/// for every request and whatever the player did before; the song is the current one and its title
/// and artist stand in the title line.
pub proof fn a_started_song_counts_from_its_start(
    app: &mut App,
    request: PlayRequest,
    song: Song,
    loaded: Result<(), String>,
    start: u128,
    action: Action,
    later_app: &App,
    now: u128,
    elapsed: u128,
)
    requires
        loaded is Ok,
        start <= now,
        call_ensures(App::finish_song, (app, request, song, loaded, start), action),
        later_app@ == final(app)@,
        call_ensures(App::current_elapsed, (later_app, now), elapsed),
    ensures
        elapsed == now - start,
        final(app)@.elapsed_at(now as nat) == now - start,
        final(app)@.currently_playing == Some(song),
        final(app)@.currently_playing_title == Some(song.title@ + " - "@ + song.artist@),
        final(app)@.state == AppState::Playing,
        action@ is Idle,
{
}

/// The same of the step itself: for every request, song and state before.
pub proof fn every_started_song_counts_from_its_start(
    app: AppView,
    request: PlayRequest,
    song: Song,
    start: nat,
    now: nat,
)
    requires
        start <= now,
    ensures
        app.song_step(request, song, Ok(()), start).0.elapsed_at(now) == now - start,
        app.song_step(request, song, Ok(()), start).0.currently_playing == Some(song),
        app.song_step(request, song, Ok(()), start).0.currently_playing_title == Some(
            song.title@ + " - "@ + song.artist@,
        ),
{
}

/// An attempt to play a song changes nothing but what plays where it went well. Where it failed, a
/// message says so for five seconds; a failed move in the queue leaves silence, and a failed choice
/// from the library leaves alone what plays.
pub proof fn what_an_attempt_to_play_a_song_leads_to(
    app: &mut App,
    request: PlayRequest,
    song: Song,
    loaded: Result<(), String>,
    now: u128,
    action: Action,
)
    requires
        call_ensures(App::finish_song, (app, request, song, loaded, now), action),
    ensures
        loaded is Ok ==> action@ is Idle && final(app)@ == (AppView {
            currently_playing: Some(song),
            currently_playing_title: Some(song.title@ + " - "@ + song.artist@),
            state: AppState::Playing,
            playback_start: Some(now as nat),
            playback_accumulated: 0,
            ..old(app)@
        }),
        loaded is Err && request == PlayRequest::Next ==> action@ is StopSink && final(app)@ == (
        AppView {
            currently_playing: None,
            currently_playing_title: None,
            state: AppState::Normal,
            playback_start: None,
            playback_accumulated: 0,
            status_message: Some("Error playing next song: "@ + loaded->Err_0@),
            status_expiry: Some((now + 5_000_000_000) as nat),
            ..old(app)@
        }),
        loaded is Err && request == PlayRequest::Previous ==> action@ is StopSink && final(app)@
            == (AppView {
            currently_playing: None,
            currently_playing_title: None,
            state: AppState::Normal,
            playback_start: None,
            playback_accumulated: 0,
            status_message: Some("Error playing previous song: "@ + loaded->Err_0@),
            status_expiry: Some((now + 5_000_000_000) as nat),
            ..old(app)@
        }),
        loaded is Err && request == PlayRequest::Library ==> action@ is Idle && final(app)@ == (
        AppView {
            status_message: Some("Error playing song: "@ + loaded->Err_0@),
            status_expiry: Some((now + 5_000_000_000) as nat),
            ..old(app)@
        }),
{
}

/// An attempt to play a preview changes nothing but what plays where it went well; where it
/// failed, a message says so for five seconds and what plays goes on.
pub proof fn what_an_attempt_to_play_a_preview_leads_to(
    app: &mut App,
    title: String,
    loaded: Result<(), String>,
    now: u128,
)
    requires
        call_ensures(App::finish_preview, (app, title, loaded, now), ()),
    ensures
        loaded is Ok ==> final(app)@ == (AppView {
            currently_playing: None,
            currently_playing_title: Some("試聴中 • "@ + title@),
            state: AppState::Playing,
            playback_start: Some(now as nat),
            playback_accumulated: 0,
            ..old(app)@
        }),
        loaded is Err ==> final(app)@ == (AppView {
            status_message: Some("Preview failed: "@ + loaded->Err_0@),
            status_expiry: Some((now + 5_000_000_000) as nat),
            ..old(app)@
        }),
{
}

/// The next song is the one behind in the queue. Behind the last comes the first where the queue
/// is repeated; where one song is repeated it comes again. Where there is none, the sound stops.
/// Only the place in the queue, or what plays, changes.
pub proof fn what_comes_next(app: &mut App, action: Action)
    requires
        old(app)@.queue.len() > 0 ==> 0 <= old(app)@.queue_idx < old(app)@.queue.len(),
        call_ensures(App::play_next_song, (app,), action),
    ensures
        ({
            let i = final(app)@.queue_idx;
            let (before, len) = (old(app)@.queue_idx, old(app)@.queue.len() as int);
            let none = len == 0 || old(app)@.repeat == Repeat::Off && before == len - 1;
            &&& !none ==> final(app)@ == (AppView { queue_idx: i, ..old(app)@ })
            &&& !none ==> action@ == (ActionView::PlaySong {
                request: PlayRequest::Next,
                song: old(app)@.queue[i],
            })
            &&& !none && old(app)@.repeat == Repeat::One ==> i == before
            &&& !none && old(app)@.repeat != Repeat::One && before < len - 1 ==> i == before + 1
            &&& !none && old(app)@.repeat == Repeat::All && before == len - 1 ==> i == 0
            &&& none ==> action@ is StopSink && final(app)@ == (AppView {
                currently_playing: None,
                currently_playing_title: None,
                state: AppState::Normal,
                playback_start: None,
                playback_accumulated: 0,
                ..old(app)@
            })
        }),
{
    let (before, len) = (old(app)@.queue_idx, old(app)@.queue.len() as int);
    if len > 0 && before < len - 1 {
        assert((before + 1) % len == before + 1) by (nonlinear_arith)
            requires
                0 <= before + 1 < len,
        ;
    } else if len > 0 {
        assert(len % len == 0) by (nonlinear_arith)
            requires
                len > 0,
        ;
    }
}

/// The previous song is the one in front in the queue, and the last one in front of the first,
/// whatever is repeated. Only the place in the queue changes; an empty queue has none.
pub proof fn what_comes_before(app: &mut App, action: Action)
    requires
        old(app)@.queue.len() > 0 ==> 0 <= old(app)@.queue_idx < old(app)@.queue.len(),
        call_ensures(App::play_previous_song, (app,), action),
    ensures
        ({
            let i = final(app)@.queue_idx;
            let (before, len) = (old(app)@.queue_idx, old(app)@.queue.len());
            &&& len > 0 ==> final(app)@ == (AppView { queue_idx: i, ..old(app)@ })
            &&& len > 0 ==> action@ == (ActionView::PlaySong {
                request: PlayRequest::Previous,
                song: old(app)@.queue[i],
            })
            &&& len > 0 && before > 0 ==> i == before - 1
            &&& len > 0 && before == 0 ==> i == len - 1
            &&& len == 0 ==> final(app)@ == old(app)@ && action@ is Idle
        }),
{
}

/// When the sound of what plays has run out, what comes next is what the command for the next song
/// gives; at all other times nothing happens.
pub proof fn the_next_song_follows_by_itself(
    app: &mut App,
    sink_empty: bool,
    action: Action,
    other: &mut App,
    next: Action,
)
    requires
        old(app)@ == old(other)@,
        call_ensures(App::autoplay, (app, sink_empty), action),
        call_ensures(App::play_next_song, (other,), next),
    ensures
        old(app)@.state == AppState::Playing && sink_empty ==> final(app)@ == final(other)@
            && action@ == next@,
        old(app)@.state != AppState::Playing || !sink_empty ==> final(app)@ == old(app)@
            && action@ is Idle,
{
}

/// A request for a listing, a new folder or a deletion makes the library wait, carries the path it
/// was given, and changes nothing else.
pub proof fn library_requests_carry_what_they_are_given(
    browse: &mut App,
    mkdir: &mut App,
    delete: &mut App,
    path: String,
    browsing: Action,
    making: Action,
    deleting: Action,
)
    requires
        call_ensures(App::trigger_browse, (browse, path), browsing),
        call_ensures(App::trigger_mkdir, (mkdir, path), making),
        call_ensures(App::trigger_delete, (delete, path), deleting),
    ensures
        final(browse)@ == (AppView { library_loading: true, ..old(browse)@ }),
        browsing@ == ActionView::Call(ApiCallView::Browse { path: path@ }),
        final(mkdir)@ == (AppView { library_loading: true, ..old(mkdir)@ }),
        making@ == ActionView::Call(ApiCallView::Mkdir { path: path@ }),
        final(delete)@ == (AppView { library_loading: true, ..old(delete)@ }),
        deleting@ == ActionView::Call(ApiCallView::Delete { path: path@ }),
{
}

/// A request for a search, a download or the sound of a video makes the downloader wait, carries
/// what it was given, and changes nothing else.
pub proof fn downloader_requests_carry_what_they_are_given(
    search: &mut App,
    download: &mut App,
    preview: &mut App,
    text: String,
    folder: Option<String>,
    video_id: String,
    searching: Action,
    downloading: Action,
    streaming: Action,
)
    requires
        call_ensures(App::trigger_search, (search, text), searching),
        call_ensures(App::trigger_download, (download, text, folder), downloading),
        call_ensures(App::trigger_preview, (preview, text, video_id), streaming),
    ensures
        final(search)@ == (AppView { downloader_loading: true, ..old(search)@ }),
        searching@ == ActionView::Call(ApiCallView::Search { query: text@ }),
        final(download)@ == (AppView { downloader_loading: true, ..old(download)@ }),
        folder is Some ==> downloading@ == ActionView::Call(
            ApiCallView::Download { url: text@, folder: Some(folder->0@) },
        ),
        folder is None ==> downloading@ == ActionView::Call(
            ApiCallView::Download { url: text@, folder: None },
        ),
        final(preview)@ == (AppView { downloader_loading: true, ..old(preview)@ }),
        streaming@ == ActionView::Call(
            ApiCallView::Preview { title: text@, video_id: video_id@ },
        ),
{
}

} // verus!
