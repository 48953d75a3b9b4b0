//! Laws of the screen: what each part of it shows of the player.

use vstd::prelude::*;

use crate::app::App;
use crate::model::{AppState, InputMode, PanelFocus, Repeat};
use crate::screen::{percent_of, Footer, LibraryRow, Screen};
use crate::text::format_secs;

verus! {

/// The line at the top tells whether something plays and what.
pub proof fn the_screen_tells_what_plays(app: &App, now: u128, screen: Screen)
    requires
        call_ensures(App::screen, (app, now), screen),
    ensures
        app.state == AppState::Playing ==> screen.play_icon@ == "▶ "@,
        app.state == AppState::Paused ==> screen.play_icon@ == "⏸ "@,
        app.state == AppState::Normal ==> screen.play_icon@ == "⏹ "@,
        app.currently_playing_title is Some ==> screen.playing_title@
            == app.currently_playing_title->0@,
        app.currently_playing_title is None ==> screen.playing_title@ == "Not playing"@,
{
    let shown = screen@;
    assert(shown.play_icon == screen.play_icon@);
}

/// The gauge shows the whole percents that have played, at most 100, and nothing of what has no
/// length. Only the low 16 bits of the percents count.
pub proof fn the_gauge_shows_whole_percents(elapsed: u64, total: u64, percent: u16)
    requires
        call_ensures(percent_of, (elapsed, total), percent),
    ensures
        total == 0 ==> percent == 0,
        total > 0 && elapsed * 100 / total as int % 65536 < 100 ==> percent == elapsed * 100
            / total as int % 65536,
        total > 0 && elapsed * 100 / total as int % 65536 >= 100 ==> percent == 100,
{
}

/// At every moment of a song so many percents of its length have passed as the gauge shows, and one
/// percent more has not.
pub proof fn the_gauge_never_runs_ahead(elapsed: u64, total: u64, percent: u16)
    requires
        call_ensures(percent_of, (elapsed, total), percent),
        0 < total,
        elapsed < total,
    ensures
        percent * total <= elapsed * 100 < (percent + 1) * total,
        percent < 100,
{
    let (e, t) = (elapsed as int, total as int);
    let q = e * 100 / t;
    assert(0 <= q < 100 && q * t <= e * 100 < (q + 1) * t) by (nonlinear_arith)
        requires
            0 <= e < t,
            q == e * 100 / t,
    ;
    assert(percent == q);
}

/// The gauge and the label beside it show the whole seconds played and the length of the song; with
/// no song the length is 0. A length below zero is read without its sign for the gauge.
pub proof fn the_screen_shows_the_time_played(
    app: &App,
    now: u128,
    screen: Screen,
    elapsed: u128,
    secs: u64,
    total: u64,
    percent: u16,
    signed_secs: i64,
    length: i64,
    played: String,
    whole: String,
)
    requires
        call_ensures(App::screen, (app, now), screen),
        call_ensures(App::current_elapsed, (app, now), elapsed),
        secs == elapsed as int / 1_000_000_000,
        signed_secs == if secs <= i64::MAX {
            secs as int
        } else {
            secs - 18_446_744_073_709_551_616
        },
        length == if app.currently_playing is Some {
            app.currently_playing->0.duration
        } else {
            0
        },
        total == if length >= 0 {
            length as int
        } else {
            length + 18_446_744_073_709_551_616
        },
        call_ensures(percent_of, (secs, total), percent),
        call_ensures(format_secs, (signed_secs,), played),
        call_ensures(format_secs, (length,), whole),
    ensures
        screen.percent == percent,
        screen.progress_label@ == played@ + " / "@ + whole@,
{
    let shown = screen@;
    assert(shown.percent == screen.percent);
    assert(shown.progress_label == screen.progress_label@);
    assert(app@.elapsed_secs(now as nat) == secs);
}

/// The modes are shown as they are set.
pub proof fn the_screen_shows_the_modes(app: &App, now: u128, screen: Screen)
    requires
        call_ensures(App::screen, (app, now), screen),
    ensures
        screen.shuffle_on == app.is_shuffling,
        app.is_shuffling ==> screen.shuffle_label@ == "ON"@,
        !app.is_shuffling ==> screen.shuffle_label@ == "OFF"@,
        app.repeat == Repeat::Off ==> !screen.repeat_on && screen.repeat_label@ == "OFF"@,
        app.repeat == Repeat::All ==> screen.repeat_on && screen.repeat_label@ == "ALL"@,
        app.repeat == Repeat::One ==> screen.repeat_on && screen.repeat_label@ == "ONE"@,
{
    let shown = screen@;
    assert(shown.shuffle_label == screen.shuffle_label@);
}

/// The panel that takes the keys is marked, the guide lists its keys, and each panel that waits for
/// the server says so.
pub proof fn the_screen_shows_the_panels(app: &App, now: u128, screen: Screen)
    requires
        call_ensures(App::screen, (app, now), screen),
    ensures
        screen.library_focused <==> app.active_panel == PanelFocus::Library,
        screen.downloader_focused <==> app.active_panel == PanelFocus::Downloader,
        screen.library_loading == app.library_loading,
        screen.downloader_loading == app.downloader_loading,
        screen.library_selected == app.library_selected,
        screen.downloader_selected == app.downloader_selected,
        screen.library_title@ == " Library: Music/"@ + app.current_path@ + " "@,
        app.active_panel == PanelFocus::Library ==> screen.guide@
            == "Tab: Switch Panel | j/k: Navigate | l/Enter: Enter/Play | h: Back | n: New Folder | x: Delete | q: Quit"@,
        app.active_panel == PanelFocus::Downloader ==> screen.guide@
            == "Tab: Switch Panel | j/k: Navigate | /: Search YT | d/Enter: Download | p/Space: Preview | f: Cycles save folder | q: Quit"@,
{
    let shown = screen@;
    assert(shown.guide == screen.guide@);
    assert(shown.library_selected == app@.library_selected);
    assert(shown.downloader_selected == app@.downloader_selected);
}

/// Unless it waits, the library panel has one line for each entry, in their order: a folder by its
/// name, a song by its title, its artist and its length, marked where it is the current one.
pub proof fn every_entry_has_its_line(
    app: &App,
    now: u128,
    screen: Screen,
    i: int,
    length: String,
)
    requires
        call_ensures(App::screen, (app, now), screen),
        0 <= i < app.library_items@.len(),
        !app.library_loading,
    ensures
        screen.library_rows@.len() == app.library_items@.len(),
        ({
            let item = app.library_items@[i];
            let song = item.song->0;
            let current = app.currently_playing is Some && app.currently_playing->0.id == song.id;
            match screen.library_rows@[i] {
                LibraryRow::Folder { icon, name } => {
                    &&& item.is_dir
                    &&& icon@ == "📁 "@
                    &&& name@ == item.name@
                },
                LibraryRow::Track { playing, icon, title, artist, duration } => {
                    &&& !item.is_dir
                    &&& playing == current
                    &&& current ==> icon@ == "▶ "@
                    &&& !current ==> icon@ == "🎵 "@
                    &&& title@ == song.title@
                    &&& artist@ == " - "@ + song.artist@ + " "@
                    &&& call_ensures(format_secs, (song.duration,), length) ==> duration@ == "("@
                        + length@ + ")"@
                },
            }
        }),
{
    let rows = screen@.library_rows;
    assert(rows == app@.library_rows());
    assert(rows.len() == screen.library_rows@.len());
    assert(rows[i] == screen.library_rows@[i]@);
}

/// Unless it waits, the downloader has one line for each result, in their order: its title, its
/// channel and its length.
pub proof fn every_result_has_its_line(
    app: &App,
    now: u128,
    screen: Screen,
    i: int,
    length: String,
)
    requires
        call_ensures(App::screen, (app, now), screen),
        0 <= i < app.yt_results@.len(),
        !app.downloader_loading,
    ensures
        screen.result_rows@.len() == app.yt_results@.len(),
        screen.result_rows@[i].icon@ == "🔍 "@,
        screen.result_rows@[i].title@ == app.yt_results@[i].title@,
        screen.result_rows@[i].channel@ == " - "@ + app.yt_results@[i].channel@ + " "@,
        call_ensures(format_secs, (app.yt_results@[i].duration,), length)
            ==> screen.result_rows@[i].duration@ == "("@ + length@ + ")"@,
{
    let rows = screen@.result_rows;
    assert(rows == app@.result_rows());
    assert(rows.len() == screen.result_rows@.len());
    assert(rows[i] == screen.result_rows@[i]@);
}

/// A panel that waits shows no lines, and one with nothing in it shows none either.
pub proof fn a_waiting_panel_shows_no_lines(app: &App, now: u128, screen: Screen)
    requires
        call_ensures(App::screen, (app, now), screen),
    ensures
        app.library_loading || app.library_items@.len() == 0 ==> screen.library_rows@.len() == 0,
        app.downloader_loading || app.yt_results@.len() == 0 ==> screen.result_rows@.len() == 0,
{
    assert(screen@.library_rows == app@.library_rows());
    assert(screen@.library_rows.len() == screen.library_rows@.len());
    assert(screen@.result_rows == app@.result_rows());
    assert(screen@.result_rows.len() == screen.result_rows@.len());
}

/// The downloader shows the query that was sent last, or how to search, and the folder that
/// downloads go to: the chosen top folder, or that the server chooses.
pub proof fn the_screen_shows_query_and_folder(app: &App, now: u128, screen: Screen)
    requires
        call_ensures(App::screen, (app, now), screen),
    ensures
        app.yt_query@.len() > 0 ==> screen.query_line@ == " Query: "@ + app.yt_query@,
        app.yt_query@.len() == 0 ==> screen.query_line@ == " Query: "@
            + "(Press / to search YouTube)"@,
        screen.search_active <==> app.input_mode is Search,
        app.selected_save_dir_idx == 0 ==> screen.save_dir@ == "Music/ (自動)"@,
        app.selected_save_dir_idx > 0 ==> screen.save_dir@ == "Music/"@ + app.top_dirs@[
            app.selected_save_dir_idx - 1]@ + "/"@,
{
    let shown = screen@;
    assert(shown.query_line == screen.query_line@);
    assert(shown.save_dir == screen.save_dir@);
}

/// The line above the guide shows the text that is being typed, the question before something is
/// deleted, or else the message, if there is one.
pub proof fn the_footer_shows_what_is_going_on(app: &App, now: u128, screen: Screen)
    requires
        call_ensures(App::screen, (app, now), screen),
    ensures
        match (app.input_mode, screen.footer) {
            (InputMode::Search, Footer::Input(text)) => text@ == "Search YT: "@ + app.input_value@
                + "▋"@,
            (InputMode::Mkdir, Footer::Input(text)) => text@ == "New Folder Name: "@
                + app.input_value@ + "▋"@,
            (InputMode::DeleteConfirm(path), Footer::Warning(text)) => text@ == "Delete '"@ + path@
                + "'? (y/n) "@,
            (InputMode::Inactive, Footer::Status(text)) => app.status_message is Some && text@
                == app.status_message->0@,
            (InputMode::Inactive, Footer::Ready(text)) => app.status_message is None && text@
                == "Ready"@,
            _ => false,
        },
{
    assert(screen@.footer == screen.footer@);
    assert(screen@.footer == app@.footer());
}

/// The player can be shown where the moment and the time played fit their bounds, the chosen folder
/// exists, and the percents of what plays can be computed.
pub proof fn when_the_player_can_be_shown(
    app: &App,
    now: u128,
    ready: bool,
    in_range: bool,
    drawable: bool,
    elapsed: u128,
)
    requires
        app@.wf(),
        call_ensures(App::is_ready_at, (app, now), ready),
        call_ensures(App::is_save_dir_in_range, (app,), in_range),
        call_ensures(App::is_drawable_at, (app, now), drawable),
        call_ensures(App::current_elapsed, (app, now), elapsed),
    ensures
        ready <==> now <= 18_446_744_073_709_551_615_999_999_999 && elapsed
            <= 18_446_744_073_709_551_615_999_999_999,
        in_range <==> app.selected_save_dir_idx <= app.top_dirs@.len(),
        drawable <==> {
            &&& ready
            &&& in_range
            &&& app.currently_playing is Some && app.currently_playing->0.duration != 0
                ==> elapsed as int / 1_000_000_000 * 100 <= u64::MAX
        },
        drawable ==> call_requires(App::screen, (app, now)),
{
}

} // verus!
