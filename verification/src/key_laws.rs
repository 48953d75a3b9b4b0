//! Laws of the keys: what each key does in each mode and panel, and what it leaves alone.

use vstd::prelude::*;

use crate::action::{Action, ActionView, ApiCallView, PlayRequest};
use crate::app::{App, AppView};
use crate::model::{
    AppState, InputModeView, KeyCode, KeyEvent, KeyEventKind, LibraryItem, PanelFocus, Repeat,
};
use crate::queue_laws::{a_queue_follows_the_library, a_shuffled_queue_holds_the_library};
use crate::text::{parent_path, video_id, white_space};
use crate::text_laws::{
    no_marker_no_video_id, parent_undoes_child, the_parent_comes_before_the_last_slash,
    the_video_id_lies_between, trimming_leaves_what_lies_between,
    trimming_takes_the_white_space_off, without_a_slash_the_parent_is_the_top,
};

verus! {

/// A key that is let go does nothing.
pub proof fn letting_go_does_nothing(app: &mut App, key: KeyEvent, now: u128, action: Action)
    requires
        key.kind == KeyEventKind::Release,
        call_ensures(App::handle_key, (app, key, now), action),
    ensures
        final(app)@ == old(app)@,
        action@ is Idle,
{
}

/// A key that is held down does what it does when it is pressed.
pub proof fn holding_down_is_pressing(
    pressed: &mut App,
    held: &mut App,
    code: KeyCode,
    now: u128,
    first: Action,
    second: Action,
)
    requires
        old(pressed)@ == old(held)@,
        old(pressed)@.starts_queue(code) is None,
        call_ensures(
            App::handle_key,
            (pressed, KeyEvent { code, kind: KeyEventKind::Press }, now),
            first,
        ),
        call_ensures(
            App::handle_key,
            (held, KeyEvent { code, kind: KeyEventKind::Repeat }, now),
            second,
        ),
    ensures
        final(pressed)@ == final(held)@,
        first@ == second@,
{
}

/// In the search line, Enter on a text that is not all white space sends what lies between the
/// white space at its two ends, whatever was searched for before, and the same is the query that
/// the player shows from then on. The line is closed and the results are waited for.
pub proof fn enter_searches_for_what_was_typed(
    app: &mut App,
    key: KeyEvent,
    now: u128,
    action: Action,
    a: int,
    b: int,
)
    requires
        call_ensures(App::handle_key, (app, key, now), action),
        key.kind != KeyEventKind::Release,
        old(app)@.input_mode is Search,
        key.code == KeyCode::Enter,
        0 <= a < b <= old(app)@.input_value.len(),
        !white_space(old(app)@.input_value[a]),
        !white_space(old(app)@.input_value[b - 1]),
        forall|j: int|
            0 <= j < a || b <= j < old(app)@.input_value.len() ==> white_space(
                #[trigger] old(app)@.input_value[j],
            ),
    ensures
        action@ == ActionView::Call(
            ApiCallView::Search { query: old(app)@.input_value.subrange(a, b) },
        ),
        final(app)@ == (AppView {
            yt_query: old(app)@.input_value.subrange(a, b),
            input_mode: InputModeView::Inactive,
            downloader_loading: true,
            ..old(app)@
        }),
{
    trimming_leaves_what_lies_between(old(app)@.input_value, a, b);
}

/// What is searched for depends on the text that was typed and on nothing else: two players in
/// which the same was typed send the same query, and each shows from then on the query it sent.
pub proof fn the_query_shown_is_the_query_sent(
    one: &mut App,
    other: &mut App,
    key: KeyEvent,
    now: u128,
    first: Action,
    second: Action,
)
    requires
        call_ensures(App::handle_key, (one, key, now), first),
        call_ensures(App::handle_key, (other, key, now), second),
        key.kind != KeyEventKind::Release,
        key.code == KeyCode::Enter,
        old(one)@.input_mode is Search,
        old(other)@.input_mode is Search,
        old(one)@.input_value == old(other)@.input_value,
        exists|j: int|
            0 <= j < old(one)@.input_value.len() && !white_space(
                #[trigger] old(one)@.input_value[j],
            ),
    ensures
        first@ == second@,
        first@ == ActionView::Call(ApiCallView::Search { query: final(one)@.yt_query }),
        second@ == ActionView::Call(ApiCallView::Search { query: final(other)@.yt_query }),
{
    trimming_takes_the_white_space_off(old(one)@.input_value);
}

/// In the line for a new folder, Enter on a text that is not all white space asks for a folder with
/// the name between the white space at its two ends, in the folder that is shown, whatever is
/// listed there and whichever entry is selected. The line is closed and the library waits.
pub proof fn enter_makes_the_folder_where_the_player_is(
    app: &mut App,
    key: KeyEvent,
    now: u128,
    action: Action,
    a: int,
    b: int,
)
    requires
        call_ensures(App::handle_key, (app, key, now), action),
        key.kind != KeyEventKind::Release,
        old(app)@.input_mode is Mkdir,
        key.code == KeyCode::Enter,
        0 <= a < b <= old(app)@.input_value.len(),
        !white_space(old(app)@.input_value[a]),
        !white_space(old(app)@.input_value[b - 1]),
        forall|j: int|
            0 <= j < a || b <= j < old(app)@.input_value.len() ==> white_space(
                #[trigger] old(app)@.input_value[j],
            ),
    ensures
        old(app)@.current_path.len() == 0 ==> action@ == ActionView::Call(
            ApiCallView::Mkdir { path: old(app)@.input_value.subrange(a, b) },
        ),
        old(app)@.current_path.len() > 0 ==> action@ == ActionView::Call(
            ApiCallView::Mkdir {
                path: old(app)@.current_path + seq!['/'] + old(app)@.input_value.subrange(a, b),
            },
        ),
        final(app)@ == (AppView {
            input_mode: InputModeView::Inactive,
            library_loading: true,
            ..old(app)@
        }),
{
    trimming_leaves_what_lies_between(old(app)@.input_value, a, b);
}

/// A new folder whose name holds no slash stands in the folder that is shown: the folder that its
/// path stands in is that one.
pub proof fn a_new_folder_stands_in_the_folder_shown(
    app: &mut App,
    key: KeyEvent,
    now: u128,
    action: Action,
)
    requires
        call_ensures(App::handle_key, (app, key, now), action),
        key.kind != KeyEventKind::Release,
        old(app)@.input_mode is Mkdir,
        key.code == KeyCode::Enter,
        exists|j: int|
            0 <= j < old(app)@.input_value.len() && !white_space(
                #[trigger] old(app)@.input_value[j],
            ),
        !old(app)@.input_value.contains('/'),
    ensures
        action@ is Call,
        action@->Call_0 is Mkdir,
        parent_path(action@->Call_0->Mkdir_path) == old(app)@.current_path,
{
    let typed = old(app)@.input_value;
    trimming_takes_the_white_space_off(typed);
    let (a, b) = choose|a: int, b: int|
        0 <= a <= b <= typed.len() && crate::text::trimmed(typed) == #[trigger] typed.subrange(
            a,
            b,
        ) && (forall|j: int| 0 <= j < a || b <= j < typed.len() ==> white_space(#[trigger] typed[j]));
    let name = typed.subrange(a, b);
    assert(!name.contains('/')) by {
        if name.contains('/') {
            let j = choose|j: int| 0 <= j < name.len() && name[j] == '/';
            assert(typed[a + j] == '/');
        }
    }
    parent_undoes_child(old(app)@.current_path, name);
}

/// Enter on white space alone, and Esc, close a line and do nothing else.
pub proof fn an_empty_line_asks_for_nothing(
    app: &mut App,
    key: KeyEvent,
    now: u128,
    action: Action,
)
    requires
        call_ensures(App::handle_key, (app, key, now), action),
        key.kind != KeyEventKind::Release,
        old(app)@.input_mode is Search || old(app)@.input_mode is Mkdir,
        key.code == KeyCode::Esc || key.code == KeyCode::Enter && forall|j: int|
            0 <= j < old(app)@.input_value.len() ==> white_space(#[trigger] old(app)@.input_value[j]),
    ensures
        final(app)@ == (AppView { input_mode: InputModeView::Inactive, ..old(app)@ }),
        action@ is Idle,
{
    trimming_takes_the_white_space_off(old(app)@.input_value);
}

/// While a line is open, a character is put behind the text, Backspace takes the last one off, and
/// every other key but Enter and Esc does nothing.
pub proof fn what_typing_does(app: &mut App, key: KeyEvent, now: u128, action: Action)
    requires
        call_ensures(App::handle_key, (app, key, now), action),
        key.kind != KeyEventKind::Release,
        old(app)@.input_mode is Search || old(app)@.input_mode is Mkdir,
        key.code != KeyCode::Enter,
        key.code != KeyCode::Esc,
    ensures
        action@ is Idle,
        final(app)@ == (AppView { input_value: final(app)@.input_value, ..old(app)@ }),
        key.code matches KeyCode::Char(c) ==> final(app)@.input_value == old(app)@.input_value.push(
            c,
        ),
        key.code == KeyCode::Backspace && old(app)@.input_value.len() > 0
            ==> final(app)@.input_value == old(app)@.input_value.drop_last(),
        key.code == KeyCode::Backspace && old(app)@.input_value.len() == 0
            ==> final(app)@.input_value == old(app)@.input_value,
        key.code !is Char && key.code != KeyCode::Backspace ==> final(app)@.input_value
            == old(app)@.input_value,
{
}

/// Asked whether to delete something, `y` deletes exactly that; `n` and Esc close the question;
/// every other key leaves it open.
pub proof fn what_the_answer_does(
    app: &mut App,
    key: KeyEvent,
    now: u128,
    action: Action,
    path: Seq<char>,
)
    requires
        call_ensures(App::handle_key, (app, key, now), action),
        key.kind != KeyEventKind::Release,
        old(app)@.input_mode == InputModeView::DeleteConfirm(path),
    ensures
        key.code == KeyCode::Char('y') || key.code == KeyCode::Char('Y') ==> {
            &&& action@ == ActionView::Call(ApiCallView::Delete { path })
            &&& final(app)@ == (AppView {
                input_mode: InputModeView::Inactive,
                library_loading: true,
                ..old(app)@
            })
        },
        key.code == KeyCode::Char('n') || key.code == KeyCode::Char('N') || key.code == KeyCode::Esc
            ==> {
            &&& action@ is Idle
            &&& final(app)@ == (AppView { input_mode: InputModeView::Inactive, ..old(app)@ })
        },
        ({
            &&& key.code != KeyCode::Char('y')
            &&& key.code != KeyCode::Char('Y')
            &&& key.code != KeyCode::Char('n')
            &&& key.code != KeyCode::Char('N')
            &&& key.code != KeyCode::Esc
        }) ==> action@ is Idle && final(app)@ == old(app)@,
{
}

/// `q` quits and Tab goes to the other panel; nothing else changes.
pub proof fn quitting_and_switching(app: &mut App, key: KeyEvent, now: u128, action: Action)
    requires
        call_ensures(App::handle_key, (app, key, now), action),
        key.kind != KeyEventKind::Release,
        old(app)@.input_mode is Inactive,
    ensures
        key.code == KeyCode::Char('q') ==> action@ is Quit && final(app)@ == old(app)@,
        key.code == KeyCode::Tab ==> {
            &&& action@ is Idle
            &&& final(app)@ == (AppView { active_panel: final(app)@.active_panel, ..old(app)@ })
            &&& final(app)@.active_panel != old(app)@.active_panel
        },
        action@ is Quit ==> key.code == KeyCode::Char('q'),
{
    if old(app)@.starts_queue(key.code) is None && key.code != KeyCode::Char('q') {
        lemma_other_keys_do_not_quit(old(app)@, key.code, now as nat);
    }
}

proof fn lemma_other_keys_do_not_quit(app: AppView, code: KeyCode, now: nat)
    requires
        app.input_mode is Inactive,
        code != KeyCode::Char('q'),
    ensures
        app.key_step(code, now).1 !is Quit,
{
}

/// `s` pauses what plays, with the time played until then, and goes on with what is paused.
pub proof fn the_play_key_pauses_and_goes_on(
    app: &mut App,
    key: KeyEvent,
    now: u128,
    action: Action,
    elapsed: u128,
)
    requires
        call_ensures(App::handle_key, (app, key, now), action),
        call_ensures(App::current_elapsed, (old(app), now), elapsed),
        key.kind != KeyEventKind::Release,
        old(app)@.input_mode is Inactive,
        key.code == KeyCode::Char('s'),
    ensures
        old(app)@.state == AppState::Playing ==> action@ is PauseSink && final(app)@ == (AppView {
            state: AppState::Paused,
            playback_start: None,
            playback_accumulated: elapsed as nat,
            ..old(app)@
        }),
        old(app)@.state == AppState::Paused ==> action@ is ResumeSink && final(app)@ == (AppView {
            state: AppState::Playing,
            playback_start: Some(now as nat),
            ..old(app)@
        }),
{
}

/// In silence `s` does nothing unless a song is selected in the panel of the library.
pub proof fn the_play_key_needs_a_song(app: &mut App, key: KeyEvent, now: u128, action: Action)
    requires
        call_ensures(App::handle_key, (app, key, now), action),
        key.kind != KeyEventKind::Release,
        old(app)@.input_mode is Inactive,
        key.code == KeyCode::Char('s'),
        old(app)@.state == AppState::Normal,
        ({
            ||| old(app)@.active_panel == PanelFocus::Downloader
            ||| old(app)@.library_selected is None
            ||| old(app)@.library_items[old(app)@.library_selected->0].song is None
        }),
    ensures
        action@ is Idle,
        final(app)@ == old(app)@,
{
}

/// `l` and Enter on a song, and `s` on a song in silence, make a queue of the library's songs that
/// starts with it: without shuffle in the order of the library, with shuffle that song first.
pub proof fn the_selected_song_starts_a_queue(
    app: &mut App,
    key: KeyEvent,
    now: u128,
    action: Action,
    i: int,
)
    requires
        old(app)@.wf(),
        call_ensures(App::handle_key, (app, key, now), action),
        key.kind != KeyEventKind::Release,
        old(app)@.input_mode is Inactive,
        old(app)@.active_panel == PanelFocus::Library,
        old(app)@.library_selected == Some(i),
        old(app)@.library_items[i].song is Some,
        ({
            ||| key.code == KeyCode::Char('l')
            ||| key.code == KeyCode::Enter
            ||| key.code == KeyCode::Char('s') && old(app)@.state == AppState::Normal
        }),
    ensures
        final(app)@ == (AppView {
            queue: final(app)@.queue,
            queue_idx: final(app)@.queue_idx,
            ..old(app)@
        }),
        0 <= final(app)@.queue_idx < final(app)@.queue.len(),
        final(app)@.queue[final(app)@.queue_idx].id == old(app)@.library_items[i].song->0.id,
        action@ == (ActionView::PlaySong {
            request: PlayRequest::Library,
            song: final(app)@.queue[final(app)@.queue_idx],
        }),
        !old(app)@.is_shuffling ==> final(app)@.queue == old(app)@.library_items.filter(
            |item: LibraryItem| item.song is Some,
        ).map_values(|item: LibraryItem| item.song->0),
        old(app)@.is_shuffling ==> final(app)@.queue_idx == 0 && final(app)@.queue.to_multiset()
            == old(app)@.library_items.filter(|item: LibraryItem| item.song is Some).map_values(
            |item: LibraryItem| item.song->0,
        ).to_multiset(),
        old(app)@.queue_started(i, final(app)@, action@),
{
    if old(app)@.is_shuffling {
        a_shuffled_queue_holds_the_library(old(app)@, i, final(app)@, action@);
    } else {
        a_queue_follows_the_library(old(app)@, i, final(app)@, action@);
    }
}

/// Esc stops the sound.
pub proof fn the_escape_key_stops(app: &mut App, key: KeyEvent, now: u128, action: Action)
    requires
        call_ensures(App::handle_key, (app, key, now), action),
        key.kind != KeyEventKind::Release,
        old(app)@.input_mode is Inactive,
        key.code == KeyCode::Esc,
    ensures
        action@ is StopSink,
        final(app)@ == (AppView {
            currently_playing: None,
            currently_playing_title: None,
            state: AppState::Normal,
            playback_start: None,
            playback_accumulated: 0,
            ..old(app)@
        }),
{
}

/// `c` turns shuffle on, or turns it off and goes on to the next repeat mode: off, all, one.
pub proof fn the_mode_key_goes_through_the_modes(
    app: &mut App,
    key: KeyEvent,
    now: u128,
    action: Action,
)
    requires
        call_ensures(App::handle_key, (app, key, now), action),
        key.kind != KeyEventKind::Release,
        old(app)@.input_mode is Inactive,
        key.code == KeyCode::Char('c'),
    ensures
        action@ is Idle,
        !old(app)@.is_shuffling ==> final(app)@ == (AppView { is_shuffling: true, ..old(app)@ }),
        old(app)@.is_shuffling && old(app)@.repeat == Repeat::Off ==> final(app)@ == (AppView {
            is_shuffling: false,
            repeat: Repeat::All,
            ..old(app)@
        }),
        old(app)@.is_shuffling && old(app)@.repeat == Repeat::All ==> final(app)@ == (AppView {
            is_shuffling: false,
            repeat: Repeat::One,
            ..old(app)@
        }),
        old(app)@.is_shuffling && old(app)@.repeat == Repeat::One ==> final(app)@ == (AppView {
            is_shuffling: false,
            repeat: Repeat::Off,
            ..old(app)@
        }),
{
}

/// The keys to the right and `>` do what the command for the next song does, in both panels.
pub proof fn the_right_key_plays_the_next_song(
    app: &mut App,
    key: KeyEvent,
    now: u128,
    action: Action,
    other: &mut App,
    next: Action,
)
    requires
        call_ensures(App::handle_key, (app, key, now), action),
        key.kind != KeyEventKind::Release,
        old(app)@.input_mode is Inactive,
        key.code == KeyCode::Right || key.code == KeyCode::Char('>'),
        old(other)@ == old(app)@,
        call_ensures(App::play_next_song, (other,), next),
    ensures
        final(app)@ == final(other)@,
        action@ == next@,
{
}

/// The keys to the left and `<` do what the command for the previous song does, in both panels.
pub proof fn the_left_key_plays_the_previous_song(
    app: &mut App,
    key: KeyEvent,
    now: u128,
    action: Action,
    other: &mut App,
    previous: Action,
)
    requires
        call_ensures(App::handle_key, (app, key, now), action),
        key.kind != KeyEventKind::Release,
        old(app)@.input_mode is Inactive,
        key.code == KeyCode::Left || key.code == KeyCode::Char('<'),
        old(other)@ == old(app)@,
        call_ensures(App::play_previous_song, (other,), previous),
    ensures
        final(app)@ == final(other)@,
        action@ == previous@,
{
}

/// In the library `j` and Down select the entry below, and the first one below the last; `k` and
/// Up select the entry above, and the last one above the first. Nothing else changes.
pub proof fn the_library_selection_moves_by_one(
    app: &mut App,
    key: KeyEvent,
    now: u128,
    action: Action,
    i: int,
)
    requires
        old(app)@.wf(),
        call_ensures(App::handle_key, (app, key, now), action),
        key.kind != KeyEventKind::Release,
        old(app)@.input_mode is Inactive,
        old(app)@.active_panel == PanelFocus::Library,
        old(app)@.library_selected == Some(i),
        ({
            ||| key.code == KeyCode::Char('j')
            ||| key.code == KeyCode::Down
            ||| key.code == KeyCode::Char('k')
            ||| key.code == KeyCode::Up
        }),
    ensures
        action@ is Idle,
        final(app)@ == (AppView { library_selected: final(app)@.library_selected, ..old(app)@ }),
        ({
            let len = old(app)@.library_items.len();
            let after = final(app)@.library_selected;
            if key.code == KeyCode::Char('j') || key.code == KeyCode::Down {
                &&& i < len - 1 ==> after == Some(i + 1)
                &&& i == len - 1 ==> after == Some(0int)
            } else {
                &&& i > 0 ==> after == Some(i - 1)
                &&& i == 0 ==> after == Some(len - 1)
            }
        }),
{
}

/// Among the results `j` and Down select the entry below, and the first one below the last; `k` and
/// Up select the entry above, and the last one above the first. Nothing else changes.
pub proof fn the_result_selection_moves_by_one(
    app: &mut App,
    key: KeyEvent,
    now: u128,
    action: Action,
    i: int,
)
    requires
        old(app)@.wf(),
        call_ensures(App::handle_key, (app, key, now), action),
        key.kind != KeyEventKind::Release,
        old(app)@.input_mode is Inactive,
        old(app)@.active_panel == PanelFocus::Downloader,
        old(app)@.downloader_selected == Some(i),
        ({
            ||| key.code == KeyCode::Char('j')
            ||| key.code == KeyCode::Down
            ||| key.code == KeyCode::Char('k')
            ||| key.code == KeyCode::Up
        }),
    ensures
        action@ is Idle,
        final(app)@ == (AppView {
            downloader_selected: final(app)@.downloader_selected,
            ..old(app)@
        }),
        ({
            let len = old(app)@.yt_results.len();
            let after = final(app)@.downloader_selected;
            if key.code == KeyCode::Char('j') || key.code == KeyCode::Down {
                &&& i < len - 1 ==> after == Some(i + 1)
                &&& i == len - 1 ==> after == Some(0int)
            } else {
                &&& i > 0 ==> after == Some(i - 1)
                &&& i == 0 ==> after == Some(len - 1)
            }
        }),
{
}

/// In the library `l` and Enter on a folder ask for it: by its name in the top folder, else by the
/// path that is shown, a slash and its name.
pub proof fn a_folder_is_entered_by_its_path(
    app: &mut App,
    key: KeyEvent,
    now: u128,
    action: Action,
    i: int,
)
    requires
        old(app)@.wf(),
        call_ensures(App::handle_key, (app, key, now), action),
        key.kind != KeyEventKind::Release,
        old(app)@.input_mode is Inactive,
        old(app)@.active_panel == PanelFocus::Library,
        old(app)@.library_selected == Some(i),
        old(app)@.library_items[i].is_dir,
        key.code == KeyCode::Char('l') || key.code == KeyCode::Enter,
    ensures
        final(app)@ == (AppView { library_loading: true, ..old(app)@ }),
        old(app)@.current_path.len() == 0 ==> action@ == ActionView::Call(
            ApiCallView::Browse { path: old(app)@.library_items[i].name@ },
        ),
        old(app)@.current_path.len() > 0 ==> action@ == ActionView::Call(
            ApiCallView::Browse {
                path: old(app)@.current_path + seq!['/'] + old(app)@.library_items[i].name@,
            },
        ),
{
    assert(old(app)@.library_items[i].song is None);
}

/// In the library `h` asks for the folder that the one shown stands in: what comes before the last
/// slash of its path, at the position `i`; the top folder where it has none. In the top folder it
/// does nothing.
pub proof fn going_back_asks_for_the_parent(
    app: &mut App,
    key: KeyEvent,
    now: u128,
    action: Action,
    i: int,
)
    requires
        call_ensures(App::handle_key, (app, key, now), action),
        key.kind != KeyEventKind::Release,
        old(app)@.input_mode is Inactive,
        old(app)@.active_panel == PanelFocus::Library,
        key.code == KeyCode::Char('h'),
    ensures
        old(app)@.current_path.len() == 0 ==> action@ is Idle && final(app)@ == old(app)@,
        old(app)@.current_path.len() > 0 ==> final(app)@ == (AppView {
            library_loading: true,
            ..old(app)@
        }),
        0 <= i < old(app)@.current_path.len() && old(app)@.current_path[i] == '/' && (forall|j: int|
            i < j < old(app)@.current_path.len() ==> (#[trigger] old(app)@.current_path[j]) != '/')
            ==> action@ == ActionView::Call(
            ApiCallView::Browse { path: old(app)@.current_path.take(i) },
        ),
        old(app)@.current_path.len() > 0 && (forall|j: int|
            0 <= j < old(app)@.current_path.len() ==> (#[trigger] old(app)@.current_path[j]) != '/')
            ==> action@ == ActionView::Call(ApiCallView::Browse { path: Seq::empty() }),
{
    let path = old(app)@.current_path;
    if forall|j: int| 0 <= j < path.len() ==> (#[trigger] path[j]) != '/' {
        without_a_slash_the_parent_is_the_top(path);
        assert(parent_path(path) =~= Seq::empty());
    } else if 0 <= i < path.len() && path[i] == '/' && (forall|j: int|
        i < j < path.len() ==> (#[trigger] path[j]) != '/') {
        the_parent_comes_before_the_last_slash(path, i);
    }
}

/// In the library `n` opens the line for a new folder, empty.
pub proof fn the_new_folder_key_opens_an_empty_line(
    app: &mut App,
    key: KeyEvent,
    now: u128,
    action: Action,
)
    requires
        call_ensures(App::handle_key, (app, key, now), action),
        key.kind != KeyEventKind::Release,
        old(app)@.input_mode is Inactive,
        old(app)@.active_panel == PanelFocus::Library,
        key.code == KeyCode::Char('n'),
    ensures
        action@ is Idle,
        final(app)@ == (AppView {
            input_mode: InputModeView::Mkdir,
            input_value: Seq::empty(),
            ..old(app)@
        }),
{
}

/// In the library `x` and `d` ask whether to delete the selected entry: a folder by its path below
/// the one shown, a song by its own path.
pub proof fn the_delete_key_asks_about_the_selected_entry(
    app: &mut App,
    key: KeyEvent,
    now: u128,
    action: Action,
    i: int,
)
    requires
        old(app)@.wf(),
        call_ensures(App::handle_key, (app, key, now), action),
        key.kind != KeyEventKind::Release,
        old(app)@.input_mode is Inactive,
        old(app)@.active_panel == PanelFocus::Library,
        old(app)@.library_selected == Some(i),
        key.code == KeyCode::Char('x') || key.code == KeyCode::Char('d'),
    ensures
        action@ is Idle,
        final(app)@ == (AppView { input_mode: final(app)@.input_mode, ..old(app)@ }),
        ({
            let item = old(app)@.library_items[i];
            let asked = final(app)@.input_mode;
            &&& item.song is Some ==> asked == InputModeView::DeleteConfirm(item.song->0.path@)
            &&& item.song is None && old(app)@.current_path.len() == 0 ==> asked
                == InputModeView::DeleteConfirm(item.name@)
            &&& item.song is None && old(app)@.current_path.len() > 0 ==> asked
                == InputModeView::DeleteConfirm(old(app)@.current_path + seq!['/'] + item.name@)
        }),
{
}

/// In the library, with nothing selected the keys for an entry do nothing, and so do the keys that
/// stand for no command.
pub proof fn other_keys_do_nothing_in_the_library(
    app: &mut App,
    key: KeyEvent,
    now: u128,
    action: Action,
)
    requires
        old(app)@.wf(),
        call_ensures(App::handle_key, (app, key, now), action),
        key.kind != KeyEventKind::Release,
        old(app)@.input_mode is Inactive,
        old(app)@.active_panel == PanelFocus::Library,
        ({
            let entry_key = {
                ||| key.code == KeyCode::Char('j') || key.code == KeyCode::Down
                ||| key.code == KeyCode::Char('k') || key.code == KeyCode::Up
                ||| key.code == KeyCode::Char('l') || key.code == KeyCode::Enter
                ||| key.code == KeyCode::Char('x') || key.code == KeyCode::Char('d')
            };
            let other_key = {
                ||| key.code == KeyCode::Char('h') || key.code == KeyCode::Char('n')
                ||| key.code == KeyCode::Char('q') || key.code == KeyCode::Tab
                ||| key.code == KeyCode::Char('s') || key.code == KeyCode::Esc
                ||| key.code == KeyCode::Char('c')
                ||| key.code == KeyCode::Right || key.code == KeyCode::Char('>')
                ||| key.code == KeyCode::Left || key.code == KeyCode::Char('<')
            };
            !entry_key && !other_key || entry_key && old(app)@.library_selected is None
        }),
    ensures
        action@ is Idle,
        final(app)@ == old(app)@,
{
}

/// In the downloader `/` opens the search line, empty.
pub proof fn the_search_key_opens_an_empty_line(
    app: &mut App,
    key: KeyEvent,
    now: u128,
    action: Action,
)
    requires
        call_ensures(App::handle_key, (app, key, now), action),
        key.kind != KeyEventKind::Release,
        old(app)@.input_mode is Inactive,
        old(app)@.active_panel == PanelFocus::Downloader,
        key.code == KeyCode::Char('/'),
    ensures
        action@ is Idle,
        final(app)@ == (AppView {
            input_mode: InputModeView::Search,
            input_value: Seq::empty(),
            ..old(app)@
        }),
{
}

/// In the downloader `d` and Enter ask for a download of the selected result, into the folder that
/// is chosen, or without one where none is. A message says so for a minute.
pub proof fn the_selected_result_is_downloaded(
    app: &mut App,
    key: KeyEvent,
    now: u128,
    action: Action,
    i: int,
)
    requires
        call_ensures(App::handle_key, (app, key, now), action),
        key.kind != KeyEventKind::Release,
        old(app)@.input_mode is Inactive,
        old(app)@.active_panel == PanelFocus::Downloader,
        old(app)@.downloader_selected == Some(i),
        key.code == KeyCode::Char('d') || key.code == KeyCode::Enter,
    ensures
        final(app)@ == (AppView {
            status_message: Some("Downloading..."@),
            status_expiry: Some((now + 60_000_000_000) as nat),
            downloader_loading: true,
            ..old(app)@
        }),
        old(app)@.selected_save_dir_idx == 0 ==> action@ == ActionView::Call(
            ApiCallView::Download { url: old(app)@.yt_results[i].url@, folder: None },
        ),
        old(app)@.selected_save_dir_idx != 0 ==> action@ == ActionView::Call(
            ApiCallView::Download {
                url: old(app)@.yt_results[i].url@,
                folder: Some(old(app)@.top_dirs[old(app)@.selected_save_dir_idx - 1]@),
            },
        ),
{
}

/// In the downloader `p` and space ask for the sound of the selected result: its title, and the
/// video id in its URL. A message says so for ten seconds.
pub proof fn the_selected_result_is_previewed(
    app: &mut App,
    key: KeyEvent,
    now: u128,
    action: Action,
    i: int,
)
    requires
        call_ensures(App::handle_key, (app, key, now), action),
        key.kind != KeyEventKind::Release,
        old(app)@.input_mode is Inactive,
        old(app)@.active_panel == PanelFocus::Downloader,
        old(app)@.downloader_selected == Some(i),
        key.code == KeyCode::Char('p') || key.code == KeyCode::Char(' '),
    ensures
        action@ == ActionView::Call(
            ApiCallView::Preview {
                title: old(app)@.yt_results[i].title@,
                video_id: video_id(old(app)@.yt_results[i].url@),
            },
        ),
        final(app)@ == (AppView {
            status_message: Some("Streaming preview..."@),
            status_expiry: Some((now + 10_000_000_000) as nat),
            downloader_loading: true,
            ..old(app)@
        }),
{
}

/// The video id that a preview asks for stands in the URL of the selected result, between its first
/// `v=`, at the position `m`, and the next `&` or the end, at the position `e`; a URL without `v=`
/// has none.
pub proof fn a_preview_is_of_the_video_in_the_url(
    app: &mut App,
    key: KeyEvent,
    now: u128,
    action: Action,
    i: int,
    m: int,
    e: int,
)
    requires
        call_ensures(App::handle_key, (app, key, now), action),
        key.kind != KeyEventKind::Release,
        old(app)@.input_mode is Inactive,
        old(app)@.active_panel == PanelFocus::Downloader,
        old(app)@.downloader_selected == Some(i),
        key.code == KeyCode::Char('p') || key.code == KeyCode::Char(' '),
    ensures
        ({
            let url = old(app)@.yt_results[i].url@;
            let sent = action@->Call_0->video_id;
            let first_at_m = {
                &&& 0 <= m && m + 2 <= e <= url.len()
                &&& url[m] == 'v' && url[m + 1] == '='
                &&& forall|j: int| 0 <= j < m ==> !((#[trigger] url[j]) == 'v' && url[j + 1] == '=')
                &&& forall|j: int| m + 2 <= j < e ==> (#[trigger] url[j]) != '&'
                &&& e == url.len() || url[e] == '&'
            };
            let nowhere = forall|j: int|
                0 <= j < url.len() - 1 ==> !((#[trigger] url[j]) == 'v' && url[j + 1] == '=');
            &&& action@ is Call && action@->Call_0 is Preview
            &&& action@->Call_0->title == old(app)@.yt_results[i].title@
            &&& first_at_m ==> sent == url.subrange(m + 2, e)
            &&& nowhere ==> sent.len() == 0
        }),
{
    let url = old(app)@.yt_results[i].url@;
    if {
        &&& 0 <= m && m + 2 <= e <= url.len()
        &&& url[m] == 'v' && url[m + 1] == '='
        &&& forall|j: int| 0 <= j < m ==> !((#[trigger] url[j]) == 'v' && url[j + 1] == '=')
        &&& forall|j: int| m + 2 <= j < e ==> (#[trigger] url[j]) != '&'
        &&& e == url.len() || url[e] == '&'
    } {
        the_video_id_lies_between(url, m, e);
    }
    if forall|j: int|
        0 <= j < url.len() - 1 ==> !((#[trigger] url[j]) == 'v' && url[j + 1] == '=') {
        no_marker_no_video_id(url);
    }
}

/// In the downloader `f` chooses the next top folder for downloads, and none after the last one.
pub proof fn the_save_key_goes_through_the_top_folders(
    app: &mut App,
    key: KeyEvent,
    now: u128,
    action: Action,
)
    requires
        call_ensures(App::handle_key, (app, key, now), action),
        key.kind != KeyEventKind::Release,
        old(app)@.input_mode is Inactive,
        old(app)@.active_panel == PanelFocus::Downloader,
        key.code == KeyCode::Char('f'),
        0 <= old(app)@.selected_save_dir_idx <= old(app)@.top_dirs.len(),
    ensures
        action@ is Idle,
        final(app)@ == (AppView {
            selected_save_dir_idx: final(app)@.selected_save_dir_idx,
            ..old(app)@
        }),
        old(app)@.selected_save_dir_idx < old(app)@.top_dirs.len()
            ==> final(app)@.selected_save_dir_idx == old(app)@.selected_save_dir_idx + 1,
        old(app)@.selected_save_dir_idx == old(app)@.top_dirs.len()
            ==> final(app)@.selected_save_dir_idx == 0,
{
    let (at, n) = (old(app)@.selected_save_dir_idx, old(app)@.top_dirs.len() as int + 1);
    if at + 1 < n {
        assert((at + 1) % n == at + 1) by (nonlinear_arith)
            requires
                0 <= at + 1 < n,
        ;
    } else {
        assert(n % n == 0) by (nonlinear_arith)
            requires
                n > 0,
        ;
    }
}

/// Where the chosen top folder is gone because the list has become shorter, `f` goes on counting
/// round the list that there is.
pub proof fn the_save_key_finds_back_to_the_top_folders(
    app: &mut App,
    key: KeyEvent,
    now: u128,
    action: Action,
)
    requires
        old(app)@.wf(),
        call_ensures(App::handle_key, (app, key, now), action),
        key.kind != KeyEventKind::Release,
        old(app)@.input_mode is Inactive,
        old(app)@.active_panel == PanelFocus::Downloader,
        key.code == KeyCode::Char('f'),
    ensures
        0 <= final(app)@.selected_save_dir_idx <= old(app)@.top_dirs.len(),
        (old(app)@.selected_save_dir_idx + 1 - final(app)@.selected_save_dir_idx) % (
        old(app)@.top_dirs.len() as int + 1) == 0,
{
    let (at, n) = (old(app)@.selected_save_dir_idx, old(app)@.top_dirs.len() as int + 1);
    vstd::arithmetic::div_mod::lemma_mod_bound(at + 1, n);
    vstd::arithmetic::div_mod::lemma_fundamental_div_mod(at + 1, n);
    vstd::arithmetic::div_mod::lemma_mod_multiples_basic((at + 1) / n, n);
    assert(at + 1 - (at + 1) % n == (at + 1) / n * n) by (nonlinear_arith)
        requires
            at + 1 == n * ((at + 1) / n) + (at + 1) % n,
    ;
}

/// In the downloader, with nothing selected the keys for a result do nothing, and so do the keys
/// that stand for no command.
pub proof fn other_keys_do_nothing_in_the_downloader(
    app: &mut App,
    key: KeyEvent,
    now: u128,
    action: Action,
)
    requires
        old(app)@.wf(),
        call_ensures(App::handle_key, (app, key, now), action),
        key.kind != KeyEventKind::Release,
        old(app)@.input_mode is Inactive,
        old(app)@.active_panel == PanelFocus::Downloader,
        ({
            let entry_key = {
                ||| key.code == KeyCode::Char('j') || key.code == KeyCode::Down
                ||| key.code == KeyCode::Char('k') || key.code == KeyCode::Up
                ||| key.code == KeyCode::Char('d') || key.code == KeyCode::Enter
                ||| key.code == KeyCode::Char('p') || key.code == KeyCode::Char(' ')
            };
            let other_key = {
                ||| key.code == KeyCode::Char('/') || key.code == KeyCode::Char('f')
                ||| key.code == KeyCode::Char('q') || key.code == KeyCode::Tab
                ||| key.code == KeyCode::Char('s') || key.code == KeyCode::Esc
                ||| key.code == KeyCode::Char('c')
                ||| key.code == KeyCode::Right || key.code == KeyCode::Char('>')
                ||| key.code == KeyCode::Left || key.code == KeyCode::Char('<')
            };
            !entry_key && !other_key || entry_key && old(app)@.downloader_selected is None
        }),
    ensures
        action@ is Idle,
        final(app)@ == old(app)@,
{
}

} // verus!
