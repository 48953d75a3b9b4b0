//! What holds of the player across its operations.

use vstd::prelude::*;

use crate::action::{ActionView, ApiCallView, PlayRequest};
use crate::app::{AppView, MAX_TIME, NANOS_PER_SEC};
use crate::background::BackgroundEvent;
use crate::keys::{down, up};
use crate::model::{songs_of, AppState, InputModeView, KeyCode, PanelFocus, Repeat, Song};
use crate::screen::{percent_played, FooterView};

verus! {

/// Something that happens to the player.
pub enum Step {
    Key(KeyCode),
    Background(BackgroundEvent),
    Autoplay { sink_empty: bool },
    Song { request: PlayRequest, song: Song, loaded: Result<(), String> },
    Preview { title: Seq<char>, loaded: Result<(), String> },
    StatusCheck,
}

impl AppView {
    /// What a step at the time `now` can lead to.
    pub open spec fn leads_to(
        self,
        step: Step,
        now: nat,
        post: AppView,
        action: ActionView,
    ) -> bool {
        match step {
            Step::Key(code) => self.key_outcome(code, now, post, action),
            Step::Background(event) => (post, action) == self.background_step(event, now),
            Step::Autoplay { sink_empty } => (post, action) == self.autoplay_step(sink_empty),
            Step::Song { request, song, loaded } => (post, action) == self.song_step(
                request,
                song,
                loaded,
                now,
            ),
            Step::Preview { title, loaded } => {
                &&& post == self.preview_step(title, loaded, now)
                &&& action == ActionView::Idle
            },
            Step::StatusCheck => {
                &&& post == self.status_checked(now)
                &&& action == ActionView::Idle
            },
        }
    }

    /// No more has played than time has passed until `t`, and nothing was started after `t`.
    pub open spec fn timely(self, t: nat) -> bool {
        match self.playback_start {
            Some(start) => self.playback_accumulated <= start <= t,
            None => self.playback_accumulated <= t,
        }
    }
}

/// What every step keeps: the player is sound, and its clock is right as long as time does not run
/// backward.
spec fn keeps(app: AppView, t: nat, now: nat, post: AppView) -> bool {
    &&& app.wf() ==> post.wf()
    &&& app.wf() && app.timely(t) && t <= now ==> post.timely(now)
}

/// A step that does not list a folder leaves the download folder one that exists.
spec fn keeps_save_dir(app: AppView, post: AppView) -> bool {
    app.wf() && app.save_dir_in_range() ==> post.save_dir_in_range()
}

proof fn lemma_library_key_keeps(app: AppView, code: KeyCode, t: nat, now: nat)
    ensures
        keeps(app, t, now, app.library_key(code).0),
        keeps_save_dir(app, app.library_key(code).0),
{
}

proof fn lemma_downloader_key_keeps(app: AppView, code: KeyCode, t: nat, now: nat)
    ensures
        keeps(app, t, now, app.downloader_key(code, now).0),
        keeps_save_dir(app, app.downloader_key(code, now).0),
{
}

proof fn lemma_next_keeps(app: AppView, t: nat, now: nat)
    ensures
        keeps(app, t, now, app.next_step().0),
        keeps_save_dir(app, app.next_step().0),
{
}

proof fn lemma_previous_keeps(app: AppView, t: nat, now: nat)
    ensures
        keeps(app, t, now, app.previous_step().0),
        keeps_save_dir(app, app.previous_step().0),
{
}

proof fn lemma_play_key_keeps(app: AppView, t: nat, now: nat)
    ensures
        keeps(app, t, now, app.play_key(now).0),
        keeps_save_dir(app, app.play_key(now).0),
{
}

proof fn lemma_command_key_keeps(app: AppView, code: KeyCode, t: nat, now: nat)
    ensures
        keeps(app, t, now, app.command_key(code, now).0),
        keeps_save_dir(app, app.command_key(code, now).0),
{
    lemma_library_key_keeps(app, code, t, now);
    lemma_downloader_key_keeps(app, code, t, now);
    lemma_next_keeps(app, t, now);
    lemma_previous_keeps(app, t, now);
    lemma_play_key_keeps(app, t, now);
}

proof fn lemma_text_key_keeps(app: AppView, path: Seq<char>, code: KeyCode, t: nat, now: nat)
    ensures
        keeps(app, t, now, app.search_key(code).0),
        keeps_save_dir(app, app.search_key(code).0),
        keeps(app, t, now, app.mkdir_key(code).0),
        keeps_save_dir(app, app.mkdir_key(code).0),
        keeps(app, t, now, app.confirm_key(path, code).0),
        keeps_save_dir(app, app.confirm_key(path, code).0),
{
}

proof fn lemma_queue_start_keeps(
    app: AppView,
    i: int,
    t: nat,
    now: nat,
    post: AppView,
    action: ActionView,
)
    requires
        app.wf(),
        0 <= i < app.library_items.len(),
        app.library_items[i].song is Some,
        app.queue_started(i, post, action),
    ensures
        keeps(app, t, now, post),
        keeps_save_dir(app, post),
{
    let songs = crate::model::songs_of(app.library_items);
    crate::model::lemma_songs_of_contains(app.library_items, i);
    crate::model::lemma_song_from(songs, app.library_items[i].song->0.id, 0);
}

proof fn lemma_key_keeps(
    app: AppView,
    code: KeyCode,
    t: nat,
    now: nat,
    post: AppView,
    action: ActionView,
)
    requires
        app.wf(),
        app.key_outcome(code, now, post, action),
    ensures
        keeps(app, t, now, post),
        keeps_save_dir(app, post),
{
    match app.starts_queue(code) {
        Some(i) => lemma_queue_start_keeps(app, i, t, now, post, action),
        None => match app.input_mode {
            InputModeView::Search => lemma_text_key_keeps(app, Seq::empty(), code, t, now),
            InputModeView::Mkdir => lemma_text_key_keeps(app, Seq::empty(), code, t, now),
            InputModeView::DeleteConfirm(path) => lemma_text_key_keeps(app, path, code, t, now),
            InputModeView::Inactive => lemma_command_key_keeps(app, code, t, now),
        },
    }
}

proof fn lemma_background_keeps(app: AppView, event: BackgroundEvent, t: nat, now: nat)
    ensures
        keeps(app, t, now, app.background_step(event, now).0),
{
    match event {
        BackgroundEvent::BrowseResult(Ok(browse)) => {
            crate::model::entries_are_sound(browse.dirs@, browse.songs@);
        },
        _ => {},
    }
}

/// Every step keeps the player sound, and its clock right: as long as time does not run backward,
/// no more has played than time has passed.
pub proof fn every_step_keeps_the_player_sound(
    app: AppView,
    step: Step,
    t: nat,
    now: nat,
    post: AppView,
    action: ActionView,
)
    requires
        app.wf(),
        app.timely(t),
        t <= now,
        app.leads_to(step, now, post, action),
    ensures
        post.wf(),
        post.timely(now),
{
    match step {
        Step::Key(code) => lemma_key_keeps(app, code, t, now, post, action),
        Step::Background(event) => lemma_background_keeps(app, event, t, now),
        Step::Autoplay { sink_empty } => lemma_next_keeps(app, t, now),
        Step::Song { request, song, loaded } => {},
        Step::Preview { title, loaded } => {},
        Step::StatusCheck => {},
    }
}

/// The player as a run begins: with nothing in it, and the top folder asked for.
pub open spec fn opened() -> AppView {
    AppView::initial().browse_step(Seq::empty()).0
}

/// A run of the player from its start: what happened, when, what it led to and what it asked for.
pub open spec fn session(
    states: Seq<AppView>,
    steps: Seq<Step>,
    times: Seq<nat>,
    actions: Seq<ActionView>,
) -> bool {
    &&& states.len() == steps.len() + 1
    &&& times.len() == steps.len()
    &&& actions.len() == steps.len()
    &&& states[0] == opened()
    &&& forall|i: int|
        0 <= i < steps.len() ==> states[i].leads_to(
            #[trigger] steps[i],
            times[i],
            states[i + 1],
            actions[i],
        )
    &&& forall|i: int, j: int| 0 <= i <= j < times.len() ==> times[i] <= times[j]
}

/// In every run the player is sound all the time; and at its end the time played can be computed
/// with, at every later moment that can be held.
pub proof fn every_session_is_sound(
    states: Seq<AppView>,
    steps: Seq<Step>,
    times: Seq<nat>,
    actions: Seq<ActionView>,
    now: nat,
)
    requires
        session(states, steps, times, actions),
        times.len() > 0 ==> times.last() <= now,
        now <= MAX_TIME,
    ensures
        forall|i: int| 0 <= i < states.len() ==> (#[trigger] states[i]).wf(),
        states.last().timely(now),
        states.last().ready_at(now),
    decreases steps.len(),
{
    if steps.len() > 0 {
        let n = steps.len() - 1;
        let t = times[n];
        assert forall|i: int| 0 <= i < n implies states.drop_last()[i].leads_to(
            #[trigger] steps.drop_last()[i],
            times.drop_last()[i],
            states.drop_last()[i + 1],
            actions.drop_last()[i],
        ) by {
            assert(states[i].leads_to(steps[i], times[i], states[i + 1], actions[i]));
        }
        if n > 0 {
            assert(times[n - 1] <= times[n]);
        }
        every_session_is_sound(
            states.drop_last(),
            steps.drop_last(),
            times.drop_last(),
            actions.drop_last(),
            t,
        );
        assert forall|i: int| 0 <= i <= n implies (#[trigger] states[i]).wf() by {
            assert(states.drop_last()[i].wf());
        }
        assert(states[n].leads_to(steps[n], times[n], states[n + 1], actions[n]));
        every_step_keeps_the_player_sound(states[n], steps[n], t, t, states[n + 1], actions[n]);
    }
}

/// A pause does not count: what played before it and what plays after it add up.
pub proof fn a_pause_does_not_count(app: AppView, pause: nat, resume: nat, now: nat)
    requires
        app.wf(),
        app.state == AppState::Playing,
        pause <= resume <= now,
    ensures
        app.paused(pause).elapsed_at(resume) == app.elapsed_at(pause),
        app.paused(pause).resumed(resume).elapsed_at(now) == app.elapsed_at(pause) + (now - resume),
{
}

/// What starts to play starts at zero and counts every moment from there.
pub proof fn playing_counts_from_the_start(app: AppView, song: Song, start: nat, now: nat)
    requires
        start <= now,
    ensures
        app.playing(song, start).elapsed_at(now) == now - start,
{
}

/// Nothing counts in silence.
pub proof fn silence_does_not_count(app: AppView, now: nat)
    ensures
        app.stopped().elapsed_at(now) == 0,
{
}

/// A message stays until its time has passed, and is gone afterwards.
pub proof fn a_message_lasts_its_time(
    app: AppView,
    message: Seq<char>,
    secs: nat,
    now: nat,
    later: nat,
)
    ensures
        later <= now + secs * (NANOS_PER_SEC as nat) ==> app.with_status(
            message,
            secs,
            now,
        ).status_checked(later).status_message == Some(message),
        later > now + secs * (NANOS_PER_SEC as nat) ==> app.with_status(
            message,
            secs,
            now,
        ).status_checked(later).status_message is None,
{
}

/// How an attempt to play a song ended, and when.
pub struct Outcome {
    pub loaded: Result<(), String>,
    pub now: nat,
}

/// The player after a decision and, where it asked for a song, after the attempt to play it.
pub open spec fn attempted(decision: (AppView, ActionView), outcome: Outcome) -> AppView {
    match decision.1 {
        ActionView::PlaySong { request, song } => decision.0.song_step(
            request,
            song,
            outcome.loaded,
            outcome.now,
        ).0,
        _ => decision.0,
    }
}

/// The player after as many times the next song as there are outcomes.
pub open spec fn nexts(app: AppView, outcomes: Seq<Outcome>) -> AppView
    decreases outcomes.len(),
{
    if outcomes.len() == 0 {
        app
    } else {
        attempted(nexts(app, outcomes.drop_last()).next_step(), outcomes.last())
    }
}

/// The song at the place of the queue plays, or there is silence where it could not be played.
pub open spec fn turn_taken(app: AppView, outcome: Outcome) -> bool {
    match outcome.loaded {
        Ok(_) => {
            &&& app.state == AppState::Playing
            &&& app.currently_playing == Some(app.queue[app.queue_idx])
        },
        Err(_) => app.state == AppState::Normal && app.currently_playing is None,
    }
}

/// With all repeated, the next songs go through the queue in its order, round and round, whichever
/// of them cannot be played.
pub proof fn repeat_all_goes_round(app: AppView, outcomes: Seq<Outcome>)
    requires
        app.queue_in_range(),
        app.queue.len() > 0,
        app.repeat == Repeat::All,
    ensures
        ({
            let post = nexts(app, outcomes);
            &&& post.queue == app.queue
            &&& post.repeat == app.repeat
            &&& post.queue_idx == (app.queue_idx + outcomes.len()) % (app.queue.len() as int)
            &&& outcomes.len() == app.queue.len() ==> post.queue_idx == app.queue_idx
            &&& outcomes.len() > 0 ==> turn_taken(post, outcomes.last())
        }),
    decreases outcomes.len(),
{
    let len = app.queue.len() as int;
    let n = outcomes.len();
    if n > 0 {
        repeat_all_goes_round(app, outcomes.drop_last());
        vstd::arithmetic::div_mod::lemma_add_mod_noop_right(1, app.queue_idx + n - 1, len);
    }
    vstd::arithmetic::div_mod::lemma_mod_add_multiples_vanish(app.queue_idx, len);
    vstd::arithmetic::div_mod::lemma_small_mod(app.queue_idx as nat, len as nat);
}

/// With one song repeated, it is always that song's turn, whether it can be played or not.
pub proof fn repeat_one_stays(app: AppView, outcomes: Seq<Outcome>)
    requires
        app.queue_in_range(),
        app.queue.len() > 0,
        app.repeat == Repeat::One,
    ensures
        ({
            let post = nexts(app, outcomes);
            &&& post.queue == app.queue
            &&& post.repeat == app.repeat
            &&& post.queue_idx == app.queue_idx
            &&& outcomes.len() > 0 ==> turn_taken(post, outcomes.last())
        }),
    decreases outcomes.len(),
{
    if outcomes.len() > 0 {
        repeat_one_stays(app, outcomes.drop_last());
    }
}

/// With nothing repeated, the next songs go through the queue to its end, whichever of them cannot
/// be played, and then there is silence.
pub proof fn repeat_off_ends(app: AppView, outcomes: Seq<Outcome>)
    requires
        app.queue_in_range(),
        app.queue.len() > 0,
        app.repeat == Repeat::Off,
    ensures
        ({
            let post = nexts(app, outcomes);
            let i = app.queue_idx + outcomes.len();
            &&& post.queue == app.queue
            &&& post.repeat == app.repeat
            &&& i < app.queue.len() ==> {
                &&& post.queue_idx == i
                &&& outcomes.len() > 0 ==> turn_taken(post, outcomes.last())
            }
            &&& i >= app.queue.len() ==> {
                &&& post.queue_idx == app.queue.len() - 1
                &&& post.state == AppState::Normal
                &&& post.currently_playing is None
            }
        }),
    decreases outcomes.len(),
{
    if outcomes.len() > 0 {
        repeat_off_ends(app, outcomes.drop_last());
    }
}

/// The player after the sound has run out as many times as there are outcomes.
pub open spec fn rounds(app: AppView, outcomes: Seq<Outcome>) -> AppView
    decreases outcomes.len(),
{
    if outcomes.len() == 0 {
        app
    } else {
        attempted(rounds(app, outcomes.drop_last()).autoplay_step(true), outcomes.last())
    }
}

/// Every attempt succeeded.
pub open spec fn all_played(outcomes: Seq<Outcome>) -> bool {
    forall|i: int| 0 <= i < outcomes.len() ==> (#[trigger] outcomes[i]).loaded is Ok
}

/// Left to itself, the player plays the queue in its order: round and round where all is repeated,
/// and to its end where nothing is; then there is silence. A song that cannot be played ends it
/// too.
pub proof fn the_queue_is_played_in_its_order(app: AppView, outcomes: Seq<Outcome>)
    requires
        app.queue_in_range(),
        app.state == AppState::Playing,
        app.queue.len() > 0,
        outcomes.len() > 0,
    ensures
        ({
            let post = rounds(app, outcomes);
            let n = outcomes.len();
            let len = app.queue.len() as int;
            &&& post.queue == app.queue
            &&& all_played(outcomes) && app.repeat == Repeat::All ==> post.currently_playing
                == Some(app.queue[(app.queue_idx + n) % len])
            &&& all_played(outcomes) && app.repeat == Repeat::One ==> post.currently_playing
                == Some(app.queue[app.queue_idx])
            &&& all_played(outcomes) && app.repeat == Repeat::Off && app.queue_idx + n < len
                ==> post.currently_playing == Some(app.queue[app.queue_idx + n])
            &&& app.repeat == Repeat::Off && app.queue_idx + n >= len ==> post.state
                == AppState::Normal
            &&& !all_played(outcomes) ==> post.state == AppState::Normal
        }),
{
    lemma_rounds(app, outcomes);
}

proof fn lemma_rounds(app: AppView, outcomes: Seq<Outcome>)
    requires
        app.queue_in_range(),
        app.state == AppState::Playing,
        app.queue.len() > 0,
    ensures
        ({
            let post = rounds(app, outcomes);
            let n = outcomes.len();
            let len = app.queue.len() as int;
            let i = match app.repeat {
                Repeat::All => (app.queue_idx + n) % len,
                Repeat::One => app.queue_idx,
                Repeat::Off => app.queue_idx + n,
            };
            &&& post.queue == app.queue
            &&& post.repeat == app.repeat
            &&& 0 <= post.queue_idx < len
            &&& i < len && all_played(outcomes) ==> {
                &&& post.state == AppState::Playing
                &&& post.queue_idx == i
                &&& n > 0 ==> post.currently_playing == Some(app.queue[i])
            }
            &&& i >= len || !all_played(outcomes) ==> post.state == AppState::Normal
        }),
    decreases outcomes.len(),
{
    let len = app.queue.len() as int;
    let n = outcomes.len();
    if n == 0 {
        vstd::arithmetic::div_mod::lemma_small_mod(app.queue_idx as nat, len as nat);
    } else {
        let before = outcomes.drop_last();
        lemma_rounds(app, before);
        vstd::arithmetic::div_mod::lemma_add_mod_noop_right(1, app.queue_idx + n - 1, len);
        assert(all_played(outcomes) <==> all_played(before) && outcomes.last().loaded is Ok) by {
            assert(forall|i: int| 0 <= i < n - 1 ==> before[i] == outcomes[i]);
            if all_played(before) && outcomes.last().loaded is Ok {
                assert forall|i: int| 0 <= i < n implies (#[trigger] outcomes[i]).loaded is Ok by {
                    if i < n - 1 {
                        assert(before[i].loaded is Ok);
                    }
                }
            }
        }
    }
}

/// Going back undoes going on, unless one song is repeated; where all is repeated, going on undoes
/// going back too. It is so whichever of the two songs cannot be played.
pub proof fn previous_undoes_next(app: AppView, first: Outcome, second: Outcome)
    requires
        app.queue_in_range(),
        app.queue.len() > 0,
        app.repeat != Repeat::One,
        app.next_index() is Some,
    ensures
        ({
            let post = attempted(attempted(app.next_step(), first).previous_step(), second);
            &&& post.queue == app.queue
            &&& post.queue_idx == app.queue_idx
            &&& turn_taken(post, second)
        }),
        app.repeat == Repeat::All ==> {
            let post = attempted(attempted(app.previous_step(), first).next_step(), second);
            &&& post.queue == app.queue
            &&& post.queue_idx == app.queue_idx
            &&& turn_taken(post, second)
        },
{
    let len = app.queue.len() as int;
    if app.queue_idx + 1 == len {
        vstd::arithmetic::div_mod::lemma_mod_self_0(len);
    } else {
        vstd::arithmetic::div_mod::lemma_small_mod((app.queue_idx + 1) as nat, len as nat);
    }
    vstd::arithmetic::div_mod::lemma_mod_self_0(len);
    vstd::arithmetic::div_mod::lemma_small_mod(app.queue_idx as nat, len as nat);
}

/// A song that cannot be played when its turn comes leaves silence and a message.
pub proof fn a_failed_turn_leaves_silence(
    app: AppView,
    request: PlayRequest,
    song: Song,
    error: String,
    now: nat,
)
    requires
        request != PlayRequest::Library,
    ensures
        ({
            let (post, action) = app.song_step(request, song, Err(error), now);
            &&& post.state == AppState::Normal
            &&& post.currently_playing is None
            &&& post.status_message is Some
            &&& action == ActionView::StopSink
        }),
{
}

/// The player after `n` presses of the key for the play mode.
pub open spec fn toggles(app: AppView, n: nat) -> AppView
    decreases n,
{
    if n == 0 {
        app
    } else {
        toggles(app, (n - 1) as nat).mode_toggled()
    }
}

/// The key for the play mode goes through all six pairs of shuffle and repeat, and then begins
/// again.
pub proof fn play_modes_go_round(app: AppView)
    ensures
        toggles(app, 6) == app,
        forall|shuffling: bool, repeat: Repeat| #[trigger]
            reached_by_toggling(app, shuffling, repeat),
{
    reveal_with_fuel(toggles, 7);
    assert forall|shuffling: bool, repeat: Repeat| #[trigger]
        reached_by_toggling(app, shuffling, repeat) by {
        assert(mode_is(toggles(app, 0), shuffling, repeat) || mode_is(
            toggles(app, 1),
            shuffling,
            repeat,
        ) || mode_is(toggles(app, 2), shuffling, repeat) || mode_is(
            toggles(app, 3),
            shuffling,
            repeat,
        ) || mode_is(toggles(app, 4), shuffling, repeat) || mode_is(
            toggles(app, 5),
            shuffling,
            repeat,
        ));
    }
}

pub open spec fn mode_is(app: AppView, shuffling: bool, repeat: Repeat) -> bool {
    app.is_shuffling == shuffling && app.repeat == repeat
}

/// A play mode comes up within six presses.
pub open spec fn reached_by_toggling(app: AppView, shuffling: bool, repeat: Repeat) -> bool {
    exists|n: nat| n < 6 && #[trigger] mode_is(toggles(app, n), shuffling, repeat)
}

/// Up undoes down, and down undoes up.
pub proof fn up_undoes_down(selected: int, len: nat)
    requires
        0 <= selected < len,
    ensures
        up(down(Some(selected), len), len) == Some(selected),
        down(up(Some(selected), len), len) == Some(selected),
{
}

/// The selection after `n` times down.
pub open spec fn downs(selected: Option<int>, len: nat, n: nat) -> Option<int>
    decreases n,
{
    if n == 0 {
        selected
    } else {
        down(downs(selected, len, (n - 1) as nat), len)
    }
}

/// The selection after `n` times up.
pub open spec fn ups(selected: Option<int>, len: nat, n: nat) -> Option<int>
    decreases n,
{
    if n == 0 {
        selected
    } else {
        up(ups(selected, len, (n - 1) as nat), len)
    }
}

/// Down goes through the whole list, round and round.
pub proof fn down_goes_round(selected: int, len: nat, n: nat)
    requires
        0 <= selected < len,
    ensures
        downs(Some(selected), len, n) == Some((selected + n) % (len as int)),
        n == len ==> downs(Some(selected), len, n) == Some(selected),
    decreases n,
{
    let m = len as int;
    vstd::arithmetic::div_mod::lemma_small_mod(selected as nat, len);
    vstd::arithmetic::div_mod::lemma_mod_add_multiples_vanish(selected, m);
    if n > 0 {
        down_goes_round(selected, len, (n - 1) as nat);
        vstd::arithmetic::div_mod::lemma_add_mod_noop_right(1, selected + n - 1, m);
        let at = (selected + n - 1) % m;
        if at + 1 < len {
            vstd::arithmetic::div_mod::lemma_small_mod((at + 1) as nat, len);
        } else {
            vstd::arithmetic::div_mod::lemma_mod_self_0(m);
        }
    }
}

/// Up goes through the whole list the other way, round and round.
pub proof fn up_goes_round(selected: int, len: nat, n: nat)
    requires
        0 <= selected < len,
    ensures
        ups(Some(selected), len, n) == Some((selected - n) % (len as int)),
        n == len ==> ups(Some(selected), len, n) == Some(selected),
    decreases n,
{
    let m = len as int;
    vstd::arithmetic::div_mod::lemma_small_mod(selected as nat, len);
    vstd::arithmetic::div_mod::lemma_mod_sub_multiples_vanish(selected, m);
    if n > 0 {
        up_goes_round(selected, len, (n - 1) as nat);
        vstd::arithmetic::div_mod::lemma_add_mod_noop_right(-1, selected - n + 1, m);
        let at = (selected - n + 1) % m;
        if at > 0 {
            vstd::arithmetic::div_mod::lemma_small_mod((at - 1) as nat, len);
        } else {
            vstd::arithmetic::div_mod::lemma_mod_add_multiples_vanish(-1, m);
            vstd::arithmetic::div_mod::lemma_small_mod((m - 1) as nat, len);
        }
    }
}

pub open spec fn is_down_key(code: KeyCode) -> bool {
    code == KeyCode::Char('j') || code == KeyCode::Down
}

pub open spec fn is_up_key(code: KeyCode) -> bool {
    code == KeyCode::Char('k') || code == KeyCode::Up
}

/// In either panel a key for up undoes a key for down, and the other way round.
pub proof fn navigation_keys_undo_each_other(
    app: AppView,
    down_key: KeyCode,
    up_key: KeyCode,
    now: nat,
    later: nat,
)
    requires
        app.wf(),
        app.input_mode is Inactive,
        is_down_key(down_key),
        is_up_key(up_key),
    ensures
        app.key_step(down_key, now).0.key_step(up_key, later).0 == app,
        app.key_step(up_key, now).0.key_step(down_key, later).0 == app,
{
}

/// The keys that both panels share stand for their commands, and start no queue.
pub proof fn shared_keys_stand_for_their_commands(app: AppView, now: nat)
    requires
        app.input_mode is Inactive,
    ensures
        app.key_step(KeyCode::Char('q'), now) == (app, ActionView::Quit),
        app.key_step(KeyCode::Tab, now) == (app.panel_switched(), ActionView::Idle),
        app.key_step(KeyCode::Esc, now) == (app.stopped(), ActionView::StopSink),
        app.key_step(KeyCode::Char('c'), now) == (app.mode_toggled(), ActionView::Idle),
        app.key_step(KeyCode::Right, now) == app.next_step(),
        app.key_step(KeyCode::Char('>'), now) == app.next_step(),
        app.key_step(KeyCode::Left, now) == app.previous_step(),
        app.key_step(KeyCode::Char('<'), now) == app.previous_step(),
        app.state == AppState::Playing ==> app.key_step(KeyCode::Char('s'), now) == (
            app.paused(now),
            ActionView::PauseSink,
        ),
        app.state == AppState::Paused ==> app.key_step(KeyCode::Char('s'), now) == (
            app.resumed(now),
            ActionView::ResumeSink,
        ),
        forall|code: KeyCode| #[trigger]
            app.starts_queue(code) is Some ==> code == KeyCode::Enter || code == KeyCode::Char('l')
                || (code == KeyCode::Char('s') && app.state == AppState::Normal),
{
}

/// Switching the panel twice changes nothing.
pub proof fn panels_take_turns(app: AppView)
    ensures
        app.panel_switched().active_panel != app.active_panel,
        app.panel_switched().panel_switched() == app,
{
}

/// Backspace takes back the last character typed.
pub proof fn backspace_undoes_typing(app: AppView, c: char, now: nat, later: nat)
    requires
        app.input_mode is Search || app.input_mode is Mkdir,
    ensures
        app.key_step(KeyCode::Char(c), now).0.key_step(KeyCode::Backspace, later) == (
            app,
            ActionView::Idle,
        ),
{
    assert(app.input_value.push(c).drop_last() =~= app.input_value);
}

/// While text is typed, every character goes into the text and does nothing else.
pub proof fn characters_are_text_while_typing(app: AppView, c: char, now: nat)
    requires
        app.input_mode is Search || app.input_mode is Mkdir,
    ensures
        app.key_step(KeyCode::Char(c), now) == (
            AppView { input_value: app.input_value.push(c), ..app },
            ActionView::Idle,
        ),
        app.starts_queue(KeyCode::Char(c)) is None,
{
}

/// Nothing is deleted without a question: a delete request follows only from a yes to the
/// question about that very path.
pub proof fn deletion_needs_a_yes(
    app: AppView,
    step: Step,
    now: nat,
    post: AppView,
    path: Seq<char>,
)
    requires
        app.leads_to(step, now, post, ActionView::Call(ApiCallView::Delete { path })),
    ensures
        app.input_mode == InputModeView::DeleteConfirm(path),
        step == Step::Key(KeyCode::Char('y')) || step == Step::Key(KeyCode::Char('Y')),
{
}

/// A step that opens the question whether to delete a path: a key for it in the library panel,
/// the path that of the selected entry.
pub open spec fn asks_about(app: AppView, step: Step, path: Seq<char>) -> bool {
    &&& step == Step::Key(KeyCode::Char('x')) || step == Step::Key(KeyCode::Char('d'))
    &&& app.input_mode is Inactive
    &&& app.active_panel == PanelFocus::Library
    &&& app.library_selected is Some
    &&& path == app.entry_path(app.library_selected->0)
}

proof fn lemma_question_opens(
    app: AppView,
    step: Step,
    now: nat,
    post: AppView,
    action: ActionView,
    path: Seq<char>,
)
    requires
        app.leads_to(step, now, post, action),
        post.input_mode == InputModeView::DeleteConfirm(path),
    ensures
        app.input_mode == InputModeView::DeleteConfirm(path) || asks_about(app, step, path),
{
}

/// The question about a path was opened at the step `j`, and is open from there up to the state
/// `n`.
pub open spec fn asked_since(
    states: Seq<AppView>,
    steps: Seq<Step>,
    j: int,
    n: int,
    path: Seq<char>,
) -> bool {
    &&& 0 <= j < n
    &&& asks_about(states[j], steps[j], path)
    &&& forall|k: int|
        j < k <= n ==> (#[trigger] states[k]).input_mode == InputModeView::DeleteConfirm(path)
}

proof fn lemma_question_was_asked(
    states: Seq<AppView>,
    steps: Seq<Step>,
    times: Seq<nat>,
    actions: Seq<ActionView>,
    n: int,
    path: Seq<char>,
)
    requires
        session(states, steps, times, actions),
        0 <= n < states.len(),
        states[n].input_mode == InputModeView::DeleteConfirm(path),
    ensures
        exists|j: int| asked_since(states, steps, j, n, path),
    decreases n,
{
    if n > 0 {
        let m = n - 1;
        assert(states[m].leads_to(steps[m], times[m], states[m + 1], actions[m]));
        lemma_question_opens(states[m], steps[m], times[m], states[n], actions[m], path);
        if asks_about(states[m], steps[m], path) {
            assert(asked_since(states, steps, m, n, path));
        } else {
            lemma_question_was_asked(states, steps, times, actions, m, path);
            let j = choose|j: int| asked_since(states, steps, j, m, path);
            assert(asked_since(states, steps, j, n, path));
        }
    }
}

/// In every run, what is deleted was selected in the library and asked about: the question was
/// opened for the selected entry at an earlier step, and stayed open until the yes.
pub proof fn every_deletion_was_asked_about(
    states: Seq<AppView>,
    steps: Seq<Step>,
    times: Seq<nat>,
    actions: Seq<ActionView>,
    i: int,
    path: Seq<char>,
)
    requires
        session(states, steps, times, actions),
        0 <= i < steps.len(),
        actions[i] == ActionView::Call(ApiCallView::Delete { path }),
    ensures
        exists|j: int| asked_since(states, steps, j, i, path),
        steps[i] == Step::Key(KeyCode::Char('y')) || steps[i] == Step::Key(KeyCode::Char('Y')),
{
    assert(states[i].leads_to(steps[i], times[i], states[i + 1], actions[i]));
    deletion_needs_a_yes(states[i], steps[i], times[i], states[i + 1], path);
    lemma_question_was_asked(states, steps, times, actions, i, path);
}

/// The program ends only on its key, and not while text is typed or a question is open.
pub proof fn only_its_key_quits(app: AppView, step: Step, now: nat, post: AppView)
    requires
        app.leads_to(step, now, post, ActionView::Quit),
    ensures
        app.input_mode is Inactive,
        step == Step::Key(KeyCode::Char('q')),
        post == app,
{
}

/// Keys change neither what the library shows nor what the search found: only the server does. And
/// they change the queue only where they start one.
pub proof fn keys_leave_the_lists_alone(
    app: AppView,
    code: KeyCode,
    now: nat,
    post: AppView,
    action: ActionView,
)
    requires
        app.key_outcome(code, now, post, action),
    ensures
        post.current_path == app.current_path,
        post.library_items == app.library_items,
        post.yt_results == app.yt_results,
        post.top_dirs == app.top_dirs,
        app.starts_queue(code) is None ==> post.queue == app.queue,
{
}

/// The player after `n` presses of the key for the download folder.
pub open spec fn save_dir_cycles(app: AppView, n: nat) -> AppView
    decreases n,
{
    if n == 0 {
        app
    } else {
        save_dir_cycles(app, (n - 1) as nat).save_dir_cycled()
    }
}

/// The key for the download folder finds an existing folder from wherever it starts, and goes
/// through all of them and the server's own choice before it begins again.
pub proof fn save_dirs_go_round(app: AppView, n: nat)
    requires
        app.wf(),
    ensures
        app.save_dir_cycled().save_dir_in_range(),
        save_dir_cycles(app, n) == (AppView {
            selected_save_dir_idx: if n == 0 {
                app.selected_save_dir_idx
            } else {
                (app.selected_save_dir_idx + n) % (app.top_dirs.len() as int + 1)
            },
            ..app
        }),
        app.save_dir_in_range() && n == app.top_dirs.len() + 1 ==> save_dir_cycles(app, n) == app,
    decreases n,
{
    let len = app.top_dirs.len() as int + 1;
    let idx = app.selected_save_dir_idx;
    if n > 0 {
        save_dirs_go_round(app, (n - 1) as nat);
        vstd::arithmetic::div_mod::lemma_add_mod_noop_right(1, idx + n - 1, len);
    }
    if app.save_dir_in_range() {
        vstd::arithmetic::div_mod::lemma_mod_add_multiples_vanish(idx, len);
        vstd::arithmetic::div_mod::lemma_small_mod(idx as nat, len as nat);
    }
}

proof fn lemma_background_save_dir(app: AppView, event: BackgroundEvent, now: nat)
    ensures
        app.background_step(event, now).0.selected_save_dir_idx == app.selected_save_dir_idx,
        app.background_step(event, now).0.top_dirs == match event {
            BackgroundEvent::BrowseResult(Ok(browse)) if browse.path@.len() == 0 => browse.dirs@,
            _ => app.top_dirs,
        },
{
}

/// The download folder goes on to exist, as long as no listing of the top folder has become too
/// short for it.
pub proof fn the_save_dir_goes_on_to_exist(
    app: AppView,
    step: Step,
    now: nat,
    post: AppView,
    action: ActionView,
)
    requires
        app.wf(),
        app.save_dir_in_range(),
        app.leads_to(step, now, post, action),
        step matches Step::Background(BackgroundEvent::BrowseResult(Ok(browse))) ==> {
            browse.path@.len() == 0 ==> app.selected_save_dir_idx <= browse.dirs@.len()
        },
    ensures
        post.save_dir_in_range(),
{
    match step {
        Step::Key(code) => lemma_key_keeps(app, code, 0, now, post, action),
        Step::Autoplay { sink_empty } => lemma_next_keeps(app, 0, now),
        Step::Background(event) => lemma_background_save_dir(app, event, now),
        _ => {},
    }
}

/// What the screen names as the folder for downloads is where a download goes, on either of its
/// keys.
pub proof fn downloads_go_where_the_screen_says(app: AppView, i: int, code: KeyCode, now: nat)
    requires
        code == KeyCode::Char('d') || code == KeyCode::Enter,
        app.input_mode is Inactive,
        app.active_panel == PanelFocus::Downloader,
        app.downloader_selected == Some(i),
    ensures
        ({
            let folder = app.save_folder();
            &&& app.key_step(code, now).1 == ActionView::Call(
                ApiCallView::Download { url: app.yt_results[i].url@, folder },
            )
            &&& app.save_dir_text() == match folder {
                None => "Music/ (自動)"@,
                Some(dir) => "Music/"@ + dir + "/"@,
            }
        }),
{
}

/// The question on the screen names the path that a yes deletes, in either case of the letter.
pub proof fn the_question_names_what_is_deleted(
    app: AppView,
    path: Seq<char>,
    code: KeyCode,
    now: nat,
)
    requires
        code == KeyCode::Char('y') || code == KeyCode::Char('Y'),
        app.input_mode == InputModeView::DeleteConfirm(path),
    ensures
        app.footer() == FooterView::Warning("Delete '"@ + path + "'? (y/n) "@),
        app.key_step(code, now).1 == ActionView::Call(ApiCallView::Delete { path }),
        app.key_step(code, now).0.input_mode is Inactive,
{
}

/// Leaving a folder asks for the one it was entered from, on either key that enters it.
pub proof fn back_undoes_enter(
    app: AppView,
    i: int,
    code: KeyCode,
    inside: AppView,
    now: nat,
    later: nat,
)
    requires
        code == KeyCode::Enter || code == KeyCode::Char('l'),
        app.input_mode is Inactive,
        app.active_panel == PanelFocus::Library,
        app.library_selected == Some(i),
        app.library_items[i].is_dir,
        app.entry_path(i).len() > 0,
        !app.library_items[i].name@.contains('/'),
        inside.input_mode is Inactive,
        inside.active_panel == PanelFocus::Library,
        inside.current_path == app.entry_path(i),
    ensures
        app.key_step(code, now).1 == ActionView::Call(
            ApiCallView::Browse { path: inside.current_path },
        ),
        inside.key_step(KeyCode::Char('h'), later).1 == ActionView::Call(
            ApiCallView::Browse { path: app.current_path },
        ),
{
    crate::text_laws::parent_undoes_child(app.current_path, app.library_items[i].name@);
}

/// After every change of the library the folder that is shown is listed anew.
pub proof fn changes_are_followed_by_a_listing(app: AppView, message: String, now: nat)
    ensures
        app.background_step(BackgroundEvent::DownloadResult(Ok(message)), now).1
            == ActionView::Call(ApiCallView::Browse { path: app.current_path }),
        app.background_step(BackgroundEvent::MkdirResult(Ok(())), now).1 == ActionView::Call(
            ApiCallView::Browse { path: app.current_path },
        ),
        app.background_step(BackgroundEvent::DeleteResult(Ok(())), now).1 == ActionView::Call(
            ApiCallView::Browse { path: app.current_path },
        ),
{
}

/// The panel that waits for the outcome of a call.
pub open spec fn waiting(app: AppView, call: ApiCallView) -> bool {
    match call {
        ApiCallView::Browse { .. } => app.library_loading,
        ApiCallView::Mkdir { .. } => app.library_loading,
        ApiCallView::Delete { .. } => app.library_loading,
        ApiCallView::Search { .. } => app.downloader_loading,
        ApiCallView::Download { .. } => app.downloader_loading,
        ApiCallView::Preview { .. } => app.downloader_loading,
    }
}

/// Whoever sends a request shows that its panel waits.
pub proof fn a_request_makes_its_panel_wait(
    app: AppView,
    step: Step,
    now: nat,
    post: AppView,
    call: ApiCallView,
)
    requires
        app.leads_to(step, now, post, ActionView::Call(call)),
    ensures
        waiting(post, call),
{
}

/// The outcome of a request ends the wait of its panel, but where it leads to a new listing.
pub proof fn an_outcome_ends_the_wait(app: AppView, event: BackgroundEvent, now: nat)
    ensures
        ({
            let (post, action) = app.background_step(event, now);
            match event {
                BackgroundEvent::BrowseResult(_) => !post.library_loading,
                BackgroundEvent::SearchResult(_) => !post.downloader_loading,
                BackgroundEvent::DownloadResult(_) => !post.downloader_loading,
                BackgroundEvent::PreviewBytesResult(_) => !post.downloader_loading,
                BackgroundEvent::MkdirResult(_) => post.library_loading <==> action is Call,
                BackgroundEvent::DeleteResult(_) => post.library_loading <==> action is Call,
            }
        }),
{
}

/// A request that failed leaves a message and changes neither the lists nor what plays.
pub proof fn a_failed_request_leaves_a_message(app: AppView, event: BackgroundEvent, now: nat)
    requires
        match event {
            BackgroundEvent::BrowseResult(res) => res is Err,
            BackgroundEvent::SearchResult(res) => res is Err,
            BackgroundEvent::DownloadResult(res) => res is Err,
            BackgroundEvent::MkdirResult(res) => res is Err,
            BackgroundEvent::DeleteResult(res) => res is Err,
            BackgroundEvent::PreviewBytesResult(res) => res is Err,
        },
    ensures
        ({
            let (post, action) = app.background_step(event, now);
            &&& action == ActionView::Idle
            &&& post.status_message is Some
            &&& post == AppView {
                status_message: post.status_message,
                status_expiry: post.status_expiry,
                library_loading: post.library_loading,
                downloader_loading: post.downloader_loading,
                ..app
            }
        }),
{
}

/// The song that was chosen is the one that plays, where no two songs share an id; and the queue
/// holds the songs of the folder, each as often as it does.
pub proof fn the_chosen_song_plays(app: AppView, i: int, post: AppView, action: ActionView)
    requires
        0 <= i < app.library_items.len(),
        app.library_items[i].song is Some,
        app.queue_started(i, post, action),
    ensures
        post.queue.to_multiset() == songs_of(app.library_items).to_multiset(),
        distinct_ids(songs_of(app.library_items)) ==> {
            &&& post.queue[post.queue_idx] == app.library_items[i].song->0
            &&& action == ActionView::PlaySong {
                request: PlayRequest::Library,
                song: app.library_items[i].song->0,
            }
        },
{
    let songs = songs_of(app.library_items);
    let song = app.library_items[i].song->0;
    crate::model::lemma_songs_of_contains(app.library_items, i);
    crate::model::lemma_song_from(songs, song.id, 0);
    let k = choose|k: int| 0 <= k < songs.len() && songs[k] == song;
    if app.is_shuffling {
        crate::queue::shuffling_keeps_the_songs(songs, app.chosen_song(i), post.queue);
    }
    if distinct_ids(songs) {
        assert(songs[app.chosen_song(i)].id == songs[k].id);
    }
}

/// No two songs share an id.
pub open spec fn distinct_ids(songs: Seq<Song>) -> bool {
    forall|i: int, j: int|
        0 <= i < j < songs.len() ==> (#[trigger] songs[i]).id != (#[trigger] songs[j]).id
}

/// The gauge shows the part of the song that has played, and is full from its end on.
pub proof fn the_gauge_shows_the_part_played(elapsed: int, total: int)
    requires
        0 <= elapsed,
        0 < total,
        elapsed * 100 / total < 0x1_0000,
    ensures
        elapsed <= total ==> percent_played(elapsed, total) == elapsed * 100 / total,
        elapsed >= total ==> percent_played(elapsed, total) == 100,
{
    assert(0 <= elapsed * 100 / total) by (nonlinear_arith)
        requires
            0 <= elapsed,
            0 < total,
    ;
    if elapsed <= total {
        assert(elapsed * 100 / total <= 100) by (nonlinear_arith)
            requires
                0 <= elapsed <= total,
                0 < total,
        ;
    }
    if elapsed >= total {
        assert(elapsed * 100 / total >= 100) by (nonlinear_arith)
            requires
                total <= elapsed,
                0 < total,
        ;
    }
}

} // verus!
