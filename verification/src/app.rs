//! The state of the player and what its playback commands do to it.
//!
//! Points in time are nanoseconds since a fixed moment before the first of them.

use vstd::prelude::*;
use vstd::seq_lib::*;
use vstd::string::*;

use crate::action::{text_view, Action, ActionView, ApiCall, ApiCallView, PlayRequest};
use crate::model::{
    collect_songs, song_from, songs_of, sound_items, AppState, InputMode, InputModeView,
    LibraryItem, PanelFocus, Repeat, Song, YtResult,
};
use crate::queue::{position_of, shuffle_songs, shuffled};
use crate::text::{join2, join3};

verus! {

/// The longest span of time: as many nanoseconds as a `std::time::Duration` can hold.
pub const MAX_TIME: u128 = 18_446_744_073_709_551_615_999_999_999;

pub const NANOS_PER_SEC: u128 = 1_000_000_000;

/// The player.
pub struct App {
    pub current_path: String,
    pub library_items: Vec<LibraryItem>,
    pub library_selected: Option<usize>,
    pub currently_playing: Option<Song>,
    /// The title line; it names a preview too.
    pub currently_playing_title: Option<String>,
    pub queue: Vec<Song>,
    pub queue_idx: usize,
    pub state: AppState,
    pub is_shuffling: bool,
    pub repeat: Repeat,
    /// When the sound was last started or resumed.
    pub playback_start: Option<u128>,
    /// For how long it had sounded before that.
    pub playback_accumulated: u128,
    pub yt_query: String,
    pub yt_results: Vec<YtResult>,
    pub downloader_selected: Option<usize>,
    pub top_dirs: Vec<String>,
    /// Where downloads go: 0 leaves it to the server, n is the n-th of `top_dirs`.
    pub selected_save_dir_idx: usize,
    pub active_panel: PanelFocus,
    pub input_mode: InputMode,
    pub input_value: String,
    pub status_message: Option<String>,
    pub status_expiry: Option<u128>,
    pub library_loading: bool,
    pub downloader_loading: bool,
}

/// `App` over mathematical values.
#[verifier::ext_equal]
pub struct AppView {
    pub current_path: Seq<char>,
    pub library_items: Seq<LibraryItem>,
    pub library_selected: Option<int>,
    pub currently_playing: Option<Song>,
    pub currently_playing_title: Option<Seq<char>>,
    pub queue: Seq<Song>,
    pub queue_idx: int,
    pub state: AppState,
    pub is_shuffling: bool,
    pub repeat: Repeat,
    pub playback_start: Option<nat>,
    pub playback_accumulated: nat,
    pub yt_query: Seq<char>,
    pub yt_results: Seq<YtResult>,
    pub downloader_selected: Option<int>,
    pub top_dirs: Seq<String>,
    pub selected_save_dir_idx: int,
    pub active_panel: PanelFocus,
    pub input_mode: InputModeView,
    pub input_value: Seq<char>,
    pub status_message: Option<Seq<char>>,
    pub status_expiry: Option<nat>,
    pub library_loading: bool,
    pub downloader_loading: bool,
}

pub open spec fn index_view(i: Option<usize>) -> Option<int> {
    match i {
        Some(i) => Some(i as int),
        None => None,
    }
}

pub open spec fn time_view(t: Option<u128>) -> Option<nat> {
    match t {
        Some(t) => Some(t as nat),
        None => None,
    }
}

impl View for App {
    type V = AppView;

    open spec fn view(&self) -> AppView {
        AppView {
            current_path: self.current_path@,
            library_items: self.library_items@,
            library_selected: index_view(self.library_selected),
            currently_playing: self.currently_playing,
            currently_playing_title: text_view(self.currently_playing_title),
            queue: self.queue@,
            queue_idx: self.queue_idx as int,
            state: self.state,
            is_shuffling: self.is_shuffling,
            repeat: self.repeat,
            playback_start: time_view(self.playback_start),
            playback_accumulated: self.playback_accumulated as nat,
            yt_query: self.yt_query@,
            yt_results: self.yt_results@,
            downloader_selected: index_view(self.downloader_selected),
            top_dirs: self.top_dirs@,
            selected_save_dir_idx: self.selected_save_dir_idx as int,
            active_panel: self.active_panel,
            input_mode: self.input_mode@,
            input_value: self.input_value@,
            status_message: text_view(self.status_message),
            status_expiry: time_view(self.status_expiry),
            library_loading: self.library_loading,
            downloader_loading: self.downloader_loading,
        }
    }
}

/// A selection in a list: there is one exactly where the list has entries, and it is one of them.
pub open spec fn selection_in(selected: Option<int>, len: nat) -> bool {
    match selected {
        Some(i) => 0 <= i < len,
        None => len == 0,
    }
}

impl AppView {
    /// A player with nothing in it.
    pub open spec fn initial() -> AppView {
        AppView {
            current_path: Seq::empty(),
            library_items: Seq::empty(),
            library_selected: None,
            currently_playing: None,
            currently_playing_title: None,
            queue: Seq::empty(),
            queue_idx: 0,
            state: AppState::Normal,
            is_shuffling: false,
            repeat: Repeat::Off,
            playback_start: None,
            playback_accumulated: 0,
            yt_query: Seq::empty(),
            yt_results: Seq::empty(),
            downloader_selected: None,
            top_dirs: Seq::empty(),
            selected_save_dir_idx: 0,
            active_panel: PanelFocus::Library,
            input_mode: InputModeView::Inactive,
            input_value: Seq::empty(),
            status_message: None,
            status_expiry: None,
            library_loading: false,
            downloader_loading: false,
        }
    }

    /// The place in the queue is one of its places, where it has any.
    pub open spec fn queue_in_range(self) -> bool {
        self.queue.len() > 0 ==> 0 <= self.queue_idx < self.queue.len()
    }

    /// What holds of the player at all times.
    pub open spec fn wf(self) -> bool {
        &&& selection_in(self.library_selected, self.library_items.len())
        &&& selection_in(self.downloader_selected, self.yt_results.len())
        &&& sound_items(self.library_items)
        &&& self.queue_in_range()
        &&& self.state == AppState::Playing <==> self.playback_start is Some
        &&& self.state == AppState::Normal <==> self.currently_playing_title is None
        &&& self.state == AppState::Normal ==> self.currently_playing is None
            && self.playback_accumulated == 0
        &&& self.status_message is Some <==> self.status_expiry is Some
        &&& self.selected_save_dir_idx >= 0
    }

    /// For how long the current sound has played at the time `now`, pauses left out.
    pub open spec fn elapsed_at(self, now: nat) -> nat {
        match self.playback_start {
            Some(start) if self.state == AppState::Playing && now > start => (
            self.playback_accumulated + (now - start)) as nat,
            _ => self.playback_accumulated,
        }
    }

    /// The time `now`, and the time played until then, can be held.
    pub open spec fn ready_at(self, now: nat) -> bool {
        now <= MAX_TIME && self.elapsed_at(now) <= MAX_TIME
    }

    /// The folder that downloads go to exists.
    pub open spec fn save_dir_in_range(self) -> bool {
        self.selected_save_dir_idx <= self.top_dirs.len()
    }

    pub open spec fn with_status(self, message: Seq<char>, secs: nat, now: nat) -> AppView {
        AppView {
            status_message: Some(message),
            status_expiry: Some(now + secs * (NANOS_PER_SEC as nat)),
            ..self
        }
    }

    /// The message is gone once its time has passed.
    pub open spec fn status_checked(self, now: nat) -> AppView {
        match self.status_expiry {
            Some(expiry) if now > expiry => AppView {
                status_message: None,
                status_expiry: None,
                ..self
            },
            _ => self,
        }
    }

    /// Something new plays from the start.
    pub open spec fn sounding(self, song: Option<Song>, title: Seq<char>, now: nat) -> AppView {
        AppView {
            currently_playing: song,
            currently_playing_title: Some(title),
            state: AppState::Playing,
            playback_start: Some(now),
            playback_accumulated: 0,
            ..self
        }
    }

    pub open spec fn playing(self, song: Song, now: nat) -> AppView {
        self.sounding(Some(song), song.title@ + " - "@ + song.artist@, now)
    }

    pub open spec fn previewing(self, title: Seq<char>, now: nat) -> AppView {
        self.sounding(None, "試聴中 • "@ + title, now)
    }

    pub open spec fn paused(self, now: nat) -> AppView {
        if self.state == AppState::Playing {
            AppView {
                state: AppState::Paused,
                playback_start: None,
                playback_accumulated: self.elapsed_at(now),
                ..self
            }
        } else {
            self
        }
    }

    pub open spec fn resumed(self, now: nat) -> AppView {
        if self.state == AppState::Paused {
            AppView { state: AppState::Playing, playback_start: Some(now), ..self }
        } else {
            self
        }
    }

    pub open spec fn stopped(self) -> AppView {
        AppView {
            currently_playing: None,
            currently_playing_title: None,
            state: AppState::Normal,
            playback_start: None,
            playback_accumulated: 0,
            ..self
        }
    }

    /// The place in the queue that comes next, if one does.
    pub open spec fn next_index(self) -> Option<int> {
        if self.queue.len() == 0 {
            None
        } else {
            match self.repeat {
                Repeat::One => Some(self.queue_idx),
                Repeat::All => Some((self.queue_idx + 1) % (self.queue.len() as int)),
                Repeat::Off => if self.queue_idx + 1 < self.queue.len() {
                    Some(self.queue_idx + 1)
                } else {
                    None
                },
            }
        }
    }

    /// The place in the queue that comes before; the last one before the first.
    pub open spec fn previous_index(self) -> int {
        if self.queue_idx == 0 {
            self.queue.len() - 1
        } else {
            self.queue_idx - 1
        }
    }

    /// Moves to a place in the queue and asks for its song.
    pub open spec fn moved_to(self, i: int, request: PlayRequest) -> (AppView, ActionView) {
        (
            AppView { queue_idx: i, ..self },
            ActionView::PlaySong { request, song: self.queue[i] },
        )
    }

    pub open spec fn next_step(self) -> (AppView, ActionView) {
        match self.next_index() {
            Some(i) => self.moved_to(i, PlayRequest::Next),
            None => (self.stopped(), ActionView::StopSink),
        }
    }

    pub open spec fn previous_step(self) -> (AppView, ActionView) {
        if self.queue.len() == 0 {
            (self, ActionView::Idle)
        } else {
            self.moved_to(self.previous_index(), PlayRequest::Previous)
        }
    }

    /// The next song is due once the sound has run out.
    pub open spec fn autoplay_step(self, sink_empty: bool) -> (AppView, ActionView) {
        if self.state == AppState::Playing && sink_empty {
            self.next_step()
        } else {
            (self, ActionView::Idle)
        }
    }

    /// What follows an attempt to play a song.
    pub open spec fn song_step(
        self,
        request: PlayRequest,
        song: Song,
        loaded: Result<(), String>,
        now: nat,
    ) -> (AppView, ActionView) {
        match (loaded, request) {
            (Ok(_), _) => (self.playing(song, now), ActionView::Idle),
            (Err(e), PlayRequest::Next) => (
                self.with_status("Error playing next song: "@ + e@, 5, now).stopped(),
                ActionView::StopSink,
            ),
            (Err(e), PlayRequest::Previous) => (
                self.with_status("Error playing previous song: "@ + e@, 5, now).stopped(),
                ActionView::StopSink,
            ),
            (Err(e), PlayRequest::Library) => (
                self.with_status("Error playing song: "@ + e@, 5, now),
                ActionView::Idle,
            ),
        }
    }

    /// What follows an attempt to play a preview.
    pub open spec fn preview_step(
        self,
        title: Seq<char>,
        loaded: Result<(), String>,
        now: nat,
    ) -> AppView {
        match loaded {
            Ok(_) => self.previewing(title, now),
            Err(e) => self.with_status("Preview failed: "@ + e@, 5, now),
        }
    }

    /// What is chosen from the library plays first; where ids repeat, it is the first song that
    /// has the id.
    pub open spec fn chosen_song(self, idx: int) -> int {
        song_from(songs_of(self.library_items), self.library_items[idx].song->0.id, 0)
    }

    /// A queue is made of the songs of the library, and the chosen one is asked for. In shuffle
    /// mode the order of the others is open.
    pub open spec fn queue_started(self, idx: int, post: AppView, action: ActionView) -> bool {
        let songs = songs_of(self.library_items);
        let chosen = self.chosen_song(idx);
        if songs.len() == 0 || self.library_items[idx].song is None {
            post == self && action == ActionView::Idle
        } else {
            &&& post == AppView { queue: post.queue, queue_idx: post.queue_idx, ..self }
            &&& self.is_shuffling ==> shuffled(songs, chosen, post.queue) && post.queue_idx == 0
            &&& !self.is_shuffling ==> post.queue == songs && post.queue_idx == chosen
            &&& action == ActionView::PlaySong {
                request: PlayRequest::Library,
                song: songs[chosen],
            }
        }
    }

    pub open spec fn browse_step(self, path: Seq<char>) -> (AppView, ActionView) {
        (
            AppView { library_loading: true, ..self },
            ActionView::Call(ApiCallView::Browse { path }),
        )
    }

    pub open spec fn search_step(self, query: Seq<char>) -> (AppView, ActionView) {
        (
            AppView { downloader_loading: true, ..self },
            ActionView::Call(ApiCallView::Search { query }),
        )
    }

    pub open spec fn download_step(self, url: Seq<char>, folder: Option<Seq<char>>) -> (
        AppView,
        ActionView,
    ) {
        (
            AppView { downloader_loading: true, ..self },
            ActionView::Call(ApiCallView::Download { url, folder }),
        )
    }

    pub open spec fn fetch_preview_step(self, title: Seq<char>, video_id: Seq<char>) -> (
        AppView,
        ActionView,
    ) {
        (
            AppView { downloader_loading: true, ..self },
            ActionView::Call(ApiCallView::Preview { title, video_id }),
        )
    }

    pub open spec fn mkdir_step(self, path: Seq<char>) -> (AppView, ActionView) {
        (
            AppView { library_loading: true, ..self },
            ActionView::Call(ApiCallView::Mkdir { path }),
        )
    }

    pub open spec fn delete_step(self, path: Seq<char>) -> (AppView, ActionView) {
        (
            AppView { library_loading: true, ..self },
            ActionView::Call(ApiCallView::Delete { path }),
        )
    }
}

impl App {
    /// A player with nothing in it.
    pub fn new() -> (app: Self)
        ensures
            app@ == AppView::initial(),
            app@.wf(),
    {
        App {
            current_path: String::new(),
            library_items: Vec::new(),
            library_selected: None,
            currently_playing: None,
            currently_playing_title: None,
            queue: Vec::new(),
            queue_idx: 0,
            state: AppState::Normal,
            is_shuffling: false,
            repeat: Repeat::Off,
            playback_start: None,
            playback_accumulated: 0,
            yt_query: String::new(),
            yt_results: Vec::new(),
            downloader_selected: None,
            top_dirs: Vec::new(),
            selected_save_dir_idx: 0,
            active_panel: PanelFocus::Library,
            input_mode: InputMode::Inactive,
            input_value: String::new(),
            status_message: None,
            status_expiry: None,
            library_loading: false,
            downloader_loading: false,
        }
    }

    /// Whether the time `now`, and the time played until then, can be held.
    pub fn is_ready_at(&self, now: u128) -> (ready: bool)
        ensures
            ready == self@.ready_at(now as nat),
    {
        if now > MAX_TIME || self.playback_accumulated > MAX_TIME {
            return false;
        }
        match self.playback_start {
            Some(start) => !(self.state == AppState::Playing && now > start)
                || self.playback_accumulated + (now - start) <= MAX_TIME,
            None => true,
        }
    }

    /// Shows a message for some seconds.
    pub fn set_status(&mut self, msg: String, duration_secs: u64, now: u128)
        requires
            now <= MAX_TIME,
        ensures
            final(self)@ == old(self)@.with_status(msg@, duration_secs as nat, now as nat),
            old(self)@.wf() ==> final(self)@.wf(),
    {
        self.status_message = Some(msg);
        self.status_expiry = Some(now + duration_secs as u128 * NANOS_PER_SEC);
    }

    /// Takes the message away once its time has passed.
    pub fn check_status_expiry(&mut self, now: u128)
        ensures
            final(self)@ == old(self)@.status_checked(now as nat),
            old(self)@.wf() ==> final(self)@.wf(),
    {
        if let Some(expiry) = self.status_expiry {
            if now > expiry {
                self.status_message = None;
                self.status_expiry = None;
            }
        }
    }

    /// For how long the current sound has played, in nanoseconds.
    pub fn current_elapsed(&self, now: u128) -> (elapsed: u128)
        requires
            self@.ready_at(now as nat),
        ensures
            elapsed == self@.elapsed_at(now as nat),
    {
        if self.state == AppState::Playing {
            if let Some(start) = self.playback_start {
                if now > start {
                    return self.playback_accumulated + (now - start);
                }
            }
        }
        self.playback_accumulated
    }

    /// Takes note of a song that was handed to the sink; where that failed, changes nothing.
    pub fn play_music(&mut self, song: Song, loaded: Result<(), String>, now: u128) -> (result:
        Result<(), String>)
        ensures
            result == loaded,
            loaded is Ok ==> final(self)@ == old(self)@.playing(song, now as nat),
            loaded is Err ==> final(self)@ == old(self)@,
            old(self)@.wf() ==> final(self)@.wf(),
    {
        match loaded {
            Ok(done) => {
                self.currently_playing_title =
                Some(join3(song.title.as_str(), " - ", song.artist.as_str()));
                self.currently_playing = Some(song);
                self.state = AppState::Playing;
                self.playback_start = Some(now);
                self.playback_accumulated = 0;
                Ok(done)
            },
            Err(e) => Err(e),
        }
    }

    /// Takes note of a preview that was handed to the sink; where that failed, changes nothing.
    pub fn play_preview(&mut self, title: String, loaded: Result<(), String>, now: u128) -> (result:
        Result<(), String>)
        ensures
            result == loaded,
            loaded is Ok ==> final(self)@ == old(self)@.previewing(title@, now as nat),
            loaded is Err ==> final(self)@ == old(self)@,
            old(self)@.wf() ==> final(self)@.wf(),
    {
        match loaded {
            Ok(done) => {
                self.currently_playing = None;
                self.currently_playing_title = Some(join2("試聴中 • ", title.as_str()));
                self.state = AppState::Playing;
                self.playback_start = Some(now);
                self.playback_accumulated = 0;
                Ok(done)
            },
            Err(e) => Err(e),
        }
    }

    /// Pauses what plays.
    pub fn pause_playback(&mut self, now: u128) -> (action: Action)
        requires
            old(self)@.ready_at(now as nat),
        ensures
            final(self)@ == old(self)@.paused(now as nat),
            action@ == if old(self).state == AppState::Playing {
                ActionView::PauseSink
            } else {
                ActionView::Idle
            },
            old(self)@.wf() ==> final(self)@.wf(),
    {
        if self.state == AppState::Playing {
            let elapsed: u128 = self.current_elapsed(now);
            self.state = AppState::Paused;
            self.playback_start = None;
            self.playback_accumulated = elapsed;
            Action::PauseSink
        } else {
            Action::Idle
        }
    }

    /// Goes on with what is paused.
    pub fn resume_playback(&mut self, now: u128) -> (action: Action)
        ensures
            final(self)@ == old(self)@.resumed(now as nat),
            action@ == if old(self).state == AppState::Paused {
                ActionView::ResumeSink
            } else {
                ActionView::Idle
            },
            old(self)@.wf() ==> final(self)@.wf(),
    {
        if self.state == AppState::Paused {
            self.state = AppState::Playing;
            self.playback_start = Some(now);
            Action::ResumeSink
        } else {
            Action::Idle
        }
    }

    /// Stops the sound.
    pub fn stop_playback(&mut self) -> (action: Action)
        ensures
            final(self)@ == old(self)@.stopped(),
            action@ == ActionView::StopSink,
            old(self)@.wf() ==> final(self)@.wf(),
    {
        self.currently_playing = None;
        self.currently_playing_title = None;
        self.state = AppState::Normal;
        self.playback_start = None;
        self.playback_accumulated = 0;
        Action::StopSink
    }

    /// Asks for the next song of the queue, or stops where there is none.
    pub fn play_next_song(&mut self) -> (action: Action)
        requires
            old(self)@.queue_in_range(),
        ensures
            (final(self)@, action@) == old(self)@.next_step(),
            old(self)@.wf() ==> final(self)@.wf(),
    {
        if self.queue.is_empty() {
            return self.stop_playback();
        }
        let len: usize = self.queue.len();
        let next_idx: usize = match self.repeat {
            Repeat::One => self.queue_idx,
            Repeat::All => (self.queue_idx + 1) % len,
            Repeat::Off => {
                let next: usize = self.queue_idx + 1;
                if next < len {
                    next
                } else {
                    return self.stop_playback();
                }
            },
        };
        self.queue_idx = next_idx;
        Action::PlaySong { request: PlayRequest::Next, song: self.queue[next_idx].clone() }
    }

    /// Asks for the song before the current one; before the first comes the last.
    pub fn play_previous_song(&mut self) -> (action: Action)
        requires
            old(self)@.queue_in_range(),
        ensures
            (final(self)@, action@) == old(self)@.previous_step(),
            old(self)@.wf() ==> final(self)@.wf(),
    {
        if self.queue.is_empty() {
            return Action::Idle;
        }
        let prev_idx: usize = if self.queue_idx == 0 {
            self.queue.len() - 1
        } else {
            self.queue_idx - 1
        };
        self.queue_idx = prev_idx;
        Action::PlaySong { request: PlayRequest::Previous, song: self.queue[prev_idx].clone() }
    }

    /// Goes on to the next song when the sound of the current one has run out.
    pub fn autoplay(&mut self, sink_empty: bool) -> (action: Action)
        requires
            old(self)@.queue_in_range(),
        ensures
            (final(self)@, action@) == old(self)@.autoplay_step(sink_empty),
            old(self)@.wf() ==> final(self)@.wf(),
    {
        if self.state == AppState::Playing && sink_empty {
            self.play_next_song()
        } else {
            Action::Idle
        }
    }

    /// Takes note of how an attempt to play a song ended.
    pub fn finish_song(
        &mut self,
        request: PlayRequest,
        song: Song,
        loaded: Result<(), String>,
        now: u128,
    ) -> (action: Action)
        requires
            now <= MAX_TIME,
        ensures
            (final(self)@, action@) == old(self)@.song_step(request, song, loaded, now as nat),
            old(self)@.wf() ==> final(self)@.wf(),
    {
        match self.play_music(song, loaded, now) {
            Ok(_) => Action::Idle,
            Err(e) => match request {
                PlayRequest::Next => {
                    self.set_status(join2("Error playing next song: ", e.as_str()), 5, now);
                    self.stop_playback()
                },
                PlayRequest::Previous => {
                    self.set_status(join2("Error playing previous song: ", e.as_str()), 5, now);
                    self.stop_playback()
                },
                PlayRequest::Library => {
                    self.set_status(join2("Error playing song: ", e.as_str()), 5, now);
                    Action::Idle
                },
            },
        }
    }

    /// Takes note of how an attempt to play a preview ended.
    pub fn finish_preview(&mut self, title: String, loaded: Result<(), String>, now: u128)
        requires
            now <= MAX_TIME,
        ensures
            final(self)@ == old(self)@.preview_step(title@, loaded, now as nat),
            old(self)@.wf() ==> final(self)@.wf(),
    {
        if let Err(e) = self.play_preview(title, loaded, now) {
            self.set_status(join2("Preview failed: ", e.as_str()), 5, now);
        }
    }

    /// Makes a queue of the library's songs and asks for the chosen one.
    pub fn start_queue_from_library(&mut self, idx: usize) -> (action: Action)
        requires
            songs_of(old(self)@.library_items).len() > 0 ==> idx < old(self)@.library_items.len(),
        ensures
            old(self)@.queue_started(idx as int, final(self)@, action@),
            old(self)@.wf() ==> final(self)@.wf(),
    {
        let songs = collect_songs(&self.library_items);
        if songs.is_empty() {
            return Action::Idle;
        }
        let id: i64 = match &self.library_items[idx].song {
            Some(song) => song.id,
            None => {
                return Action::Idle;
            },
        };
        let chosen: usize = position_of(&songs, id);
        proof {
            crate::model::lemma_songs_of_contains(self.library_items@, idx as int);
            crate::model::lemma_song_from(songs@, id, 0);
        }
        if self.is_shuffling {
            let mut others = songs;
            let first = others.remove(chosen);
            shuffle_songs(&mut others);
            proof {
                broadcast use group_to_multiset_ensures;

                assert(others@.len() == others@.to_multiset().len());
                assert((seq![first] + others@).skip(1) =~= others@);
            }
            self.start_shuffled(first, others)
        } else {
            self.queue = songs;
            self.queue_idx = chosen;
            Action::PlaySong { request: PlayRequest::Library, song: self.queue[chosen].clone() }
        }
    }

    /// Takes a queue that begins with the chosen song and goes on with the others as they stand,
    /// and asks for the chosen one.
    pub fn start_shuffled(&mut self, chosen: Song, others: Vec<Song>) -> (action: Action)
        ensures
            final(self)@ == (AppView {
                queue: seq![chosen] + others@,
                queue_idx: 0,
                ..old(self)@
            }),
            action@ == (ActionView::PlaySong { request: PlayRequest::Library, song: chosen }),
            old(self)@.wf() ==> final(self)@.wf(),
    {
        let mut rest = others;
        let mut new_queue: Vec<Song> = Vec::new();
        new_queue.push(chosen);
        new_queue.append(&mut rest);
        assert(new_queue@ =~= seq![chosen] + others@);
        self.queue = new_queue;
        self.queue_idx = 0;
        Action::PlaySong { request: PlayRequest::Library, song: self.queue[0].clone() }
    }

    /// Asks the server for a folder.
    pub fn trigger_browse(&mut self, path: String) -> (action: Action)
        ensures
            (final(self)@, action@) == old(self)@.browse_step(path@),
            old(self)@.wf() ==> final(self)@.wf(),
    {
        self.library_loading = true;
        Action::Call(ApiCall::Browse { path })
    }

    /// Asks the server for videos.
    pub fn trigger_search(&mut self, query: String) -> (action: Action)
        ensures
            (final(self)@, action@) == old(self)@.search_step(query@),
            old(self)@.wf() ==> final(self)@.wf(),
    {
        self.downloader_loading = true;
        Action::Call(ApiCall::Search { query })
    }

    /// Asks the server to download a video.
    pub fn trigger_download(&mut self, url: String, folder: Option<String>) -> (action: Action)
        ensures
            (final(self)@, action@) == old(self)@.download_step(url@, text_view(folder)),
            old(self)@.wf() ==> final(self)@.wf(),
    {
        self.downloader_loading = true;
        Action::Call(ApiCall::Download { url, folder })
    }

    /// Asks the server for the sound of a video.
    pub fn trigger_preview(&mut self, title: String, video_id: String) -> (action: Action)
        ensures
            (final(self)@, action@) == old(self)@.fetch_preview_step(title@, video_id@),
            old(self)@.wf() ==> final(self)@.wf(),
    {
        self.downloader_loading = true;
        Action::Call(ApiCall::Preview { title, video_id })
    }

    /// Asks the server for a new folder.
    pub fn trigger_mkdir(&mut self, path: String) -> (action: Action)
        ensures
            (final(self)@, action@) == old(self)@.mkdir_step(path@),
            old(self)@.wf() ==> final(self)@.wf(),
    {
        self.library_loading = true;
        Action::Call(ApiCall::Mkdir { path })
    }

    /// Asks the server to delete a song or a folder.
    pub fn trigger_delete(&mut self, path: String) -> (action: Action)
        ensures
            (final(self)@, action@) == old(self)@.delete_step(path@),
            old(self)@.wf() ==> final(self)@.wf(),
    {
        self.library_loading = true;
        Action::Call(ApiCall::Delete { path })
    }
}

} // verus!
