//! What the keys do.

use vstd::prelude::*;
use vstd::string::*;

use crate::action::{Action, ActionView};
use crate::app::{index_view, App, AppView};
use crate::model::{
    AppState, InputMode, InputModeView, KeyCode, KeyEvent, KeyEventKind, PanelFocus, Repeat,
};
use crate::text::{
    child_path, extract_video_id, join_path, parent_of, parent_path, trim, trimmed, video_id,
};

verus! {

/// One line down in a list, from the last line to the first.
pub open spec fn down(selected: Option<int>, len: nat) -> Option<int> {
    match selected {
        _ if len == 0 => selected,
        Some(i) if i < len - 1 => Some(i + 1),
        _ => Some(0),
    }
}

/// One line up in a list, from the first line to the last.
pub open spec fn up(selected: Option<int>, len: nat) -> Option<int> {
    match selected {
        _ if len == 0 => selected,
        Some(i) if i == 0 => Some(len - 1),
        Some(i) => Some(i - 1),
        None => Some(0),
    }
}

/// The repeat mode that follows.
pub open spec fn repeat_after(repeat: Repeat) -> Repeat {
    match repeat {
        Repeat::Off => Repeat::All,
        Repeat::All => Repeat::One,
        Repeat::One => Repeat::Off,
    }
}

impl AppView {
    /// Text entry is over.
    pub open spec fn input_left(self) -> AppView {
        AppView { input_mode: InputModeView::Inactive, ..self }
    }

    /// A key changes the text that is being typed.
    pub open spec fn typed(self, code: KeyCode) -> AppView {
        match code {
            KeyCode::Backspace if self.input_value.len() > 0 => AppView {
                input_value: self.input_value.drop_last(),
                ..self
            },
            KeyCode::Char(c) => AppView { input_value: self.input_value.push(c), ..self },
            _ => self,
        }
    }

    pub open spec fn search_key(self, code: KeyCode) -> (AppView, ActionView) {
        let query = trimmed(self.input_value);
        match code {
            KeyCode::Enter if query.len() > 0 => AppView {
                yt_query: query,
                ..self.input_left()
            }.search_step(query),
            KeyCode::Enter => (self.input_left(), ActionView::Idle),
            KeyCode::Esc => (self.input_left(), ActionView::Idle),
            _ => (self.typed(code), ActionView::Idle),
        }
    }

    pub open spec fn mkdir_key(self, code: KeyCode) -> (AppView, ActionView) {
        let name = trimmed(self.input_value);
        match code {
            KeyCode::Enter if name.len() > 0 => self.input_left().mkdir_step(
                child_path(self.current_path, name),
            ),
            KeyCode::Enter => (self.input_left(), ActionView::Idle),
            KeyCode::Esc => (self.input_left(), ActionView::Idle),
            _ => (self.typed(code), ActionView::Idle),
        }
    }

    pub open spec fn confirm_key(self, path: Seq<char>, code: KeyCode) -> (AppView, ActionView) {
        if code == KeyCode::Char('y') || code == KeyCode::Char('Y') {
            self.input_left().delete_step(path)
        } else if code == KeyCode::Char('n') || code == KeyCode::Char('N') || code == KeyCode::Esc {
            (self.input_left(), ActionView::Idle)
        } else {
            (self, ActionView::Idle)
        }
    }

    /// Plays, pauses or goes on. From silence a queue is started instead, see `starts_queue`.
    pub open spec fn play_key(self, now: nat) -> (AppView, ActionView) {
        match self.state {
            AppState::Playing => (self.paused(now), ActionView::PauseSink),
            AppState::Paused => (self.resumed(now), ActionView::ResumeSink),
            AppState::Normal => (self, ActionView::Idle),
        }
    }

    pub open spec fn panel_switched(self) -> AppView {
        AppView {
            active_panel: match self.active_panel {
                PanelFocus::Library => PanelFocus::Downloader,
                PanelFocus::Downloader => PanelFocus::Library,
            },
            ..self
        }
    }

    /// Shuffle on; or shuffle off and the next repeat mode.
    pub open spec fn mode_toggled(self) -> AppView {
        if self.is_shuffling {
            AppView { is_shuffling: false, repeat: repeat_after(self.repeat), ..self }
        } else {
            AppView { is_shuffling: true, ..self }
        }
    }

    /// The path by which the server knows an entry of the library.
    pub open spec fn entry_path(self, i: int) -> Seq<char> {
        let item = self.library_items[i];
        if item.is_dir {
            child_path(self.current_path, item.name@)
        } else {
            item.song->0.path@
        }
    }

    pub open spec fn library_key(self, code: KeyCode) -> (AppView, ActionView) {
        if code == KeyCode::Char('j') || code == KeyCode::Down {
            (
                AppView {
                    library_selected: down(self.library_selected, self.library_items.len()),
                    ..self
                },
                ActionView::Idle,
            )
        } else if code == KeyCode::Char('k') || code == KeyCode::Up {
            (
                AppView {
                    library_selected: up(self.library_selected, self.library_items.len()),
                    ..self
                },
                ActionView::Idle,
            )
        } else if code == KeyCode::Char('l') || code == KeyCode::Enter {
            match self.library_selected {
                Some(i) if self.library_items[i].is_dir => self.browse_step(self.entry_path(i)),
                _ => (self, ActionView::Idle),
            }
        } else if code == KeyCode::Char('h') && self.current_path.len() > 0 {
            self.browse_step(parent_path(self.current_path))
        } else if code == KeyCode::Char('n') {
            (
                AppView {
                    input_mode: InputModeView::Mkdir,
                    input_value: Seq::empty(),
                    ..self
                },
                ActionView::Idle,
            )
        } else if code == KeyCode::Char('x') || code == KeyCode::Char('d') {
            match self.library_selected {
                Some(i) => (
                    AppView {
                        input_mode: InputModeView::DeleteConfirm(self.entry_path(i)),
                        ..self
                    },
                    ActionView::Idle,
                ),
                None => (self, ActionView::Idle),
            }
        } else {
            (self, ActionView::Idle)
        }
    }

    /// The folder that downloads go to; none leaves it to the server.
    pub open spec fn save_folder(self) -> Option<Seq<char>> {
        if self.selected_save_dir_idx == 0 {
            None
        } else {
            Some(self.top_dirs[self.selected_save_dir_idx - 1]@)
        }
    }

    /// The next folder for downloads; after the last one the choice is the server's again.
    pub open spec fn save_dir_cycled(self) -> AppView {
        AppView {
            selected_save_dir_idx: (self.selected_save_dir_idx + 1) % (self.top_dirs.len() as int
                + 1),
            ..self
        }
    }

    pub open spec fn downloader_key(self, code: KeyCode, now: nat) -> (AppView, ActionView) {
        if code == KeyCode::Char('j') || code == KeyCode::Down {
            (
                AppView {
                    downloader_selected: down(self.downloader_selected, self.yt_results.len()),
                    ..self
                },
                ActionView::Idle,
            )
        } else if code == KeyCode::Char('k') || code == KeyCode::Up {
            (
                AppView {
                    downloader_selected: up(self.downloader_selected, self.yt_results.len()),
                    ..self
                },
                ActionView::Idle,
            )
        } else if code == KeyCode::Char('/') {
            (
                AppView {
                    input_mode: InputModeView::Search,
                    input_value: Seq::empty(),
                    ..self
                },
                ActionView::Idle,
            )
        } else if code == KeyCode::Char('d') || code == KeyCode::Enter {
            match self.downloader_selected {
                Some(i) => self.with_status("Downloading..."@, 60, now).download_step(
                    self.yt_results[i].url@,
                    self.save_folder(),
                ),
                None => (self, ActionView::Idle),
            }
        } else if code == KeyCode::Char('p') || code == KeyCode::Char(' ') {
            match self.downloader_selected {
                Some(i) => self.with_status("Streaming preview..."@, 10, now).fetch_preview_step(
                    self.yt_results[i].title@,
                    video_id(self.yt_results[i].url@),
                ),
                None => (self, ActionView::Idle),
            }
        } else if code == KeyCode::Char('f') {
            (self.save_dir_cycled(), ActionView::Idle)
        } else {
            (self, ActionView::Idle)
        }
    }

    /// Commands that both panels have, then those of the panel that takes the keys.
    pub open spec fn command_key(self, code: KeyCode, now: nat) -> (AppView, ActionView) {
        if code == KeyCode::Char('q') {
            (self, ActionView::Quit)
        } else if code == KeyCode::Tab {
            (self.panel_switched(), ActionView::Idle)
        } else if code == KeyCode::Char('s') {
            self.play_key(now)
        } else if code == KeyCode::Esc {
            (self.stopped(), ActionView::StopSink)
        } else if code == KeyCode::Char('c') {
            (self.mode_toggled(), ActionView::Idle)
        } else if code == KeyCode::Right || code == KeyCode::Char('>') {
            self.next_step()
        } else if code == KeyCode::Left || code == KeyCode::Char('<') {
            self.previous_step()
        } else {
            match self.active_panel {
                PanelFocus::Library => self.library_key(code),
                PanelFocus::Downloader => self.downloader_key(code, now),
            }
        }
    }

    /// What a key does, but for those that start a queue.
    pub open spec fn key_step(self, code: KeyCode, now: nat) -> (AppView, ActionView) {
        match self.input_mode {
            InputModeView::Search => self.search_key(code),
            InputModeView::Mkdir => self.mkdir_key(code),
            InputModeView::DeleteConfirm(path) => self.confirm_key(path, code),
            InputModeView::Inactive => self.command_key(code, now),
        }
    }

    /// The entry of the library that a key starts a queue with, if it does: the selected song, on
    /// the play key in silence or on the key that enters a folder.
    pub open spec fn starts_queue(self, code: KeyCode) -> Option<int> {
        match self.library_selected {
            Some(i) if {
                &&& self.input_mode is Inactive
                &&& self.active_panel == PanelFocus::Library
                &&& self.library_items[i].song is Some
                &&& {
                    ||| code == KeyCode::Char('s') && self.state == AppState::Normal
                    ||| code == KeyCode::Char('l')
                    ||| code == KeyCode::Enter
                }
            } => Some(i),
            _ => None,
        }
    }

    /// All that a key can do.
    pub open spec fn key_outcome(
        self,
        code: KeyCode,
        now: nat,
        post: AppView,
        action: ActionView,
    ) -> bool {
        match self.starts_queue(code) {
            Some(i) => self.queue_started(i, post, action),
            None => (post, action) == self.key_step(code, now),
        }
    }

    /// A key that starts a download finds the folder to save to.
    pub open spec fn finds_save_dir(self, code: KeyCode) -> bool {
        let downloads = {
            &&& self.input_mode is Inactive
            &&& self.active_panel == PanelFocus::Downloader
            &&& self.downloader_selected is Some
            &&& code == KeyCode::Enter || code == KeyCode::Char('d')
        };
        downloads ==> self.save_dir_in_range()
    }
}

fn select_down(selected: Option<usize>, len: usize) -> (next: Option<usize>)
    ensures
        index_view(next) == down(index_view(selected), len as nat),
{
    if len == 0 {
        return selected;
    }
    match selected {
        Some(i) => if i >= len - 1 {
            Some(0)
        } else {
            Some(i + 1)
        },
        None => Some(0),
    }
}

fn select_up(selected: Option<usize>, len: usize) -> (next: Option<usize>)
    ensures
        index_view(next) == up(index_view(selected), len as nat),
{
    if len == 0 {
        return selected;
    }
    match selected {
        Some(i) => if i == 0 {
            Some(len - 1)
        } else {
            Some(i - 1)
        },
        None => Some(0),
    }
}

impl App {
    /// Whether the folder that downloads go to exists.
    pub fn is_save_dir_in_range(&self) -> (in_range: bool)
        ensures
            in_range == self@.save_dir_in_range(),
    {
        self.selected_save_dir_idx <= self.top_dirs.len()
    }

    fn type_key(&mut self, code: KeyCode)
        ensures
            final(self)@ == old(self)@.typed(code),
    {
        match code {
            KeyCode::Backspace => {
                let _ = self.input_value.pop();
            },
            KeyCode::Char(c) => {
                self.input_value.push(c);
            },
            _ => {},
        }
    }

    fn handle_search_key(&mut self, code: KeyCode) -> (action: Action)
        ensures
            (final(self)@, action@) == old(self)@.search_key(code),
    {
        match code {
            KeyCode::Enter => {
                let query = trim(self.input_value.as_str());
                self.input_mode = InputMode::Inactive;
                if !query.as_str().is_empty() {
                    self.yt_query = query.clone();
                    self.trigger_search(query)
                } else {
                    Action::Idle
                }
            },
            KeyCode::Esc => {
                self.input_mode = InputMode::Inactive;
                Action::Idle
            },
            _ => {
                self.type_key(code);
                Action::Idle
            },
        }
    }

    fn handle_mkdir_key(&mut self, code: KeyCode) -> (action: Action)
        ensures
            (final(self)@, action@) == old(self)@.mkdir_key(code),
    {
        match code {
            KeyCode::Enter => {
                let folder_name = trim(self.input_value.as_str());
                self.input_mode = InputMode::Inactive;
                if !folder_name.as_str().is_empty() {
                    let path = join_path(self.current_path.as_str(), folder_name.as_str());
                    self.trigger_mkdir(path)
                } else {
                    Action::Idle
                }
            },
            KeyCode::Esc => {
                self.input_mode = InputMode::Inactive;
                Action::Idle
            },
            _ => {
                self.type_key(code);
                Action::Idle
            },
        }
    }

    fn handle_confirm_key(&mut self, path: String, code: KeyCode) -> (action: Action)
        ensures
            (final(self)@, action@) == old(self)@.confirm_key(path@, code),
    {
        match code {
            KeyCode::Char('y') | KeyCode::Char('Y') => {
                self.input_mode = InputMode::Inactive;
                self.trigger_delete(path)
            },
            KeyCode::Char('n') | KeyCode::Char('N') | KeyCode::Esc => {
                self.input_mode = InputMode::Inactive;
                Action::Idle
            },
            _ => Action::Idle,
        }
    }

    /// The path by which the server knows an entry of the library.
    fn path_of_entry(&self, i: usize) -> (path: String)
        requires
            i < self@.library_items.len(),
            self@.library_items[i as int].is_dir || self@.library_items[i as int].song is Some,
        ensures
            path@ == self@.entry_path(i as int),
    {
        let item = &self.library_items[i];
        match &item.song {
            Some(song) if !item.is_dir => song.path.clone(),
            _ => join_path(self.current_path.as_str(), item.name.as_str()),
        }
    }

    fn handle_library_key(&mut self, code: KeyCode) -> (action: Action)
        requires
            old(self)@.wf(),
            old(self)@.input_mode is Inactive,
            old(self)@.active_panel == PanelFocus::Library,
            code != KeyCode::Char('s'),
        ensures
            match old(self)@.starts_queue(code) {
                Some(i) => old(self)@.queue_started(i, final(self)@, action@),
                None => (final(self)@, action@) == old(self)@.library_key(code),
            },
            final(self)@.wf(),
    {
        match code {
            KeyCode::Char('j') | KeyCode::Down => {
                self.library_selected = select_down(
                    self.library_selected,
                    self.library_items.len(),
                );
                Action::Idle
            },
            KeyCode::Char('k') | KeyCode::Up => {
                self.library_selected = select_up(self.library_selected, self.library_items.len());
                Action::Idle
            },
            KeyCode::Char('l') | KeyCode::Enter => match self.library_selected {
                Some(idx) => if self.library_items[idx].is_dir {
                    let path = self.path_of_entry(idx);
                    self.trigger_browse(path)
                } else {
                    self.start_queue_from_library(idx)
                },
                None => Action::Idle,
            },
            KeyCode::Char('h') => if !self.current_path.as_str().is_empty() {
                let parent = parent_of(self.current_path.as_str());
                self.trigger_browse(parent)
            } else {
                Action::Idle
            },
            KeyCode::Char('n') => {
                self.input_mode = InputMode::Mkdir;
                self.input_value = String::new();
                Action::Idle
            },
            KeyCode::Char('x') | KeyCode::Char('d') => {
                if let Some(idx) = self.library_selected {
                    let path = self.path_of_entry(idx);
                    self.input_mode = InputMode::DeleteConfirm(path);
                }
                Action::Idle
            },
            _ => Action::Idle,
        }
    }

    fn handle_downloader_key(&mut self, code: KeyCode, now: u128) -> (action: Action)
        requires
            old(self)@.wf(),
            old(self)@.ready_at(now as nat),
            old(self)@.input_mode is Inactive,
            old(self)@.active_panel == PanelFocus::Downloader,
            old(self)@.finds_save_dir(code),
        ensures
            (final(self)@, action@) == old(self)@.downloader_key(code, now as nat),
            final(self)@.wf(),
    {
        match code {
            KeyCode::Char('j') | KeyCode::Down => {
                self.downloader_selected = select_down(
                    self.downloader_selected,
                    self.yt_results.len(),
                );
                Action::Idle
            },
            KeyCode::Char('k') | KeyCode::Up => {
                self.downloader_selected = select_up(
                    self.downloader_selected,
                    self.yt_results.len(),
                );
                Action::Idle
            },
            KeyCode::Char('/') => {
                self.input_mode = InputMode::Search;
                self.input_value = String::new();
                Action::Idle
            },
            KeyCode::Char('d') | KeyCode::Enter => match self.downloader_selected {
                Some(idx) => {
                    let url = self.yt_results[idx].url.clone();
                    let folder = if self.selected_save_dir_idx == 0 {
                        None
                    } else {
                        Some(self.top_dirs[self.selected_save_dir_idx - 1].clone())
                    };
                    self.set_status("Downloading...".to_string(), 60, now);
                    self.trigger_download(url, folder)
                },
                None => Action::Idle,
            },
            KeyCode::Char('p') | KeyCode::Char(' ') => match self.downloader_selected {
                Some(idx) => {
                    let title = self.yt_results[idx].title.clone();
                    let id = extract_video_id(self.yt_results[idx].url.as_str()).to_string();
                    self.set_status("Streaming preview...".to_string(), 10, now);
                    self.trigger_preview(title, id)
                },
                None => Action::Idle,
            },
            KeyCode::Char('f') => {
                let next: u128 = (self.selected_save_dir_idx as u128 + 1) % (
                self.top_dirs.len() as u128 + 1);
                self.selected_save_dir_idx = next as usize;
                Action::Idle
            },
            _ => Action::Idle,
        }
    }

    fn handle_play_key(&mut self, now: u128) -> (action: Action)
        requires
            old(self)@.wf(),
            old(self)@.ready_at(now as nat),
            old(self)@.input_mode is Inactive,
        ensures
            old(self)@.key_outcome(KeyCode::Char('s'), now as nat, final(self)@, action@),
            final(self)@.wf(),
    {
        match self.state {
            AppState::Playing => self.pause_playback(now),
            AppState::Paused => self.resume_playback(now),
            AppState::Normal => {
                if self.active_panel == PanelFocus::Library {
                    if let Some(idx) = self.library_selected {
                        if self.library_items[idx].song.is_some() {
                            return self.start_queue_from_library(idx);
                        }
                    }
                }
                Action::Idle
            },
        }
    }

    fn toggle_mode(&mut self)
        ensures
            final(self)@ == old(self)@.mode_toggled(),
    {
        if self.is_shuffling {
            self.is_shuffling = false;
            self.repeat = match self.repeat {
                Repeat::Off => Repeat::All,
                Repeat::All => Repeat::One,
                Repeat::One => Repeat::Off,
            };
        } else {
            self.is_shuffling = true;
        }
    }

    fn handle_command_key(&mut self, code: KeyCode, now: u128) -> (action: Action)
        requires
            old(self)@.wf(),
            old(self)@.ready_at(now as nat),
            old(self)@.input_mode is Inactive,
            old(self)@.finds_save_dir(code),
        ensures
            old(self)@.key_outcome(code, now as nat, final(self)@, action@),
            final(self)@.wf(),
    {
        match code {
            KeyCode::Char('q') => Action::Quit,
            KeyCode::Tab => {
                self.active_panel = match self.active_panel {
                    PanelFocus::Library => PanelFocus::Downloader,
                    PanelFocus::Downloader => PanelFocus::Library,
                };
                Action::Idle
            },
            KeyCode::Char('s') => self.handle_play_key(now),
            KeyCode::Esc => self.stop_playback(),
            KeyCode::Char('c') => {
                self.toggle_mode();
                Action::Idle
            },
            KeyCode::Right | KeyCode::Char('>') => self.play_next_song(),
            KeyCode::Left | KeyCode::Char('<') => self.play_previous_song(),
            _ => match self.active_panel {
                PanelFocus::Library => self.handle_library_key(code),
                PanelFocus::Downloader => self.handle_downloader_key(code, now),
            },
        }
    }

    /// Does what a key stands for, and says what is to be done outside. Keys that are let go do
    /// nothing.
    pub fn handle_key(&mut self, key: KeyEvent, now: u128) -> (action: Action)
        requires
            old(self)@.wf(),
            old(self)@.ready_at(now as nat),
            key.kind != KeyEventKind::Release ==> old(self)@.finds_save_dir(key.code),
        ensures
            key.kind == KeyEventKind::Release ==> final(self)@ == old(self)@ && action@
                == ActionView::Idle,
            key.kind != KeyEventKind::Release ==> old(self)@.key_outcome(
                key.code,
                now as nat,
                final(self)@,
                action@,
            ),
            final(self)@.wf(),
    {
        if key.kind == KeyEventKind::Release {
            return Action::Idle;
        }
        let path = match &self.input_mode {
            InputMode::Search => {
                return self.handle_search_key(key.code);
            },
            InputMode::Mkdir => {
                return self.handle_mkdir_key(key.code);
            },
            InputMode::Inactive => {
                return self.handle_command_key(key.code, now);
            },
            InputMode::DeleteConfirm(path) => path.clone(),
        };
        self.handle_confirm_key(path, key.code)
    }
}

} // verus!
