//! What comes back from the server, and what it does to the player.

use vstd::prelude::*;
use vstd::string::*;

use crate::action::{Action, ActionView};
use crate::app::{App, AppView, MAX_TIME};
use crate::model::{entries, folder_names, list_entries, BrowseResponse, YtResult};
use crate::text::join2;

verus! {

/// The outcome of a request that ran in the background. An error is its message.
#[derive(Debug)]
pub enum BackgroundEvent {
    BrowseResult(Result<BrowseResponse, String>),
    SearchResult(Result<Vec<YtResult>, String>),
    DownloadResult(Result<String, String>),
    MkdirResult(Result<(), String>),
    DeleteResult(Result<(), String>),
    /// The title and the sound.
    PreviewBytesResult(Result<(String, Vec<u8>), String>),
}

/// A selection in a list that was replaced: it stays where it was, or goes to the last entry
/// where the list has become too short. Without one the first entry is selected.
pub open spec fn kept_selection(selected: Option<int>, len: nat) -> Option<int> {
    match selected {
        _ if len == 0 => None,
        Some(i) if i < len => Some(i),
        Some(_) => Some(len - 1),
        None => Some(0),
    }
}

impl AppView {
    /// A folder is shown. The list of top folders follows the top folder.
    pub open spec fn browsed(self, browse: BrowseResponse) -> AppView {
        let items = entries(browse.dirs@, browse.songs@);
        AppView {
            current_path: browse.path@,
            library_items: items,
            library_selected: kept_selection(self.library_selected, items.len()),
            top_dirs: if browse.path@.len() == 0 {
                browse.dirs@
            } else {
                self.top_dirs
            },
            ..self
        }
    }

    /// Search results are shown, the first one selected.
    pub open spec fn found(self, results: Seq<YtResult>) -> AppView {
        AppView {
            yt_results: results,
            downloader_selected: if results.len() == 0 {
                None
            } else {
                Some(0)
            },
            ..self
        }
    }

    pub open spec fn library_loaded(self) -> AppView {
        AppView { library_loading: false, ..self }
    }

    pub open spec fn downloader_loaded(self) -> AppView {
        AppView { downloader_loading: false, ..self }
    }

    /// The folder that is shown is asked for again.
    pub open spec fn refreshed(self) -> (AppView, ActionView) {
        self.browse_step(self.current_path)
    }

    /// What the outcome of a request does.
    pub open spec fn background_step(self, event: BackgroundEvent, now: nat) -> (
        AppView,
        ActionView,
    ) {
        match event {
            BackgroundEvent::BrowseResult(Ok(browse)) => (
                self.library_loaded().browsed(browse),
                ActionView::Idle,
            ),
            BackgroundEvent::BrowseResult(Err(e)) => (
                self.library_loaded().with_status("Browse error: "@ + e@, 5, now),
                ActionView::Idle,
            ),
            BackgroundEvent::SearchResult(Ok(results)) => (
                self.downloader_loaded().found(results@),
                ActionView::Idle,
            ),
            BackgroundEvent::SearchResult(Err(e)) => (
                self.downloader_loaded().with_status("Search error: "@ + e@, 5, now),
                ActionView::Idle,
            ),
            BackgroundEvent::DownloadResult(Ok(message)) => self.downloader_loaded().with_status(
                message@,
                5,
                now,
            ).refreshed(),
            BackgroundEvent::DownloadResult(Err(e)) => (
                self.downloader_loaded().with_status(e@, 6, now),
                ActionView::Idle,
            ),
            BackgroundEvent::MkdirResult(Ok(_)) => self.with_status(
                "Folder created successfully"@,
                4,
                now,
            ).refreshed(),
            BackgroundEvent::MkdirResult(Err(e)) => (
                self.library_loaded().with_status("Mkdir failed: "@ + e@, 5, now),
                ActionView::Idle,
            ),
            BackgroundEvent::DeleteResult(Ok(_)) => self.with_status(
                "Deleted successfully"@,
                4,
                now,
            ).refreshed(),
            BackgroundEvent::DeleteResult(Err(e)) => (
                self.library_loaded().with_status("Delete failed: "@ + e@, 5, now),
                ActionView::Idle,
            ),
            BackgroundEvent::PreviewBytesResult(Ok((title, bytes))) => (
                self.downloader_loaded(),
                ActionView::PlayPreview { title: title@, bytes: bytes@ },
            ),
            BackgroundEvent::PreviewBytesResult(Err(e)) => (
                self.downloader_loaded().with_status("Preview stream error: "@ + e@, 5, now),
                ActionView::Idle,
            ),
        }
    }
}

impl App {
    fn refresh(&mut self) -> (action: Action)
        ensures
            (final(self)@, action@) == old(self)@.refreshed(),
    {
        let path = self.current_path.clone();
        self.trigger_browse(path)
    }

    fn show_folder(&mut self, browse: BrowseResponse)
        ensures
            final(self)@ == old(self)@.browsed(browse),
    {
        self.current_path = browse.path;
        self.library_items = list_entries(browse.dirs, browse.songs);
        if self.current_path.as_str().is_empty() {
            proof {
                crate::model::entries_hold_what_was_listed(browse.dirs@, browse.songs@);
            }
            self.top_dirs = folder_names(&self.library_items);
        }
        let selected: usize = match self.library_selected {
            Some(i) => i,
            None => 0,
        };
        let len: usize = self.library_items.len();
        if len == 0 {
            self.library_selected = None;
        } else if selected < len {
            self.library_selected = Some(selected);
        } else {
            self.library_selected = Some(len - 1);
        }
    }

    fn take_browse(&mut self, res: Result<BrowseResponse, String>, now: u128) -> (action: Action)
        requires
            now <= MAX_TIME,
        ensures
            (final(self)@, action@) == old(self)@.background_step(
                BackgroundEvent::BrowseResult(res),
                now as nat,
            ),
            old(self)@.wf() ==> final(self)@.wf(),
    {
        self.library_loading = false;
        match res {
            Ok(browse) => {
                proof {
                    crate::model::entries_are_sound(browse.dirs@, browse.songs@);
                }
                self.show_folder(browse);
            },
            Err(e) => {
                self.set_status(join2("Browse error: ", e.as_str()), 5, now);
            },
        }
        Action::Idle
    }

    fn take_search(&mut self, res: Result<Vec<YtResult>, String>, now: u128) -> (action: Action)
        requires
            now <= MAX_TIME,
        ensures
            (final(self)@, action@) == old(self)@.background_step(
                BackgroundEvent::SearchResult(res),
                now as nat,
            ),
            old(self)@.wf() ==> final(self)@.wf(),
    {
        self.downloader_loading = false;
        match res {
            Ok(results) => {
                self.downloader_selected = if results.is_empty() {
                    None
                } else {
                    Some(0)
                };
                self.yt_results = results;
            },
            Err(e) => {
                self.set_status(join2("Search error: ", e.as_str()), 5, now);
            },
        }
        Action::Idle
    }

    fn take_download(&mut self, res: Result<String, String>, now: u128) -> (action: Action)
        requires
            now <= MAX_TIME,
        ensures
            (final(self)@, action@) == old(self)@.background_step(
                BackgroundEvent::DownloadResult(res),
                now as nat,
            ),
            old(self)@.wf() ==> final(self)@.wf(),
    {
        self.downloader_loading = false;
        match res {
            Ok(msg) => {
                self.set_status(msg, 5, now);
                self.refresh()
            },
            Err(e) => {
                self.set_status(e, 6, now);
                Action::Idle
            },
        }
    }

    fn take_mkdir(&mut self, res: Result<(), String>, now: u128) -> (action: Action)
        requires
            now <= MAX_TIME,
        ensures
            (final(self)@, action@) == old(self)@.background_step(
                BackgroundEvent::MkdirResult(res),
                now as nat,
            ),
            old(self)@.wf() ==> final(self)@.wf(),
    {
        self.library_loading = false;
        match res {
            Ok(_) => {
                self.set_status("Folder created successfully".to_string(), 4, now);
                self.refresh()
            },
            Err(e) => {
                self.set_status(join2("Mkdir failed: ", e.as_str()), 5, now);
                Action::Idle
            },
        }
    }

    fn take_delete(&mut self, res: Result<(), String>, now: u128) -> (action: Action)
        requires
            now <= MAX_TIME,
        ensures
            (final(self)@, action@) == old(self)@.background_step(
                BackgroundEvent::DeleteResult(res),
                now as nat,
            ),
            old(self)@.wf() ==> final(self)@.wf(),
    {
        self.library_loading = false;
        match res {
            Ok(_) => {
                self.set_status("Deleted successfully".to_string(), 4, now);
                self.refresh()
            },
            Err(e) => {
                self.set_status(join2("Delete failed: ", e.as_str()), 5, now);
                Action::Idle
            },
        }
    }

    fn take_preview(&mut self, res: Result<(String, Vec<u8>), String>, now: u128) -> (action: Action)
        requires
            now <= MAX_TIME,
        ensures
            (final(self)@, action@) == old(self)@.background_step(
                BackgroundEvent::PreviewBytesResult(res),
                now as nat,
            ),
            old(self)@.wf() ==> final(self)@.wf(),
    {
        self.downloader_loading = false;
        match res {
            Ok((title, bytes)) => Action::PlayPreview { title, bytes },
            Err(e) => {
                self.set_status(join2("Preview stream error: ", e.as_str()), 5, now);
                Action::Idle
            },
        }
    }

    /// Takes in the outcome of a request, and says what is to be done outside.
    pub fn handle_background(&mut self, event: BackgroundEvent, now: u128) -> (action: Action)
        requires
            now <= MAX_TIME,
        ensures
            (final(self)@, action@) == old(self)@.background_step(event, now as nat),
            old(self)@.wf() ==> final(self)@.wf(),
    {
        match event {
            BackgroundEvent::BrowseResult(res) => self.take_browse(res, now),
            BackgroundEvent::SearchResult(res) => self.take_search(res, now),
            BackgroundEvent::DownloadResult(res) => self.take_download(res, now),
            BackgroundEvent::MkdirResult(res) => self.take_mkdir(res, now),
            BackgroundEvent::DeleteResult(res) => self.take_delete(res, now),
            BackgroundEvent::PreviewBytesResult(res) => self.take_preview(res, now),
        }
    }
}

} // verus!
