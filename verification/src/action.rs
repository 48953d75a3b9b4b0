//! What the player asks of the world outside: sound, requests to the server, the end of the
//! program.

use vstd::prelude::*;

use crate::model::Song;

verus! {

/// A request to the server; what comes back is a `BackgroundEvent`.
#[derive(Debug, PartialEq)]
pub enum ApiCall {
    Browse { path: String },
    Search { query: String },
    Download { url: String, folder: Option<String> },
    Preview { title: String, video_id: String },
    Mkdir { path: String },
    Delete { path: String },
}

/// `ApiCall`, its texts as sequences of characters.
pub enum ApiCallView {
    Browse { path: Seq<char> },
    Search { query: Seq<char> },
    Download { url: Seq<char>, folder: Option<Seq<char>> },
    Preview { title: Seq<char>, video_id: Seq<char> },
    Mkdir { path: Seq<char> },
    Delete { path: Seq<char> },
}

/// An optional text as an optional sequence of characters.
pub open spec fn text_view(text: Option<String>) -> Option<Seq<char>> {
    match text {
        Some(text) => Some(text@),
        None => None,
    }
}

impl View for ApiCall {
    type V = ApiCallView;

    open spec fn view(&self) -> ApiCallView {
        match self {
            ApiCall::Browse { path } => ApiCallView::Browse { path: path@ },
            ApiCall::Search { query } => ApiCallView::Search { query: query@ },
            ApiCall::Download { url, folder } => ApiCallView::Download {
                url: url@,
                folder: text_view(*folder),
            },
            ApiCall::Preview { title, video_id } => ApiCallView::Preview {
                title: title@,
                video_id: video_id@,
            },
            ApiCall::Mkdir { path } => ApiCallView::Mkdir { path: path@ },
            ApiCall::Delete { path } => ApiCallView::Delete { path: path@ },
        }
    }
}

/// On whose behalf a song is started; it decides what a failure leads to.
#[derive(Debug, Clone, Copy, PartialEq, Eq, Structural)]
pub enum PlayRequest {
    Next,
    Previous,
    Library,
}

/// What is to be done outside.
#[derive(Debug, PartialEq)]
pub enum Action {
    /// Nothing.
    Idle,
    /// Leave the program.
    Quit,
    /// Stop the sound and drop what is queued for it.
    StopSink,
    PauseSink,
    ResumeSink,
    /// Stop the sound, open the song's file and play it; then call `finish_song`.
    PlaySong { request: PlayRequest, song: Song },
    /// Stop the sound and play these bytes; then call `finish_preview`.
    PlayPreview { title: String, bytes: Vec<u8> },
    /// Send a request in the background.
    Call(ApiCall),
}

/// `Action`, its texts as sequences of characters.
pub enum ActionView {
    Idle,
    Quit,
    StopSink,
    PauseSink,
    ResumeSink,
    PlaySong { request: PlayRequest, song: Song },
    PlayPreview { title: Seq<char>, bytes: Seq<u8> },
    Call(ApiCallView),
}

impl View for Action {
    type V = ActionView;

    open spec fn view(&self) -> ActionView {
        match self {
            Action::Idle => ActionView::Idle,
            Action::Quit => ActionView::Quit,
            Action::StopSink => ActionView::StopSink,
            Action::PauseSink => ActionView::PauseSink,
            Action::ResumeSink => ActionView::ResumeSink,
            Action::PlaySong { request, song } => ActionView::PlaySong {
                request: *request,
                song: *song,
            },
            Action::PlayPreview { title, bytes } => ActionView::PlayPreview {
                title: title@,
                bytes: bytes@,
            },
            Action::Call(call) => ActionView::Call(call@),
        }
    }
}

} // verus!
