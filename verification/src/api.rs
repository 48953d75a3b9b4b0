//! The server's interface: where it is, what is sent to it, and how its answers are read.

use vstd::prelude::*;
use vstd::string::*;

use crate::action::{text_view, ApiCall, ApiCallView};
use crate::text::join2;

verus! {

/// An address without the slash at its end.
pub open spec fn without_slash(url: Seq<char>) -> Seq<char> {
    if url.len() > 0 && url.last() == '/' {
        url.drop_last()
    } else {
        url
    }
}

/// The address of the server: the setting, or this machine where there is none; one slash at the
/// end is left out.
pub fn get_server_url(setting: Option<String>) -> (url: String)
    ensures
        url@ == without_slash(
            match setting {
                Some(url) => url@,
                None => "http://localhost:3000"@,
            },
        ),
{
    let mut url = match setting {
        Some(url) => url,
        None => "http://localhost:3000".to_string(),
    };
    let len: usize = url.as_str().unicode_len();
    if len > 0 && url.as_str().get_char(len - 1) == '/' {
        let _ = url.pop();
    }
    url
}

/// The body of a download request.
#[derive(Debug, PartialEq)]
pub struct DownloadRequest {
    pub url: String,
    pub folder: Option<String>,
}

/// The body of a request for a new folder.
#[derive(Debug, PartialEq)]
pub struct MkdirRequest {
    pub path: String,
}

/// The body of a delete request.
#[derive(Debug, PartialEq)]
pub struct DeleteRequest {
    pub path: String,
}

/// What a request carries.
#[derive(Debug, PartialEq)]
pub enum Payload {
    /// A query parameter: its name and its value. The request is a GET.
    Query(String, String),
    /// A body in JSON. The request is a POST.
    Download(DownloadRequest),
    Mkdir(MkdirRequest),
    Delete(DeleteRequest),
}

/// A request: where it goes and what it carries.
#[derive(Debug, PartialEq)]
pub struct HttpRequest {
    pub url: String,
    pub payload: Payload,
}

/// `Payload`, its texts as sequences of characters.
pub enum PayloadView {
    Query(Seq<char>, Seq<char>),
    Download { url: Seq<char>, folder: Option<Seq<char>> },
    Mkdir { path: Seq<char> },
    Delete { path: Seq<char> },
}

/// `HttpRequest`, its texts as sequences of characters.
pub struct HttpRequestView {
    pub url: Seq<char>,
    pub payload: PayloadView,
}

impl View for Payload {
    type V = PayloadView;

    open spec fn view(&self) -> PayloadView {
        match self {
            Payload::Query(name, value) => PayloadView::Query(name@, value@),
            Payload::Download(request) => PayloadView::Download {
                url: request.url@,
                folder: text_view(request.folder),
            },
            Payload::Mkdir(request) => PayloadView::Mkdir { path: request.path@ },
            Payload::Delete(request) => PayloadView::Delete { path: request.path@ },
        }
    }
}

impl View for HttpRequest {
    type V = HttpRequestView;

    open spec fn view(&self) -> HttpRequestView {
        HttpRequestView { url: self.url@, payload: self.payload@ }
    }
}

/// Asks for what is in a folder.
pub fn api_browse(server: &str, path: &str) -> (request: HttpRequest)
    ensures
        request@ == (HttpRequestView {
            url: server@ + "/browse"@,
            payload: PayloadView::Query("path"@, path@),
        }),
{
    HttpRequest {
        url: join2(server, "/browse"),
        payload: Payload::Query("path".to_string(), path.to_string()),
    }
}

/// Asks for videos.
pub fn api_search_yt(server: &str, q: &str) -> (request: HttpRequest)
    ensures
        request@ == (HttpRequestView {
            url: server@ + "/search-yt"@,
            payload: PayloadView::Query("q"@, q@),
        }),
{
    HttpRequest {
        url: join2(server, "/search-yt"),
        payload: Payload::Query("q".to_string(), q.to_string()),
    }
}

/// Asks for a download.
pub fn api_download(server: &str, url: String, folder: Option<String>) -> (request: HttpRequest)
    ensures
        request@ == (HttpRequestView {
            url: server@ + "/download"@,
            payload: PayloadView::Download { url: url@, folder: text_view(folder) },
        }),
{
    HttpRequest {
        url: join2(server, "/download"),
        payload: Payload::Download(DownloadRequest { url, folder }),
    }
}

/// Asks for the sound of a video.
pub fn api_preview(server: &str, video_id: &str) -> (request: HttpRequest)
    ensures
        request@ == (HttpRequestView {
            url: server@ + "/preview"@,
            payload: PayloadView::Query("id"@, video_id@),
        }),
{
    HttpRequest {
        url: join2(server, "/preview"),
        payload: Payload::Query("id".to_string(), video_id.to_string()),
    }
}

/// Asks for a new folder.
pub fn api_mkdir(server: &str, path: String) -> (request: HttpRequest)
    ensures
        request@ == (HttpRequestView {
            url: server@ + "/mkdir"@,
            payload: PayloadView::Mkdir { path: path@ },
        }),
{
    HttpRequest { url: join2(server, "/mkdir"), payload: Payload::Mkdir(MkdirRequest { path }) }
}

/// Asks to delete a song or a folder.
pub fn api_delete(server: &str, path: String) -> (request: HttpRequest)
    ensures
        request@ == (HttpRequestView {
            url: server@ + "/delete"@,
            payload: PayloadView::Delete { path: path@ },
        }),
{
    HttpRequest { url: join2(server, "/delete"), payload: Payload::Delete(DeleteRequest { path }) }
}

/// The request that a call stands for.
pub open spec fn request_of(server: Seq<char>, call: ApiCallView) -> HttpRequestView {
    match call {
        ApiCallView::Browse { path } => HttpRequestView {
            url: server + "/browse"@,
            payload: PayloadView::Query("path"@, path),
        },
        ApiCallView::Search { query } => HttpRequestView {
            url: server + "/search-yt"@,
            payload: PayloadView::Query("q"@, query),
        },
        ApiCallView::Download { url, folder } => HttpRequestView {
            url: server + "/download"@,
            payload: PayloadView::Download { url, folder },
        },
        ApiCallView::Preview { title, video_id } => HttpRequestView {
            url: server + "/preview"@,
            payload: PayloadView::Query("id"@, video_id),
        },
        ApiCallView::Mkdir { path } => HttpRequestView {
            url: server + "/mkdir"@,
            payload: PayloadView::Mkdir { path },
        },
        ApiCallView::Delete { path } => HttpRequestView {
            url: server + "/delete"@,
            payload: PayloadView::Delete { path },
        },
    }
}

/// The request that a call stands for.
pub fn request_for(server: &str, call: &ApiCall) -> (request: HttpRequest)
    ensures
        request@ == request_of(server@, call@),
{
    match call {
        ApiCall::Browse { path } => api_browse(server, path.as_str()),
        ApiCall::Search { query } => api_search_yt(server, query.as_str()),
        ApiCall::Download { url, folder } => {
            let folder = match folder {
                Some(folder) => Some(folder.clone()),
                None => None,
            };
            api_download(server, url.clone(), folder)
        },
        ApiCall::Preview { title: _, video_id } => api_preview(server, video_id.as_str()),
        ApiCall::Mkdir { path } => api_mkdir(server, path.clone()),
        ApiCall::Delete { path } => api_delete(server, path.clone()),
    }
}

/// The status codes that say success.
pub open spec fn says_success(status: u16) -> bool {
    200 <= status < 300
}

/// Whether a status code says success.
pub fn is_success(status: u16) -> (success: bool)
    ensures
        success == says_success(status),
{
    200 <= status && status < 300
}

/// Reads the answer to a download request: its status code and, where that says no success, its
/// text if that could be read.
pub fn download_reply(status: u16, text: Option<String>) -> (reply: Result<String, String>)
    ensures
        says_success(status) <==> reply is Ok,
        reply matches Ok(message) ==> message@ == "Download completed successfully"@,
        reply matches Err(e) ==> e@ == "Download failed: "@ + match text {
            Some(text) => text@,
            None => "Unknown error"@,
        },
{
    if is_success(status) {
        Ok("Download completed successfully".to_string())
    } else {
        match text {
            Some(text) => Err(join2("Download failed: ", text.as_str())),
            None => Err(join2("Download failed: ", "Unknown error")),
        }
    }
}

/// Reads the head of the answer to a preview request: its status code, and the same in words. Only
/// after a success does the sound follow.
pub fn preview_reply(status: u16, status_text: &str) -> (reply: Result<(), String>)
    ensures
        says_success(status) <==> reply is Ok,
        reply matches Err(e) ==> e@ == "Preview request failed with status: "@ + status_text@,
{
    if is_success(status) {
        Ok(())
    } else {
        Err(join2("Preview request failed with status: ", status_text))
    }
}

/// Reads the answer to a request for a new folder.
pub fn mkdir_reply(status: u16) -> (reply: Result<(), String>)
    ensures
        says_success(status) <==> reply is Ok,
        reply matches Err(e) ==> e@ == "Failed to create folder"@,
{
    if is_success(status) {
        Ok(())
    } else {
        Err("Failed to create folder".to_string())
    }
}

/// Reads the answer to a delete request.
pub fn delete_reply(status: u16) -> (reply: Result<(), String>)
    ensures
        says_success(status) <==> reply is Ok,
        reply matches Err(e) ==> e@ == "Failed to delete item"@,
{
    if is_success(status) {
        Ok(())
    } else {
        Err("Failed to delete item".to_string())
    }
}

} // verus!
