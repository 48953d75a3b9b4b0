//! Laws of the server's interface: where each request goes, what it carries, and how each answer is
//! read.

use vstd::prelude::*;

use crate::action::ApiCall;
use crate::api::{
    api_browse, api_delete, api_download, api_mkdir, api_preview, api_search_yt, delete_reply,
    download_reply, get_server_url, is_success, mkdir_reply, preview_reply, request_for,
    HttpRequest, Payload,
};

verus! {

/// The server's address is the setting, or this machine where there is none, without one slash at
/// its end.
pub proof fn the_address_loses_one_slash(setting: Option<String>, url: String)
    requires
        call_ensures(get_server_url, (setting,), url),
    ensures
        setting is None ==> url@ == "http://localhost:3000"@,
        setting is Some && (setting->0@.len() == 0 || setting->0@.last() != '/') ==> url@
            == setting->0@,
        setting is Some && setting->0@.len() > 0 && setting->0@.last() == '/' ==> url@
            == setting->0@.take(setting->0@.len() - 1),
{
    reveal_strlit("http://localhost:3000");
}

/// A folder is asked for by its path, videos by what is searched for, and the sound of a video by
/// its id: each in a query of its own name.
pub proof fn listings_and_searches_are_queries(
    server: &str,
    text: &str,
    browse: HttpRequest,
    search: HttpRequest,
    preview: HttpRequest,
)
    requires
        call_ensures(api_browse, (server, text), browse),
        call_ensures(api_search_yt, (server, text), search),
        call_ensures(api_preview, (server, text), preview),
    ensures
        browse.url@ == server@ + "/browse"@,
        browse.payload is Query,
        browse.payload->Query_0@ == "path"@,
        browse.payload->Query_1@ == text@,
        search.url@ == server@ + "/search-yt"@,
        search.payload is Query,
        search.payload->Query_0@ == "q"@,
        search.payload->Query_1@ == text@,
        preview.url@ == server@ + "/preview"@,
        preview.payload is Query,
        preview.payload->Query_0@ == "id"@,
        preview.payload->Query_1@ == text@,
{
}

/// Downloads, new folders and deletions are sent in a body of their own kind.
pub proof fn changes_are_sent_in_a_body(
    server: &str,
    text: String,
    folder: Option<String>,
    download: HttpRequest,
    mkdir: HttpRequest,
    delete: HttpRequest,
)
    requires
        call_ensures(api_download, (server, text, folder), download),
        call_ensures(api_mkdir, (server, text), mkdir),
        call_ensures(api_delete, (server, text), delete),
    ensures
        download.url@ == server@ + "/download"@,
        download.payload is Download,
        download.payload->Download_0.url@ == text@,
        folder is None ==> download.payload->Download_0.folder is None,
        folder is Some ==> download.payload->Download_0.folder is Some
            && download.payload->Download_0.folder->0@ == folder->0@,
        mkdir.url@ == server@ + "/mkdir"@,
        mkdir.payload is Mkdir,
        mkdir.payload->Mkdir_0.path@ == text@,
        delete.url@ == server@ + "/delete"@,
        delete.payload is Delete,
        delete.payload->Delete_0.path@ == text@,
{
}

/// The request that a call stands for goes to the call's own place on the server and carries what
/// the call holds. The title of a preview stays here.
pub proof fn a_request_carries_what_the_call_holds(
    server: &str,
    call: &ApiCall,
    request: HttpRequest,
)
    requires
        call_ensures(request_for, (server, call), request),
    ensures
        match (*call, request.payload) {
            (ApiCall::Browse { path }, Payload::Query(name, value)) => {
                &&& request.url@ == server@ + "/browse"@
                &&& name@ == "path"@
                &&& value@ == path@
            },
            (ApiCall::Search { query }, Payload::Query(name, value)) => {
                &&& request.url@ == server@ + "/search-yt"@
                &&& name@ == "q"@
                &&& value@ == query@
            },
            (ApiCall::Preview { title, video_id }, Payload::Query(name, value)) => {
                &&& request.url@ == server@ + "/preview"@
                &&& name@ == "id"@
                &&& value@ == video_id@
            },
            (ApiCall::Download { url, folder }, Payload::Download(body)) => {
                &&& request.url@ == server@ + "/download"@
                &&& body.url@ == url@
                &&& folder is None <==> body.folder is None
                &&& folder is Some ==> body.folder->0@ == folder->0@
            },
            (ApiCall::Mkdir { path }, Payload::Mkdir(body)) => {
                &&& request.url@ == server@ + "/mkdir"@
                &&& body.path@ == path@
            },
            (ApiCall::Delete { path }, Payload::Delete(body)) => {
                &&& request.url@ == server@ + "/delete"@
                &&& body.path@ == path@
            },
            _ => false,
        },
{
}

/// The status codes from 200 to 299 say success, and no others do.
pub proof fn which_codes_say_success(status: u16, success: bool)
    requires
        call_ensures(is_success, (status,), success),
    ensures
        success <==> status / 100 == 2,
{
}

/// A download is answered well by the codes from 200 to 299; otherwise the answer's text says what
/// went wrong, or that this is not known.
pub proof fn how_a_download_is_answered(
    status: u16,
    text: Option<String>,
    reply: Result<String, String>,
)
    requires
        call_ensures(download_reply, (status, text), reply),
    ensures
        status / 100 == 2 ==> reply is Ok && reply->Ok_0@ == "Download completed successfully"@,
        status / 100 != 2 && text is Some ==> reply is Err && reply->Err_0@ == "Download failed: "@
            + text->0@,
        status / 100 != 2 && text is None ==> reply is Err && reply->Err_0@ == "Download failed: "@
            + "Unknown error"@,
{
}

/// A request for sound, for a new folder or for a deletion is answered well by the codes from 200
/// to 299; otherwise the message says what failed.
pub proof fn how_the_other_requests_are_answered(
    status: u16,
    words: &str,
    preview: Result<(), String>,
    mkdir: Result<(), String>,
    delete: Result<(), String>,
)
    requires
        call_ensures(preview_reply, (status, words), preview),
        call_ensures(mkdir_reply, (status,), mkdir),
        call_ensures(delete_reply, (status,), delete),
    ensures
        status / 100 == 2 ==> preview is Ok && mkdir is Ok && delete is Ok,
        status / 100 != 2 ==> {
            &&& preview is Err
            &&& preview->Err_0@ == "Preview request failed with status: "@ + words@
            &&& mkdir is Err
            &&& mkdir->Err_0@ == "Failed to create folder"@
            &&& delete is Err
            &&& delete->Err_0@ == "Failed to delete item"@
        },
{
}

} // verus!
