use mustream::action::ApiCall;
use mustream::api::{
    api_browse, api_delete, api_download, api_mkdir, api_preview, api_search_yt, delete_reply,
    download_reply, get_server_url, is_success, mkdir_reply, preview_reply, request_for, DeleteRequest, DownloadRequest,
    MkdirRequest, Payload,
};

const SERVER: &str = "http://host:1";

#[test]
fn the_server_is_this_machine_unless_set() {
    assert_eq!(get_server_url(None), "http://localhost:3000");
    assert_eq!(get_server_url(Some("http://a".to_string())), "http://a");
}

#[test]
fn one_slash_at_the_end_is_left_out() {
    assert_eq!(get_server_url(Some("http://a/".to_string())), "http://a");
    assert_eq!(get_server_url(Some("http://a//".to_string())), "http://a/");
    assert_eq!(get_server_url(Some("/".to_string())), "");
    assert_eq!(get_server_url(Some(String::new())), "");
}

#[test]
fn reading_requests_carry_one_parameter() {
    let r = api_browse(SERVER, "a/b");
    assert_eq!(r.url, "http://host:1/browse");
    assert_eq!(r.payload, Payload::Query("path".to_string(), "a/b".to_string()));
    let r = api_search_yt(SERVER, "x y");
    assert_eq!(r.url, "http://host:1/search-yt");
    assert_eq!(r.payload, Payload::Query("q".to_string(), "x y".to_string()));
    let r = api_preview(SERVER, "id1");
    assert_eq!(r.url, "http://host:1/preview");
    assert_eq!(r.payload, Payload::Query("id".to_string(), "id1".to_string()));
}

#[test]
fn changing_requests_carry_a_body() {
    let r = api_download(SERVER, "u".to_string(), Some("Jazz".to_string()));
    assert_eq!(r.url, "http://host:1/download");
    let body = DownloadRequest { url: "u".to_string(), folder: Some("Jazz".to_string()) };
    assert_eq!(r.payload, Payload::Download(body));
    let r = api_mkdir(SERVER, "p".to_string());
    assert_eq!(r.url, "http://host:1/mkdir");
    assert_eq!(r.payload, Payload::Mkdir(MkdirRequest { path: "p".to_string() }));
    let r = api_delete(SERVER, "p".to_string());
    assert_eq!(r.url, "http://host:1/delete");
    assert_eq!(r.payload, Payload::Delete(DeleteRequest { path: "p".to_string() }));
}

#[test]
fn answers_are_read() {
    assert_eq!(download_reply(200, None), Ok("Download completed successfully".to_string()));
    assert_eq!(
        download_reply(507, Some("no space".to_string())),
        Err("Download failed: no space".to_string())
    );
    assert_eq!(download_reply(500, None), Err("Download failed: Unknown error".to_string()));
    assert_eq!(preview_reply(206, "206 Partial Content"), Ok(()));
    assert_eq!(
        preview_reply(404, "404 Not Found"),
        Err("Preview request failed with status: 404 Not Found".to_string())
    );
    assert_eq!(mkdir_reply(201), Ok(()));
    assert_eq!(mkdir_reply(409), Err("Failed to create folder".to_string()));
    assert_eq!(delete_reply(299), Ok(()));
    assert_eq!(delete_reply(300), Err("Failed to delete item".to_string()));
}

#[test]
fn success_is_what_the_client_calls_success() {
    for code in 100..1000_u16 {
        let status = reqwest::StatusCode::from_u16(code).unwrap();
        assert_eq!(is_success(code), status.is_success());
    }
}

#[test]
fn calls_become_requests() {
    let path = || "p".to_string();
    let call = ApiCall::Browse { path: path() };
    assert_eq!(request_for(SERVER, &call), api_browse(SERVER, "p"));
    let call = ApiCall::Search { query: path() };
    assert_eq!(request_for(SERVER, &call), api_search_yt(SERVER, "p"));
    let call = ApiCall::Download { url: path(), folder: Some(path()) };
    assert_eq!(request_for(SERVER, &call), api_download(SERVER, path(), Some(path())));
    let call = ApiCall::Preview { title: "t".to_string(), video_id: path() };
    assert_eq!(request_for(SERVER, &call), api_preview(SERVER, "p"));
    let call = ApiCall::Mkdir { path: path() };
    assert_eq!(request_for(SERVER, &call), api_mkdir(SERVER, path()));
    let call = ApiCall::Delete { path: path() };
    assert_eq!(request_for(SERVER, &call), api_delete(SERVER, path()));
}
