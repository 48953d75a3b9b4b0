//! Laws of the answers from the server: what each of them does to the player, and what it leaves
//! alone.

use vstd::prelude::*;

use crate::action::{Action, ActionView, ApiCallView};
use crate::app::{App, AppView};
use crate::background::BackgroundEvent;
use crate::model::{BrowseResponse, YtResult};

verus! {

/// A listing that came back is shown: the folder's path, its folders and behind them its songs. The
/// wait of the library is over. The selection stays where it was as far as the list reaches; where
/// there was none the first entry is selected. The top folders follow the top folder alone.
pub proof fn a_listing_is_shown(
    app: &mut App,
    browse: BrowseResponse,
    now: u128,
    action: Action,
)
    requires
        call_ensures(
            App::handle_background,
            (app, BackgroundEvent::BrowseResult(Ok(browse)), now),
            action,
        ),
    ensures
        action@ is Idle,
        final(app)@ == (AppView {
            current_path: browse.path@,
            library_items: final(app)@.library_items,
            library_selected: final(app)@.library_selected,
            top_dirs: if browse.path@.len() == 0 {
                browse.dirs@
            } else {
                old(app)@.top_dirs
            },
            library_loading: false,
            ..old(app)@
        }),
        ({
            let (items, dirs, songs) = (final(app)@.library_items, browse.dirs@, browse.songs@);
            let (before, after) = (old(app)@.library_selected, final(app)@.library_selected);
            &&& items.len() == dirs.len() + songs.len()
            &&& forall|i: int|
                0 <= i < dirs.len() ==> {
                    &&& (#[trigger] items[i]).name == dirs[i]
                    &&& items[i].is_dir
                    &&& items[i].song is None
                }
            &&& forall|i: int|
                dirs.len() <= i < items.len() ==> {
                    &&& (#[trigger] items[i]).name == songs[i - dirs.len()].title
                    &&& !items[i].is_dir
                    &&& items[i].song == Some(songs[i - dirs.len()])
                }
            &&& items.len() == 0 ==> after is None
            &&& items.len() > 0 && before is None ==> after == Some(0int)
            &&& before is Some && 0 <= before->0 < items.len() ==> after == before
            &&& items.len() > 0 && before is Some && before->0 >= items.len() ==> after == Some(
                items.len() - 1,
            )
        }),
{
}

/// A listing that failed leaves a message for five seconds and ends the wait of the library; what
/// is shown stays.
pub proof fn a_failed_listing_changes_nothing_shown(
    app: &mut App,
    e: String,
    now: u128,
    action: Action,
)
    requires
        call_ensures(
            App::handle_background,
            (app, BackgroundEvent::BrowseResult(Err(e)), now),
            action,
        ),
    ensures
        action@ is Idle,
        final(app)@ == (AppView {
            library_loading: false,
            status_message: Some("Browse error: "@ + e@),
            status_expiry: Some((now + 5_000_000_000) as nat),
            ..old(app)@
        }),
{
}

/// What a search found replaces the results before, in the order of the answer, with the first one
/// selected where there is one. The wait of the downloader is over.
pub proof fn what_was_found_is_shown(
    app: &mut App,
    results: Vec<YtResult>,
    now: u128,
    action: Action,
)
    requires
        call_ensures(
            App::handle_background,
            (app, BackgroundEvent::SearchResult(Ok(results)), now),
            action,
        ),
    ensures
        action@ is Idle,
        results@.len() > 0 ==> final(app)@ == (AppView {
            yt_results: results@,
            downloader_selected: Some(0),
            downloader_loading: false,
            ..old(app)@
        }),
        results@.len() == 0 ==> final(app)@ == (AppView {
            yt_results: Seq::empty(),
            downloader_selected: None,
            downloader_loading: false,
            ..old(app)@
        }),
{
}

/// A search that failed leaves a message for five seconds and ends the wait of the downloader; the
/// results before stay.
pub proof fn a_failed_search_keeps_the_results(
    app: &mut App,
    e: String,
    now: u128,
    action: Action,
)
    requires
        call_ensures(
            App::handle_background,
            (app, BackgroundEvent::SearchResult(Err(e)), now),
            action,
        ),
    ensures
        action@ is Idle,
        final(app)@ == (AppView {
            downloader_loading: false,
            status_message: Some("Search error: "@ + e@),
            status_expiry: Some((now + 5_000_000_000) as nat),
            ..old(app)@
        }),
{
}

/// After a download the folder that is shown is asked for again, and the answer's message is shown
/// for five seconds; where it failed the message is shown for six, and nothing is asked for.
pub proof fn what_a_download_leads_to(
    app: &mut App,
    result: Result<String, String>,
    now: u128,
    action: Action,
)
    requires
        call_ensures(
            App::handle_background,
            (app, BackgroundEvent::DownloadResult(result), now),
            action,
        ),
    ensures
        result is Ok ==> {
            &&& action@ == ActionView::Call(ApiCallView::Browse { path: old(app)@.current_path })
            &&& final(app)@ == (AppView {
                downloader_loading: false,
                library_loading: true,
                status_message: Some(result->Ok_0@),
                status_expiry: Some((now + 5_000_000_000) as nat),
                ..old(app)@
            })
        },
        result is Err ==> {
            &&& action@ is Idle
            &&& final(app)@ == (AppView {
                downloader_loading: false,
                status_message: Some(result->Err_0@),
                status_expiry: Some((now + 6_000_000_000) as nat),
                ..old(app)@
            })
        },
{
}

/// After a new folder was made the folder that is shown is asked for again, and a message says so
/// for four seconds; where it failed a message says so for five, and the wait is over.
pub proof fn what_a_new_folder_leads_to(
    app: &mut App,
    result: Result<(), String>,
    now: u128,
    action: Action,
)
    requires
        call_ensures(
            App::handle_background,
            (app, BackgroundEvent::MkdirResult(result), now),
            action,
        ),
    ensures
        result is Ok ==> {
            &&& action@ == ActionView::Call(ApiCallView::Browse { path: old(app)@.current_path })
            &&& final(app)@ == (AppView {
                library_loading: true,
                status_message: Some("Folder created successfully"@),
                status_expiry: Some((now + 4_000_000_000) as nat),
                ..old(app)@
            })
        },
        result is Err ==> {
            &&& action@ is Idle
            &&& final(app)@ == (AppView {
                library_loading: false,
                status_message: Some("Mkdir failed: "@ + result->Err_0@),
                status_expiry: Some((now + 5_000_000_000) as nat),
                ..old(app)@
            })
        },
{
}

/// After something was deleted the folder that is shown is asked for again, and a message says so
/// for four seconds; where it failed a message says so for five, and the wait is over.
pub proof fn what_a_deletion_leads_to(
    app: &mut App,
    result: Result<(), String>,
    now: u128,
    action: Action,
)
    requires
        call_ensures(
            App::handle_background,
            (app, BackgroundEvent::DeleteResult(result), now),
            action,
        ),
    ensures
        result is Ok ==> {
            &&& action@ == ActionView::Call(ApiCallView::Browse { path: old(app)@.current_path })
            &&& final(app)@ == (AppView {
                library_loading: true,
                status_message: Some("Deleted successfully"@),
                status_expiry: Some((now + 4_000_000_000) as nat),
                ..old(app)@
            })
        },
        result is Err ==> {
            &&& action@ is Idle
            &&& final(app)@ == (AppView {
                library_loading: false,
                status_message: Some("Delete failed: "@ + result->Err_0@),
                status_expiry: Some((now + 5_000_000_000) as nat),
                ..old(app)@
            })
        },
{
}

/// The sound of a video that came back is played under the title that came with it; where it
/// failed a message says so for five seconds. The wait of the downloader is over either way.
pub proof fn what_the_sound_of_a_video_leads_to(
    app: &mut App,
    result: Result<(String, Vec<u8>), String>,
    now: u128,
    action: Action,
)
    requires
        call_ensures(
            App::handle_background,
            (app, BackgroundEvent::PreviewBytesResult(result), now),
            action,
        ),
    ensures
        result is Ok ==> {
            &&& action@ == (ActionView::PlayPreview {
                title: result->Ok_0.0@,
                bytes: result->Ok_0.1@,
            })
            &&& final(app)@ == (AppView { downloader_loading: false, ..old(app)@ })
        },
        result is Err ==> {
            &&& action@ is Idle
            &&& final(app)@ == (AppView {
                downloader_loading: false,
                status_message: Some("Preview stream error: "@ + result->Err_0@),
                status_expiry: Some((now + 5_000_000_000) as nat),
                ..old(app)@
            })
        },
{
}

} // verus!
