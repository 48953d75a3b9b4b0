//! Laws of the lists: which entries a folder has, which songs a queue is made of, in which order,
//! and where it starts.

use vstd::prelude::*;
use vstd::seq_lib::*;

use crate::action::{Action, ActionView, PlayRequest};
use crate::app::{App, AppView};
use crate::model::{
    collect_songs, dirs_of, folder_names, lemma_song_from, lemma_songs_of_contains, list_entries,
    songs_of, LibraryItem, Song,
};
use crate::queue::{position_of, shuffling_keeps_the_songs};

verus! {

proof fn lemma_filter_last(items: Seq<LibraryItem>, pred: spec_fn(LibraryItem) -> bool)
    requires
        items.len() > 0,
    ensures
        items.filter(pred) == if pred(items.last()) {
            items.drop_last().filter(pred).push(items.last())
        } else {
            items.drop_last().filter(pred)
        },
{
    reveal(Seq::filter);
}

/// The songs of some entries are what is left of them without the folders, in the same order.
pub proof fn songs_keep_their_order(items: Seq<LibraryItem>)
    ensures
        songs_of(items) == items.filter(|item: LibraryItem| item.song is Some).map_values(
            |item: LibraryItem| item.song->0,
        ),
    decreases items.len(),
{
    let pred = |item: LibraryItem| item.song is Some;
    let song = |item: LibraryItem| item.song->0;
    if items.len() > 0 {
        songs_keep_their_order(items.drop_last());
        lemma_filter_last(items, pred);
        let rest = items.drop_last().filter(pred);
        if pred(items.last()) {
            assert(rest.push(items.last()).map_values(song) =~= rest.map_values(song).push(
                song(items.last()),
            ));
        }
    } else {
        reveal(Seq::filter);
        assert(items.filter(pred).map_values(song) =~= Seq::empty());
    }
}

/// The folder names of some entries are the names of those that are folders, in the same order.
pub proof fn folders_keep_their_order(items: Seq<LibraryItem>)
    ensures
        dirs_of(items) == items.filter(|item: LibraryItem| item.is_dir).map_values(
            |item: LibraryItem| item.name,
        ),
    decreases items.len(),
{
    let pred = |item: LibraryItem| item.is_dir;
    let name = |item: LibraryItem| item.name;
    if items.len() > 0 {
        folders_keep_their_order(items.drop_last());
        lemma_filter_last(items, pred);
        let rest = items.drop_last().filter(pred);
        if pred(items.last()) {
            assert(rest.push(items.last()).map_values(name) =~= rest.map_values(name).push(
                name(items.last()),
            ));
        }
    } else {
        reveal(Seq::filter);
        assert(items.filter(pred).map_values(name) =~= Seq::empty());
    }
}

/// The songs collected from some entries are what is left of them without the folders, in the same
/// order; the folder names are the names of those that are folders.
pub proof fn collecting_keeps_the_order(
    items: &Vec<LibraryItem>,
    songs: Vec<Song>,
    names: Vec<String>,
)
    requires
        call_ensures(collect_songs, (items,), songs),
        call_ensures(folder_names, (items,), names),
    ensures
        songs@ == items@.filter(|item: LibraryItem| item.song is Some).map_values(
            |item: LibraryItem| item.song->0,
        ),
        names@ == items@.filter(|item: LibraryItem| item.is_dir).map_values(
            |item: LibraryItem| item.name,
        ),
{
    songs_keep_their_order(items@);
    folders_keep_their_order(items@);
}

/// A folder is listed with its folders first and its songs behind them, each in the order given. A
/// song's entry has its title for a name.
pub proof fn folders_are_listed_before_songs(
    dirs: Vec<String>,
    songs: Vec<Song>,
    items: Vec<LibraryItem>,
)
    requires
        call_ensures(list_entries, (dirs, songs), items),
    ensures
        items@.len() == dirs@.len() + songs@.len(),
        forall|i: int|
            0 <= i < dirs@.len() ==> {
                &&& (#[trigger] items@[i]).name == dirs@[i]
                &&& items@[i].is_dir
                &&& items@[i].song is None
            },
        forall|i: int|
            dirs@.len() <= i < dirs@.len() + songs@.len() ==> {
                &&& (#[trigger] items@[i]).name == songs@[i - dirs@.len()].title
                &&& !items@[i].is_dir
                &&& items@[i].song == Some(songs@[i - dirs@.len()])
            },
{
}

/// A song is found at the first place that has its id.
pub proof fn the_first_song_with_the_id_is_found(songs: &Vec<Song>, id: i64, at: usize)
    requires
        call_ensures(position_of, (songs, id), at),
    ensures
        at <= songs@.len(),
        forall|i: int| 0 <= i < at ==> (#[trigger] songs@[i]).id != id,
        at < songs@.len() ==> songs@[at as int].id == id,
{
    lemma_song_from(songs@, id, 0);
}

/// The song of an entry stands among the songs behind those of the entries before it.
proof fn lemma_song_place(items: Seq<LibraryItem>, i: int)
    requires
        0 <= i < items.len(),
        items[i].song is Some,
    ensures
        0 <= songs_of(items.take(i)).len() < songs_of(items).len(),
        songs_of(items)[songs_of(items.take(i)).len() as int] == items[i].song->0,
    decreases items.len(),
{
    if i == items.len() - 1 {
        assert(items.take(i) =~= items.drop_last());
    } else {
        lemma_song_place(items.drop_last(), i);
        assert(items.drop_last().take(i) =~= items.take(i));
    }
}

/// Without shuffle the queue is the library's songs in their order, whatever is repeated, and it
/// starts with the first song that has the id of the chosen one. Where no two songs share an id,
/// its place is the number of songs above it in the library.
pub proof fn a_queue_follows_the_library(app: AppView, i: int, post: AppView, action: ActionView)
    requires
        0 <= i < app.library_items.len(),
        app.library_items[i].song is Some,
        !app.is_shuffling,
        app.queue_started(i, post, action),
    ensures
        post.queue == app.library_items.filter(|item: LibraryItem| item.song is Some).map_values(
            |item: LibraryItem| item.song->0,
        ),
        post == (AppView { queue: post.queue, queue_idx: post.queue_idx, ..app }),
        0 <= post.queue_idx < post.queue.len(),
        post.queue[post.queue_idx].id == app.library_items[i].song->0.id,
        forall|j: int|
            0 <= j < post.queue_idx ==> (#[trigger] post.queue[j]).id
                != app.library_items[i].song->0.id,
        action == (ActionView::PlaySong {
            request: PlayRequest::Library,
            song: post.queue[post.queue_idx],
        }),
        (forall|j: int, k: int|
            0 <= j < k < post.queue.len() ==> (#[trigger] post.queue[j]).id != (
            #[trigger] post.queue[k]).id) ==> {
            &&& post.queue_idx == app.library_items.take(i).filter(
                |item: LibraryItem| item.song is Some,
            ).len()
            &&& post.queue[post.queue_idx] == app.library_items[i].song->0
        },
{
    let items = app.library_items;
    songs_keep_their_order(items);
    songs_keep_their_order(items.take(i));
    lemma_songs_of_contains(items, i);
    lemma_song_from(songs_of(items), items[i].song->0.id, 0);
    lemma_song_place(items, i);
    let at = songs_of(items.take(i)).len() as int;
    assert(post.queue[at].id == items[i].song->0.id);
}

/// With shuffle the queue starts with the first song that has the id of the chosen one, which is
/// asked for, and holds all songs of the library, each as often as the library does.
pub proof fn a_shuffled_queue_holds_the_library(
    app: AppView,
    i: int,
    post: AppView,
    action: ActionView,
)
    requires
        0 <= i < app.library_items.len(),
        app.library_items[i].song is Some,
        app.is_shuffling,
        app.queue_started(i, post, action),
    ensures
        post == (AppView { queue: post.queue, queue_idx: 0, ..app }),
        post.queue.len() > 0,
        post.queue.to_multiset() == app.library_items.filter(
            |item: LibraryItem| item.song is Some,
        ).map_values(|item: LibraryItem| item.song->0).to_multiset(),
        post.queue[0].id == app.library_items[i].song->0.id,
        forall|k: int|
            0 <= k < app.library_items.len() && (#[trigger] app.library_items[k]).song is Some
                && app.library_items[k].song->0.id == post.queue[0].id && (forall|j: int|
                0 <= j < k && (#[trigger] app.library_items[j]).song is Some
                    ==> app.library_items[j].song->0.id != post.queue[0].id) ==> post.queue[0]
                == app.library_items[k].song->0,
        action == (ActionView::PlaySong { request: PlayRequest::Library, song: post.queue[0] }),
        (forall|j: int, k: int|
            0 <= j < k < post.queue.len() ==> (#[trigger] post.queue[j]).id != (
            #[trigger] post.queue[k]).id) ==> post.queue[0] == app.library_items[i].song->0,
{
    broadcast use group_to_multiset_ensures;

    let items = app.library_items;
    let songs = songs_of(items);
    songs_keep_their_order(items);
    lemma_songs_of_contains(items, i);
    lemma_song_from(songs, items[i].song->0.id, 0);
    let chosen = app.chosen_song(i);
    shuffling_keeps_the_songs(songs, chosen, post.queue);
    let k = choose|k: int| 0 <= k < songs.len() && songs[k] == items[i].song->0;
    assert(songs.contains(songs[k]));
    assert(songs.to_multiset().count(songs[k]) > 0);
    assert(post.queue.contains(songs[k]));
    let m = choose|m: int| 0 <= m < post.queue.len() && post.queue[m] == songs[k];
    if m != 0 {
        assert(post.queue[0].id == post.queue[m].id);
    }
    assert forall|k: int|
        0 <= k < items.len() && (#[trigger] items[k]).song is Some && items[k].song->0.id
            == post.queue[0].id && (forall|j: int|
            0 <= j < k && (#[trigger] items[j]).song is Some ==> items[j].song->0.id
                != post.queue[0].id) implies post.queue[0] == items[k].song->0 by {
        lemma_song_place(items, k);
        let at = songs_of(items.take(k)).len() as int;
        lemma_songs_before(items, k, post.queue[0].id);
        if chosen < at {
            assert(songs[chosen] == songs_of(items.take(k))[chosen]);
        }
        assert(chosen == at);
    }
}

/// The songs before an entry's are those of the entries before it.
proof fn lemma_songs_before(items: Seq<LibraryItem>, i: int, id: i64)
    requires
        0 <= i < items.len(),
        forall|j: int|
            0 <= j < i && (#[trigger] items[j]).song is Some ==> items[j].song->0.id != id,
    ensures
        songs_of(items.take(i)).len() <= songs_of(items).len(),
        forall|j: int|
            0 <= j < songs_of(items.take(i)).len() ==> (#[trigger] songs_of(items.take(i))[j])
                == songs_of(items)[j],
        forall|j: int| 0 <= j < songs_of(items.take(i)).len() ==> (#[trigger] songs_of(items)[j]).id
            != id,
    decreases items.len(),
{
    let front = items.take(i);
    if i == items.len() - 1 {
        assert(front =~= items.drop_last());
        lemma_ids(front, id);
    } else {
        lemma_songs_before(items.drop_last(), i, id);
        assert(items.drop_last().take(i) =~= front);
    }
}

proof fn lemma_ids(items: Seq<LibraryItem>, id: i64)
    requires
        forall|j: int|
            0 <= j < items.len() && (#[trigger] items[j]).song is Some ==> items[j].song->0.id != id,
    ensures
        forall|j: int| 0 <= j < songs_of(items).len() ==> (#[trigger] songs_of(items)[j]).id != id,
    decreases items.len(),
{
    if items.len() > 0 {
        let last = items[items.len() - 1];
        assert(last.song is Some ==> last.song->0.id != id);
        lemma_ids(items.drop_last(), id);
        let rest = songs_of(items.drop_last());
        assert forall|j: int| 0 <= j < songs_of(items).len() implies (#[trigger] songs_of(items)[j]).id
            != id by {
            if j < rest.len() {
                assert(songs_of(items)[j] == rest[j]);
            } else {
                assert(songs_of(items)[j] == last.song->0);
            }
        }
    }
}

/// The command that starts a queue without shuffle makes it of the library's songs in their order,
/// for every repeat mode, and asks for the chosen song.
pub proof fn an_unshuffled_queue_is_the_library_in_its_order(
    app: &mut App,
    idx: usize,
    action: Action,
)
    requires
        idx < old(app)@.library_items.len(),
        old(app)@.library_items[idx as int].song is Some,
        !old(app)@.is_shuffling,
        call_ensures(App::start_queue_from_library, (app, idx), action),
    ensures
        final(app)@.queue == old(app)@.library_items.filter(
            |item: LibraryItem| item.song is Some,
        ).map_values(|item: LibraryItem| item.song->0),
        final(app)@ == (AppView {
            queue: final(app)@.queue,
            queue_idx: final(app)@.queue_idx,
            ..old(app)@
        }),
        action@ == (ActionView::PlaySong {
            request: PlayRequest::Library,
            song: final(app)@.queue[final(app)@.queue_idx],
        }),
        final(app)@.queue[final(app)@.queue_idx].id == old(app)@.library_items[idx as int].song->0.id,
        forall|j: int|
            0 <= j < final(app)@.queue_idx ==> (#[trigger] final(app)@.queue[j]).id
                != old(app)@.library_items[idx as int].song->0.id,
        (forall|j: int, k: int|
            0 <= j < k < final(app)@.queue.len() ==> (#[trigger] final(app)@.queue[j]).id != (
            #[trigger] final(app)@.queue[k]).id) ==> final(app)@.queue_idx
            == old(app)@.library_items.take(idx as int).filter(
            |item: LibraryItem| item.song is Some,
        ).len(),
{
    a_queue_follows_the_library(old(app)@, idx as int, final(app)@, action@);
}

/// The command that starts a queue with shuffle puts the chosen song first, asks for it, and leaves
/// out no other song.
pub proof fn a_shuffled_queue_starts_with_the_chosen_song(
    app: &mut App,
    idx: usize,
    action: Action,
)
    requires
        idx < old(app)@.library_items.len(),
        old(app)@.library_items[idx as int].song is Some,
        old(app)@.is_shuffling,
        call_ensures(App::start_queue_from_library, (app, idx), action),
    ensures
        final(app)@ == (AppView { queue: final(app)@.queue, queue_idx: 0, ..old(app)@ }),
        final(app)@.queue.len() > 0,
        final(app)@.queue.to_multiset() == old(app)@.library_items.filter(
            |item: LibraryItem| item.song is Some,
        ).map_values(|item: LibraryItem| item.song->0).to_multiset(),
        final(app)@.queue[0].id == old(app)@.library_items[idx as int].song->0.id,
        action@ == (ActionView::PlaySong {
            request: PlayRequest::Library,
            song: final(app)@.queue[0],
        }),
{
    a_shuffled_queue_holds_the_library(old(app)@, idx as int, final(app)@, action@);
}

/// A folder starts no queue, and a library without songs starts none.
pub proof fn only_songs_start_a_queue(app: &mut App, idx: usize, action: Action)
    requires
        call_ensures(App::start_queue_from_library, (app, idx), action),
        old(app)@.library_items[idx as int].song is None || forall|i: int|
            0 <= i < old(app)@.library_items.len() ==> (#[trigger] old(app)@.library_items[i]).song
                is None,
    ensures
        final(app)@ == old(app)@,
        action@ is Idle,
{
    let items = old(app)@.library_items;
    if songs_of(items).len() > 0 && items[idx as int].song is Some {
        lemma_no_songs(items);
    }
}

proof fn lemma_no_songs(items: Seq<LibraryItem>)
    requires
        forall|i: int| 0 <= i < items.len() ==> (#[trigger] items[i]).song is None,
    ensures
        songs_of(items).len() == 0,
    decreases items.len(),
{
    if items.len() > 0 {
        lemma_no_songs(items.drop_last());
    }
}

/// A queue that is put together from the chosen song and the others begins with it and goes on with
/// them as they stand.
pub proof fn the_others_follow_the_chosen_song(
    app: &mut App,
    chosen: Song,
    others: Vec<Song>,
    action: Action,
)
    requires
        call_ensures(App::start_shuffled, (app, chosen, others), action),
    ensures
        final(app)@ == (AppView { queue: final(app)@.queue, queue_idx: 0, ..old(app)@ }),
        final(app)@.queue.len() == others@.len() + 1,
        final(app)@.queue[0] == chosen,
        forall|i: int| 0 < i <= others@.len() ==> #[trigger] final(app)@.queue[i] == others@[i - 1],
        action@ == (ActionView::PlaySong { request: PlayRequest::Library, song: chosen }),
{
}

} // verus!
