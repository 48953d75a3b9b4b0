//! The play queue: how it is made from the songs of a folder.

use rand::seq::SliceRandom;
use vstd::prelude::*;
use vstd::seq_lib::*;

use crate::model::{song_from, Song};

verus! {

/// Puts the songs in a random order: `SliceRandom::shuffle` of the `rand` crate, with the
/// generator that `rand::thread_rng` gives. It swaps elements of the slice and does nothing else,
/// so the same songs are there afterwards, each as often as before. Which order comes out is up
/// to chance. `thread_rng` panics where the system gives no seed.
#[verifier::external_body]
pub(crate) fn shuffle_songs(songs: &mut Vec<Song>)
    ensures
        final(songs)@.to_multiset() == old(songs)@.to_multiset(),
{
    let mut rng = rand::thread_rng();
    songs.shuffle(&mut rng);
}

/// The position of the first song with this id; the number of songs where there is none.
pub fn position_of(songs: &Vec<Song>, id: i64) -> (at: usize)
    ensures
        at == song_from(songs@, id, 0),
{
    let mut i: usize = 0;
    while i < songs.len() && songs[i].id != id
        invariant
            i <= songs.len(),
            song_from(songs@, id, 0) == song_from(songs@, id, i as int),
        decreases songs.len() - i,
    {
        i = i + 1;
    }
    i
}

/// What a shuffled queue of `songs` is: the chosen one first, then all the others in any order.
pub open spec fn shuffled(songs: Seq<Song>, chosen: int, queue: Seq<Song>) -> bool {
    &&& queue.len() == songs.len()
    &&& queue[0] == songs[chosen]
    &&& queue.skip(1).to_multiset() == songs.remove(chosen).to_multiset()
}

/// A shuffled queue holds the songs it was made of, each as often as they do.
pub proof fn shuffling_keeps_the_songs(songs: Seq<Song>, chosen: int, queue: Seq<Song>)
    requires
        0 <= chosen < songs.len(),
        shuffled(songs, chosen, queue),
    ensures
        queue.to_multiset() == songs.to_multiset(),
{
    broadcast use group_to_multiset_ensures;

    assert(queue.remove(0) =~= queue.skip(1));
    assert(queue.to_multiset().remove(queue[0]).insert(queue[0]) =~= queue.to_multiset());
    assert(songs.to_multiset().remove(songs[chosen]).insert(songs[chosen]) =~= songs.to_multiset());
}

} // verus!
