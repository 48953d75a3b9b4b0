//! What the player handles: songs, search results, library entries, modes and keys.

use vstd::prelude::*;

verus! {

/// A song of the library.
#[derive(Debug, PartialEq)]
pub struct Song {
    pub id: i64,
    pub title: String,
    pub artist: String,
    pub album: String,
    pub path: String,
    pub duration: i64,
}

impl Clone for Song {
    fn clone(&self) -> (copy: Self)
        ensures
            copy == *self,
    {
        Song {
            id: self.id,
            title: self.title.clone(),
            artist: self.artist.clone(),
            album: self.album.clone(),
            path: self.path.clone(),
            duration: self.duration,
        }
    }
}

/// What the server says of one folder.
#[derive(Debug, Clone)]
pub struct BrowseResponse {
    pub path: String,
    pub dirs: Vec<String>,
    pub songs: Vec<Song>,
}

/// One hit of a video search.
#[derive(Debug, Clone, PartialEq)]
pub struct YtResult {
    pub title: String,
    pub channel: String,
    pub duration: i64,
    pub url: String,
}

/// Whether something plays.
#[derive(Debug, Clone, Copy, PartialEq, Eq, Structural)]
pub enum AppState {
    Normal,
    Playing,
    Paused,
}

/// What follows the end of a song.
#[derive(Debug, Clone, Copy, PartialEq, Eq, Structural)]
pub enum Repeat {
    Off,
    All,
    One,
}

/// The panel that takes the keys.
#[derive(Debug, Clone, Copy, PartialEq, Eq, Structural)]
pub enum PanelFocus {
    Library,
    Downloader,
}

/// What the keys are read as.
#[derive(Debug, Clone, PartialEq)]
pub enum InputMode {
    /// Commands; no text is being typed.
    Inactive,
    Search,
    Mkdir,
    /// Holds the path to delete.
    DeleteConfirm(String),
}

/// `InputMode`, the path as a sequence of characters.
pub enum InputModeView {
    Inactive,
    Search,
    Mkdir,
    DeleteConfirm(Seq<char>),
}

impl View for InputMode {
    type V = InputModeView;

    open spec fn view(&self) -> InputModeView {
        match self {
            InputMode::Inactive => InputModeView::Inactive,
            InputMode::Search => InputModeView::Search,
            InputMode::Mkdir => InputModeView::Mkdir,
            InputMode::DeleteConfirm(path) => InputModeView::DeleteConfirm(path@),
        }
    }
}

/// One line of the library panel: a folder or a song.
#[derive(Debug, PartialEq)]
pub struct LibraryItem {
    pub name: String,
    pub is_dir: bool,
    pub song: Option<Song>,
}

/// The entry of a folder.
pub open spec fn dir_item(name: String) -> LibraryItem {
    LibraryItem { name, is_dir: true, song: None }
}

/// The entry of a song.
pub open spec fn song_item(song: Song) -> LibraryItem {
    LibraryItem { name: song.title, is_dir: false, song: Some(song) }
}

/// The entries of a folder: its folders first, then its songs.
pub open spec fn entries(dirs: Seq<String>, songs: Seq<Song>) -> Seq<LibraryItem> {
    dirs.map_values(|d: String| dir_item(d)) + songs.map_values(|s: Song| song_item(s))
}

/// The songs among some entries, in their order.
pub open spec fn songs_of(items: Seq<LibraryItem>) -> Seq<Song>
    decreases items.len(),
{
    if items.len() == 0 {
        Seq::empty()
    } else {
        match items.last().song {
            Some(song) => songs_of(items.drop_last()).push(song),
            None => songs_of(items.drop_last()),
        }
    }
}

/// The names of the folders among some entries, in their order.
pub open spec fn dirs_of(items: Seq<LibraryItem>) -> Seq<String>
    decreases items.len(),
{
    if items.len() == 0 {
        Seq::empty()
    } else if items.last().is_dir {
        dirs_of(items.drop_last()).push(items.last().name)
    } else {
        dirs_of(items.drop_last())
    }
}

/// The first position at or after `i` of a song with this id; the number of songs where there is
/// none.
pub open spec fn song_from(songs: Seq<Song>, id: i64, i: int) -> int
    decreases songs.len() - i,
{
    if i >= songs.len() {
        songs.len() as int
    } else if songs[i].id == id {
        i
    } else {
        song_from(songs, id, i + 1)
    }
}

/// Entries are sound: a song stands in exactly those that are no folder.
pub open spec fn sound_items(items: Seq<LibraryItem>) -> bool {
    forall|i: int|
        0 <= i < items.len() ==> ((#[trigger] items[i]).is_dir <==> items[i].song is None)
}

/// A folder's entries are sound.
pub proof fn entries_are_sound(dirs: Seq<String>, songs: Seq<Song>)
    ensures
        sound_items(entries(dirs, songs)),
        entries(dirs, songs).len() == dirs.len() + songs.len(),
{
}

/// The folders among a folder's entries are its folders, and the songs its songs.
pub proof fn entries_hold_what_was_listed(dirs: Seq<String>, songs: Seq<Song>)
    ensures
        dirs_of(entries(dirs, songs)) == dirs,
        songs_of(entries(dirs, songs)) == songs,
    decreases dirs.len() + songs.len(),
{
    let items = entries(dirs, songs);
    if songs.len() > 0 {
        entries_hold_what_was_listed(dirs, songs.drop_last());
        assert(items.drop_last() =~= entries(dirs, songs.drop_last()));
        assert(items.last() == song_item(songs.last()));
        assert(songs.drop_last().push(songs.last()) =~= songs);
    } else if dirs.len() > 0 {
        entries_hold_what_was_listed(dirs.drop_last(), songs);
        assert(items.drop_last() =~= entries(dirs.drop_last(), songs));
        assert(items.last() == dir_item(dirs.last()));
        assert(dirs.drop_last().push(dirs.last()) =~= dirs);
    } else {
        assert(songs =~= Seq::empty());
        assert(dirs =~= Seq::empty());
    }
}

/// The song of an entry is among the songs of all entries.
pub proof fn lemma_songs_of_contains(items: Seq<LibraryItem>, i: int)
    requires
        0 <= i < items.len(),
        items[i].song is Some,
    ensures
        exists|k: int| 0 <= k < songs_of(items).len() && songs_of(items)[k] == items[i].song->0,
    decreases items.len(),
{
    let rest = songs_of(items.drop_last());
    if i < items.len() - 1 {
        lemma_songs_of_contains(items.drop_last(), i);
        let k = choose|k: int| 0 <= k < rest.len() && rest[k] == items[i].song->0;
        assert(songs_of(items)[k] == items[i].song->0);
    } else {
        assert(songs_of(items)[rest.len() as int] == items[i].song->0);
    }
}

/// What `song_from` gives.
pub proof fn lemma_song_from(songs: Seq<Song>, id: i64, i: int)
    requires
        0 <= i <= songs.len(),
    ensures
        i <= song_from(songs, id, i) <= songs.len(),
        forall|j: int| i <= j < song_from(songs, id, i) ==> songs[j].id != id,
        song_from(songs, id, i) < songs.len() ==> songs[song_from(songs, id, i)].id == id,
    decreases songs.len() - i,
{
    if i < songs.len() && songs[i].id != id {
        lemma_song_from(songs, id, i + 1);
    }
}

/// Lists a folder's entries: its folders first, then its songs.
pub fn list_entries(dirs: Vec<String>, songs: Vec<Song>) -> (items: Vec<LibraryItem>)
    ensures
        items@ == entries(dirs@, songs@),
{
    let mut items: Vec<LibraryItem> = Vec::new();
    for d in it: dirs
        invariant
            it.seq() == dirs@,
            items@ == dirs@.take(it.index()).map_values(|d: String| dir_item(d)),
    {
        items.push(LibraryItem { name: d, is_dir: true, song: None });
        assert(items@ =~= dirs@.take(it.index() + 1).map_values(|d: String| dir_item(d)));
    }
    assert(dirs@.take(dirs@.len() as int) =~= dirs@);
    for s in it: songs
        invariant
            it.seq() == songs@,
            items@ == entries(dirs@, songs@.take(it.index())),
    {
        items.push(LibraryItem { name: s.title.clone(), is_dir: false, song: Some(s) });
        assert(items@ =~= entries(dirs@, songs@.take(it.index() + 1)));
    }
    assert(songs@.take(songs@.len() as int) =~= songs@);
    items
}

/// The names of the folders among some entries.
pub fn folder_names(items: &Vec<LibraryItem>) -> (names: Vec<String>)
    ensures
        names@ == dirs_of(items@),
{
    let mut names: Vec<String> = Vec::new();
    let mut i: usize = 0;
    while i < items.len()
        invariant
            i <= items.len(),
            names@ == dirs_of(items@.take(i as int)),
        decreases items.len() - i,
    {
        assert(items@.take(i + 1).drop_last() =~= items@.take(i as int));
        if items[i].is_dir {
            names.push(items[i].name.clone());
        }
        i = i + 1;
    }
    assert(items@.take(items@.len() as int) =~= items@);
    names
}

/// The songs among some entries.
pub fn collect_songs(items: &Vec<LibraryItem>) -> (songs: Vec<Song>)
    ensures
        songs@ == songs_of(items@),
{
    let mut songs: Vec<Song> = Vec::new();
    let mut i: usize = 0;
    while i < items.len()
        invariant
            i <= items.len(),
            songs@ == songs_of(items@.take(i as int)),
        decreases items.len() - i,
    {
        assert(items@.take(i + 1).drop_last() =~= items@.take(i as int));
        match &items[i].song {
            Some(song) => {
                songs.push(song.clone());
            },
            None => {},
        }
        i = i + 1;
    }
    assert(items@.take(items@.len() as int) =~= items@);
    songs
}

/// A key of the keyboard, as far as the player reads it.
#[derive(Debug, Clone, Copy, PartialEq, Eq, Structural)]
pub enum KeyCode {
    Backspace,
    Enter,
    Left,
    Right,
    Up,
    Down,
    Tab,
    Esc,
    Char(char),
    /// A key that no command is bound to.
    Other,
}

/// What happened to a key.
#[derive(Debug, Clone, Copy, PartialEq, Eq, Structural)]
pub enum KeyEventKind {
    Press,
    Repeat,
    Release,
}

/// A key and what happened to it.
#[derive(Debug, Clone, Copy, PartialEq, Eq, Structural)]
pub struct KeyEvent {
    pub code: KeyCode,
    pub kind: KeyEventKind,
}

} // verus!
