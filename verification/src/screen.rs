//! What the screen shows, as text; colours and places are left to whoever draws it.

use vstd::prelude::*;
use vstd::string::*;

use crate::app::{index_view, App, AppView, NANOS_PER_SEC};
use crate::model::{
    AppState, InputMode, InputModeView, LibraryItem, PanelFocus, Repeat, Song, YtResult,
};
use crate::text::{clock_text, format_secs, join2, join3};

verus! {

/// A line of the library panel.
#[derive(Debug, PartialEq)]
pub enum LibraryRow {
    Folder { icon: String, name: String },
    Track { playing: bool, icon: String, title: String, artist: String, duration: String },
}

/// A line of the search results.
#[derive(Debug, PartialEq)]
pub struct ResultRow {
    pub icon: String,
    pub title: String,
    pub channel: String,
    pub duration: String,
}

/// The line above the key guide.
#[derive(Debug, PartialEq)]
pub enum Footer {
    /// Text that is being typed.
    Input(String),
    /// A question before something is deleted.
    Warning(String),
    /// A message.
    Status(String),
    /// No message.
    Ready(String),
}

/// All that the screen shows.
#[derive(Debug, PartialEq)]
pub struct Screen {
    pub play_icon: String,
    pub playing_title: String,
    /// How much of the song has played, in percent.
    pub percent: u16,
    pub progress_label: String,
    pub shuffle_on: bool,
    pub shuffle_label: String,
    pub repeat_on: bool,
    pub repeat_label: String,
    pub library_focused: bool,
    pub library_title: String,
    pub library_loading: bool,
    pub library_rows: Vec<LibraryRow>,
    pub library_selected: Option<usize>,
    pub downloader_focused: bool,
    pub search_active: bool,
    pub query_line: String,
    pub save_dir: String,
    pub downloader_loading: bool,
    pub result_rows: Vec<ResultRow>,
    pub downloader_selected: Option<usize>,
    pub footer: Footer,
    pub guide: String,
}

/// `LibraryRow`, its texts as sequences of characters.
pub enum LibraryRowView {
    Folder { icon: Seq<char>, name: Seq<char> },
    Track {
        playing: bool,
        icon: Seq<char>,
        title: Seq<char>,
        artist: Seq<char>,
        duration: Seq<char>,
    },
}

impl View for LibraryRow {
    type V = LibraryRowView;

    open spec fn view(&self) -> LibraryRowView {
        match self {
            LibraryRow::Folder { icon, name } => LibraryRowView::Folder { icon: icon@, name: name@ },
            LibraryRow::Track { playing, icon, title, artist, duration } => LibraryRowView::Track {
                playing: *playing,
                icon: icon@,
                title: title@,
                artist: artist@,
                duration: duration@,
            },
        }
    }
}

/// `ResultRow`, its texts as sequences of characters.
pub struct ResultRowView {
    pub icon: Seq<char>,
    pub title: Seq<char>,
    pub channel: Seq<char>,
    pub duration: Seq<char>,
}

impl View for ResultRow {
    type V = ResultRowView;

    open spec fn view(&self) -> ResultRowView {
        ResultRowView {
            icon: self.icon@,
            title: self.title@,
            channel: self.channel@,
            duration: self.duration@,
        }
    }
}

/// `Footer`, its text as a sequence of characters.
pub enum FooterView {
    Input(Seq<char>),
    Warning(Seq<char>),
    Status(Seq<char>),
    Ready(Seq<char>),
}

impl View for Footer {
    type V = FooterView;

    open spec fn view(&self) -> FooterView {
        match self {
            Footer::Input(text) => FooterView::Input(text@),
            Footer::Warning(text) => FooterView::Warning(text@),
            Footer::Status(text) => FooterView::Status(text@),
            Footer::Ready(text) => FooterView::Ready(text@),
        }
    }
}

/// `Screen` over mathematical values.
#[verifier::ext_equal]
pub struct ScreenView {
    pub play_icon: Seq<char>,
    pub playing_title: Seq<char>,
    pub percent: int,
    pub progress_label: Seq<char>,
    pub shuffle_on: bool,
    pub shuffle_label: Seq<char>,
    pub repeat_on: bool,
    pub repeat_label: Seq<char>,
    pub library_focused: bool,
    pub library_title: Seq<char>,
    pub library_loading: bool,
    pub library_rows: Seq<LibraryRowView>,
    pub library_selected: Option<int>,
    pub downloader_focused: bool,
    pub search_active: bool,
    pub query_line: Seq<char>,
    pub save_dir: Seq<char>,
    pub downloader_loading: bool,
    pub result_rows: Seq<ResultRowView>,
    pub downloader_selected: Option<int>,
    pub footer: FooterView,
    pub guide: Seq<char>,
}

impl View for Screen {
    type V = ScreenView;

    open spec fn view(&self) -> ScreenView {
        ScreenView {
            play_icon: self.play_icon@,
            playing_title: self.playing_title@,
            percent: self.percent as int,
            progress_label: self.progress_label@,
            shuffle_on: self.shuffle_on,
            shuffle_label: self.shuffle_label@,
            repeat_on: self.repeat_on,
            repeat_label: self.repeat_label@,
            library_focused: self.library_focused,
            library_title: self.library_title@,
            library_loading: self.library_loading,
            library_rows: self.library_rows@.map_values(|r: LibraryRow| r@),
            library_selected: index_view(self.library_selected),
            downloader_focused: self.downloader_focused,
            search_active: self.search_active,
            query_line: self.query_line@,
            save_dir: self.save_dir@,
            downloader_loading: self.downloader_loading,
            result_rows: self.result_rows@.map_values(|r: ResultRow| r@),
            downloader_selected: index_view(self.downloader_selected),
            footer: self.footer@,
            guide: self.guide@,
        }
    }
}

/// The number of values of a `u64`.
pub const TWO_POW_64: i128 = 0x1_0000_0000_0000_0000;

/// A length in seconds as the server gives it, read without its sign.
pub open spec fn unsigned_secs(duration: int) -> int {
    if duration < 0 {
        duration + TWO_POW_64
    } else {
        duration
    }
}

/// The reverse of `unsigned_secs`.
pub open spec fn signed_secs(secs: int) -> int {
    if secs > i64::MAX {
        secs - TWO_POW_64
    } else {
        secs
    }
}

/// How much has played, in percent, at most 100. Only the low 16 bits of the quotient count.
pub open spec fn percent_played(elapsed: int, total: int) -> int {
    if total > 0 {
        let part = (elapsed * 100 / total) % 0x1_0000;
        if part < 100 {
            part
        } else {
            100
        }
    } else {
        0
    }
}

/// The length of a song in brackets.
pub open spec fn length_text(duration: i64) -> Seq<char> {
    "("@ + clock_text(duration as int) + ")"@
}

/// Who made it, set off from the title.
pub open spec fn maker_text(maker: Seq<char>) -> Seq<char> {
    " - "@ + maker + " "@
}

/// The line of an entry of the library.
pub open spec fn library_row(item: LibraryItem, current: Option<Song>) -> LibraryRowView {
    if item.is_dir {
        LibraryRowView::Folder { icon: "📁 "@, name: item.name@ }
    } else {
        let song = item.song->0;
        let playing = current is Some && current->0.id == song.id;
        LibraryRowView::Track {
            playing,
            icon: if playing {
                "▶ "@
            } else {
                "🎵 "@
            },
            title: song.title@,
            artist: maker_text(song.artist@),
            duration: length_text(song.duration),
        }
    }
}

/// The line of a search result.
pub open spec fn result_row(result: YtResult) -> ResultRowView {
    ResultRowView {
        icon: "🔍 "@,
        title: result.title@,
        channel: maker_text(result.channel@),
        duration: length_text(result.duration),
    }
}

impl AppView {
    /// The whole seconds played.
    pub open spec fn elapsed_secs(self, now: nat) -> int {
        (self.elapsed_at(now) / (NANOS_PER_SEC as nat)) as int
    }

    /// The length of the current song, 0 where none plays.
    pub open spec fn current_length(self) -> int {
        match self.currently_playing {
            Some(song) => song.duration as int,
            None => 0,
        }
    }

    /// The player can be shown.
    pub open spec fn drawable_at(self, now: nat) -> bool {
        &&& self.wf()
        &&& self.ready_at(now)
        &&& self.save_dir_in_range()
        &&& unsigned_secs(self.current_length()) > 0 ==> self.elapsed_secs(now) * 100 <= u64::MAX
    }

    pub open spec fn play_icon(self) -> Seq<char> {
        match self.state {
            AppState::Playing => "▶ "@,
            AppState::Paused => "⏸ "@,
            AppState::Normal => "⏹ "@,
        }
    }

    pub open spec fn playing_title(self) -> Seq<char> {
        match self.currently_playing_title {
            Some(title) => title,
            None => "Not playing"@,
        }
    }

    pub open spec fn progress_label(self, now: nat) -> Seq<char> {
        clock_text(signed_secs(self.elapsed_secs(now))) + " / "@ + clock_text(
            self.current_length(),
        )
    }

    pub open spec fn save_dir_text(self) -> Seq<char> {
        if self.selected_save_dir_idx == 0 {
            "Music/ (自動)"@
        } else {
            "Music/"@ + self.top_dirs[self.selected_save_dir_idx - 1]@ + "/"@
        }
    }

    pub open spec fn footer(self) -> FooterView {
        match self.input_mode {
            InputModeView::Search => FooterView::Input("Search YT: "@ + self.input_value + "▋"@),
            InputModeView::Mkdir => FooterView::Input(
                "New Folder Name: "@ + self.input_value + "▋"@,
            ),
            InputModeView::DeleteConfirm(path) => FooterView::Warning(
                "Delete '"@ + path + "'? (y/n) "@,
            ),
            InputModeView::Inactive => match self.status_message {
                Some(message) => FooterView::Status(message),
                None => FooterView::Ready("Ready"@),
            },
        }
    }

    pub open spec fn guide(self) -> Seq<char> {
        match self.active_panel {
            PanelFocus::Library =>
            "Tab: Switch Panel | j/k: Navigate | l/Enter: Enter/Play | h: Back | n: New Folder | x: Delete | q: Quit"@,
            PanelFocus::Downloader =>
            "Tab: Switch Panel | j/k: Navigate | /: Search YT | d/Enter: Download | p/Space: Preview | f: Cycles save folder | q: Quit"@,
        }
    }

    /// The lines of the library; none while it loads.
    pub open spec fn library_rows(self) -> Seq<LibraryRowView> {
        if self.library_loading {
            Seq::empty()
        } else {
            self.library_items.map_values(
                |item: LibraryItem| library_row(item, self.currently_playing),
            )
        }
    }

    /// The lines of the search results; none while they load.
    pub open spec fn result_rows(self) -> Seq<ResultRowView> {
        if self.downloader_loading {
            Seq::empty()
        } else {
            self.yt_results.map_values(|result: YtResult| result_row(result))
        }
    }

    /// All that the screen shows.
    pub open spec fn screen(self, now: nat) -> ScreenView {
        ScreenView {
            play_icon: self.play_icon(),
            playing_title: self.playing_title(),
            percent: percent_played(
                self.elapsed_secs(now),
                unsigned_secs(self.current_length()),
            ),
            progress_label: self.progress_label(now),
            shuffle_on: self.is_shuffling,
            shuffle_label: if self.is_shuffling {
                "ON"@
            } else {
                "OFF"@
            },
            repeat_on: self.repeat != Repeat::Off,
            repeat_label: match self.repeat {
                Repeat::Off => "OFF"@,
                Repeat::All => "ALL"@,
                Repeat::One => "ONE"@,
            },
            library_focused: self.active_panel == PanelFocus::Library,
            library_title: " Library: Music/"@ + self.current_path + " "@,
            library_loading: self.library_loading,
            library_rows: self.library_rows(),
            library_selected: self.library_selected,
            downloader_focused: self.active_panel == PanelFocus::Downloader,
            search_active: self.input_mode is Search,
            query_line: " Query: "@ + if self.yt_query.len() == 0 {
                "(Press / to search YouTube)"@
            } else {
                self.yt_query
            },
            save_dir: self.save_dir_text(),
            downloader_loading: self.downloader_loading,
            result_rows: self.result_rows(),
            downloader_selected: self.downloader_selected,
            footer: self.footer(),
            guide: self.guide(),
        }
    }
}

/// How much of `total` seconds has played, in percent, at most 100.
pub fn percent_of(elapsed: u64, total: u64) -> (percent: u16)
    requires
        total > 0 ==> elapsed * 100 <= u64::MAX,
    ensures
        percent == percent_played(elapsed as int, total as int),
        percent <= 100,
{
    if total == 0 {
        return 0;
    }
    let part: u64 = (elapsed * 100 / total) % 0x1_0000;
    if part < 100 {
        part as u16
    } else {
        100
    }
}

/// A length in seconds, read without its sign.
fn to_unsigned(duration: i64) -> (secs: u64)
    ensures
        secs == unsigned_secs(duration as int),
{
    if duration < 0 {
        (duration as i128 + TWO_POW_64) as u64
    } else {
        duration as u64
    }
}

/// The reverse of `to_unsigned`.
fn to_signed(secs: u64) -> (duration: i64)
    ensures
        duration == signed_secs(secs as int),
{
    if secs > i64::MAX as u64 {
        (secs as i128 - TWO_POW_64) as i64
    } else {
        secs as i64
    }
}

fn row_of_item(item: &LibraryItem, current: &Option<Song>) -> (row: LibraryRow)
    requires
        item.is_dir || item.song is Some,
    ensures
        row@ == library_row(*item, *current),
{
    match &item.song {
        Some(song) if !item.is_dir => {
            let playing = match current {
                Some(playing) => playing.id == song.id,
                None => false,
            };
            LibraryRow::Track {
                playing,
                icon: if playing {
                    "▶ ".to_string()
                } else {
                    "🎵 ".to_string()
                },
                title: song.title.clone(),
                artist: join3(" - ", song.artist.as_str(), " "),
                duration: join3("(", format_secs(song.duration).as_str(), ")"),
            }
        },
        _ => LibraryRow::Folder { icon: "📁 ".to_string(), name: item.name.clone() },
    }
}

fn row_of_result(result: &YtResult) -> (row: ResultRow)
    ensures
        row@ == result_row(*result),
{
    ResultRow {
        icon: "🔍 ".to_string(),
        title: result.title.clone(),
        channel: join3(" - ", result.channel.as_str(), " "),
        duration: join3("(", format_secs(result.duration).as_str(), ")"),
    }
}

impl App {
    /// Whether the player can be shown: its parts fit together and the time played can be
    /// computed with.
    pub fn is_drawable_at(&self, now: u128) -> (drawable: bool)
        requires
            self@.wf(),
        ensures
            drawable == self@.drawable_at(now as nat),
    {
        if !self.is_ready_at(now) || self.selected_save_dir_idx > self.top_dirs.len() {
            return false;
        }
        let elapsed: u128 = self.current_elapsed(now) / NANOS_PER_SEC;
        let total: u64 = match &self.currently_playing {
            Some(song) => to_unsigned(song.duration),
            None => 0,
        };
        total == 0 || elapsed * 100 <= u64::MAX as u128
    }

    fn rows_of_library(&self) -> (rows: Vec<LibraryRow>)
        requires
            self@.wf(),
        ensures
            rows@.map_values(|r: LibraryRow| r@) == self@.library_rows(),
    {
        let mut rows: Vec<LibraryRow> = Vec::new();
        if self.library_loading {
            assert(rows@.map_values(|r: LibraryRow| r@) =~= self@.library_rows());
            return rows;
        }
        let mut i: usize = 0;
        while i < self.library_items.len()
            invariant
                self@.wf(),
                i <= self.library_items.len(),
                rows@.len() == i,
                forall|k: int|
                    0 <= k < i ==> (#[trigger] rows@[k])@ == library_row(
                        self.library_items@[k],
                        self.currently_playing,
                    ),
            decreases self.library_items.len() - i,
        {
            assert(self@.library_items[i as int] == self.library_items@[i as int]);
            rows.push(row_of_item(&self.library_items[i], &self.currently_playing));
            i = i + 1;
        }
        assert(rows@.map_values(|r: LibraryRow| r@) =~= self@.library_rows());
        rows
    }

    fn rows_of_results(&self) -> (rows: Vec<ResultRow>)
        ensures
            rows@.map_values(|r: ResultRow| r@) == self@.result_rows(),
    {
        let mut rows: Vec<ResultRow> = Vec::new();
        if self.downloader_loading {
            assert(rows@.map_values(|r: ResultRow| r@) =~= self@.result_rows());
            return rows;
        }
        let mut i: usize = 0;
        while i < self.yt_results.len()
            invariant
                i <= self.yt_results.len(),
                rows@.len() == i,
                forall|k: int|
                    0 <= k < i ==> (#[trigger] rows@[k])@ == result_row(self.yt_results@[k]),
            decreases self.yt_results.len() - i,
        {
            rows.push(row_of_result(&self.yt_results[i]));
            i = i + 1;
        }
        assert(rows@.map_values(|r: ResultRow| r@) =~= self@.result_rows());
        rows
    }

    fn footer_line(&self) -> (footer: Footer)
        ensures
            footer@ == self@.footer(),
    {
        match &self.input_mode {
            InputMode::Search => Footer::Input(
                join3("Search YT: ", self.input_value.as_str(), "▋"),
            ),
            InputMode::Mkdir => Footer::Input(
                join3("New Folder Name: ", self.input_value.as_str(), "▋"),
            ),
            InputMode::DeleteConfirm(path) => Footer::Warning(
                join3("Delete '", path.as_str(), "'? (y/n) "),
            ),
            InputMode::Inactive => match &self.status_message {
                Some(message) => Footer::Status(message.clone()),
                None => Footer::Ready("Ready".to_string()),
            },
        }
    }

    fn save_dir_label(&self) -> (label: String)
        requires
            self@.save_dir_in_range(),
        ensures
            label@ == self@.save_dir_text(),
    {
        if self.selected_save_dir_idx == 0 {
            "Music/ (自動)".to_string()
        } else {
            join3("Music/", self.top_dirs[self.selected_save_dir_idx - 1].as_str(), "/")
        }
    }

    /// All that the screen shows.
    pub fn screen(&self, now: u128) -> (screen: Screen)
        requires
            self@.drawable_at(now as nat),
        ensures
            screen@ == self@.screen(now as nat),
            screen.percent <= 100,
    {
        let elapsed: u64 = (self.current_elapsed(now) / NANOS_PER_SEC) as u64;
        let (total, length): (u64, i64) = match &self.currently_playing {
            Some(song) => (to_unsigned(song.duration), song.duration),
            None => (0, 0),
        };
        let played = format_secs(to_signed(elapsed));
        let whole = format_secs(length);
        Screen {
            play_icon: match self.state {
                AppState::Playing => "▶ ".to_string(),
                AppState::Paused => "⏸ ".to_string(),
                AppState::Normal => "⏹ ".to_string(),
            },
            playing_title: match &self.currently_playing_title {
                Some(title) => title.clone(),
                None => "Not playing".to_string(),
            },
            percent: percent_of(elapsed, total),
            progress_label: join3(played.as_str(), " / ", whole.as_str()),
            shuffle_on: self.is_shuffling,
            shuffle_label: if self.is_shuffling {
                "ON".to_string()
            } else {
                "OFF".to_string()
            },
            repeat_on: self.repeat != Repeat::Off,
            repeat_label: match self.repeat {
                Repeat::Off => "OFF".to_string(),
                Repeat::All => "ALL".to_string(),
                Repeat::One => "ONE".to_string(),
            },
            library_focused: self.active_panel == PanelFocus::Library,
            library_title: join3(" Library: Music/", self.current_path.as_str(), " "),
            library_loading: self.library_loading,
            library_rows: self.rows_of_library(),
            library_selected: self.library_selected,
            downloader_focused: self.active_panel == PanelFocus::Downloader,
            search_active: matches!(self.input_mode, InputMode::Search),
            query_line: if self.yt_query.as_str().is_empty() {
                join2(" Query: ", "(Press / to search YouTube)")
            } else {
                join2(" Query: ", self.yt_query.as_str())
            },
            save_dir: self.save_dir_label(),
            downloader_loading: self.downloader_loading,
            result_rows: self.rows_of_results(),
            downloader_selected: self.downloader_selected,
            footer: self.footer_line(),
            guide: match self.active_panel {
                PanelFocus::Library =>
                "Tab: Switch Panel | j/k: Navigate | l/Enter: Enter/Play | h: Back | n: New Folder | x: Delete | q: Quit".to_string(),
                PanelFocus::Downloader =>
                "Tab: Switch Panel | j/k: Navigate | /: Search YT | d/Enter: Download | p/Space: Preview | f: Cycles save folder | q: Quit".to_string(),
            },
        }
    }
}

} // verus!
