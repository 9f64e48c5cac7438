//! What the window shows, as text and flags: the line on the current song
//! and the rows of the queue.

use vstd::prelude::*;
use vstd::string::StringExecFns;
use crate::player::{Message, SongData, SongDataView, next_state};
use crate::song::{SongInfo, SongInfoView};

verus! {

/// The separator between the parts of a line of text.
pub open spec fn separator() -> Seq<char> {
    " - "@
}

/// One row of the queue list.
#[derive(Debug)]
pub struct QueueRow {
    /// "album - title".
    pub label: String,
    /// Whether this row's song is the current song, which the window
    /// highlights.
    pub is_current: bool,
    /// The queue position that pressing the row plays and its delete button
    /// removes (0 where MPD reports none).
    pub position: u32,
}

/// The queue position that the window uses for a song.
pub open spec fn row_position(s: SongInfoView) -> u32 {
    match s.position {
        Some(p) => p,
        None => 0,
    }
}

/// The row of the queue list for `s`, where `current` is the current song's
/// position.
pub open spec fn row_of(s: SongInfoView, current: u32) -> (Seq<char>, bool, u32) {
    (s.album + separator() + s.title, row_position(s) == current, row_position(s))
}

/// "title - artist - album" of the current song.
pub open spec fn now_playing_line(title: Seq<char>, artist: Seq<char>, album: Seq<char>) -> Seq<
    char,
> {
    title + separator() + artist + separator() + album
}

/// The rows of the queue list for `queue`, one per song in the same order,
/// where `current` is the current song's position.
pub fn queue_rows(queue: &Vec<SongInfo>, current: u32) -> (rows: Vec<QueueRow>)
    ensures
        rows@.len() == queue@.len(),
        forall|i: int|
            0 <= i < rows@.len() ==> (#[trigger] rows@[i].label@, rows@[i].is_current,
            rows@[i].position) == row_of(queue@[i]@, current),
{
    let mut rows: Vec<QueueRow> = Vec::new();
    let mut i: usize = 0;
    while i < queue.len()
        invariant
            i <= queue.len(),
            rows@.len() == i,
            forall|j: int|
                0 <= j < i ==> (#[trigger] rows@[j].label@, rows@[j].is_current, rows@[j].position)
                    == row_of(queue@[j]@, current),
        decreases queue.len() - i,
    {
        let song = &queue[i];
        let position = match song.position {
            Some(p) => p,
            None => 0,
        };
        let mut label = song.album.clone();
        label.append(" - ");
        label.append(song.title.as_str());
        rows.push(QueueRow { label, is_current: position == current, position });
        i = i + 1;
    }
    rows
}

impl SongData {
    /// The line that names the current song: "title - artist - album".
    pub fn now_playing_text(&self) -> (t: String)
        ensures
            t@ == now_playing_line(self@.song_title, self@.artist, self@.album),
    {
        let mut t = self.song_title.clone();
        t.append(" - ");
        t.append(self.artist.as_str());
        t.append(" - ");
        t.append(self.album.as_str());
        t
    }

    /// The rows of the queue list, the current song's highlighted.
    pub fn queue_rows(&self) -> (rows: Vec<QueueRow>)
        ensures
            rows@.len() == self@.queue.len(),
            forall|i: int|
                0 <= i < rows@.len() ==> (#[trigger] rows@[i].label@, rows@[i].is_current,
                rows@[i].position) == row_of(self@.queue[i], self@.position),
    {
        queue_rows(&self.queue, self.position)
    }
}

/// Once the current song's information has arrived, the queue list
/// highlights exactly the songs at that song's queue position (position 0
/// where MPD reports none).
pub proof fn arrived_song_is_highlighted(s: SongDataView, info: SongInfo, i: int)
    requires
        0 <= i < s.queue.len(),
    ensures
        row_of(
            next_state(s, Message::SongInfoLoaded(info)).queue[i],
            next_state(s, Message::SongInfoLoaded(info)).position,
        ).1 == (row_position(s.queue[i]) == row_position(info@)),
{
}

/// A queue row reads "album - title", is highlighted exactly when its
/// song's position (0 where MPD reports none) is the current position, and
/// plays or removes that position; the now-playing line reads
/// "title - artist - album".
pub proof fn rows_and_line_read_as_shown(s: SongInfoView, current: u32, t: Seq<char>, a: Seq<
    char,
>, l: Seq<char>)
    ensures
        row_of(s, current).0 == s.album + " - "@ + s.title,
        (s.position matches Some(p) ==> row_of(s, current).2 == p && (row_of(s, current).1 <==> p
            == current)),
        (s.position is None ==> row_of(s, current).2 == 0 && (row_of(s, current).1 <==> current
            == 0)),
        now_playing_line(t, a, l) == t + " - "@ + a + " - "@ + l,
{
}

} // verus!
