//! Song information as the player shows it, and how it is made from what
//! the MPD server reports.

use vstd::prelude::*;
use vstd::string::StringExecFns;

verus! {

/// The player state that MPD reports in its status.
#[derive(Clone, Copy, Debug, PartialEq, Eq, Structural)]
pub enum PlaybackState {
    Stop,
    Play,
    Pause,
}

/// What the player reads of a song that MPD reports: its title and artist
/// tags where present, all of its tags as (name, value) pairs in the order
/// MPD sent them, and its position in the queue where it is queued.
pub struct SongRecord {
    pub title: Option<String>,
    pub artist: Option<String>,
    pub tags: Vec<(String, String)>,
    pub position: Option<u32>,
}

pub struct SongRecordView {
    pub title: Option<Seq<char>>,
    pub artist: Option<Seq<char>>,
    pub tags: Seq<(Seq<char>, Seq<char>)>,
    pub position: Option<u32>,
}

pub open spec fn opt_text(o: Option<String>) -> Option<Seq<char>> {
    match o {
        Some(s) => Some(s@),
        None => None,
    }
}

impl View for SongRecord {
    type V = SongRecordView;

    open spec fn view(&self) -> SongRecordView {
        SongRecordView {
            title: opt_text(self.title),
            artist: opt_text(self.artist),
            tags: self.tags@.map_values(|t: (String, String)| (t.0@, t.1@)),
            position: self.position,
        }
    }
}

/// The song information that the window shows.
#[derive(Debug, Clone, PartialEq)]
pub struct SongInfo {
    pub title: String,
    pub artist: String,
    pub album: String,
    pub playing: bool,
    pub position: Option<u32>,
}

pub struct SongInfoView {
    pub title: Seq<char>,
    pub artist: Seq<char>,
    pub album: Seq<char>,
    pub playing: bool,
    pub position: Option<u32>,
}

impl View for SongInfo {
    type V = SongInfoView;

    open spec fn view(&self) -> SongInfoView {
        SongInfoView {
            title: self.title@,
            artist: self.artist@,
            album: self.album@,
            playing: self.playing,
            position: self.position,
        }
    }
}

/// Shown for a title or an artist that MPD does not report.
pub open spec fn unknown_text() -> Seq<char> {
    "Unknown"@
}

/// Shown for an album that MPD does not report.
pub open spec fn unknown_album_text() -> Seq<char> {
    "Album Unknown"@
}

/// Shown as the title while the server cannot be reached.
pub open spec fn disconnected_text() -> Seq<char> {
    "Disconnected"@
}

/// The name of the tag that holds a song's album.
pub open spec fn album_tag_name() -> Seq<char> {
    "Album"@
}

/// The value of the last tag named `key`: where a name occurs more than
/// once, the later pair wins.
pub open spec fn last_tag_value(tags: Seq<(Seq<char>, Seq<char>)>, key: Seq<char>) -> Option<
    Seq<char>,
>
    decreases tags.len(),
{
    if tags.len() == 0 {
        None
    } else if tags.last().0 == key {
        Some(tags.last().1)
    } else {
        last_tag_value(tags.drop_last(), key)
    }
}

/// The reported text, or `default` where MPD reports none or reports it
/// empty: a blank value counts as missing.
pub open spec fn text_or(o: Option<Seq<char>>, default: Seq<char>) -> Seq<char> {
    match o {
        Some(s) => if s.len() > 0 {
            s
        } else {
            default
        },
        None => default,
    }
}

/// The song information for a song that MPD reports.
pub open spec fn song_info_of(rec: SongRecordView, playing: bool) -> SongInfoView {
    SongInfoView {
        title: text_or(rec.title, unknown_text()),
        artist: text_or(rec.artist, unknown_text()),
        album: text_or(last_tag_value(rec.tags, album_tag_name()), unknown_album_text()),
        playing,
        position: rec.position,
    }
}

/// The song information shown while MPD reports no current song.
pub open spec fn no_song_info(playing: bool) -> SongInfoView {
    SongInfoView {
        title: unknown_text(),
        artist: unknown_text(),
        album: unknown_album_text(),
        playing,
        position: None,
    }
}

/// Whether a status reply says that the player is playing; a failed status
/// query counts as not playing.
pub open spec fn is_playing(status: Option<PlaybackState>) -> bool {
    status == Some(PlaybackState::Play)
}

fn text_or_default(o: &Option<String>, default: &str) -> (r: String)
    ensures
        r@ == text_or(opt_text(*o), default@),
{
    match o {
        Some(s) => {
            if s.as_str().is_empty() {
                String::from_str(default)
            } else {
                s.clone()
            }
        },
        None => String::from_str(default),
    }
}

/// The value of the last tag named `key` among `tags`.
pub fn last_tag(tags: &Vec<(String, String)>, key: &str) -> (r: Option<String>)
    ensures
        opt_text(r) == last_tag_value(
            tags@.map_values(|t: (String, String)| (t.0@, t.1@)),
            key@,
        ),
{
    let ghost all = tags@.map_values(|t: (String, String)| (t.0@, t.1@));
    let key_text = String::from_str(key);
    let mut found: Option<String> = None;
    let mut i: usize = 0;
    while i < tags.len()
        invariant
            i <= tags.len(),
            all == tags@.map_values(|t: (String, String)| (t.0@, t.1@)),
            key_text@ == key@,
            opt_text(found) == last_tag_value(all.take(i as int), key@),
        decreases tags.len() - i,
    {
        assert(all.take(i + 1).drop_last() =~= all.take(i as int));
        assert(all.take(i + 1).last() == all[i as int]);
        if tags[i].0 == key_text {
            found = Some(tags[i].1.clone());
        }
        i = i + 1;
    }
    assert(all.take(tags.len() as int) =~= all);
    found
}

impl SongInfo {
    /// The song information for `rec`, with the given playing flag: a title
    /// or artist that MPD reports missing or empty shows as "Unknown", the
    /// album is the last "Album" tag or, where that is missing or empty,
    /// "Album Unknown", and the position is the song's place in the queue.
    pub fn from_record(rec: &SongRecord, playing: bool) -> (s: SongInfo)
        ensures
            s@ == song_info_of(rec@, playing),
    {
        let title = text_or_default(&rec.title, "Unknown");
        let artist = text_or_default(&rec.artist, "Unknown");
        let album_tag = last_tag(&rec.tags, "Album");
        let album = text_or_default(&album_tag, "Album Unknown");
        SongInfo { title, artist, album, playing, position: rec.position }
    }

    /// What the window shows while the server cannot be reached.
    pub fn disconnected() -> (s: SongInfo)
        ensures
            s@.title == disconnected_text(),
            s@.artist == Seq::<char>::empty(),
            s@.album == Seq::<char>::empty(),
            !s@.playing,
            s@.position is None,
    {
        SongInfo {
            title: String::from_str("Disconnected"),
            artist: String::new(),
            album: String::new(),
            playing: false,
            position: None,
        }
    }
}

/// Whether a status reply says that the player is playing.
pub fn playing_from_status(status: Option<PlaybackState>) -> (b: bool)
    ensures
        b == is_playing(status),
{
    match status {
        Some(PlaybackState::Play) => true,
        _ => false,
    }
}

pub open spec fn opt_record_view(r: Option<SongRecord>) -> Option<SongRecordView> {
    match r {
        Some(rec) => Some(rec@),
        None => None,
    }
}

pub open spec fn opt_records_view(r: Option<Vec<SongRecord>>) -> Option<Seq<SongRecordView>> {
    match r {
        Some(v) => Some(v@.map_values(|rec: SongRecord| rec@)),
        None => None,
    }
}

/// The information on the current song for a status reply and a
/// current-song reply.
pub open spec fn current_info_of(status: Option<PlaybackState>, current: Option<SongRecordView>)
    -> SongInfoView {
    match current {
        Some(rec) => song_info_of(rec, is_playing(status)),
        None => no_song_info(is_playing(status)),
    }
}

/// The queue list for a queue reply.
pub open spec fn queue_infos_of(reply: Option<Seq<SongRecordView>>) -> Seq<SongInfoView> {
    match reply {
        Some(songs) => songs.map_values(|r: SongRecordView| song_info_of(r, false)),
        None => Seq::empty(),
    }
}

/// The information on the current song, from MPD's replies to a status query
/// (`None` when it failed) and to a current-song query (`None` when it
/// failed or no song is current).
pub fn current_song_info(status: Option<PlaybackState>, current: Option<SongRecord>) -> (s:
    SongInfo)
    ensures
        s@ == (match current {
            Some(rec) => song_info_of(rec@, is_playing(status)),
            None => no_song_info(is_playing(status)),
        }),
        s@ == current_info_of(status, opt_record_view(current)),
{
    let playing = playing_from_status(status);
    match current {
        Some(rec) => SongInfo::from_record(&rec, playing),
        None => SongInfo {
            title: String::from_str("Unknown"),
            artist: String::from_str("Unknown"),
            album: String::from_str("Album Unknown"),
            playing,
            position: None,
        },
    }
}

/// The queue as the window lists it, from MPD's reply to a queue query
/// (`None` when it failed, which shows an empty queue). No queued song is
/// marked as playing.
pub fn queue_song_infos(reply: Option<Vec<SongRecord>>) -> (q: Vec<SongInfo>)
    ensures
        q@.map_values(|s: SongInfo| s@) == (match reply {
            Some(songs) => songs@.map_values(|r: SongRecord| song_info_of(r@, false)),
            None => Seq::<SongInfoView>::empty(),
        }),
        q@.map_values(|s: SongInfo| s@) == queue_infos_of(opt_records_view(reply)),
{
    let mut out: Vec<SongInfo> = Vec::new();
    match reply {
        None => {
            assert(out@.map_values(|s: SongInfo| s@) =~= Seq::<SongInfoView>::empty());
            out
        },
        Some(songs) => {
            let mut i: usize = 0;
            while i < songs.len()
                invariant
                    i <= songs.len(),
                    out@.len() == i,
                    forall|j: int|
                        0 <= j < i ==> #[trigger] out@[j]@ == song_info_of(songs@[j]@, false),
                decreases songs.len() - i,
            {
                let info = SongInfo::from_record(&songs[i], false);
                out.push(info);
                i = i + 1;
            }
            assert(out@.map_values(|s: SongInfo| s@) =~= songs@.map_values(
                |r: SongRecord| song_info_of(r@, false),
            ));
            out
        },
    }
}

/// The song information always names a title: MPD's title where it reports
/// a non-empty one, otherwise "Unknown"; also when no song is current.
pub proof fn song_title_is_never_blank(rec: Option<SongRecordView>, playing: bool)
    ensures
        (match rec {
            Some(r) => song_info_of(r, playing),
            None => no_song_info(playing),
        }).title.len() > 0,
{
    reveal_strlit("Unknown");
}

/// Every song names a title, an artist and an album, whatever MPD reports.
pub proof fn songs_are_named(rec: SongRecordView, playing: bool)
    ensures
        song_info_of(rec, playing).title.len() > 0,
        song_info_of(rec, playing).artist.len() > 0,
        song_info_of(rec, playing).album.len() > 0,
{
    reveal_strlit("Unknown");
    reveal_strlit("Album Unknown");
}

/// The information on the current song and that of the same song in the
/// queue agree on every field but the playing flag.
pub proof fn current_and_queued_song_agree(rec: SongRecordView, playing: bool)
    ensures
        song_info_of(rec, playing) == (SongInfoView { playing, ..song_info_of(rec, false) }),
{
}

/// The song information shows MPD's title and artist where it reports them
/// non-empty and "Unknown" otherwise, each independent of the other tags;
/// the album is the last "Album" tag where that is non-empty and "Album
/// Unknown" otherwise; the playing flag is the one given and the position is
/// the song's queue position.
pub proof fn song_info_fields(rec: SongRecordView, playing: bool)
    ensures
        ({
            let info = song_info_of(rec, playing);
            &&& (rec.title is None ==> info.title == "Unknown"@)
            &&& (rec.title matches Some(t) ==> info.title == (if t.len() > 0 {
                t
            } else {
                "Unknown"@
            }))
            &&& (rec.artist is None ==> info.artist == "Unknown"@)
            &&& (rec.artist matches Some(a) ==> info.artist == (if a.len() > 0 {
                a
            } else {
                "Unknown"@
            }))
            &&& (last_tag_value(rec.tags, "Album"@) is None ==> info.album == "Album Unknown"@)
            &&& (last_tag_value(rec.tags, "Album"@) matches Some(a) ==> info.album == (if a.len()
                > 0 {
                a
            } else {
                "Album Unknown"@
            }))
            &&& info.playing == playing
            &&& info.position == rec.position
        }),
{
}

/// With no current song the information names an unknown title, artist and
/// album at no queue position; while disconnected it says "Disconnected".
pub proof fn placeholder_texts(playing: bool)
    ensures
        no_song_info(playing).title == "Unknown"@,
        no_song_info(playing).artist == "Unknown"@,
        no_song_info(playing).album == "Album Unknown"@,
        no_song_info(playing).playing == playing,
        no_song_info(playing).position is None,
        disconnected_text() == "Disconnected"@,
{
}

/// The player counts as playing exactly when the status reply says Play.
pub proof fn playing_means_status_play(status: Option<PlaybackState>)
    ensures
        is_playing(status) <==> (status matches Some(st) && st == PlaybackState::Play),
{
}

/// A tag's value is the value of its last occurrence: where `tags[i]` is
/// named `key` and no later pair is, it is `tags[i]`'s value; where no pair
/// is named `key`, there is none.
pub proof fn last_occurrence_wins(tags: Seq<(Seq<char>, Seq<char>)>, key: Seq<char>)
    ensures
        forall|i: int|
            0 <= i < tags.len() && #[trigger] tags[i].0 == key && (forall|j: int|
                i < j < tags.len() ==> tags[j].0 != key) ==> last_tag_value(tags, key) == Some(
                tags[i].1,
            ),
        (forall|i: int| 0 <= i < tags.len() ==> #[trigger] tags[i].0 != key) ==> last_tag_value(
            tags,
            key,
        ) is None,
    decreases tags.len(),
{
    if tags.len() > 0 {
        let rest = tags.drop_last();
        last_occurrence_wins(rest, key);
        assert forall|i: int|
            0 <= i < tags.len() && #[trigger] tags[i].0 == key && (forall|j: int|
                i < j < tags.len() ==> tags[j].0 != key) implies last_tag_value(tags, key) == Some(
            tags[i].1,
        ) by {
            if i < tags.len() - 1 {
                assert(tags[tags.len() - 1].0 != key);
                assert(rest[i] == tags[i]);
                assert forall|j: int| i < j < rest.len() implies rest[j].0 != key by {
                    assert(rest[j] == tags[j]);
                }
            }
        }
        if forall|i: int| 0 <= i < tags.len() ==> #[trigger] tags[i].0 != key {
            assert(tags[tags.len() - 1].0 != key);
            assert forall|i: int| 0 <= i < rest.len() implies #[trigger] rest[i].0 != key by {
                assert(rest[i] == tags[i]);
            }
        }
    }
}

/// The current song's information plays exactly when the status says Play;
/// with a current song it is that song's information, and without one it
/// names nothing at no position.
pub proof fn current_info_follows_replies(status: Option<PlaybackState>, current: Option<
    SongRecordView,
>)
    ensures
        ({
            let info = current_info_of(status, current);
            &&& info.playing == (status == Some(PlaybackState::Play))
            &&& (current matches Some(r) ==> info == song_info_of(r, info.playing))
            &&& (current is None ==> info.title == "Unknown"@ && info.artist == "Unknown"@
                && info.album == "Album Unknown"@ && info.position is None)
        }),
{
}

/// The queue list has one entry per queued song, in the queue's order, none
/// of them playing, each the information of its song; a failed queue reply
/// shows an empty queue.
pub proof fn queue_follows_reply(reply: Option<Seq<SongRecordView>>)
    ensures
        reply is None ==> queue_infos_of(reply).len() == 0,
        reply matches Some(songs) ==> {
            &&& queue_infos_of(reply).len() == songs.len()
            &&& forall|i: int|
                0 <= i < songs.len() ==> {
                    &&& !(#[trigger] queue_infos_of(reply)[i]).playing
                    &&& queue_infos_of(reply)[i] == song_info_of(songs[i], false)
                    &&& queue_infos_of(reply)[i].position == songs[i].position
                }
        },
{
}

} // verus!
