//! The player's state and how each message changes it: which request goes
//! to the server or to the settings file, and what the player does next.

use vstd::prelude::*;
use crate::album_art::{AlbumArt, AlbumArtView, opt_art_view};
use crate::config::{Config, ConfigView};
use crate::song::{SongInfo, SongInfoView};

verus! {

/// Everything that the player's window shows and edits.
pub struct SongData {
    pub song_title: String,
    pub album: String,
    pub artist: String,
    pub playing: bool,
    /// The queue position of the current song (0 where MPD reports none).
    pub position: u32,
    pub album_art: Option<AlbumArt>,
    pub queue: Vec<SongInfo>,
    pub config: Config,
    /// The server address as typed, not yet confirmed.
    pub address_input: String,
}

pub struct SongDataView {
    pub song_title: Seq<char>,
    pub album: Seq<char>,
    pub artist: Seq<char>,
    pub playing: bool,
    pub position: u32,
    pub album_art: Option<AlbumArtView>,
    pub queue: Seq<SongInfoView>,
    pub config: ConfigView,
    pub address_input: Seq<char>,
}

pub open spec fn queue_view(q: Seq<SongInfo>) -> Seq<SongInfoView> {
    q.map_values(|s: SongInfo| s@)
}

impl View for SongData {
    type V = SongDataView;

    open spec fn view(&self) -> SongDataView {
        SongDataView {
            song_title: self.song_title@,
            album: self.album@,
            artist: self.artist@,
            playing: self.playing,
            position: self.position,
            album_art: opt_art_view(self.album_art),
            queue: queue_view(self.queue@),
            config: self.config@,
            address_input: self.address_input@,
        }
    }
}

/// What happens in the player: a button pressed, a reply arrived, a setting
/// edited.
#[derive(Debug, Clone)]
pub enum Message {
    TogglePlay,
    NextSong,
    PreviousSong,
    RefreshDisplay,
    RefreshSongInfo,
    SongInfoLoaded(SongInfo),
    RefreshAlbumArt,
    AlbumArtLoaded(Option<AlbumArt>),
    RefreshSongQueue,
    SongQueueLoaded(Vec<SongInfo>),
    PlayQueueItem(u32),
    DeleteQueueItem(u32),
    /// A theme was picked; it carries the theme's name.
    ThemeChanged(String),
    AddressInputChanged(String),
    AddressConfirmed,
}

/// A request to the outside world that a message asks for, carried out
/// before anything else happens.
#[derive(Clone, Copy, Debug, PartialEq, Eq, Structural)]
pub enum Effect {
    /// Ask the server to toggle between playing and paused.
    TogglePlay,
    /// Ask the server to skip to the next song.
    NextSong,
    /// Ask the server to go back to the previous song.
    PreviousSong,
    /// Ask the server to play the song at this queue position.
    PlayQueuePosition(u32),
    /// Ask the server to remove the song at this queue position.
    DeleteQueuePosition(u32),
    /// Write the player's current settings to the settings file.
    SaveConfig,
}

/// A message without payload that the player sends itself.
#[derive(Clone, Copy, Debug, PartialEq, Eq, Structural)]
pub enum Refresh {
    Display,
    SongInfo,
    AlbumArt,
    SongQueue,
}

/// A query to the server whose reply comes back as a message.
#[derive(Clone, Copy, Debug, PartialEq, Eq, Structural)]
pub enum Fetch {
    /// Fetch the current song's information; the reply comes back as
    /// `SongInfoLoaded`.
    SongInfo,
    /// Fetch and decode the current song's album art; the reply comes back
    /// as `AlbumArtLoaded`.
    AlbumArt,
    /// Fetch the queue; the reply comes back as `SongQueueLoaded`.
    SongQueue,
}

/// What the player does after handling a message.
#[derive(Clone, Copy, Debug, PartialEq, Eq, Structural)]
pub enum Followup {
    Nothing,
    /// Send this message to itself.
    Dispatch(Refresh),
    /// Send itself the messages that refresh the song information, the
    /// album art and the queue.
    RefreshEverything,
    /// Query the server in the background.
    Fetch(Fetch),
}

/// The outcome of handling one message, besides the new state.
#[derive(Clone, Copy, Debug, PartialEq, Eq, Structural)]
pub struct Step {
    pub effect: Option<Effect>,
    pub followup: Followup,
}

/// The message that a refresh stands for.
pub open spec fn refresh_message(r: Refresh) -> Message {
    match r {
        Refresh::Display => Message::RefreshDisplay,
        Refresh::SongInfo => Message::RefreshSongInfo,
        Refresh::AlbumArt => Message::RefreshAlbumArt,
        Refresh::SongQueue => Message::RefreshSongQueue,
    }
}

/// The messages that a follow-up sends, in order.
pub open spec fn dispatched(f: Followup) -> Seq<Message> {
    match f {
        Followup::Dispatch(r) => seq![refresh_message(r)],
        Followup::RefreshEverything => seq![
            Message::RefreshSongInfo,
            Message::RefreshAlbumArt,
            Message::RefreshSongQueue,
        ],
        _ => Seq::empty(),
    }
}

impl Refresh {
    /// The message that this refresh stands for.
    pub fn message(self) -> (m: Message)
        ensures
            m == refresh_message(self),
    {
        match self {
            Refresh::Display => Message::RefreshDisplay,
            Refresh::SongInfo => Message::RefreshSongInfo,
            Refresh::AlbumArt => Message::RefreshAlbumArt,
            Refresh::SongQueue => Message::RefreshSongQueue,
        }
    }
}

impl Followup {
    /// The messages that this follow-up sends to the player, in order.
    pub fn messages(&self) -> (ms: Vec<Message>)
        ensures
            ms@ == dispatched(*self),
    {
        match self {
            Followup::Dispatch(r) => {
                let mut v = Vec::new();
                v.push(r.message());
                v
            },
            Followup::RefreshEverything => {
                let mut v = Vec::new();
                v.push(Message::RefreshSongInfo);
                v.push(Message::RefreshAlbumArt);
                v.push(Message::RefreshSongQueue);
                v
            },
            _ => Vec::new(),
        }
    }
}

/// The state of a freshly started player with these settings: nothing
/// known of the server yet, and the address field showing the configured
/// address.
pub open spec fn initial_state(config: ConfigView) -> SongDataView {
    SongDataView {
        song_title: Seq::empty(),
        album: Seq::empty(),
        artist: Seq::empty(),
        playing: false,
        position: 0,
        album_art: None,
        queue: Seq::empty(),
        config,
        address_input: config.mpd_address,
    }
}

/// The state after handling message `m` in state `s`.
pub open spec fn next_state(s: SongDataView, m: Message) -> SongDataView {
    match m {
        Message::SongInfoLoaded(info) => SongDataView {
            playing: info@.playing,
            song_title: info@.title,
            artist: info@.artist,
            album: info@.album,
            position: match info@.position {
                Some(p) => p,
                None => 0,
            },
            ..s
        },
        Message::AlbumArtLoaded(art) => SongDataView { album_art: opt_art_view(art), ..s },
        Message::SongQueueLoaded(q) => SongDataView { queue: queue_view(q@), ..s },
        Message::ThemeChanged(name) => SongDataView {
            config: ConfigView { theme: name@, ..s.config },
            ..s
        },
        Message::AddressInputChanged(a) => SongDataView { address_input: a@, ..s },
        Message::AddressConfirmed => SongDataView {
            config: ConfigView { mpd_address: s.address_input, ..s.config },
            ..s
        },
        _ => s,
    }
}

/// The request and the follow-up that message `m` makes.
pub open spec fn step_for(m: Message) -> Step {
    match m {
        Message::TogglePlay => Step {
            effect: Some(Effect::TogglePlay),
            followup: Followup::Dispatch(Refresh::SongInfo),
        },
        Message::NextSong => Step {
            effect: Some(Effect::NextSong),
            followup: Followup::Dispatch(Refresh::SongInfo),
        },
        Message::PreviousSong => Step {
            effect: Some(Effect::PreviousSong),
            followup: Followup::Dispatch(Refresh::SongInfo),
        },
        Message::RefreshDisplay => Step { effect: None, followup: Followup::RefreshEverything },
        Message::RefreshSongInfo => Step { effect: None, followup: Followup::Fetch(Fetch::SongInfo) },
        Message::RefreshAlbumArt => Step { effect: None, followup: Followup::Fetch(Fetch::AlbumArt) },
        Message::RefreshSongQueue => Step {
            effect: None,
            followup: Followup::Fetch(Fetch::SongQueue),
        },
        Message::PlayQueueItem(p) => Step {
            effect: Some(Effect::PlayQueuePosition(p)),
            followup: Followup::Dispatch(Refresh::SongInfo),
        },
        Message::DeleteQueueItem(p) => Step {
            effect: Some(Effect::DeleteQueuePosition(p)),
            followup: Followup::Dispatch(Refresh::SongQueue),
        },
        Message::ThemeChanged(_) => Step { effect: Some(Effect::SaveConfig), followup: Followup::Nothing },
        Message::AddressConfirmed => Step {
            effect: Some(Effect::SaveConfig),
            followup: Followup::Dispatch(Refresh::Display),
        },
        _ => Step { effect: None, followup: Followup::Nothing },
    }
}

impl SongData {
    /// A freshly started player with these settings, and the request to
    /// write the settings to the settings file.
    pub fn new(config: Config) -> (r: (SongData, Effect))
        ensures
            r.0@ == initial_state(config@),
            r.1 == Effect::SaveConfig,
    {
        let address_input = config.mpd_address.clone();
        let state = SongData {
            song_title: String::new(),
            album: String::new(),
            artist: String::new(),
            playing: false,
            position: 0,
            album_art: None,
            queue: Vec::new(),
            address_input,
            config,
        };
        proof {
            assert(queue_view(state.queue@) =~= Seq::<SongInfoView>::empty());
        }
        (state, Effect::SaveConfig)
    }

    /// Handles one message: changes the state as `next_state` says and
    /// returns the request and the follow-up that `step_for` says.
    pub fn update(&mut self, message: Message) -> (step: Step)
        ensures
            final(self)@ == next_state(old(self)@, message),
            step == step_for(message),
    {
        match message {
            Message::TogglePlay => Step {
                effect: Some(Effect::TogglePlay),
                followup: Followup::Dispatch(Refresh::SongInfo),
            },
            Message::NextSong => Step {
                effect: Some(Effect::NextSong),
                followup: Followup::Dispatch(Refresh::SongInfo),
            },
            Message::PreviousSong => Step {
                effect: Some(Effect::PreviousSong),
                followup: Followup::Dispatch(Refresh::SongInfo),
            },
            Message::RefreshSongInfo => Step {
                effect: None,
                followup: Followup::Fetch(Fetch::SongInfo),
            },
            Message::SongInfoLoaded(song_info) => {
                self.playing = song_info.playing;
                self.song_title = song_info.title;
                self.artist = song_info.artist;
                self.album = song_info.album;
                self.position = match song_info.position {
                    Some(p) => p,
                    None => 0,
                };
                Step { effect: None, followup: Followup::Nothing }
            },
            Message::RefreshDisplay => Step { effect: None, followup: Followup::RefreshEverything },
            Message::RefreshAlbumArt => Step {
                effect: None,
                followup: Followup::Fetch(Fetch::AlbumArt),
            },
            Message::AlbumArtLoaded(handle) => {
                self.album_art = handle;
                Step { effect: None, followup: Followup::Nothing }
            },
            Message::RefreshSongQueue => Step {
                effect: None,
                followup: Followup::Fetch(Fetch::SongQueue),
            },
            Message::SongQueueLoaded(song_queue) => {
                self.queue = song_queue;
                Step { effect: None, followup: Followup::Nothing }
            },
            Message::PlayQueueItem(position) => Step {
                effect: Some(Effect::PlayQueuePosition(position)),
                followup: Followup::Dispatch(Refresh::SongInfo),
            },
            Message::DeleteQueueItem(position) => Step {
                effect: Some(Effect::DeleteQueuePosition(position)),
                followup: Followup::Dispatch(Refresh::SongQueue),
            },
            Message::ThemeChanged(theme_name) => {
                self.config.theme = theme_name;
                Step { effect: Some(Effect::SaveConfig), followup: Followup::Nothing }
            },
            Message::AddressInputChanged(address) => {
                self.address_input = address;
                Step { effect: None, followup: Followup::Nothing }
            },
            Message::AddressConfirmed => {
                self.config.mpd_address = self.address_input.clone();
                Step { effect: Some(Effect::SaveConfig), followup: Followup::Dispatch(Refresh::Display) }
            },
        }
    }
}

/// Only a picked theme and a confirmed address change the settings, and
/// each of them writes the settings to the settings file.
pub proof fn settings_changes_are_saved(s: SongDataView, m: Message)
    ensures
        next_state(s, m).config == s.config || step_for(m).effect == Some(Effect::SaveConfig),
{
}

/// An address typed and then confirmed becomes the configured server
/// address, is written to the settings file, and the whole display is
/// refreshed from the server.
pub proof fn confirmed_address_is_used(s: SongDataView, typed: String)
    ensures
        next_state(next_state(s, Message::AddressInputChanged(typed)), Message::AddressConfirmed).config.mpd_address
            == typed@,
        step_for(Message::AddressConfirmed) == (Step {
            effect: Some(Effect::SaveConfig),
            followup: Followup::Dispatch(Refresh::Display),
        }),
{
}

/// A player control (toggle, next, previous, play a queue position) leaves
/// the state alone, sends exactly its request to the server and then asks
/// for fresh song information.
pub proof fn player_controls_reload_song_info(s: SongDataView, m: Message)
    requires
        m is TogglePlay || m is NextSong || m is PreviousSong || m is PlayQueueItem,
    ensures
        next_state(s, m) == s,
        step_for(m).effect is Some,
        step_for(m).effect != Some(Effect::SaveConfig),
        step_for(m).followup == Followup::Dispatch(Refresh::SongInfo),
{
}

/// Removing a queue position asks the server to remove exactly that
/// position, leaves the state alone and then reloads the queue.
pub proof fn deletion_reloads_queue(s: SongDataView, position: u32)
    ensures
        next_state(s, Message::DeleteQueueItem(position)) == s,
        step_for(Message::DeleteQueueItem(position)) == (Step {
            effect: Some(Effect::DeleteQueuePosition(position)),
            followup: Followup::Dispatch(Refresh::SongQueue),
        }),
{
}

/// A reply from the server only changes the state: it sends no request and
/// starts nothing further.
pub proof fn replies_only_change_state(s: SongDataView, m: Message)
    requires
        m is SongInfoLoaded || m is AlbumArtLoaded || m is SongQueueLoaded,
    ensures
        step_for(m) == (Step { effect: None, followup: Followup::Nothing }),
{
}

/// A refresh request leaves the state alone and sends no request of its
/// own; it only starts queries.
pub proof fn refreshes_only_query(s: SongDataView, m: Message)
    requires
        m is RefreshDisplay || m is RefreshSongInfo || m is RefreshAlbumArt || m is RefreshSongQueue,
    ensures
        next_state(s, m) == s,
        step_for(m).effect is None,
{
}

/// Refreshing the display queries the server for the song information, the
/// album art and the queue, each once.
pub proof fn refreshing_display_fetches_everything()
    ensures
        dispatched(step_for(Message::RefreshDisplay).followup).len() == 3,
        step_for(dispatched(step_for(Message::RefreshDisplay).followup)[0]).followup
            == Followup::Fetch(Fetch::SongInfo),
        step_for(dispatched(step_for(Message::RefreshDisplay).followup)[1]).followup
            == Followup::Fetch(Fetch::AlbumArt),
        step_for(dispatched(step_for(Message::RefreshDisplay).followup)[2]).followup
            == Followup::Fetch(Fetch::SongQueue),
{
}

/// Handling the same message twice in a row leaves the player in the same
/// state as handling it once.
pub proof fn handling_twice_is_handling_once(s: SongDataView, m: Message)
    ensures
        next_state(next_state(s, m), m) == next_state(s, m),
{
}

/// A started player keeps exactly the settings it was given, shows the
/// configured address in the address field, and knows nothing of the
/// server yet.
pub proof fn start_keeps_settings(c: ConfigView)
    ensures
        initial_state(c).config == c,
        initial_state(c).address_input == c.mpd_address,
        initial_state(c).song_title.len() == 0,
        initial_state(c).artist.len() == 0,
        initial_state(c).album.len() == 0,
        !initial_state(c).playing,
        initial_state(c).position == 0,
        initial_state(c).album_art is None,
        initial_state(c).queue.len() == 0,
{
}

/// The song-information reply is shown as it is, whether the player plays
/// or not: its title, artist, album and playing flag, and its queue
/// position (0 where it has none). Nothing else changes.
pub proof fn song_info_reply_is_shown(s: SongDataView, info: SongInfo)
    ensures
        ({
            let n = next_state(s, Message::SongInfoLoaded(info));
            &&& n.song_title == info@.title
            &&& n.artist == info@.artist
            &&& n.album == info@.album
            &&& n.playing == info@.playing
            &&& (info@.position matches Some(p) ==> n.position == p)
            &&& (info@.position is None ==> n.position == 0)
            &&& n.album_art == s.album_art
            &&& n.queue == s.queue
            &&& n.config == s.config
            &&& n.address_input == s.address_input
        }),
{
}

/// The album-art reply replaces whatever picture was shown: the new
/// picture, or none where the reply has none. Nothing else changes.
pub proof fn album_art_reply_replaces_picture(s: SongDataView, art: Option<AlbumArt>)
    ensures
        ({
            let n = next_state(s, Message::AlbumArtLoaded(art));
            &&& (art matches Some(a) ==> n.album_art == Some(a@))
            &&& (art is None ==> n.album_art is None)
            &&& n == (SongDataView { album_art: n.album_art, ..s })
        }),
{
}

/// The queue reply replaces the shown queue, song for song in the same
/// order. Nothing else changes.
pub proof fn queue_reply_replaces_queue(s: SongDataView, q: Vec<SongInfo>)
    ensures
        ({
            let n = next_state(s, Message::SongQueueLoaded(q));
            &&& n.queue.len() == q@.len()
            &&& forall|i: int| 0 <= i < q@.len() ==> n.queue[i] == #[trigger] q@[i]@
            &&& n == (SongDataView { queue: n.queue, ..s })
        }),
{
}

/// A picked theme's name becomes the configured theme; the server address
/// and everything else stay.
pub proof fn picked_theme_is_kept(s: SongDataView, name: String)
    ensures
        ({
            let n = next_state(s, Message::ThemeChanged(name));
            &&& n.config.theme == name@
            &&& n.config.mpd_address == s.config.mpd_address
            &&& n == (SongDataView { config: n.config, ..s })
        }),
{
}

/// Typing an address only changes the address field; the configured
/// address stays until it is confirmed.
pub proof fn typing_only_edits_the_field(s: SongDataView, typed: String)
    ensures
        ({
            let n = next_state(s, Message::AddressInputChanged(typed));
            &&& n.address_input == typed@
            &&& n == (SongDataView { address_input: n.address_input, ..s })
        }),
        step_for(Message::AddressInputChanged(typed)).effect is None,
{
}

/// Confirming makes the address field the configured server address and
/// keeps the theme and everything else.
pub proof fn confirming_configures_the_field(s: SongDataView)
    ensures
        ({
            let n = next_state(s, Message::AddressConfirmed);
            &&& n.config.mpd_address == s.address_input
            &&& n.config.theme == s.config.theme
            &&& n == (SongDataView { config: n.config, ..s })
        }),
        dispatched(step_for(Message::AddressConfirmed).followup) == seq![Message::RefreshDisplay],
{
}

/// After a player control the player sends itself exactly the message that
/// refreshes the song information, and that message fetches it from the
/// server; after a deletion it sends itself exactly the message that
/// refreshes the queue, which fetches the queue.
pub proof fn controls_dispatch_the_right_refresh(m: Message, position: u32)
    requires
        m is TogglePlay || m is NextSong || m is PreviousSong || m is PlayQueueItem,
    ensures
        dispatched(step_for(m).followup) == seq![Message::RefreshSongInfo],
        step_for(Message::RefreshSongInfo).followup == Followup::Fetch(Fetch::SongInfo),
        dispatched(step_for(Message::DeleteQueueItem(position)).followup)
            == seq![Message::RefreshSongQueue],
        step_for(Message::RefreshSongQueue).followup == Followup::Fetch(Fetch::SongQueue),
{
}

/// Each refresh message stands for itself: the message that a refresh
/// dispatches is the refresh message of the same part.
pub proof fn refreshes_stand_for_themselves()
    ensures
        refresh_message(Refresh::Display) is RefreshDisplay,
        refresh_message(Refresh::SongInfo) is RefreshSongInfo,
        refresh_message(Refresh::AlbumArt) is RefreshAlbumArt,
        refresh_message(Refresh::SongQueue) is RefreshSongQueue,
{
}

/// Each player control sends exactly its own request: toggle, next,
/// previous, or play of the same queue position.
pub proof fn controls_send_their_own_request(p: u32)
    ensures
        step_for(Message::TogglePlay).effect == Some(Effect::TogglePlay),
        step_for(Message::NextSong).effect == Some(Effect::NextSong),
        step_for(Message::PreviousSong).effect == Some(Effect::PreviousSong),
        step_for(Message::PlayQueueItem(p)).effect == Some(Effect::PlayQueuePosition(p)),
        step_for(Message::DeleteQueueItem(p)).effect == Some(Effect::DeleteQueuePosition(p)),
        step_for(Message::RefreshAlbumArt).followup == Followup::Fetch(Fetch::AlbumArt),
{
}

} // verus!
