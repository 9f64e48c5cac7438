//! The connection settings of a live MPD client and the decisions that the
//! client takes on the server's replies.

use vstd::prelude::*;
use crate::song::{PlaybackState, is_playing};

verus! {

/// A client of the MPD server at `addr` (`host:port`). It keeps no open
/// connection: each request connects anew.
pub struct LiveMpdClient {
    addr: String,
}

impl View for LiveMpdClient {
    type V = Seq<char>;

    closed spec fn view(&self) -> Seq<char> {
        self.addr@
    }
}

impl LiveMpdClient {
    /// A client of the server at `addr`.
    pub fn new(addr: String) -> (c: Self)
        ensures
            c@ == addr@,
    {
        LiveMpdClient { addr }
    }

    /// The address of the server that this client talks to.
    pub fn addr(&self) -> (a: &String)
        ensures
            a@ == self@,
    {
        &self.addr
    }
}

/// Seconds to wait before connecting again when the server cannot be
/// reached while waiting for a change of the player.
pub const RECONNECT_DELAY_SECS: u64 = 5;

/// The request that toggling playback sends to the server.
#[derive(Clone, Copy, Debug, PartialEq, Eq, Structural)]
pub enum Transport {
    /// Pause playback.
    Pause,
    /// Start or resume playback.
    Play,
}

/// What toggling does on a status reply: pause a playing player, start any
/// other; when the status query failed, send nothing.
pub open spec fn toggle_spec(status: Option<PlaybackState>) -> Option<Transport> {
    match status {
        Some(PlaybackState::Play) => Some(Transport::Pause),
        Some(_) => Some(Transport::Play),
        None => None,
    }
}

/// The state that the server reports once it has carried out `t`: paused
/// after a pause request, playing after a play request.
pub open spec fn state_after(t: Transport) -> PlaybackState {
    match t {
        Transport::Pause => PlaybackState::Pause,
        Transport::Play => PlaybackState::Play,
    }
}

/// Whether the player plays once the server has carried out `t`.
pub open spec fn playing_after(t: Transport) -> bool {
    is_playing(Some(state_after(t)))
}

/// The request that toggling playback sends, given the server's reply to a
/// status query (`None` when the query failed).
pub fn toggle_command(status: Option<PlaybackState>) -> (t: Option<Transport>)
    ensures
        t == toggle_spec(status),
{
    match status {
        Some(PlaybackState::Play) => Some(Transport::Pause),
        Some(_) => Some(Transport::Play),
        None => None,
    }
}

/// Toggling playback turns a playing player into one that does not play,
/// and any other into one that plays: once the server has carried out the
/// request, the song information reports the opposite playing flag.
pub proof fn toggle_flips_playing(state: PlaybackState)
    ensures
        toggle_spec(Some(state)) is Some,
        playing_after(toggle_spec(Some(state))->0) != is_playing(Some(state)),
{
}

/// Toggling twice brings the playing flag back to what it was, and brings
/// back a playing or paused player exactly; a stopped player comes back
/// paused.
pub proof fn toggling_twice_restores(state: PlaybackState)
    ensures
        ({
            let once = state_after(toggle_spec(Some(state))->0);
            let twice = state_after(toggle_spec(Some(once))->0);
            &&& is_playing(Some(twice)) == is_playing(Some(state))
            &&& state != PlaybackState::Stop ==> twice == state
            &&& state == PlaybackState::Stop ==> twice == PlaybackState::Pause
        }),
{
}

/// Toggling pauses a playing player, starts a paused or stopped one, and
/// sends nothing when the status query failed.
pub proof fn toggle_decisions(status: Option<PlaybackState>)
    ensures
        status == Some(PlaybackState::Play) ==> toggle_spec(status) == Some(Transport::Pause),
        status == Some(PlaybackState::Pause) ==> toggle_spec(status) == Some(Transport::Play),
        status == Some(PlaybackState::Stop) ==> toggle_spec(status) == Some(Transport::Play),
        status is None ==> toggle_spec(status) is None,
{
}

} // verus!
