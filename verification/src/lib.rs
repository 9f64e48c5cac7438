//! The verified core of a small desktop music player that drives an MPD
//! server: the player's state machine, the conversion of MPD's replies into
//! the song information that the window shows, the choice of theme and the
//! decoding of album art.

pub mod album_art;
pub mod client;
pub mod config;
pub mod player;
pub mod song;
pub mod theme;
pub mod view_model;

pub use album_art::{decode_album_art, AlbumArt};
pub use client::LiveMpdClient;
pub use config::Config;
pub use player::{Message, SongData};
pub use song::SongInfo;
pub use theme::theme_from_string;
