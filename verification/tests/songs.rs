use music_player::client::{toggle_command, LiveMpdClient, Transport, RECONNECT_DELAY_SECS};
use music_player::config::{Config, CONFIG_DIR_NAME, CONFIG_FILE_NAME};
use music_player::song::{
    current_song_info, last_tag, playing_from_status, queue_song_infos, PlaybackState, SongInfo,
    SongRecord,
};

fn record(title: Option<&str>, artist: Option<&str>, tags: &[(&str, &str)], position: Option<u32>) -> SongRecord {
    SongRecord {
        title: title.map(|s| s.to_string()),
        artist: artist.map(|s| s.to_string()),
        tags: tags.iter().map(|(k, v)| (k.to_string(), v.to_string())).collect(),
        position,
    }
}

#[test]
fn default_config_values() {
    let c = Config::default();
    assert_eq!(c.mpd_address, "127.0.0.1:6600");
    assert_eq!(c.theme, "Moonfly");
    assert_eq!(CONFIG_DIR_NAME, "music_player");
    assert_eq!(CONFIG_FILE_NAME, "config.toml");
}

#[test]
fn live_client_keeps_address() {
    let c = LiveMpdClient::new("music.local:6600".to_string());
    assert_eq!(c.addr(), "music.local:6600");
    assert_eq!(RECONNECT_DELAY_SECS, 5);
}

#[test]
fn song_info_from_full_record() {
    let rec = record(Some("Song"), Some("Band"), &[("Genre", "Rock"), ("Album", "Record")], Some(3));
    let info = SongInfo::from_record(&rec, true);
    assert_eq!(info.title, "Song");
    assert_eq!(info.artist, "Band");
    assert_eq!(info.album, "Record");
    assert!(info.playing);
    assert_eq!(info.position, Some(3));
}

#[test]
fn song_info_fallbacks() {
    let rec = record(None, None, &[("album", "lower case is another tag")], None);
    let info = SongInfo::from_record(&rec, false);
    assert_eq!(info.title, "Unknown");
    assert_eq!(info.artist, "Unknown");
    assert_eq!(info.album, "Album Unknown");
    assert!(!info.playing);
    assert_eq!(info.position, None);
}

#[test]
fn last_album_tag_wins() {
    let tags = vec![
        ("Album".to_string(), "First".to_string()),
        ("Artist".to_string(), "X".to_string()),
        ("Album".to_string(), "Second".to_string()),
    ];
    assert_eq!(last_tag(&tags, "Album"), Some("Second".to_string()));
    assert_eq!(last_tag(&tags, "Artist"), Some("X".to_string()));
    assert_eq!(last_tag(&tags, "Date"), None);
    assert_eq!(last_tag(&vec![], "Album"), None);
}

#[test]
fn disconnected_info() {
    let info = SongInfo::disconnected();
    assert_eq!(info.title, "Disconnected");
    assert_eq!(info.artist, "");
    assert_eq!(info.album, "");
    assert!(!info.playing);
    assert_eq!(info.position, None);
}

#[test]
fn current_song_info_cases() {
    let info = current_song_info(Some(PlaybackState::Play), None);
    assert_eq!(info.title, "Unknown");
    assert_eq!(info.artist, "Unknown");
    assert_eq!(info.album, "Album Unknown");
    assert!(info.playing);
    assert_eq!(info.position, None);

    let info = current_song_info(None, Some(record(Some("T"), None, &[], Some(1))));
    assert_eq!(info.title, "T");
    assert!(!info.playing);
    assert_eq!(info.position, Some(1));

    let info = current_song_info(Some(PlaybackState::Pause), Some(record(Some("T"), Some("A"), &[], None)));
    assert!(!info.playing);
    assert_eq!(info.artist, "A");
}

#[test]
fn playing_only_when_status_says_play() {
    assert!(playing_from_status(Some(PlaybackState::Play)));
    assert!(!playing_from_status(Some(PlaybackState::Pause)));
    assert!(!playing_from_status(Some(PlaybackState::Stop)));
    assert!(!playing_from_status(None));
}

#[test]
fn queue_conversion() {
    assert!(queue_song_infos(None).is_empty());
    assert!(queue_song_infos(Some(vec![])).is_empty());
    let q = queue_song_infos(Some(vec![
        record(Some("One"), Some("A"), &[("Album", "X")], Some(0)),
        record(None, None, &[], Some(1)),
    ]));
    assert_eq!(q.len(), 2);
    assert_eq!(q[0].title, "One");
    assert_eq!(q[0].artist, "A");
    assert_eq!(q[0].album, "X");
    assert_eq!(q[0].position, Some(0));
    assert_eq!(q[1].title, "Unknown");
    assert_eq!(q[1].album, "Album Unknown");
    assert_eq!(q[1].position, Some(1));
    assert!(q.iter().all(|s| !s.playing));
}

#[test]
fn song_titles_are_never_blank() {
    for status in [None, Some(PlaybackState::Play), Some(PlaybackState::Stop)] {
        assert!(!current_song_info(status, None).title.is_empty());
        assert!(!current_song_info(status, Some(record(None, None, &[], None))).title.is_empty());
    }
    let q = queue_song_infos(Some(vec![record(None, None, &[], None)]));
    assert!(!q[0].title.is_empty());
    assert!(!q[0].artist.is_empty());
    assert!(!q[0].album.is_empty());
}

#[test]
fn toggle_decisions() {
    assert_eq!(toggle_command(Some(PlaybackState::Play)), Some(Transport::Pause));
    assert_eq!(toggle_command(Some(PlaybackState::Pause)), Some(Transport::Play));
    assert_eq!(toggle_command(Some(PlaybackState::Stop)), Some(Transport::Play));
    assert_eq!(toggle_command(None), None);
}

#[test]
fn toggling_flips_playing() {
    for state in [PlaybackState::Play, PlaybackState::Pause, PlaybackState::Stop] {
        let before = playing_from_status(Some(state));
        let after = match toggle_command(Some(state)).unwrap() {
            Transport::Play => PlaybackState::Play,
            Transport::Pause => PlaybackState::Pause,
        };
        assert_ne!(before, playing_from_status(Some(after)));
    }
}

#[test]
fn empty_reported_values_count_as_missing() {
    let rec = record(Some(""), Some(""), &[("Album", "Kept"), ("Album", "")], Some(2));
    let info = SongInfo::from_record(&rec, false);
    assert_eq!(info.title, "Unknown");
    assert_eq!(info.artist, "Unknown");
    assert_eq!(info.album, "Album Unknown");
    let current = current_song_info(Some(PlaybackState::Play), Some(record(Some(""), None, &[], None)));
    assert_eq!(current.title, "Unknown");
    let q = queue_song_infos(Some(vec![record(Some(""), Some(""), &[("Album", "")], Some(0))]));
    assert!(!q[0].title.is_empty());
    assert!(!q[0].artist.is_empty());
    assert!(!q[0].album.is_empty());
}

#[test]
fn current_and_queued_song_agree_but_for_playing() {
    let rec = || record(Some("T"), Some("A"), &[("Album", "L")], Some(4));
    let current = current_song_info(Some(PlaybackState::Play), Some(rec()));
    let queued = queue_song_infos(Some(vec![rec()]));
    assert_eq!(queued[0].title, current.title);
    assert_eq!(queued[0].artist, current.artist);
    assert_eq!(queued[0].album, current.album);
    assert_eq!(queued[0].position, current.position);
    assert!(current.playing);
    assert!(!queued[0].playing);
}

#[test]
fn toggling_twice_restores_the_player() {
    let after = |t: Transport| match t {
        Transport::Play => PlaybackState::Play,
        Transport::Pause => PlaybackState::Pause,
    };
    for state in [PlaybackState::Play, PlaybackState::Pause, PlaybackState::Stop] {
        let once = after(toggle_command(Some(state)).unwrap());
        let twice = after(toggle_command(Some(once)).unwrap());
        assert_eq!(playing_from_status(Some(twice)), playing_from_status(Some(state)));
        if state == PlaybackState::Stop {
            assert_eq!(twice, PlaybackState::Pause);
        } else {
            assert_eq!(twice, state);
        }
    }
}
