use music_player::config::Config;
use music_player::player::{Message, SongData};
use music_player::song::SongInfo;
use music_player::view_model::queue_rows;

fn song(title: &str, album: &str, position: Option<u32>) -> SongInfo {
    SongInfo {
        title: title.to_string(),
        artist: "Artist".to_string(),
        album: album.to_string(),
        playing: false,
        position,
    }
}

#[test]
fn queue_rows_label_and_highlight() {
    let queue = vec![song("One", "First", Some(0)), song("Two", "Second", Some(1)), song("Three", "Third", None)];
    let rows = queue_rows(&queue, 1);
    assert_eq!(rows.len(), 3);
    assert_eq!(rows[0].label, "First - One");
    assert_eq!(rows[1].label, "Second - Two");
    assert_eq!(rows[2].label, "Third - Three");
    assert!(!rows[0].is_current);
    assert!(rows[1].is_current);
    assert!(!rows[2].is_current);
    assert_eq!(rows[0].position, 0);
    assert_eq!(rows[1].position, 1);
    assert_eq!(rows[2].position, 0);
    let rows = queue_rows(&queue, 0);
    assert!(rows[0].is_current);
    assert!(rows[2].is_current);
    assert!(queue_rows(&vec![], 0).is_empty());
}

#[test]
fn now_playing_line_and_state_rows() {
    let (mut state, _) = SongData::new(Config::default());
    let _ = state.update(Message::SongInfoLoaded(SongInfo {
        title: "Title".to_string(),
        artist: "Artist".to_string(),
        album: "Album".to_string(),
        playing: true,
        position: Some(1),
    }));
    assert_eq!(state.now_playing_text(), "Title - Artist - Album");
    let _ = state.update(Message::SongQueueLoaded(vec![song("A", "X", Some(0)), song("B", "Y", Some(1))]));
    let rows = state.queue_rows();
    assert!(!rows[0].is_current);
    assert!(rows[1].is_current);
    assert_eq!(rows[1].label, "Y - B");
}

#[test]
fn arrived_song_position_is_highlighted() {
    let (mut state, _) = SongData::new(Config::default());
    let _ = state.update(Message::SongQueueLoaded(vec![song("A", "X", Some(0)), song("B", "Y", Some(1)), song("C", "Z", None)]));
    let _ = state.update(Message::SongInfoLoaded(song("B", "Y", Some(1))));
    let flags: Vec<bool> = state.queue_rows().iter().map(|r| r.is_current).collect();
    assert_eq!(flags, vec![false, true, false]);
    let _ = state.update(Message::SongInfoLoaded(song("?", "?", None)));
    let flags: Vec<bool> = state.queue_rows().iter().map(|r| r.is_current).collect();
    assert_eq!(flags, vec![true, false, true]);
}
