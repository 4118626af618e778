use termusic::backend::{PlayerInternalCmd, RustyBackend};
use termusic::component::{KeyCode, KeyEvent, Msg, Playlist, TableCmd};
use termusic::dur::PlayerDuration;
use termusic::model::{start_play, Model};
use termusic::resolver::{resolve_plan, SourcePlan};
use termusic::song::Song;
use termusic::tageditor::{SongTag, TagEditorActivity};
use termusic::track::{Loop, MediaType, Settings, Track};
use termusic::error::PlayerError;

fn settings() -> Settings {
    Settings::default_settings()
}

fn song(file: &str, artist: Option<&str>, title: Option<&str>, secs: u64) -> Song {
    Song {
        file: Some(file.to_string()),
        name: None,
        artist: artist.map(|s| s.to_string()),
        title: title.map(|s| s.to_string()),
        album: None,
        duration: PlayerDuration::new(secs, 0),
    }
}

#[test]
fn humantime_formatting_is_linked_in() {
    assert_eq!(song("x", None, None, 0).duration_formatted(), "0s");
    assert_eq!(song("x", None, None, 125).duration_formatted(), "2m 5s");
    assert_eq!(song("x", None, None, 9420).duration_formatted(), "2h 37m");
}

#[test]
fn sync_builds_bracketed_rows() {
    let mut m = Model::new(settings());
    m.playlist_items.push_back(song("a.mp3", Some("Miles"), Some("So What"), 125));
    m.playlist_items.push_back(song("b.mp3", None, None, 0));
    m.playlist_sync();
    assert_eq!(m.table_rows.len(), 2);
    assert_eq!(m.table_rows[0].duration, "[2m 5s ]");
    assert_eq!(m.table_rows[0].artist, "Miles");
    assert_eq!(m.table_rows[0].title, "So What");
    assert_eq!(m.table_rows[0].detail, "Unknown Album");
    // "0s" centered in six characters
    assert_eq!(m.table_rows[1].duration, "[  0s  ]");
    assert_eq!(m.table_rows[1].artist, "No Name");
    assert_eq!(m.table_rows[1].title, "Unknown Title");
}

#[test]
fn empty_playlist_shows_placeholder_row() {
    let mut m = Model::new(settings());
    m.playlist_sync();
    assert_eq!(m.table_rows.len(), 1);
    assert_eq!(m.table_rows[0].duration, "0");
    assert_eq!(m.table_rows[0].artist, "empty playlist");
    assert_eq!(m.table_rows[0].title, "");
}

#[test]
fn add_item_front_and_back() {
    let mut m = Model::new(settings());
    assert!(m.playlist_add_item("one.mp3", false).is_ok());
    assert!(m.playlist_add_item("two.mp3", false).is_ok());
    assert!(m.playlist_add_item("zero.mp3", true).is_ok());
    let files: Vec<_> = m.playlist_items.iter().map(|s| s.file.clone().unwrap()).collect();
    assert_eq!(files, vec!["zero.mp3", "one.mp3", "two.mp3"]);
    assert_eq!(m.table_rows.len(), 3);
}

#[test]
fn playlist_add_uses_configured_end() {
    let mut cfg = settings();
    cfg.add_playlist_front = true;
    let mut m = Model::new(cfg);
    m.playlist_add("a.mp3");
    m.playlist_add("b.mp3");
    let files: Vec<_> = m.playlist_items.iter().map(|s| s.file.clone().unwrap()).collect();
    assert_eq!(files, vec!["b.mp3", "a.mp3"]);
}

#[test]
fn delete_item_in_and_out_of_range() {
    let mut m = Model::new(settings());
    m.playlist_add("a.mp3");
    m.playlist_add("b.mp3");
    m.playlist_add("c.mp3");
    m.playlist_delete_item(1);
    let files: Vec<_> = m.playlist_items.iter().map(|s| s.file.clone().unwrap()).collect();
    assert_eq!(files, vec!["a.mp3", "c.mp3"]);
    m.playlist_delete_item(99);
    assert_eq!(m.playlist_items.len(), 2);
}

#[test]
fn empty_clears_everything() {
    let mut m = Model::new(settings());
    m.playlist_add("a.mp3");
    m.playlist_empty();
    assert_eq!(m.playlist_items.len(), 0);
    assert_eq!(m.table_rows.len(), 1);
    assert_eq!(m.table_rows[0].artist, "empty playlist");
}

#[test]
fn library_delete_keeps_flagged_entries() {
    let mut m = Model::new(settings());
    m.playlist_add("a.mp3");
    m.playlist_add("b.mp3");
    m.playlist_add("c.mp3");
    m.playlist_update_library_delete(&vec![true, false, true]);
    let files: Vec<_> = m.playlist_items.iter().map(|s| s.file.clone().unwrap()).collect();
    assert_eq!(files, vec!["a.mp3", "c.mp3"]);
}

#[test]
fn cycle_loop_mode_rotates() {
    let mut m = Model::new(settings());
    m.playlist_add("a.mp3");
    m.playlist_add("b.mp3");
    m.playlist_add("c.mp3");
    assert_eq!(m.config.loop_mode, Loop::Queue);
    m.playlist_cycle_loop_mode();
    assert_eq!(m.config.loop_mode, Loop::Playlist);
    let files: Vec<_> = m.playlist_items.iter().map(|s| s.file.clone().unwrap()).collect();
    assert_eq!(files, vec!["a.mp3", "b.mp3", "c.mp3"]);
    // entering single mode moves the last entry to the front
    m.playlist_cycle_loop_mode();
    assert_eq!(m.config.loop_mode, Loop::Single);
    let files: Vec<_> = m.playlist_items.iter().map(|s| s.file.clone().unwrap()).collect();
    assert_eq!(files, vec!["c.mp3", "a.mp3", "b.mp3"]);
    // leaving it moves the first entry to the back
    m.playlist_cycle_loop_mode();
    assert_eq!(m.config.loop_mode, Loop::Queue);
    let files: Vec<_> = m.playlist_items.iter().map(|s| s.file.clone().unwrap()).collect();
    assert_eq!(files, vec!["a.mp3", "b.mp3", "c.mp3"]);
}

#[test]
fn play_selected_moves_entry_to_front() {
    let mut m = Model::new(settings());
    m.playlist_add("a.mp3");
    m.playlist_add("b.mp3");
    m.playlist_add("c.mp3");
    m.playlist_play_selected(2);
    let files: Vec<_> = m.playlist_items.iter().map(|s| s.file.clone().unwrap()).collect();
    assert_eq!(files, vec!["c.mp3", "a.mp3", "b.mp3"]);
    m.playlist_play_selected(42);
    assert_eq!(m.playlist_items.len(), 3);
}

#[test]
fn shuffle_permutes_without_losing_entries() {
    let mut m = Model::new(settings());
    for i in 0..20 {
        m.playlist_add(&format!("{i}.mp3"));
    }
    m.playlist_shuffle();
    assert_eq!(m.playlist_items.len(), 20);
    let mut files: Vec<_> = m.playlist_items.iter().map(|s| s.file.clone().unwrap()).collect();
    files.sort();
    let mut expected: Vec<_> = (0..20).map(|i| format!("{i}.mp3")).collect();
    expected.sort();
    assert_eq!(files, expected);
}

#[test]
fn total_duration_sums_entries() {
    let mut m = Model::new(settings());
    m.playlist_items.push_back(song("a.mp3", None, None, 100));
    m.playlist_items.push_back(song("b.mp3", None, None, 25));
    let total = m.playlist_total_duration();
    assert_eq!(total.secs, 125);
    assert_eq!(total.nanos, 0);
}

#[test]
fn search_matches_case_insensitive_wildcards() {
    let mut m = Model::new(settings());
    m.playlist_items.push_back(song("a.mp3", Some("Alice Coltrane"), Some("Journey"), 10));
    m.playlist_items.push_back(song("b.mp3", Some("Sun Ra"), Some("Lanquidity"), 20));
    m.playlist_items.push_back(song("c.mp3", None, None, 30));
    m.playlist_sync();
    let rows = m.playlist_update_search("ALICE");
    assert_eq!(rows.len(), 1);
    assert_eq!(rows[0].artist, "Alice Coltrane");
    assert_eq!(rows[0].detail, "a.mp3");
    let rows = m.playlist_update_search("n");
    // "alice coltrane" and "journey" match 'n'; "sun ra" and "lanquidity" too;
    // the untagged entry falls back to "Unknown artist"/"Unknown title"
    assert_eq!(rows.len(), 3);
    let rows = m.playlist_update_search("zzz");
    assert_eq!(rows.len(), 0);
}

#[test]
fn search_on_empty_playlist_shows_placeholder() {
    let m = Model::new(settings());
    let rows = m.playlist_update_search("x");
    assert_eq!(rows.len(), 1);
    assert_eq!(rows[0].artist, "empty playlist");
}

#[test]
fn search_needs_real_lowercasing_and_wildcards() {
    let mut m = Model::new(settings());
    m.playlist_items.push_back(song("a.mp3", Some("FOO BAR"), None, 1));
    // upper-case tags match lower-case input only if both sides are
    // really lower-cased before the wildcard match
    assert_eq!(m.playlist_update_search("foo").len(), 1);
    assert_eq!(m.playlist_update_search("OO B").len(), 1);
    // and a non-substring does not match, so the wildcard match is
    // not a constant
    assert_eq!(m.playlist_update_search("of").len(), 0);
}

#[test]
fn resolver_plans_by_media_kind() {
    let music = Track::new(MediaType::Music, Some("/music/x.flac".to_string()));
    match resolve_plan(&music, 1024).unwrap() {
        SourcePlan::LocalFile { path } => assert_eq!(path, "/music/x.flac"),
        _ => panic!("music resolves to a local file"),
    }
    let mut podcast = Track::new(MediaType::Podcast, Some("http://pod/x.mp3".to_string()));
    match resolve_plan(&podcast, 1024).unwrap() {
        SourcePlan::RemoteAdaptive { url, capacity } => {
            assert_eq!(url, "http://pod/x.mp3");
            assert_eq!(capacity, 2048);
        }
        _ => panic!("a remote podcast streams adaptively"),
    }
    podcast.podcast_localfile = Some("/cache/x.mp3".to_string());
    match resolve_plan(&podcast, 1024).unwrap() {
        SourcePlan::LocalFile { path } => assert_eq!(path, "/cache/x.mp3"),
        _ => panic!("a cached podcast reads its local file"),
    }
    let radio = Track::new(MediaType::LiveRadio, Some("http://radio/stream".to_string()));
    match resolve_plan(&radio, 1024).unwrap() {
        SourcePlan::RadioBounded { url, capacity } => {
            assert_eq!(url, "http://radio/stream");
            assert_eq!(capacity, 2048);
        }
        _ => panic!("radio streams through the bounded buffer"),
    }
    let nofile = Track::new(MediaType::Music, None);
    assert!(matches!(resolve_plan(&nofile, 1024), Err(PlayerError::NoFilePath)));
    let radio2 = Track::new(MediaType::LiveRadio, Some("u".to_string()));
    assert!(matches!(resolve_plan(&radio2, 0), Err(PlayerError::BadCapacity)));
}

#[test]
fn playlist_component_maps_keys_to_messages() {
    let p = Playlist { selected: Some(3) };
    let (cmd, msg) = p.on(KeyEvent { code: KeyCode::Char('d'), shift: false });
    assert_eq!(cmd, TableCmd::NoOp);
    assert_eq!(msg, Some(Msg::PlaylistDelete(3)));
    let (_, msg) = p.on(KeyEvent { code: KeyCode::Char('l'), shift: false });
    assert_eq!(msg, Some(Msg::PlaylistPlaySelected(3)));
    let (cmd, msg) = p.on(KeyEvent { code: KeyCode::Char('j'), shift: false });
    assert_eq!(cmd, TableCmd::MoveDown);
    assert_eq!(msg, Some(Msg::Noop));
    let (cmd, _) = p.on(KeyEvent { code: KeyCode::Char('G'), shift: true });
    assert_eq!(cmd, TableCmd::GotoEnd);
    let (cmd, _) = p.on(KeyEvent { code: KeyCode::Char('G'), shift: false });
    assert_eq!(cmd, TableCmd::NoOp);
    let (_, msg) = p.on(KeyEvent { code: KeyCode::Char('D'), shift: true });
    assert_eq!(msg, Some(Msg::PlaylistDeleteAll));
    let (_, msg) = p.on(KeyEvent { code: KeyCode::Tab, shift: false });
    assert_eq!(msg, Some(Msg::PlaylistTableBlur));
    let (_, msg) = p.on(KeyEvent { code: KeyCode::Char('/'), shift: false });
    assert_eq!(msg, Some(Msg::GeneralSearchPopupShowPlaylist));
    let none = Playlist::new();
    let (_, msg) = none.on(KeyEvent { code: KeyCode::Char('d'), shift: false });
    assert_eq!(msg, Some(Msg::Noop));
}

#[test]
fn tag_editor_lines_follow_options() {
    let mut te = TagEditorActivity::new();
    te.add_lyric_options(vec![
        SongTag {
            artist: Some("Artist".to_string()),
            title: Some("Title".to_string()),
            album: None,
        },
        SongTag { artist: None, title: None, album: None },
    ]);
    assert_eq!(te.table_lines.len(), 2);
    assert_eq!(te.table_lines[0], "Artist - Title");
    assert_eq!(te.table_lines[1], "Unknown Artist - Unknown Title");
}

#[test]
fn start_play_queues_every_entry_with_a_file() {
    let mut m = Model::new(settings());
    m.playlist_add("a.mp3");
    m.playlist_items.push_back(Song {
        file: None,
        name: None,
        artist: None,
        title: None,
        album: None,
        duration: PlayerDuration::new(1, 0),
    });
    m.playlist_add("b.mp3");
    let mut b = RustyBackend::new(&settings());
    start_play(&mut b, &m);
    match b.next_command() {
        Some(PlayerInternalCmd::QueueNext(t, _)) => assert_eq!(t.file.as_deref(), Some("a.mp3")),
        _ => panic!("expected the first queued track"),
    }
    match b.next_command() {
        Some(PlayerInternalCmd::QueueNext(t, _)) => assert_eq!(t.file.as_deref(), Some("b.mp3")),
        _ => panic!("expected the second queued track"),
    }
    assert!(b.next_command().is_none());
}
