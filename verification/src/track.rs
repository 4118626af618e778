use vstd::prelude::*;

verus! {

/// The kind of media a track descriptor points at.
#[derive(Clone, Copy, Debug, PartialEq, Eq, Structural)]
pub enum MediaType {
    Music,
    Podcast,
    LiveRadio,
}

/// A track descriptor: what to play and where its bytes come from.
/// `Clone` is implemented beside its view, in the backend module.
#[derive(Debug)]
pub struct Track {
    pub media_type: MediaType,
    /// Path of a local file, or URL of a remote stream.
    pub file: Option<String>,
    /// Local cache of a podcast episode, when one has been downloaded.
    pub podcast_localfile: Option<String>,
}

impl Track {
    pub fn new(media_type: MediaType, file: Option<String>) -> (r: Track)
        ensures
            r.media_type == media_type,
            r.file == file,
            r.podcast_localfile is None,
    {
        Track { media_type, file, podcast_localfile: None }
    }

    pub fn file(&self) -> (r: Option<&String>)
        ensures
            r is Some <==> self.file is Some,
            r matches Some(v) ==> self.file matches Some(f) && v == f,
    {
        match &self.file {
            Some(f) => Some(f),
            None => None,
        }
    }
}

/// Playback loop modes of the playlist.
#[derive(Clone, Copy, Debug, PartialEq, Eq, Structural)]
pub enum Loop {
    Queue,
    Playlist,
    Single,
}

/// The engine's configuration: the fields of the application settings
/// that the playback core reads.
#[derive(Clone, Debug)]
pub struct Settings {
    /// Initial volume, later clamped to `[0, 100]`.
    pub player_volume: u16,
    /// Initial speed in tenths, later clamped to `[1, 30]`.
    pub player_speed: i32,
    /// Whether gapless transitions are requested.
    pub player_gapless: bool,
    /// Minimum byte count buffered before playback of a network
    /// stream may start.
    pub prefetch_bytes: u64,
    /// Whether new playlist entries go to the front of the queue.
    pub add_playlist_front: bool,
    /// The playlist's loop mode.
    pub loop_mode: Loop,
}

impl Settings {
    pub fn default_settings() -> (r: Settings)
        ensures
            r.player_volume == 50,
            r.player_speed == 10,
            r.player_gapless,
            r.prefetch_bytes == 1024 * 192,
            !r.add_playlist_front,
            r.loop_mode == Loop::Queue,
    {
        Settings {
            player_volume: 50,
            player_speed: 10,
            player_gapless: true,
            prefetch_bytes: 1024 * 192,
            add_playlist_front: false,
            loop_mode: Loop::Queue,
        }
    }
}

} // verus!
