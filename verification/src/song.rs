use vstd::prelude::*;

use crate::dur::PlayerDuration;

verus! {

/// The ghost shape of a playlist entry: the character sequences of
/// its path and tags, and its duration.
pub struct SongV {
    pub file: Option<Seq<char>>,
    pub name: Option<Seq<char>>,
    pub artist: Option<Seq<char>>,
    pub title: Option<Seq<char>>,
    pub album: Option<Seq<char>>,
    pub duration: PlayerDuration,
}

/// A playlist entry: where its bytes live and what its tags say.
#[derive(Debug)]
pub struct Song {
    pub file: Option<String>,
    pub name: Option<String>,
    pub artist: Option<String>,
    pub title: Option<String>,
    pub album: Option<String>,
    pub duration: PlayerDuration,
}

pub open spec fn view_opt_str(o: Option<String>) -> Option<Seq<char>> {
    match o {
        Some(s) => Some(s@),
        None => None,
    }
}

impl View for Song {
    type V = SongV;

    open spec fn view(&self) -> SongV {
        SongV {
            file: view_opt_str(self.file),
            name: view_opt_str(self.name),
            artist: view_opt_str(self.artist),
            title: view_opt_str(self.title),
            album: view_opt_str(self.album),
            duration: self.duration,
        }
    }
}

impl Song {
    /// An entry known only by its path: reading the tags out of the
    /// file itself is file I/O and happens outside the core.
    pub fn from_path(path: &str) -> (r: Song)
        ensures
            r@.file == Some(path@),
            r@.name is None,
            r@.artist is None,
            r@.title is None,
            r@.album is None,
            r@.duration.total_nanos() == 0,
    {
        Song {
            file: Some(path.to_owned()),
            name: None,
            artist: None,
            title: None,
            album: None,
            duration: PlayerDuration::zero(),
        }
    }

    pub fn file(&self) -> (r: Option<&str>)
        ensures
            (match r {
                Some(s) => Some(s@),
                None => None,
            }) == self@.file,
    {
        match &self.file {
            Some(f) => Some(f.as_str()),
            None => None,
        }
    }

    pub fn name(&self) -> (r: Option<&str>)
        ensures
            (match r {
                Some(s) => Some(s@),
                None => None,
            }) == self@.name,
    {
        match &self.name {
            Some(f) => Some(f.as_str()),
            None => None,
        }
    }

    pub fn artist(&self) -> (r: Option<&str>)
        ensures
            (match r {
                Some(s) => Some(s@),
                None => None,
            }) == self@.artist,
    {
        match &self.artist {
            Some(f) => Some(f.as_str()),
            None => None,
        }
    }

    pub fn title(&self) -> (r: Option<&str>)
        ensures
            (match r {
                Some(s) => Some(s@),
                None => None,
            }) == self@.title,
    {
        match &self.title {
            Some(f) => Some(f.as_str()),
            None => None,
        }
    }

    pub fn album(&self) -> (r: Option<&str>)
        ensures
            (match r {
                Some(s) => Some(s@),
                None => None,
            }) == self@.album,
    {
        match &self.album {
            Some(f) => Some(f.as_str()),
            None => None,
        }
    }

    pub fn duration(&self) -> (r: PlayerDuration)
        ensures
            r == self@.duration,
    {
        self.duration
    }

    /// The duration as display text, whole seconds only.
    pub fn duration_formatted(&self) -> (r: String)
        ensures
            r@ == human_duration_of(self@.duration.secs),
    {
        format_duration_secs(self.duration.secs)
    }
}

/// What humantime's duration formatter prints for a whole-second
/// span; the text is a function of the seconds alone.
pub uninterp spec fn human_duration_of(secs: u64) -> Seq<char>;

/// Relies on humantime::format_duration: the printed text depends
/// only on the duration handed in, and a zero duration prints `0s`.
#[verifier::external_body]
fn format_duration_secs(secs: u64) -> (r: String)
    ensures
        r@ == human_duration_of(secs),
        secs == 0 ==> r@ == "0s"@,
{
    humantime::format_duration(std::time::Duration::new(secs, 0)).to_string()
}

} // verus!
