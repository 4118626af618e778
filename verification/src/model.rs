use vstd::prelude::*;

use std::collections::VecDeque;

use rand::seq::SliceRandom;

use crate::dur::{max_duration_nanos, PlayerDuration};
use crate::error::PlayerError;
use crate::song::{human_duration_of, Song, SongV};
use crate::track::{Loop, Settings};

verus! {

/// The ghost shape of one playlist table row.
pub struct PlaylistRowV {
    pub duration: Seq<char>,
    pub artist: Seq<char>,
    pub title: Seq<char>,
    pub detail: Seq<char>,
}

/// One row of the playlist table: the bracketed duration, the artist
/// and title, and a fourth column (the album in the playlist view,
/// the file name in the search view).
#[derive(Debug)]
pub struct PlaylistRow {
    pub duration: String,
    pub artist: String,
    pub title: String,
    pub detail: String,
}

impl View for PlaylistRow {
    type V = PlaylistRowV;

    open spec fn view(&self) -> PlaylistRowV {
        PlaylistRowV {
            duration: self.duration@,
            artist: self.artist@,
            title: self.title@,
            detail: self.detail@,
        }
    }
}

/// `n` spaces.
pub open spec fn spaces_spec(n: int) -> Seq<char>
    decreases n,
{
    if n <= 0 {
        Seq::empty()
    } else {
        spaces_spec(n - 1).push(' ')
    }
}

fn spaces(n: usize) -> (r: String)
    ensures
        r@ =~= spaces_spec(n as int),
{
    let mut out = String::new();
    let mut i: usize = 0;
    while i < n
        invariant
            i <= n,
            out@ =~= spaces_spec(i as int),
        decreases n - i,
    {
        out.append(" ");
        proof {
            reveal_strlit(" ");
            assert(out@ =~= spaces_spec(i + 1 as int));
        }
        i = i + 1;
    }
    out
}

/// Text centered in a six-character field, truncated to six
/// characters first; the extra space of an odd pad goes to the right.
pub open spec fn center6_spec(s: Seq<char>) -> Seq<char> {
    let t = if s.len() > 6 {
        s.take(6)
    } else {
        s
    };
    let pad = 6 - t.len();
    spaces_spec(pad / 2) + t + spaces_spec(pad - pad / 2)
}

/// The duration column's text: the span centered to six characters
/// between brackets.
pub open spec fn bracketed6(s: Seq<char>) -> Seq<char> {
    "["@ + center6_spec(s) + "]"@
}

/// Formats one column entry as `bracketed6` describes.
pub fn bracket_center6(s: &str) -> (r: String)
    ensures
        r@ =~= bracketed6(s@),
{
    let len = s.unicode_len();
    let t: &str = if len > 6 {
        s.substring_char(0, 6)
    } else {
        s
    };
    let tlen = if len > 6 {
        6
    } else {
        len
    };
    let pad = 6 - tlen;
    let mut out = String::from_str("[");
    out.append(spaces(pad / 2).as_str());
    out.append(t);
    out.append(spaces(pad - pad / 2).as_str());
    out.append("]");
    out
}

/// The artist column: the artist tag, else the name, else a fixed
/// placeholder.
pub open spec fn artist_text(s: SongV) -> Seq<char> {
    match s.artist {
        Some(a) => a,
        None => match s.name {
            Some(n) => n,
            None => "No Name"@,
        },
    }
}

pub open spec fn title_text(s: SongV) -> Seq<char> {
    match s.title {
        Some(t) => t,
        None => "Unknown Title"@,
    }
}

pub open spec fn album_text(s: SongV) -> Seq<char> {
    match s.album {
        Some(a) => a,
        None => "Unknown Album"@,
    }
}

pub open spec fn file_text(s: SongV) -> Seq<char> {
    match s.file {
        Some(f) => f,
        None => "no file"@,
    }
}

/// The playlist table row of one entry.
pub open spec fn row_of_song(s: SongV) -> PlaylistRowV {
    PlaylistRowV {
        duration: bracketed6(human_duration_of(s.duration.secs)),
        artist: artist_text(s),
        title: title_text(s),
        detail: album_text(s),
    }
}

/// The search-result row of one entry: the file name stands in the
/// last column.
pub open spec fn search_row_of_song(s: SongV) -> PlaylistRowV {
    PlaylistRowV {
        duration: bracketed6(human_duration_of(s.duration.secs)),
        artist: artist_text(s),
        title: title_text(s),
        detail: file_text(s),
    }
}

/// The placeholder row shown for an empty playlist.
pub open spec fn empty_playlist_row() -> PlaylistRowV {
    PlaylistRowV {
        duration: "0"@,
        artist: "empty playlist"@,
        title: Seq::empty(),
        detail: Seq::empty(),
    }
}

fn make_row_of_song(s: &Song) -> (r: PlaylistRow)
    ensures
        r@ == row_of_song(s@),
{
    let duration = bracket_center6(s.duration_formatted().as_str());
    let artist = match s.artist() {
        Some(a) => a.to_owned(),
        None => match s.name() {
            Some(n) => n.to_owned(),
            None => String::from_str("No Name"),
        },
    };
    let title = match s.title() {
        Some(t) => t.to_owned(),
        None => String::from_str("Unknown Title"),
    };
    let detail = match s.album() {
        Some(a) => a.to_owned(),
        None => String::from_str("Unknown Album"),
    };
    PlaylistRow { duration, artist, title, detail }
}

fn make_search_row_of_song(s: &Song) -> (r: PlaylistRow)
    ensures
        r@ == search_row_of_song(s@),
{
    let duration = bracket_center6(s.duration_formatted().as_str());
    let artist = match s.artist() {
        Some(a) => a.to_owned(),
        None => match s.name() {
            Some(n) => n.to_owned(),
            None => String::from_str("No Name"),
        },
    };
    let title = match s.title() {
        Some(t) => t.to_owned(),
        None => String::from_str("Unknown Title"),
    };
    let detail = match s.file() {
        Some(f) => f.to_owned(),
        None => String::from_str("no file"),
    };
    PlaylistRow { duration, artist, title, detail }
}

/// The sum, in nanoseconds, of the entries' durations.
pub open spec fn sum_durations(items: Seq<Song>) -> int
    decreases items.len(),
{
    if items.len() == 0 {
        0
    } else {
        items[0]@.duration.total_nanos() + sum_durations(items.drop_first())
    }
}

proof fn lemma_sum_durations_snoc(items: Seq<Song>, s: Song)
    ensures
        sum_durations(items.push(s)) == sum_durations(items) + s@.duration.total_nanos(),
    decreases items.len(),
{
    if items.len() == 0 {
        assert(items.push(s).drop_first() =~= Seq::<Song>::empty());
        assert(items =~= Seq::<Song>::empty());
    } else {
        assert(items.push(s)[0] == items[0]);
        assert(items.push(s).drop_first() =~= items.drop_first().push(s));
        lemma_sum_durations_snoc(items.drop_first(), s);
    }
}

/// The entries whose flag is set, in order.
pub open spec fn filter_by_flags(items: Seq<Song>, keep: Seq<bool>) -> Seq<Song>
    decreases items.len(),
{
    if items.len() == 0 {
        Seq::empty()
    } else {
        let rest = filter_by_flags(items.drop_first(), keep.drop_first());
        if keep.len() > 0 && keep[0] {
            seq![items[0]] + rest
        } else {
            rest
        }
    }
}

proof fn lemma_filter_by_flags_snoc(items: Seq<Song>, keep: Seq<bool>, s: Song, b: bool)
    requires
        items.len() == keep.len(),
    ensures
        filter_by_flags(items.push(s), keep.push(b)) =~= if b {
            filter_by_flags(items, keep).push(s)
        } else {
            filter_by_flags(items, keep)
        },
    decreases items.len(),
{
    if items.len() == 0 {
        assert(items.push(s).drop_first() =~= Seq::<Song>::empty());
        assert(keep.push(b).drop_first() =~= Seq::<bool>::empty());
        assert(items =~= Seq::<Song>::empty());
        assert(keep =~= Seq::<bool>::empty());
    } else {
        assert(items.push(s)[0] == items[0]);
        assert(keep.push(b)[0] == keep[0]);
        assert(items.push(s).drop_first() =~= items.drop_first().push(s));
        assert(keep.push(b).drop_first() =~= keep.drop_first().push(b));
        lemma_filter_by_flags_snoc(items.drop_first(), keep.drop_first(), s, b);
    }
}

/// The playlist's data model: the queued entries, the configuration
/// bits the playlist reads, and the table rows handed to the UI.
pub struct Model {
    pub playlist_items: VecDeque<Song>,
    pub config: Settings,
    pub table_rows: Vec<PlaylistRow>,
}

/// The rows the playlist table shows for the given entries.
pub open spec fn table_rows_of(items: Seq<Song>) -> Seq<PlaylistRowV> {
    if items.len() == 0 {
        seq![empty_playlist_row()]
    } else {
        items.map_values(|s: Song| row_of_song(s@))
    }
}

impl Model {
    pub fn new(config: Settings) -> (r: Model)
        ensures
            r.playlist_items@.len() == 0,
            r.config == config,
            r.table_rows@.len() == 0,
    {
        Model { playlist_items: VecDeque::new(), config, table_rows: Vec::new() }
    }

    /// Rebuilds the playlist table rows from the current entries; the
    /// widget showing them is remounted outside the core.
    pub fn playlist_reload(&mut self)
        ensures
            final(self).playlist_items@ == old(self).playlist_items@,
            final(self).config == old(self).config,
            final(self).table_rows@.map_values(|r: PlaylistRow| r@) =~~= table_rows_of(
                old(self).playlist_items@,
            ),
    {
        self.playlist_sync();
    }

    /// Rebuilds the table rows: one row per entry, or the placeholder
    /// row when the playlist is empty.
    pub fn playlist_sync(&mut self)
        ensures
            final(self).playlist_items@ == old(self).playlist_items@,
            final(self).config == old(self).config,
            final(self).table_rows@.map_values(|r: PlaylistRow| r@) =~~= table_rows_of(
                old(self).playlist_items@,
            ),
    {
        let mut rows: Vec<PlaylistRow> = Vec::new();
        let n = self.playlist_items.len();
        if n == 0 {
            rows.push(
                PlaylistRow {
                    duration: String::from_str("0"),
                    artist: String::from_str("empty playlist"),
                    title: String::new(),
                    detail: String::new(),
                },
            );
            self.table_rows = rows;
            return ;
        }
        let mut i: usize = 0;
        while i < n
            invariant
                i <= n,
                n == self.playlist_items@.len(),
                rows@.map_values(|r: PlaylistRow| r@) =~~= self.playlist_items@.take(
                    i as int,
                ).map_values(|s: Song| row_of_song(s@)),
            decreases n - i,
        {
            let ghost rows_prev = rows@;
            let row = make_row_of_song(&self.playlist_items[i]);
            rows.push(row);
            proof {
                rows_prev.lemma_push_map_commute(|r: PlaylistRow| r@, row);
                self.playlist_items@.take(i as int).lemma_push_map_commute(
                    |s: Song| row_of_song(s@),
                    self.playlist_items@[i as int],
                );
                assert(self.playlist_items@.take(i + 1 as int) =~= self.playlist_items@.take(
                    i as int,
                ).push(self.playlist_items@[i as int]));
            }
            i = i + 1;
        }
        proof {
            assert(self.playlist_items@.take(n as int) =~= self.playlist_items@);
        }
        self.table_rows = rows;
    }

    /// Adds one entry by its path, to the front or the back; reading
    /// tags out of the file is left to the edge. Adding itself never
    /// fails, but callers treat it as fallible.
    pub fn playlist_add_item(&mut self, current_node: &str, add_playlist_front: bool) -> (r:
        Result<(), PlayerError>)
        ensures
            r is Ok,
            final(self).playlist_items@.len() == old(self).playlist_items@.len() + 1,
            (if add_playlist_front {
                final(self).playlist_items@ =~= seq![
                    final(self).playlist_items@[0],
                ] + old(self).playlist_items@ && final(self).playlist_items@[0]@.file == Some(
                    current_node@,
                )
            } else {
                final(self).playlist_items@ =~= old(self).playlist_items@.push(
                    final(self).playlist_items@.last(),
                ) && final(self).playlist_items@.last()@.file == Some(current_node@)
            }),
            final(self).config == old(self).config,
            final(self).table_rows@.map_values(|r2: PlaylistRow| r2@) =~~= table_rows_of(
                final(self).playlist_items@,
            ),
    {
        let item = Song::from_path(current_node);
        if add_playlist_front {
            self.playlist_items.push_front(item);
        } else {
            self.playlist_items.push_back(item);
        }
        self.playlist_sync();
        Ok(())
    }

    /// Adds one entry at the configured end of the playlist; whether
    /// the path exists, and expanding a directory into its children,
    /// is file-system work done at the edge.
    pub fn playlist_add(&mut self, current_node: &str)
        ensures
            final(self).playlist_items@.len() == old(self).playlist_items@.len() + 1,
            (if old(self).config.add_playlist_front {
                final(self).playlist_items@[0]@.file == Some(current_node@)
            } else {
                final(self).playlist_items@.last()@.file == Some(current_node@)
            }),
            final(self).config == old(self).config,
            final(self).table_rows@.map_values(|r2: PlaylistRow| r2@) =~~= table_rows_of(
                final(self).playlist_items@,
            ),
    {
        let front = self.config.add_playlist_front;
        let _ = self.playlist_add_item(current_node, front);
    }

    /// Removes the entry at `index`; out of range, nothing changes
    /// but the rows are still rebuilt.
    pub fn playlist_delete_item(&mut self, index: usize)
        ensures
            index < old(self).playlist_items@.len() ==> final(self).playlist_items@ == old(
                self,
            ).playlist_items@.remove(index as int),
            index >= old(self).playlist_items@.len() ==> final(self).playlist_items@ == old(
                self,
            ).playlist_items@,
            final(self).config == old(self).config,
            final(self).table_rows@.map_values(|r: PlaylistRow| r@) =~~= table_rows_of(
                final(self).playlist_items@,
            ),
    {
        let _ = self.playlist_items.remove(index);
        self.playlist_sync();
    }

    /// Empties the playlist.
    pub fn playlist_empty(&mut self)
        ensures
            final(self).playlist_items@.len() == 0,
            final(self).config == old(self).config,
            final(self).table_rows@.map_values(|r: PlaylistRow| r@) =~~= seq![
                empty_playlist_row(),
            ],
    {
        self.playlist_items.clear();
        self.playlist_sync();
    }

    /// Keeps exactly the entries whose flag is set -- the flags say
    /// which entries' files still exist, a question for the file
    /// system at the edge.
    pub fn playlist_update_library_delete(&mut self, keep: &Vec<bool>)
        requires
            keep@.len() == old(self).playlist_items@.len(),
        ensures
            final(self).playlist_items@ =~= filter_by_flags(old(self).playlist_items@, keep@),
            final(self).config == old(self).config,
            final(self).table_rows@.map_values(|r: PlaylistRow| r@) =~~= table_rows_of(
                final(self).playlist_items@,
            ),
    {
        let mut kept: VecDeque<Song> = VecDeque::new();
        let n = self.playlist_items.len();
        let mut i: usize = 0;
        while i < n
            invariant
                i <= n,
                n == old(self).playlist_items@.len(),
                keep@.len() == n,
                self.playlist_items@ =~= old(self).playlist_items@.skip(i as int),
                kept@ =~= filter_by_flags(
                    old(self).playlist_items@.take(i as int),
                    keep@.take(i as int),
                ),
                self.config == old(self).config,
            decreases n - i,
        {
            proof {
                lemma_filter_by_flags_snoc(
                    old(self).playlist_items@.take(i as int),
                    keep@.take(i as int),
                    old(self).playlist_items@[i as int],
                    keep@[i as int],
                );
                assert(old(self).playlist_items@.take(i + 1 as int) =~= old(
                    self,
                ).playlist_items@.take(i as int).push(old(self).playlist_items@[i as int]));
                assert(keep@.take(i + 1 as int) =~= keep@.take(i as int).push(keep@[i as int]));
                assert(self.playlist_items@[0] == old(self).playlist_items@[i as int]);
            }
            if let Some(song) = self.playlist_items.pop_front() {
                if keep[i] {
                    kept.push_back(song);
                }
            }
            proof {
                assert(self.playlist_items@ =~= old(self).playlist_items@.skip(i + 1 as int));
            }
            i = i + 1;
        }
        proof {
            assert(old(self).playlist_items@.take(n as int) =~= old(self).playlist_items@);
            assert(keep@.take(n as int) =~= keep@);
        }
        self.playlist_items = kept;
        self.playlist_sync();
    }

    /// Cycles the loop mode: queue, playlist, single. Entering single
    /// mode rotates the last entry to the front; leaving it rotates
    /// the first entry to the back.
    pub fn playlist_cycle_loop_mode(&mut self)
        ensures
            old(self).config.loop_mode == Loop::Queue ==> final(self).config.loop_mode
                == Loop::Playlist && final(self).playlist_items@ == old(self).playlist_items@,
            old(self).config.loop_mode == Loop::Playlist ==> final(self).config.loop_mode
                == Loop::Single && (if old(self).playlist_items@.len() > 0 {
                final(self).playlist_items@ =~= seq![old(self).playlist_items@.last()] + old(
                    self,
                ).playlist_items@.drop_last()
            } else {
                final(self).playlist_items@ == old(self).playlist_items@
            }),
            old(self).config.loop_mode == Loop::Single ==> final(self).config.loop_mode
                == Loop::Queue && (if old(self).playlist_items@.len() > 0 {
                final(self).playlist_items@ =~= old(self).playlist_items@.drop_first().push(
                    old(self).playlist_items@[0],
                )
            } else {
                final(self).playlist_items@ == old(self).playlist_items@
            }),
            final(self).config.add_playlist_front == old(self).config.add_playlist_front,
            final(self).table_rows@.map_values(|r: PlaylistRow| r@) =~~= table_rows_of(
                final(self).playlist_items@,
            ),
    {
        match self.config.loop_mode {
            Loop::Queue => {
                self.config.loop_mode = Loop::Playlist;
            },
            Loop::Playlist => {
                self.config.loop_mode = Loop::Single;
                if let Some(song) = self.playlist_items.pop_back() {
                    self.playlist_items.push_front(song);
                }
            },
            Loop::Single => {
                self.config.loop_mode = Loop::Queue;
                if let Some(song) = self.playlist_items.pop_front() {
                    self.playlist_items.push_back(song);
                }
            },
        }
        self.playlist_sync();
    }

    /// Moves the selected entry to the front, where playback starts;
    /// starting the player itself happens at the edge.
    pub fn playlist_play_selected(&mut self, index: usize)
        ensures
            index < old(self).playlist_items@.len() ==> final(self).playlist_items@ =~= seq![
                old(self).playlist_items@[index as int],
            ] + old(self).playlist_items@.remove(index as int),
            index >= old(self).playlist_items@.len() ==> final(self).playlist_items@ == old(
                self,
            ).playlist_items@ && final(self).table_rows@ == old(self).table_rows@,
            final(self).config == old(self).config,
            index < old(self).playlist_items@.len() ==> final(self).table_rows@.map_values(
                |r: PlaylistRow| r@,
            ) =~~= table_rows_of(final(self).playlist_items@),
    {
        if let Some(song) = self.playlist_items.remove(index) {
            self.playlist_items.push_front(song);
            self.playlist_sync();
        }
    }

    /// Shuffles the playlist into a random order: the entries are
    /// permuted, none added or lost.
    pub fn playlist_shuffle(&mut self)
        ensures
            final(self).playlist_items@.to_multiset() == old(self).playlist_items@.to_multiset(),
            final(self).playlist_items@.len() == old(self).playlist_items@.len(),
            final(self).config == old(self).config,
            final(self).table_rows@.map_values(|r: PlaylistRow| r@) =~~= table_rows_of(
                final(self).playlist_items@,
            ),
    {
        shuffle_songs(&mut self.playlist_items);
        self.playlist_sync();
    }

    /// The sum of the entries' durations, saturating at the largest
    /// representable span; the playlist title shows it.
    pub fn playlist_total_duration(&self) -> (r: PlayerDuration)
        requires
            forall|j: int|
                0 <= j < self.playlist_items@.len() ==> (
                #[trigger] self.playlist_items@[j])@.duration.wf(),
        ensures
            r.wf(),
            r.total_nanos() == if sum_durations(self.playlist_items@) <= max_duration_nanos() {
                sum_durations(self.playlist_items@)
            } else {
                max_duration_nanos()
            },
    {
        let mut total = PlayerDuration::zero();
        let n = self.playlist_items.len();
        let mut i: usize = 0;
        while i < n
            invariant
                i <= n,
                n == self.playlist_items@.len(),
                forall|j: int|
                    0 <= j < self.playlist_items@.len() ==> (
                    #[trigger] self.playlist_items@[j])@.duration.wf(),
                total.wf(),
                total.total_nanos() == if sum_durations(self.playlist_items@.take(i as int))
                    <= max_duration_nanos() {
                    sum_durations(self.playlist_items@.take(i as int))
                } else {
                    max_duration_nanos()
                },
            decreases n - i,
        {
            proof {
                lemma_sum_durations_snoc(
                    self.playlist_items@.take(i as int),
                    self.playlist_items@[i as int],
                );
                assert(self.playlist_items@.take(i + 1 as int) =~= self.playlist_items@.take(
                    i as int,
                ).push(self.playlist_items@[i as int]));
            }
            let d = self.playlist_items[i].duration;
            total = total.saturating_add(&d);
            i = i + 1;
        }
        proof {
            assert(self.playlist_items@.take(n as int) =~= self.playlist_items@);
        }
        total
    }

    /// The search-result rows: the entries whose artist or title,
    /// lower-cased, matches the wildcard pattern built around the
    /// lower-cased input.
    pub fn playlist_update_search(&self, input: &str) -> (rows: Vec<PlaylistRow>)
        ensures
            self.playlist_items@.len() == 0 ==> rows@.map_values(|r: PlaylistRow| r@) =~~= seq![
                empty_playlist_row(),
            ],
            self.playlist_items@.len() > 0 ==> rows@.map_values(|r: PlaylistRow| r@)
                =~~= self.playlist_items@.filter(
                |s: Song| song_matches_search(s@, search_pattern(input@)),
            ).map_values(|s: Song| search_row_of_song(s@)),
    {
        let mut pattern = String::from_str("*");
        pattern.append(lowercase(input).as_str());
        pattern.append("*");
        proof {
            assert(pattern@ =~= search_pattern(input@));
        }
        let mut rows: Vec<PlaylistRow> = Vec::new();
        let n = self.playlist_items.len();
        if n == 0 {
            rows.push(
                PlaylistRow {
                    duration: String::from_str("0"),
                    artist: String::from_str("empty playlist"),
                    title: String::new(),
                    detail: String::new(),
                },
            );
            return rows;
        }
        let ghost pred = |s: Song| song_matches_search(s@, search_pattern(input@));
        let mut i: usize = 0;
        while i < n
            invariant
                i <= n,
                n == self.playlist_items@.len(),
                pattern@ == search_pattern(input@),
                pred == (|s: Song| song_matches_search(s@, search_pattern(input@))),
                rows@.map_values(|r: PlaylistRow| r@) =~~= self.playlist_items@.take(
                    i as int,
                ).filter(pred).map_values(|s: Song| search_row_of_song(s@)),
            decreases n - i,
        {
            let song = &self.playlist_items[i];
            let matched = song_matches_search_exec(song, pattern.as_str());
            let ghost rows_prev = rows@;
            proof {
                assert(self.playlist_items@.take(i + 1 as int) =~= self.playlist_items@.take(
                    i as int,
                ).push(self.playlist_items@[i as int]));
                self.playlist_items@.take(i as int).lemma_filter_push(
                    self.playlist_items@[i as int],
                    pred,
                );
                self.playlist_items@.take(i as int).filter(pred).lemma_push_map_commute(
                    |s2: Song| search_row_of_song(s2@),
                    self.playlist_items@[i as int],
                );
            }
            if matched {
                let row = make_search_row_of_song(song);
                rows.push(row);
                proof {
                    rows_prev.lemma_push_map_commute(|r2: PlaylistRow| r2@, row);
                }
            }
            i = i + 1;
        }
        proof {
            assert(self.playlist_items@.take(n as int) =~= self.playlist_items@);
        }
        rows
    }
}

fn clone_song(s: &Song) -> (r: Song)
    ensures
        r@ == s@,
{
    Song {
        file: clone_opt(&s.file),
        name: clone_opt(&s.name),
        artist: clone_opt(&s.artist),
        title: clone_opt(&s.title),
        album: clone_opt(&s.album),
        duration: s.duration,
    }
}

fn clone_opt(s: &Option<String>) -> (r: Option<String>)
    ensures
        crate::song::view_opt_str(r) == crate::song::view_opt_str(*s),
{
    match s {
        Some(v) => Some(v.clone()),
        None => None,
    }
}

/// The wildcard pattern a search input turns into: the lower-cased
/// input between two multi-character wildcards.
pub open spec fn search_pattern(input: Seq<char>) -> Seq<char> {
    "*"@ + lower_of(input) + "*"@
}

/// Whether an entry matches the search pattern: its artist (fallback
/// text when untagged) or its title, lower-cased, does.
pub open spec fn song_matches_search(s: SongV, pattern: Seq<char>) -> bool {
    let artist = match s.artist {
        Some(a) => a,
        None => "Unknown artist"@,
    };
    let title = match s.title {
        Some(t) => t,
        None => "Unknown title"@,
    };
    wild_matches(pattern, lower_of(artist)) || wild_matches(pattern, lower_of(title))
}

fn song_matches_search_exec(s: &Song, pattern: &str) -> (r: bool)
    ensures
        r == song_matches_search(s@, pattern@),
{
    let artist: String = match s.artist() {
        Some(a) => a.to_owned(),
        None => String::from_str("Unknown artist"),
    };
    let title: String = match s.title() {
        Some(t) => t.to_owned(),
        None => String::from_str("Unknown title"),
    };
    wildcard_matches(pattern, lowercase(artist.as_str()).as_str()) || wildcard_matches(
        pattern,
        lowercase(title.as_str()).as_str(),
    )
}

/// What lower-casing makes of text; the result depends on the
/// characters alone.
pub uninterp spec fn lower_of(s: Seq<char>) -> Seq<char>;

/// Relies on str::to_lowercase: the result depends on the characters
/// alone, and empty text stays empty.
#[verifier::external_body]
fn lowercase(s: &str) -> (r: String)
    ensures
        r@ == lower_of(s@),
        s@.len() == 0 ==> r@.len() == 0,
{
    s.to_lowercase()
}

/// Whether the wildcard pattern matches the text; the answer depends
/// on the two alone.
pub uninterp spec fn wild_matches(pattern: Seq<char>, input: Seq<char>) -> bool;

/// Relies on wildmatch's WildMatch::matches: `*` stands for any run
/// of characters and `?` for one; the answer is a function of pattern
/// and input.
#[verifier::external_body]
fn wildcard_matches(pattern: &str, input: &str) -> (r: bool)
    ensures
        r == wild_matches(pattern@, input@),
{
    wildmatch::WildMatch::new(pattern).matches(input)
}

/// Relies on rand's SliceRandom::shuffle, a Fisher-Yates shuffle: it
/// permutes the slice in place, keeping exactly the same entries
/// (VecDeque::make_contiguous only lays them out for slicing).
#[verifier::external_body]
fn shuffle_songs(items: &mut VecDeque<Song>)
    ensures
        final(items)@.to_multiset() == old(items)@.to_multiset(),
        final(items)@.len() == old(items)@.len(),
{
    items.make_contiguous().shuffle(&mut rand::rng());
}

} // verus!

verus! {

use crate::backend::{unchanged_but_cmds, PlayerInternalCmd, RustyBackend};
use crate::track::{MediaType, Track};

/// The files of the entries that have one, in playlist order.
pub open spec fn playable_files(items: Seq<Song>) -> Seq<Seq<char>> {
    items.filter(|s: Song| s@.file is Some).map_values(
        |s: Song| match s@.file {
            Some(f) => f,
            None => Seq::empty(),
        },
    )
}

/// Queues every playlist entry that has a file into the engine, in
/// order, as enqueued-next tracks; entries without a file are passed
/// over.
pub fn start_play(backend: &mut RustyBackend, model: &Model)
    ensures
        final(backend).cmds@.len() == old(backend).cmds@.len() + playable_files(
            model.playlist_items@,
        ).len(),
        final(backend).cmds@.subrange(0, old(backend).cmds@.len() as int) == old(backend).cmds@,
        forall|j: int|
            0 <= j < playable_files(model.playlist_items@).len() ==> ((
            #[trigger] final(backend).cmds@[old(backend).cmds@.len() + j])
                matches PlayerInternalCmd::QueueNext(t, g)
                && t@.file == Some(playable_files(model.playlist_items@)[j]) && t@.media_type
                == MediaType::Music && g == old(backend).gapless),
        unchanged_but_cmds(*old(backend), *final(backend)),
{
    let ghost pred = |s: Song| s@.file is Some;
    let ghost to_file = |s: Song|
        match s@.file {
            Some(f) => f,
            None => Seq::<char>::empty(),
        };
    let n = model.playlist_items.len();
    let mut i: usize = 0;
    while i < n
        invariant
            i <= n,
            n == model.playlist_items@.len(),
            pred == (|s: Song| s@.file is Some),
            to_file == (|s: Song|
                match s@.file {
                    Some(f) => f,
                    None => Seq::<char>::empty(),
                }),
            backend.cmds@.len() == old(backend).cmds@.len() + model.playlist_items@.take(
                i as int,
            ).filter(pred).len(),
            backend.cmds@.subrange(0, old(backend).cmds@.len() as int) == old(backend).cmds@,
            forall|j: int|
                0 <= j < model.playlist_items@.take(i as int).filter(pred).len() ==> ((
                #[trigger] backend.cmds@[old(backend).cmds@.len() + j])
                    matches PlayerInternalCmd::QueueNext(t, g) && t@.file == Some(
                    model.playlist_items@.take(i as int).filter(pred).map_values(to_file)[j],
                ) && t@.media_type == MediaType::Music && g == old(backend).gapless),
            unchanged_but_cmds(*old(backend), *backend),
        decreases n - i,
    {
        proof {
            assert(model.playlist_items@.take(i + 1 as int) =~= model.playlist_items@.take(
                i as int,
            ).push(model.playlist_items@[i as int]));
            model.playlist_items@.take(i as int).lemma_filter_push(
                model.playlist_items@[i as int],
                pred,
            );
            model.playlist_items@.take(i as int).filter(pred).lemma_push_map_commute(
                to_file,
                model.playlist_items@[i as int],
            );
        }
        let song = &model.playlist_items[i];
        match song.file() {
            Some(path) => {
                let ghost cmds_prev = backend.cmds@;
                let track = Track::new(MediaType::Music, Some(path.to_owned()));
                backend.enqueue_next(&track);
                proof {
                    assert(forall|k: int|
                        0 <= k < cmds_prev.len() ==> #[trigger] backend.cmds@[k]
                            == cmds_prev[k]);
                    assert(backend.cmds@.subrange(0, old(backend).cmds@.len() as int) =~= old(
                        backend,
                    ).cmds@);
                }
            },
            None => {},
        }
        i = i + 1;
    }
    proof {
        assert(model.playlist_items@.take(n as int) =~= model.playlist_items@);
    }
}

} // verus!
