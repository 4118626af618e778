use vstd::prelude::*;

use crate::song::view_opt_str;

verus! {

/// The ghost shape of one lyric-source option.
pub struct SongTagV {
    pub artist: Option<Seq<char>>,
    pub title: Option<Seq<char>>,
    pub album: Option<Seq<char>>,
}

/// One lyric-source option offered in the tag editor.
#[derive(Debug)]
pub struct SongTag {
    pub artist: Option<String>,
    pub title: Option<String>,
    pub album: Option<String>,
}

impl View for SongTag {
    type V = SongTagV;

    open spec fn view(&self) -> SongTagV {
        SongTagV {
            artist: view_opt_str(self.artist),
            title: view_opt_str(self.title),
            album: view_opt_str(self.album),
        }
    }
}

/// The one-line description of a lyric option: artist and title with
/// fixed fallbacks, joined by a dash.
pub open spec fn song_tag_line(t: SongTagV) -> Seq<char> {
    (match t.artist {
        Some(a) => a,
        None => "Unknown Artist"@,
    }) + " - "@ + (match t.title {
        Some(s) => s,
        None => "Unknown Title"@,
    })
}

impl SongTag {
    /// The option's display line, as `song_tag_line` describes.
    pub fn describe(&self) -> (r: String)
        ensures
            r@ == song_tag_line(self@),
    {
        let mut out = match &self.artist {
            Some(a) => a.clone(),
            None => String::from_str("Unknown Artist"),
        };
        out.append(" - ");
        match &self.title {
            Some(t) => out.append(t.as_str()),
            None => out.append("Unknown Title"),
        }
        out
    }
}

/// The tag editor's lyric-options pane: the options fetched for the
/// track being edited and the table lines shown for them.
pub struct TagEditorActivity {
    pub lyric_options: Vec<SongTag>,
    pub table_lines: Vec<String>,
}

impl TagEditorActivity {
    pub fn new() -> (r: TagEditorActivity)
        ensures
            r.lyric_options@.len() == 0,
            r.table_lines@.len() == 0,
    {
        TagEditorActivity { lyric_options: Vec::new(), table_lines: Vec::new() }
    }

    /// Replaces the lyric options and rebuilds their table lines.
    pub fn add_lyric_options(&mut self, items: Vec<SongTag>)
        ensures
            final(self).lyric_options@ == items@,
            final(self).table_lines@.map_values(|l: String| l@) =~~= items@.map_values(
                |t: SongTag| song_tag_line(t@),
            ),
    {
        self.lyric_options = items;
        self.sync_items();
    }

    /// Rebuilds the table lines, one per option.
    pub fn sync_items(&mut self)
        ensures
            final(self).lyric_options@ == old(self).lyric_options@,
            final(self).table_lines@.map_values(|l: String| l@) =~~= old(
                self,
            ).lyric_options@.map_values(|t: SongTag| song_tag_line(t@)),
    {
        let mut lines: Vec<String> = Vec::new();
        let n = self.lyric_options.len();
        let mut i: usize = 0;
        while i < n
            invariant
                i <= n,
                n == self.lyric_options@.len(),
                lines@.map_values(|l: String| l@) =~~= self.lyric_options@.take(
                    i as int,
                ).map_values(|t: SongTag| song_tag_line(t@)),
            decreases n - i,
        {
            let ghost lines_prev = lines@;
            let line = self.lyric_options[i].describe();
            lines.push(line);
            proof {
                lines_prev.lemma_push_map_commute(|l: String| l@, line);
                self.lyric_options@.take(i as int).lemma_push_map_commute(
                    |t: SongTag| song_tag_line(t@),
                    self.lyric_options@[i as int],
                );
                assert(self.lyric_options@.take(i + 1 as int) =~= self.lyric_options@.take(
                    i as int,
                ).push(self.lyric_options@[i as int]));
            }
            i = i + 1;
        }
        proof {
            assert(self.lyric_options@.take(n as int) =~= self.lyric_options@);
        }
        self.table_lines = lines;
    }
}

} // verus!
