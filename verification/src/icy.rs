use vstd::prelude::*;

verus! {

use vstd::arithmetic::div_mod::{
    lemma_basic_div,
    lemma_div_is_ordered,
    lemma_div_minus_one,
    lemma_div_non_zero,
    lemma_fundamental_div_mod,
    lemma_small_div_converse,
};

/// The largest metadata block the protocol can announce: the length
/// byte counts units of 16 bytes, so 255 units.
pub const MAX_META_BLOCK: u16 = 4080;

/// Ghost model of the filter's position in the interleaved stream:
/// how many audio bytes remain before the next length byte, and, when
/// inside a metadata block, how much of it is still to come and what
/// has been collected so far.
pub struct IcyModel {
    /// The advertised metadata interval, in audio bytes.
    pub interval: int,
    /// Audio bytes to forward before the next length byte; at zero
    /// the next byte read is a length byte.
    pub audio_left: int,
    /// Whether the filter is inside a metadata block.
    pub in_meta: bool,
    /// Bytes of the current block still to be read.
    pub meta_left: int,
    /// Bytes of the current block collected so far.
    pub buf: Seq<u8>,
}

impl IcyModel {
    pub open spec fn wf(self) -> bool {
        &&& self.interval >= 1
        &&& 0 <= self.audio_left <= self.interval
        &&& (self.in_meta ==> 1 <= self.meta_left)
        &&& (!self.in_meta ==> self.meta_left == 0 && self.buf.len() == 0)
    }

    /// The state of a filter that has just been created, or has just
    /// finished a metadata block: a full audio interval ahead.
    pub open spec fn fresh(interval: int) -> IcyModel {
        IcyModel {
            interval,
            audio_left: interval,
            in_meta: false,
            meta_left: 0,
            buf: Seq::empty(),
        }
    }
}

/// One byte through the filter: the next state, the audio forwarded
/// (zero or one byte) and the metadata block completed (zero or one).
pub open spec fn icy_step(m: IcyModel, b: u8) -> (IcyModel, Seq<u8>, Seq<Seq<u8>>) {
    if m.in_meta {
        if m.meta_left <= 1 {
            (
                IcyModel {
                    in_meta: false,
                    meta_left: 0,
                    buf: Seq::empty(),
                    audio_left: m.interval,
                    ..m
                },
                Seq::empty(),
                seq![m.buf.push(b)],
            )
        } else {
            (
                IcyModel { meta_left: m.meta_left - 1, buf: m.buf.push(b), ..m },
                Seq::empty(),
                Seq::empty(),
            )
        }
    } else if m.audio_left == 0 {
        if b == 0 {
            (IcyModel { audio_left: m.interval, ..m }, Seq::empty(), Seq::empty())
        } else {
            (
                IcyModel { in_meta: true, meta_left: 16 * b as int, buf: Seq::empty(), ..m },
                Seq::empty(),
                Seq::empty(),
            )
        }
    } else {
        (IcyModel { audio_left: m.audio_left - 1, ..m }, seq![b], Seq::empty())
    }
}

/// A whole input through the filter, byte by byte: the final state,
/// all audio forwarded and all metadata blocks completed, in order.
pub open spec fn icy_run(m: IcyModel, input: Seq<u8>) -> (IcyModel, Seq<u8>, Seq<Seq<u8>>)
    decreases input.len(),
{
    if input.len() == 0 {
        (m, Seq::empty(), Seq::empty())
    } else {
        let first = icy_step(m, input[0]);
        let rest = icy_run(first.0, input.drop_first());
        (rest.0, first.1 + rest.1, first.2 + rest.2)
    }
}

/// Running one more byte extends a run by one step.
pub proof fn lemma_icy_run_snoc(m: IcyModel, s: Seq<u8>, b: u8)
    ensures
        icy_run(m, s.push(b)).0 == icy_step(icy_run(m, s).0, b).0,
        icy_run(m, s.push(b)).1 =~= icy_run(m, s).1 + icy_step(icy_run(m, s).0, b).1,
        icy_run(m, s.push(b)).2 =~~= icy_run(m, s).2 + icy_step(icy_run(m, s).0, b).2,
    decreases s.len(),
{
    if s.len() == 0 {
        let first = icy_step(m, b);
        assert(s.push(b)[0] == b);
        assert(s.push(b).drop_first() =~= Seq::<u8>::empty());
        assert(s =~= Seq::<u8>::empty());
        assert(icy_run(m, s) == (m, Seq::<u8>::empty(), Seq::<Seq<u8>>::empty()));
        assert(icy_run(first.0, s.push(b).drop_first()) == (
            first.0,
            Seq::<u8>::empty(),
            Seq::<Seq<u8>>::empty(),
        ));
        assert(icy_run(m, s.push(b)).0 == first.0);
        assert(icy_run(m, s.push(b)).1 =~= first.1);
        assert(icy_run(m, s.push(b)).2 =~~= first.2);
    } else {
        let first = icy_step(m, s[0]);
        assert(s.push(b)[0] == s[0]);
        assert(s.push(b).drop_first() =~= s.drop_first().push(b));
        lemma_icy_run_snoc(first.0, s.drop_first(), b);
        assert(icy_run(m, s.push(b)).1 =~= first.1 + icy_run(first.0, s.drop_first().push(b)).1);
        assert(icy_run(m, s.push(b)).2 =~~= first.2 + icy_run(first.0, s.drop_first().push(b)).2);
    }
}

/// A run over concatenated input composes the runs over its parts.
pub proof fn lemma_icy_run_concat(m: IcyModel, s1: Seq<u8>, s2: Seq<u8>)
    ensures
        icy_run(m, s1 + s2).0 == icy_run(icy_run(m, s1).0, s2).0,
        icy_run(m, s1 + s2).1 =~= icy_run(m, s1).1 + icy_run(icy_run(m, s1).0, s2).1,
        icy_run(m, s1 + s2).2 =~~= icy_run(m, s1).2 + icy_run(icy_run(m, s1).0, s2).2,
    decreases s1.len(),
{
    if s1.len() == 0 {
        assert(s1 + s2 =~= s2);
        assert(s1 =~= Seq::<u8>::empty());
    } else {
        assert((s1 + s2)[0] == s1[0]);
        assert((s1 + s2).drop_first() =~= s1.drop_first() + s2);
        lemma_icy_run_concat(icy_step(m, s1[0]).0, s1.drop_first(), s2);
    }
}

/// Demultiplexes interleaved "now playing" metadata out of a live
/// radio byte stream: every `interval` audio bytes the stream carries
/// one length byte (counting units of 16 bytes; zero means no
/// metadata this cycle) followed by that much metadata. Audio bytes
/// are forwarded untouched and in order; metadata bytes never leak,
/// even when a block spans several reads.
pub struct FilterOutIcyMetadata {
    interval: u16,
    audio_left: u16,
    in_meta: bool,
    meta_left: u16,
    meta_buf: Vec<u8>,
}

impl View for FilterOutIcyMetadata {
    type V = IcyModel;

    closed spec fn view(&self) -> IcyModel {
        IcyModel {
            interval: self.interval as int,
            audio_left: self.audio_left as int,
            in_meta: self.in_meta,
            meta_left: self.meta_left as int,
            buf: self.meta_buf@,
        }
    }
}

impl FilterOutIcyMetadata {
    pub open spec fn wf(&self) -> bool {
        self@.wf()
    }

    /// A filter at the start of a stream, with the interval the
    /// response headers advertised.
    pub fn new(interval: u16) -> (r: FilterOutIcyMetadata)
        requires
            interval >= 1,
        ensures
            r.wf(),
            r@ == IcyModel::fresh(interval as int),
    {
        FilterOutIcyMetadata {
            interval,
            audio_left: interval,
            in_meta: false,
            meta_left: 0,
            meta_buf: Vec::new(),
        }
    }

    /// Feeds one chunk of the raw stream through the filter,
    /// returning the audio bytes to forward and the metadata blocks
    /// completed inside this chunk, exactly as the byte-by-byte model
    /// describes.
    pub fn process(&mut self, input: &[u8]) -> (r: (Vec<u8>, Vec<Vec<u8>>))
        requires
            old(self).wf(),
        ensures
            final(self).wf(),
            final(self)@ == icy_run(old(self)@, input@).0,
            r.0@ =~= icy_run(old(self)@, input@).1,
            r.1@.map_values(|block: Vec<u8>| block@) =~~= icy_run(old(self)@, input@).2,
    {
        let mut audio: Vec<u8> = Vec::new();
        let mut blocks: Vec<Vec<u8>> = Vec::new();
        let mut i: usize = 0;
        while i < input.len()
            invariant
                self.wf(),
                i <= input@.len(),
                self@.interval == old(self)@.interval,
                self@ == icy_run(old(self)@, input@.take(i as int)).0,
                audio@ =~= icy_run(old(self)@, input@.take(i as int)).1,
                blocks@.map_values(|block: Vec<u8>| block@) =~~= icy_run(
                    old(self)@,
                    input@.take(i as int),
                ).2,
            decreases input@.len() - i,
        {
            let b = input[i];
            let ghost pre = self@;
            let ghost prefix = input@.take(i as int);
            proof {
                lemma_icy_run_snoc(old(self)@, prefix, b);
                assert(input@.take(i + 1 as int) =~= prefix.push(b));
            }
            if self.in_meta {
                if self.meta_left <= 1 {
                    self.meta_buf.push(b);
                    let mut block: Vec<u8> = Vec::new();
                    core::mem::swap(&mut self.meta_buf, &mut block);
                    blocks.push(block);
                    self.in_meta = false;
                    self.meta_left = 0;
                    self.audio_left = self.interval;
                    proof {
                        assert(blocks@.map_values(|bl: Vec<u8>| bl@) =~~= icy_run(
                            old(self)@,
                            prefix,
                        ).2 + icy_step(pre, b).2);
                    }
                } else {
                    self.meta_buf.push(b);
                    self.meta_left = self.meta_left - 1;
                }
            } else if self.audio_left == 0 {
                if b == 0 {
                    self.audio_left = self.interval;
                } else {
                    self.in_meta = true;
                    self.meta_left = 16 * (b as u16);
                    self.meta_buf = Vec::new();
                }
            } else {
                audio.push(b);
                self.audio_left = self.audio_left - 1;
            }
            i = i + 1;
        }
        proof {
            assert(input@.take(input@.len() as int) =~= input@);
        }
        (audio, blocks)
    }
}

} // verus!

verus! {

/// A well-formed metadata block as the protocol frames it: a nonempty
/// multiple of 16 bytes, at most 255 units of 16.
pub open spec fn icy_block_wf(block: Seq<u8>) -> bool {
    &&& block.len() % 16 == 0
    &&& 16 <= block.len() <= MAX_META_BLOCK
}

/// One protocol frame: the length byte (units of 16 bytes) followed
/// by the block itself.
pub open spec fn icy_frame(block: Seq<u8>) -> Seq<u8> {
    seq![(block.len() / 16) as u8] + block
}

/// A synthetic interleaved stream: after every `interval` audio bytes
/// one metadata frame, with the trailing audio (shorter than one
/// interval) at the end.
pub open spec fn icy_encode(audio: Seq<u8>, blocks: Seq<Seq<u8>>, interval: int) -> Seq<u8>
    decreases blocks.len(),
{
    if blocks.len() == 0 {
        audio
    } else {
        audio.take(interval) + icy_frame(blocks[0]) + icy_encode(
            audio.skip(interval),
            blocks.drop_first(),
            interval,
        )
    }
}

/// Audio bytes within the current interval pass through unchanged,
/// with no metadata completed.
proof fn lemma_icy_run_audio(m: IcyModel, s: Seq<u8>)
    requires
        m.wf(),
        !m.in_meta,
        s.len() <= m.audio_left,
    ensures
        icy_run(m, s).0 == (IcyModel { audio_left: m.audio_left - s.len(), ..m }),
        icy_run(m, s).1 =~= s,
        icy_run(m, s).2 =~~= Seq::<Seq<u8>>::empty(),
    decreases s.len(),
{
    if s.len() == 0 {
        assert(icy_run(m, s).0 == m);
        assert(m == (IcyModel { audio_left: m.audio_left - 0, ..m }));
    } else {
        let m1 = icy_step(m, s[0]).0;
        lemma_icy_run_audio(m1, s.drop_first());
        assert(seq![s[0]] + s.drop_first() =~= s);
    }
}

/// The remaining bytes of an open metadata block are collected
/// without forwarding audio; on the last byte the whole block is
/// emitted and a fresh audio interval starts.
proof fn lemma_icy_run_meta(m: IcyModel, s: Seq<u8>)
    requires
        m.wf(),
        m.in_meta,
        s.len() == m.meta_left,
    ensures
        icy_run(m, s).0 == IcyModel::fresh(m.interval),
        icy_run(m, s).1 =~= Seq::<u8>::empty(),
        icy_run(m, s).2 =~~= seq![m.buf + s],
    decreases s.len(),
{
    if s.len() == 1 {
        let first = icy_step(m, s[0]);
        assert(first.2 =~~= seq![m.buf.push(s[0])]);
        assert(m.buf.push(s[0]) =~= m.buf + s);
        assert(s.drop_first() =~= Seq::<u8>::empty());
        assert(icy_run(first.0, s.drop_first()).2 =~~= Seq::<Seq<u8>>::empty());
        assert(icy_run(m, s).2 =~~= seq![m.buf + s]);
    } else {
        let m1 = icy_step(m, s[0]).0;
        assert(m1.buf == m.buf.push(s[0]));
        lemma_icy_run_meta(m1, s.drop_first());
        assert(m.buf.push(s[0]) + s.drop_first() =~= m.buf + s);
    }
}

/// A whole metadata frame arriving at the interval boundary emits
/// exactly its block and resets the filter to a fresh interval.
proof fn lemma_icy_run_frame(m: IcyModel, block: Seq<u8>)
    requires
        m.wf(),
        !m.in_meta,
        m.audio_left == 0,
        icy_block_wf(block),
    ensures
        icy_run(m, icy_frame(block)).0 == IcyModel::fresh(m.interval),
        icy_run(m, icy_frame(block)).1 =~= Seq::<u8>::empty(),
        icy_run(m, icy_frame(block)).2 =~~= seq![block],
{
    let len_byte = (block.len() / 16) as u8;
    let input = icy_frame(block);
    lemma_div_non_zero(block.len() as int, 16);
    lemma_div_is_ordered(block.len() as int, MAX_META_BLOCK as int, 16);
    assert(1 <= block.len() as int / 16 <= 255);
    assert(len_byte as int == block.len() as int / 16);
    lemma_fundamental_div_mod(block.len() as int, 16);
    assert(16 * (len_byte as int) == block.len());
    assert(input[0] == len_byte);
    assert(input.drop_first() =~= block);
    let m1 = icy_step(m, len_byte).0;
    assert(m1.in_meta && m1.meta_left == block.len() && m1.buf =~= Seq::<u8>::empty());
    lemma_icy_run_meta(m1, block);
    assert(m1.buf + block =~= block);
    assert(icy_run(m, input).1 =~= Seq::<u8>::empty());
    assert(icy_run(m, input).2 =~~= seq![block]);
}

/// Law (round trip): feed a fresh filter a synthetic stream of `N`
/// audio bytes with one well-formed metadata block inserted every
/// `interval` bytes. The filter forwards exactly the `N` audio bytes,
/// in order, leaks no metadata byte, and completes exactly
/// `N / interval` blocks -- one callback per metadata cycle.
pub proof fn lemma_icy_round_trip(interval: int, audio: Seq<u8>, blocks: Seq<Seq<u8>>)
    requires
        interval >= 1,
        blocks.len() == audio.len() as int / interval,
        forall|j: int| 0 <= j < blocks.len() ==> icy_block_wf(#[trigger] blocks[j]),
    ensures
        icy_run(IcyModel::fresh(interval), icy_encode(audio, blocks, interval)).1 =~= audio,
        icy_run(IcyModel::fresh(interval), icy_encode(audio, blocks, interval)).2 =~~= blocks,
    decreases blocks.len(),
{
    let m0 = IcyModel::fresh(interval);
    if blocks.len() == 0 {
        broadcast use lemma_small_div_converse;

        assert(audio.len() < interval);
        lemma_icy_run_audio(m0, audio);
    } else {
        if audio.len() < interval {
            // then audio.len() / interval == 0, contradicting blocks.len() >= 1
            lemma_basic_div(audio.len() as int, interval);
            assert(false);
        }
        let chunk = audio.take(interval);
        let b0 = blocks[0];
        let frame = icy_frame(b0);
        let rest = icy_encode(audio.skip(interval), blocks.drop_first(), interval);
        assert(icy_encode(audio, blocks, interval) =~= (chunk + frame) + rest);
        lemma_icy_run_concat(m0, chunk + frame, rest);
        lemma_icy_run_concat(m0, chunk, frame);
        lemma_icy_run_audio(m0, chunk);
        let m_zero = icy_run(m0, chunk).0;
        assert(m_zero.audio_left == 0 && !m_zero.in_meta && m_zero.wf());
        lemma_icy_run_frame(m_zero, b0);
        assert(icy_run(m0, chunk + frame).0 == IcyModel::fresh(interval));
        assert(icy_run(m0, chunk + frame).1 =~= chunk);
        assert(icy_run(m0, chunk + frame).2 =~~= seq![b0]);
        // one interval and one block consumed; the remainder still matches
        lemma_div_minus_one(audio.len() as int, interval);
        assert(audio.skip(interval).len() as int / interval == blocks.drop_first().len());
        assert(forall|j: int|
            0 <= j < blocks.drop_first().len() ==> icy_block_wf(#[trigger] blocks.drop_first()[j]));
        lemma_icy_round_trip(interval, audio.skip(interval), blocks.drop_first());
        assert(icy_run(m0, icy_encode(audio, blocks, interval)).1 =~= chunk + audio.skip(interval));
        assert(chunk + audio.skip(interval) =~= audio);
        assert(icy_run(m0, icy_encode(audio, blocks, interval)).2 =~~= seq![b0]
            + blocks.drop_first());
        assert(seq![b0] + blocks.drop_first() =~~= blocks);
    }
}

} // verus!

verus! {

/// The needle occurs in the haystack at exactly position `i`.
pub open spec fn match_at(hay: Seq<char>, needle: Seq<char>, i: int) -> bool {
    &&& 0 <= i
    &&& i + needle.len() <= hay.len()
    &&& hay.subrange(i, i + needle.len()) == needle
}

/// The first position at or after `i` where the needle occurs.
pub open spec fn first_match_from(hay: Seq<char>, needle: Seq<char>, i: int) -> Option<int>
    decreases hay.len() - i,
    when 0 <= i <= hay.len()
{
    if needle.len() == 0 {
        Some(i)
    } else if i + needle.len() > hay.len() {
        None
    } else if match_at(hay, needle, i) {
        Some(i)
    } else {
        first_match_from(hay, needle, i + 1)
    }
}

/// A found position really is a match.
proof fn lemma_first_match_some(hay: Seq<char>, needle: Seq<char>, i: int, j: int)
    requires
        0 <= i <= hay.len(),
        first_match_from(hay, needle, i) == Some(j),
    ensures
        match_at(hay, needle, j),
        i <= j,
    decreases hay.len() - i,
{
    if needle.len() == 0 {
        assert(hay.subrange(i, i) =~= needle);
    } else if i + needle.len() > hay.len() {
    } else if match_at(hay, needle, i) {
    } else {
        lemma_first_match_some(hay, needle, i + 1, j);
    }
}

fn match_at_exec(hay: &str, needle: &str, i: usize) -> (r: bool)
    requires
        i + needle@.len() <= hay@.len(),
        hay@.len() <= usize::MAX,
    ensures
        r == match_at(hay@, needle@, i as int),
{
    let nlen = needle.unicode_len();
    let mut j: usize = 0;
    while j < nlen
        invariant
            i + needle@.len() <= hay@.len(),
            hay@.len() <= usize::MAX,
            nlen == needle@.len(),
            j <= nlen,
            forall|k: int| 0 <= k < j ==> hay@[i + k] == needle@[k],
        decreases nlen - j,
    {
        if hay.get_char(i + j) != needle.get_char(j) {
            proof {
                assert(hay@.subrange(i as int, i as int + needle@.len())[j as int] == hay@[i + j]);
            }
            return false;
        }
        j = j + 1;
    }
    proof {
        assert(hay@.subrange(i as int, i as int + needle@.len()) =~= needle@);
    }
    true
}

/// Finds the first occurrence of `needle` in `hay`, by characters.
pub fn find_sub(hay: &str, needle: &str) -> (r: Option<usize>)
    ensures
        r matches Some(i) ==> first_match_from(hay@, needle@, 0) == Some(i as int),
        r is None ==> first_match_from(hay@, needle@, 0) is None,
{
    let hlen = hay.unicode_len();
    let nlen = needle.unicode_len();
    if nlen > hlen {
        return None;
    }
    if nlen == 0 {
        proof {
            assert(hay@.subrange(0, 0) =~= needle@);
        }
        return Some(0);
    }
    let mut i: usize = 0;
    while i <= hlen - nlen
        invariant
            1 <= nlen <= hlen,
            hlen == hay@.len(),
            nlen == needle@.len(),
            i as int <= hlen as int - nlen as int + 1,
            first_match_from(hay@, needle@, 0) == first_match_from(hay@, needle@, i as int),
        decreases hlen - nlen - i + 1,
    {
        if match_at_exec(hay, needle, i) {
            return Some(i);
        }
        i = i + 1;
    }
    None
}

/// The title a metadata block's text carries: what stands between
/// `StreamTitle='` and the following `';`, or empty text when the
/// field is absent or unterminated. Malformed metadata never aborts
/// the stream; it simply yields an empty title.
pub open spec fn icy_title_text(meta: Seq<char>) -> Seq<char> {
    match first_match_from(meta, "StreamTitle='"@, 0) {
        Some(i) => {
            let rest = meta.subrange(i + "StreamTitle='"@.len(), meta.len() as int);
            match first_match_from(rest, "';"@, 0) {
                Some(j) => rest.take(j),
                None => Seq::empty(),
            }
        },
        None => Seq::empty(),
    }
}

/// Extracts the `StreamTitle` field out of a metadata block's text.
pub fn parse_icy_title(meta: &str) -> (r: String)
    ensures
        r@ == icy_title_text(meta@),
{
    let key = "StreamTitle='";
    let mlen = meta.unicode_len();
    match find_sub(meta, key) {
        Some(i) => {
            proof {
                lemma_first_match_some(meta@, key@, 0, i as int);
            }
            let start = i + key.unicode_len();
            let rest = meta.substring_char(start, mlen);
            let end_marker = "';";
            match find_sub(rest, end_marker) {
                Some(j) => {
                    proof {
                        lemma_first_match_some(rest@, end_marker@, 0, j as int);
                    }
                    let title = rest.substring_char(0, j);
                    proof {
                        assert(title@ =~= rest@.take(j as int));
                    }
                    title.to_owned()
                },
                None => String::new(),
            }
        },
        None => String::new(),
    }
}

/// What `String::from_utf8_lossy` makes of a byte sequence; the text
/// depends on the bytes alone.
pub uninterp spec fn utf8_lossy_of(bytes: Seq<u8>) -> Seq<char>;

/// Relies on String::from_utf8_lossy: the decoded text is a function
/// of the bytes alone, and ASCII bytes decode to themselves.
#[verifier::external_body]
fn bytes_to_string_lossy(bytes: &[u8]) -> (r: String)
    ensures
        r@ == utf8_lossy_of(bytes@),
        (forall|i: int| 0 <= i < bytes@.len() ==> bytes@[i] < 128) ==> (r@.len() == bytes@.len()
            && (forall|i: int| 0 <= i < bytes@.len() ==> r@[i] == bytes@[i] as char)),
{
    String::from_utf8_lossy(bytes).into_owned()
}

/// Decodes one completed metadata block and extracts its title field.
pub fn extract_title(block: &[u8]) -> (r: String)
    ensures
        r@ == icy_title_text(utf8_lossy_of(block@)),
{
    let text = bytes_to_string_lossy(block);
    parse_icy_title(text.as_str())
}

} // verus!
