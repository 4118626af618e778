use vstd::prelude::*;

verus! {

/// Result of a pull from a streaming buffer.
#[derive(Debug)]
pub enum ReadOutcome {
    /// The bytes read; empty only at the end of a finished stream.
    Data(Vec<u8>),
    /// The requested region has not been downloaded yet: the caller
    /// waits and retries. A read past the downloaded region never
    /// errors.
    Pending,
}

/// Ghost model of the adaptive provider: everything downloaded so
/// far, the reader's position inside it, the configured capacity and
/// whether the source has ended.
pub struct AdaptiveModel {
    pub data: Seq<u8>,
    pub pos: int,
    pub capacity: int,
    pub finished: bool,
}

impl AdaptiveModel {
    pub open spec fn wf(self) -> bool {
        0 <= self.pos <= self.data.len()
    }
}

/// What a read of `n` bytes does to the adaptive provider: bytes from
/// the reader's position, `None` (wait) past the downloaded region of
/// an unfinished stream, empty bytes at the end of a finished one.
pub open spec fn adaptive_read(m: AdaptiveModel, n: int) -> (AdaptiveModel, Option<Seq<u8>>) {
    if m.pos < m.data.len() || m.finished {
        let end = if m.pos + n <= m.data.len() {
            m.pos + n
        } else {
            m.data.len() as int
        };
        (AdaptiveModel { pos: end, ..m }, Some(m.data.subrange(m.pos, end)))
    } else {
        (m, None)
    }
}

/// What a write does: the chunk joins the downloaded bytes; nothing
/// already downloaded moves.
pub open spec fn adaptive_write(m: AdaptiveModel, chunk: Seq<u8>) -> AdaptiveModel {
    AdaptiveModel { data: m.data + chunk, ..m }
}

/// What a seek does: the reader's position moves anywhere inside the
/// downloaded region.
pub open spec fn adaptive_seek(m: AdaptiveModel, p: int) -> AdaptiveModel {
    AdaptiveModel { pos: p, ..m }
}

/// Backpressure layer for finite on-demand content: it keeps every
/// downloaded byte addressable (the real provider spills to a
/// temporary file once memory is exhausted), so the decoder can seek
/// backwards into any already-downloaded range. A read past the
/// downloaded region waits instead of erroring.
pub struct AdaptiveBuffer {
    data: Vec<u8>,
    read_pos: usize,
    capacity: usize,
    finished: bool,
}

impl View for AdaptiveBuffer {
    type V = AdaptiveModel;

    closed spec fn view(&self) -> AdaptiveModel {
        AdaptiveModel {
            data: self.data@,
            pos: self.read_pos as int,
            capacity: self.capacity as int,
            finished: self.finished,
        }
    }
}

impl AdaptiveBuffer {
    pub open spec fn wf(&self) -> bool {
        self@.wf()
    }

    /// An empty provider sized at twice the prefetch threshold, so
    /// new data keeps arriving while the prefetch window drains.
    pub fn with_prefetch(prefetch: usize) -> (r: AdaptiveBuffer)
        requires
            prefetch <= usize::MAX / 2,
        ensures
            r.wf(),
            r@.data.len() == 0,
            r@.pos == 0,
            r@.capacity == 2 * prefetch,
            !r@.finished,
    {
        AdaptiveBuffer { data: Vec::new(), read_pos: 0, capacity: 2 * prefetch, finished: false }
    }

    /// Accepts one chunk arriving from the network.
    pub fn write(&mut self, chunk: &[u8])
        requires
            old(self).wf(),
            old(self)@.data.len() + chunk@.len() <= usize::MAX,
        ensures
            final(self).wf(),
            final(self)@ == adaptive_write(old(self)@, chunk@),
    {
        let mut i: usize = 0;
        while i < chunk.len()
            invariant
                i <= chunk@.len(),
                self.data@.len() == old(self)@.data.len() + i,
                self.data@ =~= old(self)@.data + chunk@.take(i as int),
                self.read_pos == old(self).read_pos,
                self.capacity == old(self).capacity,
                self.finished == old(self).finished,
                old(self)@.data.len() + chunk@.len() <= usize::MAX,
            decreases chunk@.len() - i,
        {
            self.data.push(chunk[i]);
            i = i + 1;
        }
        proof {
            assert(chunk@.take(chunk@.len() as int) =~= chunk@);
            assert(self@.data =~= adaptive_write(old(self)@, chunk@).data);
        }
    }

    /// Marks the end of the source: later reads at the end return
    /// empty data instead of waiting.
    pub fn mark_finished(&mut self)
        ensures
            final(self)@ == (AdaptiveModel { finished: true, ..old(self)@ }),
    {
        self.finished = true;
    }

    /// Pulls up to `n` bytes. Past the downloaded region of an
    /// unfinished stream the read is `Pending`: the caller waits for
    /// more data rather than treating it as an error.
    pub fn read(&mut self, n: usize) -> (r: ReadOutcome)
        requires
            old(self).wf(),
        ensures
            final(self).wf(),
            final(self)@ == adaptive_read(old(self)@, n as int).0,
            (match r {
                ReadOutcome::Data(bytes) => Some(bytes@),
                ReadOutcome::Pending => None,
            }) == adaptive_read(old(self)@, n as int).1,
    {
        if self.read_pos == self.data.len() && !self.finished {
            return ReadOutcome::Pending;
        }
        let end = if n <= self.data.len() - self.read_pos {
            self.read_pos + n
        } else {
            self.data.len()
        };
        let mut bytes: Vec<u8> = Vec::new();
        let mut i: usize = self.read_pos;
        while i < end
            invariant
                self.read_pos <= i <= end <= self.data@.len(),
                bytes@ =~= self.data@.subrange(self.read_pos as int, i as int),
            decreases end - i,
        {
            bytes.push(self.data[i]);
            i = i + 1;
        }
        self.read_pos = end;
        ReadOutcome::Data(bytes)
    }

    /// Moves the reader anywhere inside the downloaded region;
    /// refuses a position beyond it and then changes nothing.
    pub fn seek(&mut self, pos: usize) -> (ok: bool)
        requires
            old(self).wf(),
        ensures
            final(self).wf(),
            ok <==> pos <= old(self)@.data.len(),
            ok ==> final(self)@ == adaptive_seek(old(self)@, pos as int),
            !ok ==> final(self)@ == old(self)@,
    {
        if pos <= self.data.len() {
            self.read_pos = pos;
            true
        } else {
            false
        }
    }
}

/// Law: a read past the downloaded region waits rather than erroring,
/// and leaves the provider unchanged; once more data has arrived the
/// same read succeeds and hands back exactly the newly written bytes.
pub proof fn lemma_adaptive_read_waits_then_succeeds(m: AdaptiveModel, n: int, chunk: Seq<u8>)
    requires
        m.wf(),
        m.pos == m.data.len(),
        !m.finished,
        n > 0,
        chunk.len() > 0,
    ensures
        adaptive_read(m, n).1 is None,
        adaptive_read(m, n).0 == m,
        ({
            let after = adaptive_read(adaptive_write(m, chunk), n);
            &&& after.1 matches Some(bytes) && bytes =~= chunk.take(
                if n <= chunk.len() {
                    n
                } else {
                    chunk.len() as int
                },
            ) && bytes.len() > 0
        }),
{
    let m2 = adaptive_write(m, chunk);
    let end = if m.pos + n <= m2.data.len() {
        m.pos + n
    } else {
        m2.data.len() as int
    };
    assert(m2.data.subrange(m.pos, end) =~= chunk.take(
        if n <= chunk.len() {
            n
        } else {
            chunk.len() as int
        },
    ));
}

/// Law: a backward seek into an already-downloaded (possibly
/// disk-spilled) range reads back bytes identical to what was
/// written there.
pub proof fn lemma_adaptive_seek_back_identical(m: AdaptiveModel, p: int, n: int)
    requires
        m.wf(),
        0 <= p,
        1 <= n,
        p + n <= m.data.len(),
    ensures
        adaptive_read(adaptive_seek(m, p), n).1 == Some(m.data.subrange(p, p + n)),
{
}

/// Ghost model of the bounded provider: the not-yet-consumed window
/// and the capacity that throttles the producer.
pub struct BoundedModel {
    pub buffered: Seq<u8>,
    pub capacity: int,
    pub finished: bool,
}

/// Backpressure layer for live streams: a fixed-capacity in-memory
/// window with no disk persistence and no seeking. Once the window is
/// full the producer is throttled: a write is accepted only up to the
/// free space, and the rest must be offered again later.
pub struct BoundedBuffer {
    data: Vec<u8>,
    start: usize,
    capacity: usize,
    finished: bool,
}

impl View for BoundedBuffer {
    type V = BoundedModel;

    closed spec fn view(&self) -> BoundedModel {
        BoundedModel {
            buffered: self.data@.skip(self.start as int),
            capacity: self.capacity as int,
            finished: self.finished,
        }
    }
}

impl BoundedBuffer {
    pub closed spec fn wf(&self) -> bool {
        &&& self.start <= self.data@.len()
        &&& self.data@.len() - self.start <= self.capacity
    }

    /// An empty window sized at twice the prefetch threshold.
    pub fn with_prefetch(prefetch: usize) -> (r: BoundedBuffer)
        requires
            prefetch <= usize::MAX / 2,
        ensures
            r.wf(),
            r@.buffered.len() == 0,
            r@.capacity == 2 * prefetch,
            !r@.finished,
    {
        let r = BoundedBuffer { data: Vec::new(), start: 0, capacity: 2 * prefetch, finished: false };
        proof {
            assert(r@.buffered =~= Seq::<u8>::empty());
        }
        r
    }

    /// Offers one chunk; only what fits the free window is accepted,
    /// and the count taken is handed back so the producer can retry
    /// the rest -- the whole backpressure mechanism.
    pub fn write(&mut self, chunk: &[u8]) -> (accepted: usize)
        requires
            old(self).wf(),
            old(self)@.buffered.len() + chunk@.len() + old(self)@.capacity <= usize::MAX,
        ensures
            final(self).wf(),
            accepted == if chunk@.len() <= old(self)@.capacity - old(self)@.buffered.len() {
                chunk@.len() as int
            } else {
                old(self)@.capacity - old(self)@.buffered.len()
            },
            final(self)@.buffered =~= old(self)@.buffered + chunk@.take(accepted as int),
            final(self)@.capacity == old(self)@.capacity,
            final(self)@.finished == old(self)@.finished,
    {
        let buffered_len = self.data.len() - self.start;
        let free = self.capacity - buffered_len;
        let accepted = if chunk.len() <= free {
            chunk.len()
        } else {
            free
        };
        let mut i: usize = 0;
        while i < accepted
            invariant
                i <= accepted,
                accepted <= chunk@.len(),
                old(self)@.buffered.len() + chunk@.len() + old(self)@.capacity <= usize::MAX,
                self.data@ =~= old(self).data@ + chunk@.take(i as int),
                self.start == old(self).start,
                self.capacity == old(self).capacity,
                self.finished == old(self).finished,
                old(self).start <= old(self).data@.len(),
            decreases accepted - i,
        {
            self.data.push(chunk[i]);
            i = i + 1;
        }
        proof {
            assert(self@.buffered =~= old(self)@.buffered + chunk@.take(accepted as int));
        }
        accepted
    }

    /// Marks the end of the source.
    pub fn mark_finished(&mut self)
        ensures
            final(self)@.buffered == old(self)@.buffered,
            final(self)@.capacity == old(self)@.capacity,
            final(self)@.finished,
    {
        self.finished = true;
    }

    /// Pulls up to `n` bytes off the front of the window; on an empty
    /// window the read waits unless the stream has ended.
    pub fn read(&mut self, n: usize) -> (r: ReadOutcome)
        requires
            old(self).wf(),
        ensures
            final(self).wf(),
            final(self)@.capacity == old(self)@.capacity,
            final(self)@.finished == old(self)@.finished,
            old(self)@.buffered.len() == 0 && !old(self)@.finished ==> r is Pending
                && final(self)@.buffered == old(self)@.buffered,
            old(self)@.buffered.len() > 0 || old(self)@.finished ==> (r matches ReadOutcome::Data(
                bytes,
            ) && ({
                let taken = if n <= old(self)@.buffered.len() {
                    n as int
                } else {
                    old(self)@.buffered.len() as int
                };
                bytes@ =~= old(self)@.buffered.take(taken)
                    && final(self)@.buffered =~= old(self)@.buffered.skip(taken)
            })),
    {
        let buffered_len = self.data.len() - self.start;
        if buffered_len == 0 && !self.finished {
            return ReadOutcome::Pending;
        }
        let taken = if n <= buffered_len {
            n
        } else {
            buffered_len
        };
        let end = self.start + taken;
        let mut bytes: Vec<u8> = Vec::new();
        let mut i: usize = self.start;
        while i < end
            invariant
                self.start <= i <= end <= self.data@.len(),
                bytes@ =~= self.data@.subrange(self.start as int, i as int),
            decreases end - i,
        {
            bytes.push(self.data[i]);
            i = i + 1;
        }
        self.start = end;
        proof {
            let taken_spec = if n <= old(self)@.buffered.len() {
                n as int
            } else {
                old(self)@.buffered.len() as int
            };
            assert(bytes@ =~= old(self)@.buffered.take(taken_spec));
            assert(self@.buffered =~= old(self)@.buffered.skip(taken_spec));
        }
        ReadOutcome::Data(bytes)
    }
}

} // verus!
