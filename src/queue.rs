use vstd::prelude::*;

verus! {

/// One wave buffer waiting in a channel's queue: the key by which its owner
/// knows the buffer, and the number of samples that it holds.
#[derive(Debug, Clone, Copy, PartialEq, Eq, Structural)]
pub struct QueuedWave {
    pub key: u64,
    pub nsamples: u32,
}

/// The bookkeeping of one channel's playback queue, kept beside the
/// hardware's: which buffers the hardware may still read, in the order they
/// play. A buffer whose key is in the queue must stay allocated and unmoved;
/// it becomes free again when the hardware reports it finished or when the
/// queue is cleared.
pub struct WaveQueue {
    pending: Vec<QueuedWave>,
}

/// Whether a queue with these waves is playing: some wave in it still has
/// samples to play.
pub open spec fn playing(q: Seq<QueuedWave>) -> bool {
    exists|i: int| 0 <= i < q.len() && #[trigger] q[i].nsamples > 0
}

/// Whether the buffer with this key may be freed or reused: no queued wave
/// refers to it.
pub open spec fn reclaimable(q: Seq<QueuedWave>, key: u64) -> bool {
    forall|i: int| 0 <= i < q.len() ==> #[trigger] q[i].key != key
}

impl View for WaveQueue {
    type V = Seq<QueuedWave>;

    closed spec fn view(&self) -> Seq<QueuedWave> {
        self.pending@
    }
}

impl WaveQueue {
    /// An empty queue.
    pub fn new() -> (r: WaveQueue)
        ensures
            r@ == Seq::<QueuedWave>::empty(),
    {
        WaveQueue { pending: Vec::new() }
    }

    /// Records that a buffer was added to the end of the queue. Returns
    /// whether the queue was empty, so that playback starts with this buffer.
    pub fn queue_wave(&mut self, key: u64, nsamples: u32) -> (starts: bool)
        ensures
            final(self)@ == old(self)@.push(QueuedWave { key, nsamples }),
            starts == (old(self)@.len() == 0),
    {
        let starts = self.pending.len() == 0;
        self.pending.push(QueuedWave { key, nsamples });
        starts
    }

    /// Records that the queue was cleared and playback stopped: no buffer is
    /// referenced any more.
    pub fn clear_queue(&mut self)
        ensures
            final(self)@ == Seq::<QueuedWave>::empty(),
    {
        self.pending = Vec::new();
    }

    /// Records that the hardware finished the buffer at the head of the
    /// queue, and returns it; `None` when the queue is empty.
    pub fn finish_front(&mut self) -> (r: Option<QueuedWave>)
        ensures
            old(self)@.len() == 0 ==> r is None && final(self)@ == old(self)@,
            old(self)@.len() > 0 ==> r == Some(old(self)@[0]) && final(self)@ == old(self)@.drop_first(),
    {
        if self.pending.len() == 0 {
            return None;
        }
        Some(self.pending.remove(0))
    }

    /// Whether the channel is playing according to the queue.
    pub fn is_playing(&self) -> (r: bool)
        ensures
            r == playing(self@),
    {
        let mut i: usize = 0;
        while i < self.pending.len()
            invariant
                i <= self.pending@.len(),
                forall|j: int| 0 <= j < i ==> #[trigger] self.pending@[j].nsamples == 0,
            decreases self.pending@.len() - i,
        {
            if self.pending[i].nsamples > 0 {
                return true;
            }
            i = i + 1;
        }
        false
    }

    /// Whether the buffer with this key may be freed or reused.
    pub fn is_reclaimable(&self, key: u64) -> (r: bool)
        ensures
            r == reclaimable(self@, key),
    {
        let mut i: usize = 0;
        while i < self.pending.len()
            invariant
                i <= self.pending@.len(),
                forall|j: int| 0 <= j < i ==> #[trigger] self.pending@[j].key != key,
            decreases self.pending@.len() - i,
        {
            if self.pending[i].key == key {
                return false;
            }
            i = i + 1;
        }
        true
    }

    /// The number of buffers waiting.
    pub fn len(&self) -> (r: usize)
        ensures
            r == self@.len(),
    {
        self.pending.len()
    }
}

/// After the queue is cleared the channel is not playing, and every buffer
/// may be freed or reused.
pub proof fn lemma_cleared_queue_is_idle(key: u64)
    ensures
        !playing(Seq::<QueuedWave>::empty()),
        reclaimable(Seq::<QueuedWave>::empty(), key),
{
}

/// Queueing a buffer with samples on an empty queue makes the channel play,
/// and that buffer is played first.
pub proof fn lemma_queue_on_empty_plays(q: Seq<QueuedWave>, w: QueuedWave)
    requires
        q.len() == 0,
        w.nsamples > 0,
    ensures
        playing(q.push(w)),
        q.push(w)[0] == w,
{
    assert(q.push(w)[0].nsamples > 0);
}

/// A queued buffer stays unreclaimable until it reaches the head of the queue
/// and is finished: finishing the head leaves every later buffer pending.
pub proof fn lemma_finish_front_keeps_rest(q: Seq<QueuedWave>, key: u64)
    requires
        q.len() > 0,
        q[0].key != key,
    ensures
        reclaimable(q.drop_first(), key) == reclaimable(q, key),
{
    if !reclaimable(q, key) {
        let i = choose|i: int| 0 <= i < q.len() && q[i].key == key;
        assert(q.drop_first()[i - 1].key == key);
    }
    if !reclaimable(q.drop_first(), key) {
        let i = choose|i: int| 0 <= i < q.len() - 1 && q.drop_first()[i].key == key;
        assert(q[i + 1].key == key);
    }
}

} // verus!
