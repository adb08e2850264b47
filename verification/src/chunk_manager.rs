//! The chunks a player is sent: a queue of chunks to send, nearest first,
//! the chunks already sent, and the acknowledgement window that paces the
//! batches.
//!
//! Chunks are known by an id and positions are chunk coordinates (x, z).
//! Distances are Chebyshev distances from the player's centre chunk.

use vstd::prelude::*;
use std::collections::{HashMap, VecDeque};
use vstd::std_specs::iter::IteratorSpec;

verus! {

broadcast use {vstd::std_specs::vecdeque::group_vec_dequeue_axioms, vstd::std_specs::hash::group_hash_axioms};

/// A chunk position: x and z in chunks.
pub type ChunkPos = (i32, i32);

/// A chunk waiting to be sent, with its distance from the centre.
#[derive(Clone, Copy, Debug, PartialEq, Eq)]
pub struct QueuedChunk {
    pub dst: i32,
    pub pos: ChunkPos,
    pub chunk: u64,
}

/// How many batches went out since the client last acknowledged.
#[derive(Clone, Copy, Debug, PartialEq, Eq)]
pub enum BatchState {
    /// Nothing sent yet.
    Initial,
    /// This many batches since the last acknowledgement.
    Count(u8),
    /// The first batch went out; waiting for its acknowledgement.
    Waiting,
}

/// A chunk-loading ticket to add, and one to remove.
#[derive(Clone, Copy, Debug, PartialEq, Eq)]
pub struct TicketChange {
    /// The ticket at the new centre for the new view distance.
    pub add: (ChunkPos, u8),
    /// The old ticket, when the centre or the view distance changed.
    pub remove: Option<(ChunkPos, u8)>,
    /// The old ticket goes only if its loading level differs from the new
    /// one (the centre stayed the same).
    pub remove_only_if_level_changed: bool,
}

/// The chunks a player is sent.
pub struct ChunkManager {
    chunks_per_tick: usize,
    center: ChunkPos,
    view_distance: u8,
    chunk_sent: HashMap<i64, (ChunkPos, u64)>,
    chunk_queue: Vec<QueuedChunk>,
    entity_chunk_queue: VecDeque<(ChunkPos, u64)>,
    batches_sent_since_ack: BatchState,
    last_chunk_batch_sent_at: u64,
}

/// The batches a client may lag behind before sending pauses.
pub const NOTCHIAN_BATCHES_WITHOUT_ACK_UNTIL_PAUSE: u8 = 10;

/// The milliseconds after which a stalled window lets a batch through.
pub const ACK_STALL_FALLBACK_DELAY_MS: u64 = 250;

/// A position whose coordinates keep distances well inside 32 bits.
pub open spec fn pos_ok(p: ChunkPos) -> bool {
    -0x2000_0000 <= p.0 <= 0x2000_0000 && -0x2000_0000 <= p.1 <= 0x2000_0000
}

/// `|a|`.
pub open spec fn abs_int(a: int) -> int {
    if a < 0 { -a } else { a }
}

/// The Chebyshev distance between two chunk positions.
pub open spec fn cheb(p: ChunkPos, c: ChunkPos) -> int {
    let dx = abs_int(p.0 - c.0);
    let dz = abs_int(p.1 - c.1);
    if dx < dz { dz } else { dx }
}

/// The first place in `s` of a chunk of least distance.
pub open spec fn min_index(s: Seq<QueuedChunk>) -> int
    decreases s.len(),
{
    if s.len() <= 1 {
        0
    } else {
        let i = min_index(s.drop_last());
        if s.last().dst < s[i].dst { s.len() - 1 } else { i }
    }
}

/// `n` chunks taken from the queue `q` one at a time, each time the first
/// of least distance: the queue left and the chunks taken, in order.
pub open spec fn pop_nearest(q: Seq<QueuedChunk>, n: nat) -> (Seq<QueuedChunk>, Seq<u64>)
    decreases n,
{
    if n == 0 || q.len() == 0 {
        (q, Seq::empty())
    } else {
        let i = min_index(q);
        let (rest, taken) = pop_nearest(q.remove(i), (n - 1) as nat);
        (rest, seq![q[i].chunk] + taken)
    }
}

/// The batch state after a batch goes out: counting up (stopping at 255),
/// or waiting after the first.
pub open spec fn after_batch(b: BatchState) -> BatchState {
    match b {
        BatchState::Count(c) => BatchState::Count(if c < 255 { (c + 1) as u8 } else { 255 }),
        BatchState::Initial => BatchState::Waiting,
        BatchState::Waiting => BatchState::Waiting,
    }
}

/// Whether more batches may go out: before the first, and while fewer
/// than 10 went out since the last acknowledgement.
pub open spec fn window_open(b: BatchState) -> bool {
    match b {
        BatchState::Count(c) => c < NOTCHIAN_BATCHES_WITHOUT_ACK_UNTIL_PAUSE,
        BatchState::Initial => true,
        BatchState::Waiting => false,
    }
}

/// The number of chunks in one batch: as many as queued, at most the
/// chunks per tick (at least 1).
pub open spec fn batch_size(queued: nat, per_tick: nat) -> nat {
    let cap = if per_tick < 1 { 1 } else { per_tick };
    if queued < cap { queued } else { cap }
}

/// The key a position in range is recorded under.
pub open spec fn chunk_key(p: ChunkPos) -> int {
    p.0 * 0x8000_0000 + p.1
}

/// Positions in range have keys of their own.
proof fn lemma_key_injective(p: ChunkPos, q: ChunkPos)
    requires
        pos_ok(p),
        pos_ok(q),
        chunk_key(p) == chunk_key(q),
    ensures
        p == q,
{
    assert(p.0 == q.0) by (nonlinear_arith)
        requires
            -0x2000_0000 <= p.1 <= 0x2000_0000,
            -0x2000_0000 <= q.1 <= 0x2000_0000,
            p.0 * 0x8000_0000 + p.1 == q.0 * 0x8000_0000 + q.1;
}

/// The key of a position in range.
fn key_of(p: ChunkPos) -> (r: i64)
    requires
        pos_ok(p),
    ensures
        r == chunk_key(p),
{
    p.0 as i64 * 0x8000_0000 + p.1 as i64
}

/// Whether a position is in `s`.
pub open spec fn pos_in(s: Seq<ChunkPos>, p: ChunkPos) -> bool {
    s.contains(p)
}

/// A chunk stays when it is within `vd` of `c` and not being unloaded.
pub open spec fn keeps(p: ChunkPos, c: ChunkPos, vd: int, unloading: Seq<ChunkPos>) -> bool {
    cheb(p, c) <= vd && !unloading.contains(p)
}

impl ChunkManager {
    /// The chunks queued to send.
    pub closed spec fn queue(&self) -> Seq<QueuedChunk> {
        self.chunk_queue@
    }

    /// The chunks sent, by position.
    pub closed spec fn sent(&self) -> Map<ChunkPos, u64> {
        Map::new(
            |p: ChunkPos| pos_ok(p) && self.chunk_sent@.contains_key(chunk_key(p) as i64),
            |p: ChunkPos| self.chunk_sent@[chunk_key(p) as i64].1,
        )
    }

    /// The entity chunks queued to send, oldest first.
    pub closed spec fn entity_queue(&self) -> Seq<(ChunkPos, u64)> {
        self.entity_chunk_queue@
    }

    /// The batch state.
    pub closed spec fn batches(&self) -> BatchState {
        self.batches_sent_since_ack
    }

    /// The centre chunk.
    pub closed spec fn center_pos(&self) -> ChunkPos {
        self.center
    }

    /// The view distance (one more than the player's, for margin).
    pub closed spec fn distance(&self) -> u8 {
        self.view_distance
    }

    /// The chunks sent per tick.
    pub closed spec fn per_tick(&self) -> usize {
        self.chunks_per_tick
    }

    /// When the last batch went out, in milliseconds.
    pub closed spec fn last_sent_at(&self) -> u64 {
        self.last_chunk_batch_sent_at
    }

    /// Every queued chunk's distance is its distance from the centre, the
    /// centre and the queued and sent positions are in range, and each
    /// sent position is recorded under its key.
    pub closed spec fn wf(&self) -> bool {
        &&& pos_ok(self.center)
        &&& forall|k: i64| #[trigger] self.chunk_sent@.contains_key(k) ==> pos_ok(self.chunk_sent@[k].0)
            && chunk_key(self.chunk_sent@[k].0) == k
        &&& forall|i: int|
            0 <= i < self.chunk_queue@.len() ==> (#[trigger] self.chunk_queue@[i]).dst == cheb(
                self.chunk_queue@[i].pos,
                self.center,
            ) && pos_ok(self.chunk_queue@[i].pos)
    }
}

/// `|a|` for a difference of two coordinates in range.
fn abs_diff(a: i32, b: i32) -> (r: i32)
    requires
        -0x2000_0000 <= a <= 0x2000_0000,
        -0x2000_0000 <= b <= 0x2000_0000,
    ensures
        r == abs_int(a - b),
{
    let d = a - b;
    if d < 0 { -d } else { d }
}

/// The Chebyshev distance between two positions in range.
pub fn chebyshev(p: ChunkPos, c: ChunkPos) -> (r: i32)
    requires
        pos_ok(p),
        pos_ok(c),
    ensures
        r == cheb(p, c),
{
    let dx = abs_diff(p.0, c.0);
    let dz = abs_diff(p.1, c.1);
    if dx < dz { dz } else { dx }
}

proof fn lemma_min_index(s: Seq<QueuedChunk>)
    requires
        s.len() > 0,
    ensures
        0 <= min_index(s) < s.len(),
        forall|j: int| 0 <= j < s.len() ==> s[min_index(s)].dst <= #[trigger] s[j].dst,
    decreases s.len(),
{
    if s.len() > 1 {
        lemma_min_index(s.drop_last());
        let i = min_index(s.drop_last());
        assert forall|j: int| 0 <= j < s.len() implies s[min_index(s)].dst <= #[trigger] s[j].dst by {
            if j < s.len() - 1 {
                assert(s.drop_last()[j] == s[j]);
            }
        }
    }
}

/// The first place of a chunk of least distance.
fn nearest_index(q: &Vec<QueuedChunk>) -> (r: usize)
    requires
        q@.len() > 0,
    ensures
        r == min_index(q@),
        r < q@.len(),
{
    proof {
        lemma_min_index(q@);
    }
    let mut best: usize = 0;
    let mut i: usize = 1;
    while i < q.len()
        invariant
            1 <= i <= q@.len(),
            best == min_index(q@.subrange(0, i as int)),
            best < i,
        decreases q@.len() - i,
    {
        let ghost sub = q@.subrange(0, (i + 1) as int);
        assert(sub.drop_last() =~= q@.subrange(0, i as int));
        proof {
            lemma_min_index(q@.subrange(0, i as int));
        }
        if q[i].dst < q[best].dst {
            best = i;
        }
        i += 1;
    }
    assert(q@.subrange(0, q@.len() as int) =~= q@);
    best
}

impl ChunkManager {
    /// A manager that sends `chunks_per_tick` chunks per tick, centred on
    /// (0, 0) with view distance 0, with nothing queued or sent.
    pub fn new(chunks_per_tick: usize, now_ms: u64) -> (r: Self)
        ensures
            r.wf(),
            r.queue() == Seq::<QueuedChunk>::empty(),
            r.sent() == Map::<ChunkPos, u64>::empty(),
            r.entity_queue() == Seq::<(ChunkPos, u64)>::empty(),
            r.batches() == BatchState::Initial,
            r.center_pos() == (0i32, 0i32),
            r.distance() == 0,
            r.per_tick() == chunks_per_tick,
            r.last_sent_at() == now_ms,
    {
        let r = ChunkManager {
            chunks_per_tick,
            center: (0, 0),
            view_distance: 0,
            chunk_sent: HashMap::new(),
            chunk_queue: Vec::new(),
            entity_chunk_queue: VecDeque::new(),
            batches_sent_since_ack: BatchState::Initial,
            last_chunk_batch_sent_at: now_ms,
        };
        assert(r.sent() =~= Map::<ChunkPos, u64>::empty());
        r
    }

    /// Records `chunk` as sent at `position`; whether it is new there (no
    /// chunk, or another chunk, was recorded for that position before).
    fn should_enqueue_chunk(&mut self, position: ChunkPos, chunk: u64) -> (r: bool)
        requires
            old(self).wf(),
            pos_ok(position),
        ensures
            final(self).wf(),
            final(self).sent() == old(self).sent().insert(position, chunk),
            r == !(old(self).sent().dom().contains(position) && old(self).sent()[position] == chunk),
            final(self).queue() == old(self).queue(),
            final(self).center_pos() == old(self).center_pos(),
            final(self).distance() == old(self).distance(),
            final(self).entity_queue() == old(self).entity_queue(),
            final(self).batches() == old(self).batches(),
            final(self).per_tick() == old(self).per_tick(),
            final(self).last_sent_at() == old(self).last_sent_at(),
    {
        let ghost before = *self;
        let key = key_of(position);
        let previous = self.chunk_sent.insert(key, (position, chunk));
        assert forall|p: ChunkPos| pos_ok(p) && chunk_key(p) == key implies p == position by {
            lemma_key_injective(p, position);
        }
        assert(self.sent() =~= before.sent().insert(position, chunk));
        match previous {
            Some((_, old_chunk)) => {
                proof {
                    lemma_key_injective(before.chunk_sent@[key].0, position);
                }
                old_chunk != chunk
            },
            None => true,
        }
    }

    /// Queues `chunk` at `position`, nearest first, unless that very chunk
    /// was already recorded there; it is recorded as sent either way.
    pub fn push_chunk(&mut self, position: ChunkPos, chunk: u64)
        requires
            old(self).wf(),
            pos_ok(position),
        ensures
            final(self).wf(),
            final(self).sent() == old(self).sent().insert(position, chunk),
            final(self).queue() == if old(self).sent().dom().contains(position) && old(self).sent()[position]
                == chunk {
                old(self).queue()
            } else {
                old(self).queue().push(
                    QueuedChunk { dst: cheb(position, old(self).center_pos()) as i32, pos: position, chunk },
                )
            },
            final(self).center_pos() == old(self).center_pos(),
            final(self).distance() == old(self).distance(),
            final(self).entity_queue() == old(self).entity_queue(),
            final(self).batches() == old(self).batches(),
            final(self).per_tick() == old(self).per_tick(),
            final(self).last_sent_at() == old(self).last_sent_at(),
    {
        if self.should_enqueue_chunk(position, chunk) {
            let dst = chebyshev(position, self.center);
            let ghost q = self.chunk_queue@;
            self.chunk_queue.push(QueuedChunk { dst, pos: position, chunk });
            assert forall|i: int| 0 <= i < self.chunk_queue@.len() implies (#[trigger] self.chunk_queue@[i]).dst
                == cheb(self.chunk_queue@[i].pos, self.center) && pos_ok(self.chunk_queue@[i].pos) by {
                if i < q.len() {
                    assert(self.chunk_queue@[i] == q[i]);
                }
            }
        }
    }

    /// Queues an entity chunk at the back.
    pub fn push_entity(&mut self, position: ChunkPos, chunk: u64)
        requires
            old(self).wf(),
        ensures
            final(self).wf(),
            final(self).entity_queue() == old(self).entity_queue().push((position, chunk)),
            final(self).queue() == old(self).queue(),
            final(self).sent() == old(self).sent(),
            final(self).batches() == old(self).batches(),
    {
        self.entity_chunk_queue.push_back((position, chunk));
    }

    /// Whether more batches may go out.
    pub fn ack_window_open(&self) -> (r: bool)
        ensures
            r == window_open(self.batches()),
    {
        match self.batches_sent_since_ack {
            BatchState::Count(count) => count < NOTCHIAN_BATCHES_WITHOUT_ACK_UNTIL_PAUSE,
            BatchState::Initial => true,
            BatchState::Waiting => false,
        }
    }

    /// The window is shut but the last batch went out at least 250
    /// milliseconds before `now_ms`.
    pub fn ack_fallback_ready(&self, now_ms: u64) -> (r: bool)
        ensures
            r == (!window_open(self.batches()) && now_ms >= self.last_sent_at()
                && now_ms - self.last_sent_at() >= ACK_STALL_FALLBACK_DELAY_MS),
    {
        !self.ack_window_open() && now_ms >= self.last_chunk_batch_sent_at
            && now_ms - self.last_chunk_batch_sent_at >= ACK_STALL_FALLBACK_DELAY_MS
    }

    /// A chunk batch may go out now: the window is open or has stalled,
    /// and chunks are queued.
    pub fn can_send_chunk(&self, now_ms: u64) -> (r: bool)
        ensures
            r == ((window_open(self.batches()) || (now_ms >= self.last_sent_at() && now_ms
                - self.last_sent_at() >= ACK_STALL_FALLBACK_DELAY_MS)) && self.queue().len() > 0),
    {
        let state_available = self.ack_window_open() || self.ack_fallback_ready(now_ms);
        state_available && self.chunk_queue.len() > 0
    }

    /// The client acknowledged a batch and asks for `chunks_per_tick`
    /// chunks per tick.
    pub fn handle_acknowledge(&mut self, chunks_per_tick: usize)
        requires
            old(self).wf(),
        ensures
            final(self).wf(),
            final(self).batches() == BatchState::Count(0),
            final(self).per_tick() == chunks_per_tick,
            final(self).queue() == old(self).queue(),
            final(self).sent() == old(self).sent(),
            final(self).entity_queue() == old(self).entity_queue(),
    {
        self.batches_sent_since_ack = BatchState::Count(0);
        self.chunks_per_tick = chunks_per_tick;
    }

    /// Counts a batch that goes out at `now_ms`.
    fn count_batch(&mut self, now_ms: u64)
        ensures
            final(self).batches() == after_batch(old(self).batches()),
            final(self).last_sent_at() == now_ms,
            final(self).chunk_queue@ == old(self).chunk_queue@,
            final(self).chunk_sent@ == old(self).chunk_sent@,
            final(self).entity_chunk_queue@ == old(self).entity_chunk_queue@,
            final(self).center == old(self).center,
            final(self).view_distance == old(self).view_distance,
            final(self).chunks_per_tick == old(self).chunks_per_tick,
    {
        self.batches_sent_since_ack = match self.batches_sent_since_ack {
            BatchState::Count(count) => BatchState::Count(if count < 255 { count + 1 } else { 255 }),
            BatchState::Initial => BatchState::Waiting,
            BatchState::Waiting => BatchState::Waiting,
        };
        self.last_chunk_batch_sent_at = now_ms;
    }

    /// The next batch of chunks at `now_ms`: as many as queued, at most the
    /// chunks per tick (at least 1), each time the first queued of least
    /// distance.
    pub fn next_chunk(&mut self, now_ms: u64) -> (r: Vec<u64>)
        requires
            old(self).wf(),
        ensures
            final(self).wf(),
            (final(self).queue(), r@) == pop_nearest(
                old(self).queue(),
                batch_size(old(self).queue().len(), old(self).per_tick() as nat),
            ),
            final(self).batches() == after_batch(old(self).batches()),
            final(self).last_sent_at() == now_ms,
            final(self).sent() == old(self).sent(),
            final(self).entity_queue() == old(self).entity_queue(),
            final(self).center_pos() == old(self).center_pos(),
            final(self).distance() == old(self).distance(),
            final(self).per_tick() == old(self).per_tick(),
    {
        let cap: usize = if self.chunks_per_tick < 1 { 1 } else { self.chunks_per_tick };
        let mut chunk_size: usize = if self.chunk_queue.len() < cap { self.chunk_queue.len() } else { cap };
        let ghost q0 = self.chunk_queue@;
        let ghost n0 = chunk_size;
        let mut chunks: Vec<u64> = Vec::new();
        while chunk_size > 0
            invariant
                self.wf(),
                chunk_size <= self.chunk_queue@.len(),
                self.chunk_sent@ == old(self).chunk_sent@,
                self.center == old(self).center,
                self.view_distance == old(self).view_distance,
                self.chunks_per_tick == old(self).chunks_per_tick,
                self.entity_chunk_queue@ == old(self).entity_chunk_queue@,
                self.batches_sent_since_ack == old(self).batches_sent_since_ack,
                self.last_chunk_batch_sent_at == old(self).last_chunk_batch_sent_at,
                pop_nearest(q0, n0 as nat) == (
                    pop_nearest(self.chunk_queue@, chunk_size as nat).0,
                    chunks@ + pop_nearest(self.chunk_queue@, chunk_size as nat).1,
                ),
            decreases chunk_size,
        {
            let i = nearest_index(&self.chunk_queue);
            let ghost q = self.chunk_queue@;
            let node = self.chunk_queue.remove(i);
            assert(pop_nearest(q, chunk_size as nat) == (
                pop_nearest(q.remove(i as int), (chunk_size - 1) as nat).0,
                seq![node.chunk] + pop_nearest(q.remove(i as int), (chunk_size - 1) as nat).1,
            ));
            let ghost before = chunks@;
            chunks.push(node.chunk);
            assert(chunks@ =~= before + seq![node.chunk]);
            assert(before + (seq![node.chunk] + pop_nearest(q.remove(i as int), (chunk_size - 1) as nat).1)
                =~= chunks@ + pop_nearest(q.remove(i as int), (chunk_size - 1) as nat).1);
            assert forall|k: int| 0 <= k < self.chunk_queue@.len() implies (#[trigger] self.chunk_queue@[k]).dst
                == cheb(self.chunk_queue@[k].pos, self.center) && pos_ok(self.chunk_queue@[k].pos) by {
                if k < i {
                    assert(self.chunk_queue@[k] == q[k]);
                } else {
                    assert(self.chunk_queue@[k] == q[k + 1]);
                }
            }
            chunk_size -= 1;
        }
        assert(pop_nearest(self.chunk_queue@, 0).1 =~= Seq::<u64>::empty());
        assert(chunks@ + Seq::<u64>::empty() =~= chunks@);
        self.count_batch(now_ms);
        chunks
    }

    /// The next batch of entity chunks at `now_ms`: the oldest ones, as
    /// many as queued, at most the chunks per tick (at least 1).
    pub fn next_entity(&mut self, now_ms: u64) -> (r: Vec<u64>)
        requires
            old(self).wf(),
        ensures
            final(self).wf(),
            r@.len() == batch_size(old(self).entity_queue().len(), old(self).per_tick() as nat),
            forall|i: int| 0 <= i < r@.len() ==> r@[i] == (#[trigger] old(self).entity_queue()[i]).1,
            final(self).entity_queue() == old(self).entity_queue().subrange(
                r@.len() as int,
                old(self).entity_queue().len() as int,
            ),
            final(self).batches() == after_batch(old(self).batches()),
            final(self).last_sent_at() == now_ms,
            final(self).queue() == old(self).queue(),
            final(self).sent() == old(self).sent(),
    {
        let cap: usize = if self.chunks_per_tick < 1 { 1 } else { self.chunks_per_tick };
        let n: usize = if self.entity_chunk_queue.len() < cap { self.entity_chunk_queue.len() } else { cap };
        let ghost e0 = self.entity_chunk_queue@;
        let mut chunks: Vec<u64> = Vec::new();
        let mut k: usize = 0;
        while k < n
            invariant
                self.wf(),
                k <= n <= e0.len(),
                chunks@.len() == k,
                self.entity_chunk_queue@ == e0.subrange(k as int, e0.len() as int),
                forall|i: int| 0 <= i < k ==> chunks@[i] == (#[trigger] e0[i]).1,
                self.chunk_queue@ == old(self).chunk_queue@,
                self.chunk_sent@ == old(self).chunk_sent@,
                self.center == old(self).center,
                self.view_distance == old(self).view_distance,
                self.chunks_per_tick == old(self).chunks_per_tick,
                self.batches_sent_since_ack == old(self).batches_sent_since_ack,
            decreases n - k,
        {
            let front = self.entity_chunk_queue.pop_front();
            match front {
                Some(item) => {
                    chunks.push(item.1);
                },
                None => {},
            }
            assert(self.entity_chunk_queue@ =~= e0.subrange(k + 1, e0.len() as int));
            k += 1;
        }
        self.count_batch(now_ms);
        chunks
    }
}

/// One received chunk: within the view distance it is recorded as sent,
/// and queued unless that very chunk was recorded there already.
pub open spec fn pull_one(
    sent: Map<ChunkPos, u64>,
    q: Seq<QueuedChunk>,
    c: ChunkPos,
    vd: int,
    item: (ChunkPos, u64),
) -> (Map<ChunkPos, u64>, Seq<QueuedChunk>) {
    let (p, ch) = item;
    if cheb(p, c) > vd {
        (sent, q)
    } else if sent.dom().contains(p) && sent[p] == ch {
        (sent.insert(p, ch), q)
    } else {
        (sent.insert(p, ch), q.push(QueuedChunk { dst: cheb(p, c) as i32, pos: p, chunk: ch }))
    }
}

/// The received chunks taken in order.
pub open spec fn pull_all(
    sent: Map<ChunkPos, u64>,
    q: Seq<QueuedChunk>,
    c: ChunkPos,
    vd: int,
    items: Seq<(ChunkPos, u64)>,
) -> (Map<ChunkPos, u64>, Seq<QueuedChunk>)
    decreases items.len(),
{
    if items.len() == 0 {
        (sent, q)
    } else {
        let (s1, q1) = pull_all(sent, q, c, vd, items.drop_last());
        pull_one(s1, q1, c, vd, items.last())
    }
}

/// The sent map with only the chunks that stay.
pub open spec fn restrict_sent(m: Map<ChunkPos, u64>, c: ChunkPos, vd: int, un: Seq<ChunkPos>) -> Map<ChunkPos, u64> {
    Map::new(|p: ChunkPos| m.dom().contains(p) && keeps(p, c, vd, un), |p: ChunkPos| m[p])
}

/// The queued chunks that stay after a move, with their new distances.
pub open spec fn requeue(q: Seq<QueuedChunk>, c: ChunkPos, vd: int, un: Seq<ChunkPos>) -> Seq<QueuedChunk>
    decreases q.len(),
{
    if q.len() == 0 {
        q
    } else {
        let r = requeue(q.drop_last(), c, vd, un);
        if keeps(q.last().pos, c, vd, un) {
            r.push(QueuedChunk { dst: cheb(q.last().pos, c) as i32, ..q.last() })
        } else {
            r
        }
    }
}

/// One chunk in the loading area: unless it was sent, a loaded chunk there
/// is recorded and queued.
pub open spec fn load_one(
    sent: Map<ChunkPos, u64>,
    q: Seq<QueuedChunk>,
    c: ChunkPos,
    item: (ChunkPos, Option<u64>),
) -> (Map<ChunkPos, u64>, Seq<QueuedChunk>) {
    let (p, loaded) = item;
    if sent.dom().contains(p) {
        (sent, q)
    } else {
        match loaded {
            Some(ch) => (sent.insert(p, ch), q.push(QueuedChunk { dst: cheb(p, c) as i32, pos: p, chunk: ch })),
            None => (sent, q),
        }
    }
}

/// The loading area taken in order.
pub open spec fn load_all(
    sent: Map<ChunkPos, u64>,
    q: Seq<QueuedChunk>,
    c: ChunkPos,
    items: Seq<(ChunkPos, Option<u64>)>,
) -> (Map<ChunkPos, u64>, Seq<QueuedChunk>)
    decreases items.len(),
{
    if items.len() == 0 {
        (sent, q)
    } else {
        let (s1, q1) = load_all(sent, q, c, items.drop_last());
        load_one(s1, q1, c, items.last())
    }
}

/// Whether `p` is in `ps`.
fn pos_listed(ps: &Vec<ChunkPos>, p: ChunkPos) -> (r: bool)
    ensures
        r == ps@.contains(p),
{
    let mut i: usize = 0;
    while i < ps.len()
        invariant
            i <= ps@.len(),
            forall|j: int| 0 <= j < i ==> ps@[j] != p,
        decreases ps@.len() - i,
    {
        if ps[i].0 == p.0 && ps[i].1 == p.1 {
            assert(ps@[i as int] == p);
            return true;
        }
        i += 1;
    }
    false
}

impl ChunkManager {
    /// Takes in chunks that were loaded: each within the view distance is
    /// recorded as sent and queued, unless that very chunk was recorded.
    pub fn pull_new_chunks(&mut self, received: &Vec<(ChunkPos, u64)>)
        requires
            old(self).wf(),
            forall|i: int| 0 <= i < received@.len() ==> pos_ok(#[trigger] received@[i].0),
        ensures
            final(self).wf(),
            (final(self).sent(), final(self).queue()) == pull_all(
                old(self).sent(),
                old(self).queue(),
                old(self).center_pos(),
                old(self).distance() as int,
                received@,
            ),
            final(self).center_pos() == old(self).center_pos(),
            final(self).distance() == old(self).distance(),
            final(self).entity_queue() == old(self).entity_queue(),
            final(self).batches() == old(self).batches(),
    {
        let mut i: usize = 0;
        while i < received.len()
            invariant
                self.wf(),
                i <= received@.len(),
                forall|k: int| 0 <= k < received@.len() ==> pos_ok(#[trigger] received@[k].0),
                self.center_pos() == old(self).center_pos(),
                self.distance() == old(self).distance(),
                self.entity_queue() == old(self).entity_queue(),
                self.batches() == old(self).batches(),
                (self.sent(), self.queue()) == pull_all(
                    old(self).sent(),
                    old(self).queue(),
                    old(self).center_pos(),
                    old(self).distance() as int,
                    received@.subrange(0, i as int),
                ),
            decreases received@.len() - i,
        {
            let (pos, chunk) = received[i];
            assert(received@.subrange(0, (i + 1) as int).drop_last() =~= received@.subrange(0, i as int));
            let dst = chebyshev(pos, self.center);
            if dst <= self.view_distance as i32 {
                self.push_chunk(pos, chunk);
            }
            i += 1;
        }
        assert(received@.subrange(0, received@.len() as int) =~= received@);
    }

    /// The player's centre chunk or view distance changed: the tickets to
    /// change; then the sent records and queued chunks that are out of the
    /// new view distance (one more than the player's) or being unloaded are
    /// dropped, the queued ones get their new distances, and each loaded
    /// chunk of the loading area that was not sent is recorded and queued.
    pub fn update_center_and_view_distance(
        &mut self,
        center: ChunkPos,
        view_distance: u8,
        loading_chunks: &Vec<(ChunkPos, Option<u64>)>,
        unloading_chunks: &Vec<ChunkPos>,
    ) -> (r: TicketChange)
        requires
            old(self).wf(),
            view_distance < 255,
            pos_ok(center),
            forall|i: int| 0 <= i < loading_chunks@.len() ==> pos_ok(#[trigger] loading_chunks@[i].0),
        ensures
            final(self).wf(),
            final(self).center_pos() == center,
            final(self).distance() == view_distance + 1,
            r.add == (center, (view_distance + 1) as u8),
            r.remove == (if old(self).center_pos() != center || old(self).distance() != view_distance + 1 {
                Some((old(self).center_pos(), old(self).distance()))
            } else {
                None
            }),
            r.remove_only_if_level_changed == (old(self).center_pos() == center),
            (final(self).sent(), final(self).queue()) == load_all(
                restrict_sent(old(self).sent(), center, view_distance + 1, unloading_chunks@),
                requeue(old(self).queue(), center, view_distance + 1, unloading_chunks@),
                center,
                loading_chunks@,
            ),
            final(self).entity_queue() == old(self).entity_queue(),
            final(self).batches() == old(self).batches(),
    {
        let vd: u8 = view_distance + 1;
        let old_center = self.center;
        let old_vd = self.view_distance;
        let remove = if old_center.0 != center.0 || old_center.1 != center.1 || old_vd != vd {
            Some((old_center, old_vd))
        } else {
            None
        };
        let same_center = old_center.0 == center.0 && old_center.1 == center.1;
        let change = TicketChange { add: (center, vd), remove, remove_only_if_level_changed: same_center };
        let ghost un = unloading_chunks@;
        let ghost m0 = self.chunk_sent@;
        let ghost sent0 = self.sent();
        let ghost q0 = self.chunk_queue@;
        let mut kept: HashMap<i64, (ChunkPos, u64)> = HashMap::new();
        for (key, e) in it: self.chunk_sent.iter()
            invariant
                it.seq() == vstd::std_specs::hash::spec_hash_map_iter(&self.chunk_sent).remaining(),
                self.chunk_sent@ == m0,
                un == unloading_chunks@,
                pos_ok(center),
                forall|k: i64| #[trigger] kept@.contains_key(k) ==> m0.contains_key(k) && kept@[k] == m0[k]
                    && keeps(m0[k].0, center, vd as int, un),
                forall|t: int|
                    0 <= t < it.index() && keeps((*it.seq()[t].1).0, center, vd as int, un)
                        ==> kept@.contains_key(*(#[trigger] it.seq()[t]).0),
        {
            let d = chebyshev_any(e.0, center);
            if d <= vd as i64 && !pos_listed(unloading_chunks, e.0) {
                kept.insert(*key, *e);
            }
        }
        proof {
            let seen = vstd::std_specs::hash::spec_hash_map_iter(&self.chunk_sent).remaining();
            assert forall|k: i64| m0.contains_key(k) && keeps(m0[k].0, center, vd as int, un) implies kept@.contains_key(k) by {
                assert(seen.contains((&k, &m0[k])));
                let t = choose|t: int| 0 <= t < seen.len() && seen[t] == (&k, &m0[k]);
                assert(*seen[t].0 == k);
            }
        }
        let mut queue: Vec<QueuedChunk> = Vec::new();
        let mut k: usize = 0;
        while k < self.chunk_queue.len()
            invariant
                k <= q0.len(),
                self.chunk_queue@ == q0,
                un == unloading_chunks@,
                pos_ok(center),
                forall|j: int| 0 <= j < q0.len() ==> pos_ok(#[trigger] q0[j].pos),
                queue@ == requeue(q0.subrange(0, k as int), center, vd as int, un),
                forall|j: int| 0 <= j < queue@.len() ==> (#[trigger] queue@[j]).dst == cheb(queue@[j].pos, center)
                    && pos_ok(queue@[j].pos),
            decreases q0.len() - k,
        {
            let node = self.chunk_queue[k];
            assert(q0.subrange(0, (k + 1) as int).drop_last() =~= q0.subrange(0, k as int));
            assert(pos_ok(q0[k as int].pos));
            assert(q0.subrange(0, (k + 1) as int).last() == node);
            let dst = chebyshev(node.pos, center);
            if dst <= vd as i32 && !pos_listed(unloading_chunks, node.pos) {
                queue.push(QueuedChunk { dst, ..node });
            }
            k += 1;
        }
        assert(q0.subrange(0, q0.len() as int) =~= q0);
        self.center = center;
        self.view_distance = vd;
        self.chunk_sent = kept;
        self.chunk_queue = queue;
        assert forall|p: ChunkPos| #[trigger] self.sent().dom().contains(p) <==> restrict_sent(sent0, center, vd as int, un).dom().contains(p) by {
            if pos_ok(p) && m0.contains_key(chunk_key(p) as i64) {
                lemma_key_injective(m0[chunk_key(p) as i64].0, p);
            }
        }
        assert(self.sent() =~= restrict_sent(sent0, center, vd as int, un));
        let mut j: usize = 0;
        while j < loading_chunks.len()
            invariant
                self.wf(),
                j <= loading_chunks@.len(),
                self.center == center,
                self.view_distance == vd,
                forall|t: int| 0 <= t < loading_chunks@.len() ==> pos_ok(#[trigger] loading_chunks@[t].0),
                self.entity_queue() == old(self).entity_queue(),
                self.batches() == old(self).batches(),
                (self.sent(), self.queue()) == load_all(
                    restrict_sent(old(self).sent(), center, vd as int, un),
                    requeue(old(self).queue(), center, vd as int, un),
                    center,
                    loading_chunks@.subrange(0, j as int),
                ),
            decreases loading_chunks@.len() - j,
        {
            let (pos, loaded) = loading_chunks[j];
            assert(loading_chunks@.subrange(0, (j + 1) as int).drop_last() =~= loading_chunks@.subrange(0, j as int));
            let present = self.chunk_sent.contains_key(&key_of(pos));
            proof {
                if present {
                    lemma_key_injective(self.chunk_sent@[chunk_key(pos) as i64].0, pos);
                }
            }
            if !present {
                match loaded {
                    Some(chunk) => {
                        self.push_chunk(pos, chunk);
                    },
                    None => {},
                }
            }
            j += 1;
        }
        assert(loading_chunks@.subrange(0, loading_chunks@.len() as int) =~= loading_chunks@);
        change
    }

    /// The player leaves: nothing is queued or recorded as sent any more,
    /// and the batch count starts over at `now_ms`. The ticket at the
    /// centre for the view distance is to be removed.
    pub fn clean_up(&mut self, now_ms: u64) -> (r: (ChunkPos, u8))
        requires
            old(self).wf(),
        ensures
            final(self).wf(),
            r == (old(self).center_pos(), old(self).distance()),
            final(self).sent() == Map::<ChunkPos, u64>::empty(),
            final(self).queue() == Seq::<QueuedChunk>::empty(),
            final(self).entity_queue() == Seq::<(ChunkPos, u64)>::empty(),
            final(self).batches() == BatchState::Initial,
            final(self).last_sent_at() == now_ms,
    {
        let r = (self.center, self.view_distance);
        self.chunk_sent.clear();
        self.chunk_queue = Vec::new();
        self.entity_chunk_queue.clear();
        self.batches_sent_since_ack = BatchState::Initial;
        self.last_chunk_batch_sent_at = now_ms;
        assert(self.sent() =~= Map::<ChunkPos, u64>::empty());
        r
    }

    /// The player changes world: nothing is queued or recorded as sent any
    /// more (queued entity chunks stay), and batches may go out at once
    /// from `now_ms`. The ticket in the old world is to be removed.
    pub fn change_world(&mut self, now_ms: u64) -> (r: (ChunkPos, u8))
        requires
            old(self).wf(),
        ensures
            final(self).wf(),
            r == (old(self).center_pos(), old(self).distance()),
            final(self).sent() == Map::<ChunkPos, u64>::empty(),
            final(self).queue() == Seq::<QueuedChunk>::empty(),
            final(self).entity_queue() == old(self).entity_queue(),
            final(self).batches() == BatchState::Initial,
            final(self).last_sent_at() == now_ms,
    {
        let r = (self.center, self.view_distance);
        self.chunk_sent.clear();
        self.chunk_queue = Vec::new();
        self.batches_sent_since_ack = BatchState::Initial;
        self.last_chunk_batch_sent_at = now_ms;
        assert(self.sent() =~= Map::<ChunkPos, u64>::empty());
        r
    }
}

/// The Chebyshev distance between any two positions, in 64 bits.
fn chebyshev_any(p: ChunkPos, c: ChunkPos) -> (r: i64)
    ensures
        r == cheb(p, c),
{
    let dx0 = p.0 as i64 - c.0 as i64;
    let dz0 = p.1 as i64 - c.1 as i64;
    let dx = if dx0 < 0 { -dx0 } else { dx0 };
    let dz = if dz0 < 0 { -dz0 } else { dz0 };
    if dx < dz { dz } else { dx }
}

/// A chunk batch taken from the queue holds the nearest chunks: the
/// first chunk taken is at most as far as every chunk left.
pub proof fn lemma_next_chunk_takes_nearest(q: Seq<QueuedChunk>)
    requires
        q.len() > 0,
    ensures
        forall|j: int| 0 <= j < q.len() ==> q[min_index(q)].dst <= #[trigger] q[j].dst,
        pop_nearest(q, 1).1 == seq![q[min_index(q)].chunk],
{
    lemma_min_index(q);
    assert(pop_nearest(q.remove(min_index(q)), 0).1 =~= Seq::<u64>::empty());
    assert(pop_nearest(q, 1).1 =~= seq![q[min_index(q)].chunk]);
}

/// A batch takes as many chunks as it says, and takes them out of the
/// queue: the queue shrinks by exactly that many.
pub proof fn lemma_batch_takes_its_size(q: Seq<QueuedChunk>, n: nat)
    requires
        n <= q.len(),
    ensures
        pop_nearest(q, n).1.len() == n,
        pop_nearest(q, n).0.len() == q.len() - n,
    decreases n,
{
    if n > 0 {
        lemma_min_index(q);
        lemma_batch_takes_its_size(q.remove(min_index(q)), (n - 1) as nat);
    }
}

/// The batch count only grows between acknowledgements, and once the
/// window has shut it stays shut until one comes.
pub proof fn lemma_window_stays_shut(b: BatchState)
    ensures
        !window_open(b) ==> !window_open(after_batch(b)),
{
}

} // verus!
