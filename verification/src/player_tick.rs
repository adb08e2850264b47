//! The bookkeeping of one player tick: block-change acknowledgements,
//! counters and timeouts, the chunk batch sent, and when health and
//! experience are sent again.

use vstd::prelude::*;

use crate::chunk_manager::{batch_size, pop_nearest, window_open, ChunkManager, ACK_STALL_FALLBACK_DELAY_MS};

verus! {

/// The counters a player keeps from tick to tick.
#[derive(Clone, Copy, Debug, PartialEq, Eq)]
pub struct PlayerCounters {
    /// The last block-change sequence to acknowledge; -1 when there is none.
    pub packet_sequence: i32,
    pub experience_pick_up_delay: u32,
    pub tick_counter: i32,
    /// Ticks spent in bed.
    pub sleeping_since: Option<u8>,
    pub last_attacked_ticks: u32,
    pub client_loaded: bool,
    pub client_loaded_timeout: u32,
}

/// What a tick of the counters asks for.
#[derive(Clone, Copy, Debug, PartialEq, Eq)]
pub struct CounterActions {
    /// A block-change acknowledgement for this sequence is sent.
    pub acknowledge: Option<i32>,
    /// The player has been idle too long and is kicked.
    pub kick_for_idle: bool,
}

/// The counters after a tick: the pending sequence is taken; the
/// experience pickup delay, the client-load timeout (while the client has
/// not loaded) count down to 0; the tick and attack counters count up,
/// wrapping; the time in bed counts up to 101.
pub open spec fn counters_after(c: PlayerCounters) -> PlayerCounters {
    PlayerCounters {
        packet_sequence: -1i32,
        experience_pick_up_delay: if c.experience_pick_up_delay > 0 {
            (c.experience_pick_up_delay - 1) as u32
        } else {
            0
        },
        tick_counter: c.tick_counter.wrapping_add(1),
        sleeping_since: match c.sleeping_since {
            Some(s) => if s < 101 { Some((s + 1) as u8) } else { Some(s) },
            None => None,
        },
        last_attacked_ticks: if c.last_attacked_ticks == u32::MAX { 0 } else { (c.last_attacked_ticks + 1) as u32 },
        client_loaded: c.client_loaded,
        client_loaded_timeout: if !c.client_loaded && c.client_loaded_timeout > 0 {
            (c.client_loaded_timeout - 1) as u32
        } else {
            c.client_loaded_timeout
        },
    }
}

/// One tick of a player's counters, `idle_ms` milliseconds after its last
/// action, with an idle timeout of `idle_timeout_minutes` (0 for none).
pub fn tick_counters(c: &mut PlayerCounters, idle_ms: u64, idle_timeout_minutes: u32) -> (r: CounterActions)
    ensures
        *final(c) == counters_after(*old(c)),
        r.acknowledge == (if old(c).packet_sequence != -1 { Some(old(c).packet_sequence) } else { None::<i32> }),
        r.kick_for_idle == (idle_timeout_minutes > 0 && idle_ms >= idle_timeout_minutes * 60000),
{
    let seq = c.packet_sequence;
    c.packet_sequence = -1;
    let acknowledge = if seq != -1 { Some(seq) } else { None };
    if c.experience_pick_up_delay > 0 {
        c.experience_pick_up_delay = c.experience_pick_up_delay - 1;
    }
    c.tick_counter = c.tick_counter.wrapping_add(1);
    match c.sleeping_since {
        Some(s) => {
            if s < 101 {
                c.sleeping_since = Some(s + 1);
            }
        },
        None => {},
    }
    c.last_attacked_ticks = if c.last_attacked_ticks == u32::MAX { 0 } else { c.last_attacked_ticks + 1 };
    if !c.client_loaded && c.client_loaded_timeout > 0 {
        c.client_loaded_timeout = c.client_loaded_timeout - 1;
    }
    let kick_for_idle = idle_timeout_minutes > 0 && idle_ms >= idle_timeout_minutes as u64 * 60000;
    CounterActions { acknowledge, kick_for_idle }
}

/// A Java client may be sent chunks at `now_ms`: its acknowledgement
/// window is open, or the last batch went out long enough ago, and chunks
/// are queued.
pub open spec fn chunks_sendable(m: ChunkManager, now_ms: u64) -> bool {
    (window_open(m.batches()) || (now_ms >= m.last_sent_at() && now_ms - m.last_sent_at()
        >= ACK_STALL_FALLBACK_DELAY_MS)) && m.queue().len() > 0
}

/// The chunks a player is sent this tick, at `now_ms`: a Java client
/// gets a batch exactly when chunks are sendable to it; a Bedrock client
/// gets a batch every tick, empty when nothing is queued. The batch is the
/// nearest queued chunks, as many as a batch holds.
pub fn player_chunk_batch(manager: &mut ChunkManager, is_java: bool, now_ms: u64) -> (r: Option<Vec<u64>>)
    requires
        old(manager).wf(),
    ensures
        final(manager).wf(),
        is_java ==> (r is Some <==> chunks_sendable(*old(manager), now_ms)),
        !is_java ==> r is Some,
        r is None ==> final(manager).queue() == old(manager).queue(),
        r matches Some(chunks) ==> (final(manager).queue(), chunks@) == pop_nearest(
            old(manager).queue(),
            batch_size(old(manager).queue().len(), old(manager).per_tick() as nat),
        ),
{
    if is_java && !manager.can_send_chunk(now_ms) {
        return None;
    }
    Some(manager.next_chunk(now_ms))
}

/// Health, food and saturation are sent again when the health (rounded
/// towards zero), the food level, or whether saturation is zero, changed
/// since they were last sent.
pub fn health_changed(
    health: i32,
    food: u8,
    saturation_zero: bool,
    last_health: i32,
    last_food: u8,
    last_saturation_zero: bool,
) -> (r: bool)
    ensures
        r == (health != last_health || food != last_food || saturation_zero != last_saturation_zero),
{
    health != last_health || food != last_food || saturation_zero != last_saturation_zero
}

/// Experience is sent again when the level changed since it was last sent.
pub fn experience_changed(level: i32, last_sent: i32) -> (r: bool)
    ensures
        r == (level != last_sent),
{
    level != last_sent
}

/// The keep-alive exchange with a client: whether an answer is awaited,
/// when the last keep-alive went out (in milliseconds on the server's
/// clock), and its id.
#[derive(Clone, Copy, Debug, PartialEq, Eq)]
pub struct KeepAlive {
    pub waiting: bool,
    pub last_sent_ms: u64,
    pub id: i64,
}

/// What a tick does about keep-alives.
#[derive(Clone, Copy, Debug, PartialEq, Eq)]
pub enum KeepAliveAction {
    /// Nothing is due.
    Nothing,
    /// The last keep-alive went unanswered: the player is kicked for timing out.
    Kick,
    /// A keep-alive with this id is sent.
    Send { id: i64 },
}

/// The milliseconds from `since` to `now`, or 0 where `now` is earlier.
pub open spec fn elapsed_ms(now: u64, since: u64) -> int {
    if now >= since {
        now - since
    } else {
        0
    }
}

/// The keep-alive interval: 15 seconds.
pub const KEEP_ALIVE_INTERVAL_MS: u64 = 15000;

impl KeepAlive {
    /// One tick at `now_ms`: once 15 seconds have passed since the last
    /// keep-alive, nothing for a Bedrock client; a kick where the last one
    /// is still unanswered; else a new keep-alive with id `new_id` goes out
    /// and is awaited. Before that, nothing.
    pub fn tick(&mut self, now_ms: u64, is_bedrock: bool, new_id: i64) -> (r: KeepAliveAction)
        ensures
            elapsed_ms(now_ms, old(self).last_sent_ms) < KEEP_ALIVE_INTERVAL_MS ==> r
                == KeepAliveAction::Nothing && *final(self) == *old(self),
            elapsed_ms(now_ms, old(self).last_sent_ms) >= KEEP_ALIVE_INTERVAL_MS && is_bedrock ==> r
                == KeepAliveAction::Nothing && *final(self) == *old(self),
            elapsed_ms(now_ms, old(self).last_sent_ms) >= KEEP_ALIVE_INTERVAL_MS && !is_bedrock
                && old(self).waiting ==> r == KeepAliveAction::Kick && *final(self) == *old(self),
            elapsed_ms(now_ms, old(self).last_sent_ms) >= KEEP_ALIVE_INTERVAL_MS && !is_bedrock
                && !old(self).waiting ==> r == (KeepAliveAction::Send { id: new_id }) && *final(self)
                == (KeepAlive { waiting: true, last_sent_ms: now_ms, id: new_id }),
    {
        let elapsed: u64 = if now_ms >= self.last_sent_ms {
            now_ms - self.last_sent_ms
        } else {
            0
        };
        if elapsed < KEEP_ALIVE_INTERVAL_MS {
            return KeepAliveAction::Nothing;
        }
        if is_bedrock {
            return KeepAliveAction::Nothing;
        }
        if self.waiting {
            return KeepAliveAction::Kick;
        }
        self.waiting = true;
        self.last_sent_ms = now_ms;
        self.id = new_id;
        KeepAliveAction::Send { id: new_id }
    }
}

} // verus!
