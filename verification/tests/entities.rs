use pumpkin::chunk_manager::{BatchState, ChunkManager};
use pumpkin::entity_state::{flag_byte, get_flipped_rotation_16, ChatMode, Flag, InvalidChatMode, RemovalReason};
use pumpkin::message_cache::{MessageCache, PreviousMessage};
use pumpkin::varint::VarInt;

#[test]
fn removal_reasons() {
    assert!(RemovalReason::Killed.should_destroy());
    assert!(RemovalReason::Discarded.should_destroy());
    assert!(!RemovalReason::UnloadedToChunk.should_destroy());
    assert!(RemovalReason::UnloadedToChunk.should_save());
    assert!(!RemovalReason::ChangedDimension.should_save());
    assert!(!RemovalReason::UnloadedWithPlayer.should_save());
}

#[test]
fn entity_flags_and_rotation() {
    assert_eq!(flag_byte(Flag::Sneaking, true), 2);
    assert_eq!(flag_byte(Flag::Sprinting, true), 8);
    assert_eq!(flag_byte(Flag::FallFlying, true), -128);
    assert_eq!(flag_byte(Flag::OnFire, false), 0);
    assert_eq!(Flag::Glowing.index(), 6);
    assert_eq!(get_flipped_rotation_16(0), 8);
    assert_eq!(get_flipped_rotation_16(12), 4);
}

#[test]
fn chat_modes() {
    assert_eq!(ChatMode::try_from(0), Ok(ChatMode::Enabled));
    assert_eq!(ChatMode::try_from(2), Ok(ChatMode::Hidden));
    assert_eq!(ChatMode::try_from(3), Err(InvalidChatMode));
    assert_eq!(ChatMode::try_from(-1), Err(InvalidChatMode));
}

#[test]
fn message_cache_seen_and_indexed() {
    let mut cache = MessageCache::new();
    cache.add_seen_signature(&[1, 2]);
    cache.add_seen_signature(&[3]);
    assert_eq!(cache.cached_len(), 2);
    assert_eq!(cache.position(&[3]), Some(0));
    assert_eq!(cache.position(&[1, 2]), Some(1));
    assert_eq!(cache.last_seen().len(), 2);
    assert_eq!(cache.last_seen().get(1), &vec![3u8]);
    let mut sender = MessageCache::new();
    sender.add_seen_signature(&[3]);
    sender.add_seen_signature(&[9, 9]);
    let refs = cache.indexed_for(sender.last_seen());
    assert_eq!(
        refs,
        vec![
            PreviousMessage { id: VarInt(1), signature: None },
            PreviousMessage { id: VarInt(0), signature: Some(vec![9, 9]) },
        ]
    );
}

#[test]
fn message_cache_limits() {
    let mut cache = MessageCache::new();
    for i in 0..150u8 {
        cache.add_seen_signature(&[i]);
    }
    assert_eq!(cache.cached_len(), 128);
    assert_eq!(cache.last_seen().len(), 20);
    assert_eq!(cache.position(&[149]), Some(0));
    assert_eq!(cache.position(&[0]), None);
    assert_eq!(cache.last_seen().get(19), &vec![149u8]);
    assert_eq!(cache.last_seen().get(0), &vec![130u8]);
}

#[test]
fn message_cache_from_senders() {
    let mut cache = MessageCache::new();
    cache.add_seen_signature(&[1]);
    cache.cache_signatures(&vec![vec![2], vec![1], vec![3]]);
    // Taken last to first, each new one at the back.
    assert_eq!(cache.position(&[1]), Some(0));
    assert_eq!(cache.position(&[3]), Some(1));
    assert_eq!(cache.position(&[2]), Some(2));
    assert_eq!(cache.cached_len(), 3);
}

#[test]
fn chunk_batches_nearest_first() {
    let mut m = ChunkManager::new(2, 0);
    m.update_center_and_view_distance((0, 0), 4, &vec![((3, 0), Some(30)), ((1, 1), Some(11)), ((0, 0), Some(0))], &vec![]);
    assert!(m.can_send_chunk(0));
    assert_eq!(m.next_chunk(10), vec![0, 11]);
    assert_eq!(m.next_chunk(20), vec![30]);
    assert!(!m.can_send_chunk(20));
}

#[test]
fn chunk_window_and_ack() {
    let mut m = ChunkManager::new(1, 0);
    assert!(m.ack_window_open());
    m.push_chunk((0, 0), 1);
    m.next_chunk(5);
    assert!(!m.ack_window_open());
    m.push_chunk((1, 0), 2);
    assert!(!m.can_send_chunk(100));
    assert!(m.can_send_chunk(300));
    m.handle_acknowledge(4);
    assert!(m.ack_window_open());
    for i in 0..10u64 {
        m.push_chunk((2, i as i32), 100 + i);
        m.next_chunk(400);
    }
    assert!(!m.ack_window_open());
    let _ = BatchState::Initial;
}

#[test]
fn chunk_moving_drops_far_chunks() {
    let mut m = ChunkManager::new(8, 0);
    m.pull_new_chunks(&vec![((0, 0), 1), ((5, 5), 2)]);
    // View distance 0: only the centre chunk is in range.
    assert!(m.can_send_chunk(0));
    m.update_center_and_view_distance((0, 0), 2, &vec![((0, 0), Some(1)), ((2, 2), Some(3))], &vec![]);
    m.pull_new_chunks(&vec![((5, 5), 2), ((0, 0), 1)]);
    let change = m.update_center_and_view_distance((10, 10), 2, &vec![], &vec![]);
    assert_eq!(change.remove, Some(((0, 0), 3)));
    assert!(!m.can_send_chunk(0));
    let (center, vd) = m.clean_up(1);
    assert_eq!(center, (10, 10));
    assert_eq!(vd, 3);
}

use pumpkin::player_tick::{experience_changed, health_changed, player_chunk_batch, tick_counters, PlayerCounters};

#[test]
fn player_counters_tick() {
    let mut c = PlayerCounters {
        packet_sequence: 12,
        experience_pick_up_delay: 2,
        tick_counter: i32::MAX,
        sleeping_since: Some(100),
        last_attacked_ticks: 5,
        client_loaded: false,
        client_loaded_timeout: 1,
    };
    let a = tick_counters(&mut c, 0, 0);
    assert_eq!(a.acknowledge, Some(12));
    assert!(!a.kick_for_idle);
    assert_eq!(c.packet_sequence, -1);
    assert_eq!(c.experience_pick_up_delay, 1);
    assert_eq!(c.tick_counter, i32::MIN);
    assert_eq!(c.sleeping_since, Some(101));
    assert_eq!(c.last_attacked_ticks, 6);
    assert_eq!(c.client_loaded_timeout, 0);
    let a = tick_counters(&mut c, 600_000, 10);
    assert_eq!(a.acknowledge, None);
    assert!(a.kick_for_idle);
    assert_eq!(c.sleeping_since, Some(101));
    assert_eq!(c.client_loaded_timeout, 0);
    assert!(health_changed(19, 20, false, 20, 20, false));
    assert!(!health_changed(20, 20, true, 20, 20, true));
    assert!(experience_changed(3, -1));
    assert!(!experience_changed(3, 3));
}

#[test]
fn player_chunk_batches() {
    let mut m = ChunkManager::new(4, 0);
    m.push_chunk((0, 0), 1);
    assert_eq!(player_chunk_batch(&mut m, true, 0), Some(vec![1]));
    m.push_chunk((0, 1), 2);
    // The first batch is waiting for its acknowledgement.
    assert_eq!(player_chunk_batch(&mut m, true, 10), None);
    assert_eq!(player_chunk_batch(&mut m, false, 10), Some(vec![2]));
    assert_eq!(player_chunk_batch(&mut m, false, 20), Some(vec![]));
}

#[test]
fn message_cache_length_counts_distinct_new_signatures() {
    let mut cache = MessageCache::new();
    cache.add_seen_signature(&[1]);
    // [1] is cached already and [4] comes twice: two new distinct ones.
    cache.cache_signatures(&vec![vec![4], vec![1], vec![5], vec![4]]);
    assert_eq!(cache.cached_len(), 3);
    let many: Vec<Vec<u8>> = (0..200u8).map(|b| vec![b, 9]).collect();
    cache.cache_signatures(&many);
    assert_eq!(cache.cached_len(), 128);
}

#[test]
fn stalled_window_lets_a_java_batch_out() {
    let mut m = ChunkManager::new(4, 0);
    m.push_chunk((0, 0), 1);
    assert_eq!(player_chunk_batch(&mut m, true, 0), Some(vec![1]));
    m.push_chunk((0, 1), 2);
    assert_eq!(player_chunk_batch(&mut m, true, 249), None);
    // No acknowledgement for 250 ms: the next batch goes out anyway.
    assert_eq!(player_chunk_batch(&mut m, true, 250), Some(vec![2]));
    // Nothing queued: no batch for a Java client, an empty one for Bedrock.
    assert_eq!(player_chunk_batch(&mut m, true, 600), None);
    assert_eq!(player_chunk_batch(&mut m, false, 600), Some(vec![]));
}

#[test]
fn cached_signatures_come_last_first_without_repeats() {
    let mut cache = MessageCache::new();
    cache.add_seen_signature(&[7]);
    cache.cache_signatures(&vec![vec![1], vec![2], vec![1], vec![7], vec![3]]);
    assert_eq!(cache.cached_len(), 4);
    assert_eq!(cache.position(&[7]), Some(0));
    assert_eq!(cache.position(&[3]), Some(1));
    assert_eq!(cache.position(&[1]), Some(2));
    assert_eq!(cache.position(&[2]), Some(3));
}

#[test]
fn unloaded_chunks_are_forgotten_and_sent_again() {
    let mut m = ChunkManager::new(8, 0);
    m.update_center_and_view_distance((0, 0), 3, &vec![((1, 1), Some(7)), ((2, 0), Some(8))], &vec![]);
    let mut first = m.next_chunk(0);
    first.sort();
    assert_eq!(first, vec![7, 8]);
    m.handle_acknowledge(8);
    // (2, 0) is being unloaded: its record goes, and it is queued again;
    // (1, 1) was sent and stays recorded, so it is not.
    m.update_center_and_view_distance((0, 0), 3, &vec![((1, 1), Some(7)), ((2, 0), Some(8))], &vec![(2, 0)]);
    assert_eq!(m.next_chunk(10), vec![8]);
}
