//! Game-server logic of a Minecraft server: wire codecs, item data
//! components, block behaviour rules and entity bookkeeping, each stated
//! over a mathematical model and proved with Verus.

use vstd::prelude::*;

pub mod varint;
pub mod wire;
pub mod text;
pub mod component_hash;
pub mod components;
pub mod data_component;
pub mod damage_tags;
pub mod protocol;
pub mod edit_book;
pub mod packets;
pub mod item_hash;
pub mod chance;
pub mod fire;
pub mod block_props;
pub mod dropper;
pub mod lava;
pub mod crop;
pub mod bamboo;
pub mod axe;
pub mod message_cache;
pub mod entity_state;
pub mod chunk_manager;
pub mod setworldspawn;
pub mod item_components;
pub mod item_entity;
pub mod entity_rules;
pub mod bucket;
pub mod respawn;
pub mod player_tick;
pub mod nbt;
pub mod component_nbt;
pub mod player_rules;
pub mod magma;
pub mod boat;

verus! {

} // verus!
