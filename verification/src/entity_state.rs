//! Small parts of entity and player state: why an entity leaves the world,
//! the flags sent in entity metadata, rotations, title and chat modes.

use vstd::prelude::*;

verus! {

/// Why an entity is removed from the world.
#[derive(Clone, Copy, Debug, PartialEq, Eq)]
pub enum RemovalReason {
    Killed,
    Discarded,
    UnloadedToChunk,
    UnloadedWithPlayer,
    ChangedDimension,
}

impl RemovalReason {
    /// The entity is gone for good: killed or discarded.
    pub fn should_destroy(&self) -> (r: bool)
        ensures
            r == (*self == RemovalReason::Killed || *self == RemovalReason::Discarded),
    {
        match self {
            RemovalReason::Killed | RemovalReason::Discarded => true,
            RemovalReason::UnloadedToChunk | RemovalReason::UnloadedWithPlayer
            | RemovalReason::ChangedDimension => false,
        }
    }

    /// The entity is stored with its chunk: only when unloaded with it.
    pub fn should_save(&self) -> (r: bool)
        ensures
            r == (*self == RemovalReason::UnloadedToChunk),
    {
        match self {
            RemovalReason::Killed | RemovalReason::Discarded | RemovalReason::UnloadedWithPlayer
            | RemovalReason::ChangedDimension => false,
            RemovalReason::UnloadedToChunk => true,
        }
    }
}

/// An entity that is saved with its chunk is never destroyed.
pub proof fn lemma_saved_is_not_destroyed(r: RemovalReason)
    ensures
        r == RemovalReason::UnloadedToChunk ==> r != RemovalReason::Killed && r != RemovalReason::Discarded,
{
}

/// The entity flags sent in entity metadata, each a bit of the flags byte.
#[derive(Clone, Copy, Debug, PartialEq, Eq)]
pub enum Flag {
    /// The entity is on fire.
    OnFire,
    /// The entity is sneaking.
    Sneaking,
    /// The entity is sprinting.
    Sprinting,
    /// The entity is swimming.
    Swimming,
    /// The entity is invisible.
    Invisible,
    /// The entity is glowing.
    Glowing,
    /// The entity is flying due to a fall.
    FallFlying,
}

/// The bit of each flag.
pub open spec fn flag_index(f: Flag) -> u8 {
    match f {
        Flag::OnFire => 0,
        Flag::Sneaking => 1,
        Flag::Sprinting => 3,
        Flag::Swimming => 4,
        Flag::Invisible => 5,
        Flag::Glowing => 6,
        Flag::FallFlying => 7,
    }
}

impl Flag {
    /// The bit of this flag in the flags byte.
    pub fn index(&self) -> (r: u8)
        ensures
            r == flag_index(*self),
    {
        match self {
            Flag::OnFire => 0,
            Flag::Sneaking => 1,
            Flag::Sprinting => 3,
            Flag::Swimming => 4,
            Flag::Invisible => 5,
            Flag::Glowing => 6,
            Flag::FallFlying => 7,
        }
    }
}

/// The flags byte sent when one flag is set or cleared: that flag's bit
/// alone when it is set, 0 when it is cleared.
pub open spec fn flags_byte(f: Flag, value: bool) -> i8 {
    if !value {
        0
    } else if flag_index(f) == 7 {
        -128i8
    } else {
        (1u8 << flag_index(f)) as i8
    }
}

/// The flags byte sent for setting or clearing `flag`.
pub fn flag_byte(flag: Flag, value: bool) -> (r: i8)
    ensures
        r == flags_byte(flag, value),
{
    if !value {
        return 0;
    }
    let i = flag.index();
    let r: i8 = match i {
        0 => 1,
        1 => 2,
        3 => 8,
        4 => 16,
        5 => 32,
        6 => 64,
        _ => -128,
    };
    assert(1u8 << 0u8 == 1u8) by (bit_vector);
    assert(1u8 << 1u8 == 2u8) by (bit_vector);
    assert(1u8 << 3u8 == 8u8) by (bit_vector);
    assert(1u8 << 4u8 == 16u8) by (bit_vector);
    assert(1u8 << 5u8 == 32u8) by (bit_vector);
    assert(1u8 << 6u8 == 64u8) by (bit_vector);
    assert(1u8 << 7u8 == 128u8) by (bit_vector);
    r
}

/// A rotation in sixteenths of a turn turned half way round.
pub fn get_flipped_rotation_16(rotation: u8) -> (r: u8)
    requires
        rotation < 16,
    ensures
        r == (rotation + 8) % 16,
        r < 16,
{
    if rotation < 8 { rotation + 8 } else { rotation - 8 }
}

/// Turning half way round twice comes back to the start.
pub proof fn lemma_flip_twice(rotation: u8)
    requires
        rotation < 16,
    ensures
        ((rotation + 8) % 16 + 8) % 16 == rotation,
{
}

/// Where a title is shown.
#[derive(Clone, Copy, Debug, PartialEq, Eq)]
pub enum TitleMode {
    Title,
    SubTitle,
    ActionBar,
}

/// What chat a player sees.
#[derive(Clone, Copy, Debug, PartialEq, Eq)]
pub enum ChatMode {
    /// Chat is shown.
    Enabled,
    /// Only messages from commands are shown.
    CommandsOnly,
    /// All messages are hidden.
    Hidden,
}

/// The chat mode a client sent is not one of the three.
#[derive(Clone, Copy, Debug, PartialEq, Eq)]
pub struct InvalidChatMode;

/// The chat mode with the number `v`.
pub open spec fn chat_mode_of(v: i32) -> Option<ChatMode> {
    if v == 0 {
        Some(ChatMode::Enabled)
    } else if v == 1 {
        Some(ChatMode::CommandsOnly)
    } else if v == 2 {
        Some(ChatMode::Hidden)
    } else {
        None
    }
}

impl ChatMode {
    /// The chat mode with the number `value`: 0 enabled, 1 commands only,
    /// 2 hidden; any other number is refused.
    pub fn try_from(value: i32) -> (r: Result<ChatMode, InvalidChatMode>)
        ensures
            match chat_mode_of(value) {
                Some(m) => r == Ok::<ChatMode, InvalidChatMode>(m),
                None => r == Err::<ChatMode, InvalidChatMode>(InvalidChatMode),
            },
    {
        match value {
            0 => Ok(ChatMode::Enabled),
            1 => Ok(ChatMode::CommandsOnly),
            2 => Ok(ChatMode::Hidden),
            _ => Err(InvalidChatMode),
        }
    }
}

} // verus!
