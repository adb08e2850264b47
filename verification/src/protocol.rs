//! Protocol-level types: connection states, registry references that are
//! either an id or an inline value, sound events, position flags, links and
//! the status-response records.

use vstd::prelude::*;

use crate::varint::{lemma_varint_roundtrip, read_varint_spec, varint_bytes, ReadingError, VarInt, VarIntScan};
use crate::wire::{
    bool_byte, lemma_string_roundtrip, lemma_u32_be_roundtrip, parse_bool, parse_string,
    parse_u32_be, read_bool, read_matches, read_string_bounded, read_u32_be, string_wire,
    string_writable, u32_be_bytes, write_bool, write_string, write_u32_be, Parsed,
};

verus! {

/// The largest packet the protocol allows, in bytes.
pub const MAX_PACKET_SIZE: u64 = 2_097_152;

/// The largest packet payload the protocol allows, in bytes.
pub const MAX_PACKET_DATA_SIZE: usize = 8_388_608;

/// The phase a connection is in.
#[derive(Debug, PartialEq, Eq, Clone, Copy)]
pub enum ConnectionState {
    HandShake,
    Status,
    Login,
    Transfer,
    Config,
    Play,
}

/// The handshake asked for a state a client may not switch to.
pub struct InvalidConnectionState;

/// The state a handshake's next-state number asks for: 1, 2 and 3 name
/// Status, Login and Transfer; nothing else is valid.
pub open spec fn connection_state_of(value: i32) -> Option<ConnectionState> {
    if value == 1 {
        Some(ConnectionState::Status)
    } else if value == 2 {
        Some(ConnectionState::Login)
    } else if value == 3 {
        Some(ConnectionState::Transfer)
    } else {
        None
    }
}

impl ConnectionState {
    /// The state a handshake's next-state VarInt asks for.
    pub fn try_from(value: VarInt) -> (r: Result<Self, InvalidConnectionState>)
        ensures
            match connection_state_of(value.0) {
                Some(s) => r == Ok::<ConnectionState, InvalidConnectionState>(s),
                None => r is Err,
            },
    {
        let value = value.0;
        if value == 1 {
            Ok(ConnectionState::Status)
        } else if value == 2 {
            Ok(ConnectionState::Login)
        } else if value == 3 {
            Ok(ConnectionState::Transfer)
        } else {
            Err(InvalidConnectionState)
        }
    }
}

/// A value with a wire form that reads back to itself.
pub trait NetworkValue: Sized + View {
    /// The wire form of the abstract value `v`.
    spec fn wire(v: Self::V) -> Seq<u8>;

    /// `v` can be written (its lengths fit their prefixes).
    spec fn writable(v: Self::V) -> bool;

    /// What reading a value from the front of `s` gives.
    spec fn parse_wire(s: Seq<u8>) -> Parsed<Self::V>;

    /// Appends the wire form of this value.
    fn write_to(&self, out: &mut Vec<u8>)
        requires
            Self::writable(self@),
        ensures
            final(out)@ == old(out)@ + Self::wire(self@),
    ;

    /// Reads a value at `pos`, giving it with the position just past it.
    fn read_from(buf: &[u8], pos: usize) -> (r: Result<(Self, usize), ReadingError>)
        requires
            pos <= buf@.len(),
        ensures
            read_matches(r, Self::parse_wire(buf@.skip(pos as int)), pos as int, |x: Self| x@),
    ;

    /// Reading back the wire form of a writable value gives the value.
    proof fn lemma_wire_roundtrip(v: Self::V, rest: Seq<u8>)
        requires
            Self::writable(v),
        ensures
            Self::parse_wire(Self::wire(v) + rest) == Parsed::Value(v, Self::wire(v).len()),
    ;
}

/// A registry reference: either the id of a registered entry or an inline value.
#[derive(PartialEq, Eq, Clone, Debug)]
pub enum IdOr<T> {
    Id(u16),
    Value(T),
}

impl<T: View> View for IdOr<T> {
    type V = IdOr<T::V>;

    open spec fn view(&self) -> IdOr<T::V> {
        match self {
            IdOr::Id(id) => IdOr::Id(*id),
            IdOr::Value(v) => IdOr::Value(v@),
        }
    }
}

/// Wire form of a registry reference: an id is sent as the VarInt `id + 1`,
/// an inline value as the VarInt 0 followed by the value.
pub open spec fn id_or_wire<T: NetworkValue>(x: IdOr<T::V>) -> Seq<u8> {
    match x {
        IdOr::Id(id) => varint_bytes((id + 1) as i32),
        IdOr::Value(v) => varint_bytes(0) + T::wire(v),
    }
}

/// A reference can be written when its id is below the largest `u16`
/// (the id is sent plus one) and an inline value is writable.
pub open spec fn id_or_writable<T: NetworkValue>(x: IdOr<T::V>) -> bool {
    match x {
        IdOr::Id(id) => id < u16::MAX,
        IdOr::Value(v) => T::writable(v),
    }
}

/// Reading a registry reference: the leading VarInt must fit a `u16`; a
/// positive one names the entry one below it, zero announces an inline value.
pub open spec fn parse_id_or<T: NetworkValue>(s: Seq<u8>) -> Parsed<IdOr<T::V>> {
    match read_varint_spec(s) {
        VarIntScan::Done(id, n) => {
            if id < 0 || id > u16::MAX {
                Parsed::Malformed
            } else if id > 0 {
                Parsed::Value(IdOr::Id((id - 1) as u16), n)
            } else {
                match T::parse_wire(s.skip(n as int)) {
                    Parsed::Value(v, m) => Parsed::Value(IdOr::Value(v), n + m),
                    Parsed::Incomplete => Parsed::Incomplete,
                    Parsed::TooLarge => Parsed::TooLarge,
                    Parsed::Malformed => Parsed::Malformed,
                }
            }
        },
        VarIntScan::Incomplete => Parsed::Incomplete,
        VarIntScan::TooLarge => Parsed::TooLarge,
    }
}

impl<T: NetworkValue> IdOr<T> {
    /// Appends the wire form of this reference.
    pub fn write_to(&self, out: &mut Vec<u8>)
        requires
            id_or_writable::<T>(self@),
        ensures
            final(out)@ == old(out)@ + id_or_wire::<T>(self@),
    {
        match self {
            IdOr::Id(id) => {
                VarInt((*id + 1) as i32).encode(out);
            },
            IdOr::Value(value) => {
                VarInt(0).encode(out);
                value.write_to(out);
                assert(out@ =~= old(out)@ + id_or_wire::<T>(self@));
            },
        }
    }

    /// Reads a reference at `pos`.
    pub fn read_from(buf: &[u8], pos: usize) -> (r: Result<(Self, usize), ReadingError>)
        requires
            pos <= buf@.len(),
        ensures
            read_matches(r, parse_id_or::<T>(buf@.skip(pos as int)), pos as int, |x: Self| x@),
    {
        let (id, p) = match VarInt::decode(buf, pos) {
            Ok(v) => v,
            Err(e) => {
                return Err(e);
            },
        };
        if id.0 < 0 || id.0 > 65535 {
            return Err(ReadingError::Message(
                std::borrow::ToOwned::to_owned("id cannot be mapped to a registry id"),
            ));
        }
        if id.0 > 0 {
            return Ok((IdOr::Id((id.0 - 1) as u16), p));
        }
        assert(buf@.skip(p as int) =~= buf@.skip(pos as int).skip((p - pos) as int));
        match T::read_from(buf, p) {
            Ok((v, q)) => Ok((IdOr::Value(v), q)),
            Err(e) => Err(e),
        }
    }
}

/// Reading back the wire form of a writable reference gives the reference.
pub proof fn lemma_id_or_roundtrip<T: NetworkValue>(x: IdOr<T::V>, rest: Seq<u8>)
    requires
        id_or_writable::<T>(x),
    ensures
        parse_id_or::<T>(id_or_wire::<T>(x) + rest) == Parsed::Value(x, id_or_wire::<T>(x).len()),
{
    match x {
        IdOr::Id(id) => {
            lemma_varint_roundtrip((id + 1) as i32, rest);
        },
        IdOr::Value(v) => {
            let w = T::wire(v);
            lemma_varint_roundtrip(0, w + rest);
            assert(id_or_wire::<T>(x) + rest =~= varint_bytes(0) + (w + rest));
            let n = varint_bytes(0).len();
            assert((id_or_wire::<T>(x) + rest).skip(n as int) =~= w + rest);
            T::lemma_wire_roundtrip(v, rest);
        },
    }
}

/// The largest string byte count a VarInt prefix can announce.
pub const MAX_STRING_BYTES: usize = 2_147_483_647;

/// A sound reference: the sound's resource name and an optional fixed range,
/// the range held as the bit pattern of its 32-bit float.
#[derive(Clone, PartialEq, Debug)]
pub struct SoundEvent {
    pub sound_name: String,
    pub range_bits: Option<u32>,
}

/// Abstract value of a sound event.
pub struct SoundEventView {
    pub sound_name: Seq<char>,
    pub range_bits: Option<u32>,
}

impl View for SoundEvent {
    type V = SoundEventView;

    open spec fn view(&self) -> SoundEventView {
        SoundEventView { sound_name: self.sound_name@, range_bits: self.range_bits }
    }
}

/// Wire form of an optional 32-bit value: a presence flag, then the value.
pub open spec fn option_u32_wire(o: Option<u32>) -> Seq<u8> {
    match o {
        Some(b) => seq![bool_byte(true)] + u32_be_bytes(b),
        None => seq![bool_byte(false)],
    }
}

/// Reading an optional 32-bit value.
pub open spec fn parse_option_u32(s: Seq<u8>) -> Parsed<Option<u32>> {
    match parse_bool(s) {
        Parsed::Value(present, n) => if present {
            match parse_u32_be(s.skip(n as int)) {
                Parsed::Value(v, m) => Parsed::Value(Some(v), n + m),
                Parsed::Incomplete => Parsed::Incomplete,
                Parsed::TooLarge => Parsed::TooLarge,
                Parsed::Malformed => Parsed::Malformed,
            }
        } else {
            Parsed::Value(None, n)
        },
        Parsed::Incomplete => Parsed::Incomplete,
        Parsed::TooLarge => Parsed::TooLarge,
        Parsed::Malformed => Parsed::Malformed,
    }
}

impl NetworkValue for SoundEvent {
    open spec fn wire(v: SoundEventView) -> Seq<u8> {
        string_wire(v.sound_name) + option_u32_wire(v.range_bits)
    }

    open spec fn writable(v: SoundEventView) -> bool {
        string_writable(v.sound_name)
    }

    open spec fn parse_wire(s: Seq<u8>) -> Parsed<SoundEventView> {
        match parse_string(s, MAX_STRING_BYTES as nat) {
            Parsed::Value(name, n) => match parse_option_u32(s.skip(n as int)) {
                Parsed::Value(range_bits, m) => Parsed::Value(
                    SoundEventView { sound_name: name, range_bits },
                    n + m,
                ),
                Parsed::Incomplete => Parsed::Incomplete,
                Parsed::TooLarge => Parsed::TooLarge,
                Parsed::Malformed => Parsed::Malformed,
            },
            Parsed::Incomplete => Parsed::Incomplete,
            Parsed::TooLarge => Parsed::TooLarge,
            Parsed::Malformed => Parsed::Malformed,
        }
    }

    fn write_to(&self, out: &mut Vec<u8>) {
        write_string(self.sound_name.as_str(), out);
        let ghost mid = out@;
        match self.range_bits {
            Some(b) => {
                write_bool(true, out);
                write_u32_be(b, out);
            },
            None => {
                write_bool(false, out);
            },
        }
        assert(out@ =~= old(out)@ + Self::wire(self@));
    }

    fn read_from(buf: &[u8], pos: usize) -> (r: Result<(Self, usize), ReadingError>) {
        let (name, p) = match read_string_bounded(buf, pos, MAX_STRING_BYTES) {
            Ok(v) => v,
            Err(e) => {
                return Err(e);
            },
        };
        proof {
            assert(p <= buf@.len()) by {
                assert(buf@.skip(pos as int).len() == buf@.len() - pos);
                lemma_parsed_string_within(buf@.skip(pos as int), MAX_STRING_BYTES as nat);
            }
            assert(buf@.skip(p as int) =~= buf@.skip(pos as int).skip((p - pos) as int));
        }
        let (present, q) = match read_bool(buf, p) {
            Ok(v) => v,
            Err(e) => {
                return Err(e);
            },
        };
        if !present {
            return Ok((SoundEvent { sound_name: name, range_bits: None }, q));
        }
        assert(buf@.skip(q as int) =~= buf@.skip(p as int).skip(1));
        let (bits, e) = match read_u32_be(buf, q) {
            Ok(v) => v,
            Err(err) => {
                return Err(err);
            },
        };
        Ok((SoundEvent { sound_name: name, range_bits: Some(bits) }, e))
    }

    proof fn lemma_wire_roundtrip(v: SoundEventView, rest: Seq<u8>) {
        let sw = string_wire(v.sound_name);
        let ow = option_u32_wire(v.range_bits);
        lemma_string_roundtrip(v.sound_name, MAX_STRING_BYTES as nat, ow + rest);
        assert(Self::wire(v) + rest =~= sw + (ow + rest));
        assert((Self::wire(v) + rest).skip(sw.len() as int) =~= ow + rest);
        match v.range_bits {
            Some(b) => {
                lemma_u32_be_roundtrip(b, rest);
                assert((ow + rest).skip(1) =~= u32_be_bytes(b) + rest);
            },
            None => {},
        }
    }
}

/// A parsed string never reaches past the end of its input.
proof fn lemma_parsed_string_within(s: Seq<u8>, bound: nat)
    ensures
        parse_string(s, bound) matches Parsed::Value(_, n) ==> n <= s.len(),
{
}

/// A teleport flag: for the first eight, a set bit means the coordinate or
/// angle is relative rather than absolute.
#[derive(Debug, PartialEq, Eq)]
pub enum PositionFlag {
    X,
    Y,
    Z,
    YRot,
    XRot,
    DeltaX,
    DeltaY,
    DeltaZ,
    RotateDelta,
}

/// The bit a flag occupies.
pub open spec fn flag_bit(f: PositionFlag) -> u32 {
    match f {
        PositionFlag::X => 0,
        PositionFlag::Y => 1,
        PositionFlag::Z => 2,
        PositionFlag::YRot => 3,
        PositionFlag::XRot => 4,
        PositionFlag::DeltaX => 5,
        PositionFlag::DeltaY => 6,
        PositionFlag::DeltaZ => 7,
        PositionFlag::RotateDelta => 8,
    }
}

/// Bit `k` of `x` is set.
pub open spec fn bit_set(x: u32, k: u32) -> bool {
    (x >> k) & 1u32 == 1u32
}

proof fn lemma_or_shift_bit(a: u32, j: u32, k: u32)
    by (bit_vector)
    requires
        j < 9,
        k < 9,
        a < 512,
    ensures
        (((a | (1u32 << j)) >> k) & 1u32 == 1u32) == (k == j || ((a >> k) & 1u32 == 1u32)),
        (a | (1u32 << j)) < 512,
{
}

proof fn lemma_zero_has_no_bits(k: u32)
    by (bit_vector)
    ensures
        (0u32 >> k) & 1u32 != 1u32,
{
}

impl PositionFlag {
    /// The bit this flag occupies.
    fn bit(&self) -> (r: u32)
        ensures
            r == flag_bit(*self),
    {
        match self {
            PositionFlag::X => 0,
            PositionFlag::Y => 1,
            PositionFlag::Z => 2,
            PositionFlag::YRot => 3,
            PositionFlag::XRot => 4,
            PositionFlag::DeltaX => 5,
            PositionFlag::DeltaY => 6,
            PositionFlag::DeltaZ => 7,
            PositionFlag::RotateDelta => 8,
        }
    }

    /// The mask of this flag: one bit at the flag's position.
    fn get_mask(&self) -> (r: u32)
        ensures
            r == 1u32 << flag_bit(*self),
    {
        1u32 << self.bit()
    }

    /// The bit field of a set of flags: bit `k` is set exactly when some
    /// flag in `flags` occupies bit `k`, and no bit above the ninth is set.
    pub fn get_bitfield(flags: &[Self]) -> (r: i32)
        ensures
            0 <= r < 512,
            forall|k: u32|
                k < 9 ==> (#[trigger] bit_set(r as u32, k) <==> exists|i: int|
                    0 <= i < flags@.len() && flag_bit(#[trigger] flags@[i]) == k),
    {
        let mut acc: u32 = 0;
        let mut i: usize = 0;
        proof {
            assert forall|k: u32| k < 9 implies !bit_set(acc, k) by {
                lemma_zero_has_no_bits(k);
            }
        }
        while i < flags.len()
            invariant
                i <= flags@.len(),
                acc < 512,
                forall|k: u32|
                    k < 9 ==> (#[trigger] bit_set(acc, k) <==> exists|j: int|
                        0 <= j < i && flag_bit(#[trigger] flags@[j]) == k),
            decreases flags@.len() - i,
        {
            let m = flags[i].get_mask();
            let ghost old_acc = acc;
            let ghost b = flag_bit(flags@[i as int]);
            proof {
                lemma_or_shift_bit(old_acc, b, 0);
            }
            acc = acc | m;
            proof {
                assert forall|k: u32| k < 9 implies (bit_set(acc, k) <==> exists|j: int|
                    0 <= j < i + 1 && flag_bit(#[trigger] flags@[j]) == k) by {
                    lemma_or_shift_bit(old_acc, b, k);
                    if k == b {
                        assert(flag_bit(flags@[i as int]) == k);
                    }
                    if bit_set(old_acc, k) {
                        let j = choose|j: int| 0 <= j < i && flag_bit(#[trigger] flags@[j]) == k;
                        assert(0 <= j < i + 1 && flag_bit(flags@[j]) == k);
                    }
                    if exists|j: int| 0 <= j < i + 1 && flag_bit(#[trigger] flags@[j]) == k {
                        let j = choose|j: int| 0 <= j < i + 1 && flag_bit(#[trigger] flags@[j]) == k;
                        if j < i {
                            assert(bit_set(old_acc, k));
                        }
                    }
                }
            }
            i += 1;
        }
        acc as i32
    }
}

/// A chat text component, held as its plain text.
#[derive(Clone, Debug, PartialEq, Eq)]
pub struct TextComponent(pub String);

/// The kinds of server link the client shows with its own label.
#[derive(Clone, Copy)]
pub enum LinkType {
    BugReport,
    CommunityGuidelines,
    Support,
    Status,
    Feedback,
    Community,
    Website,
    Forums,
    News,
    Announcements,
}

/// The number a built-in link kind is sent as.
pub open spec fn link_type_id(t: LinkType) -> i32 {
    match t {
        LinkType::BugReport => 0,
        LinkType::CommunityGuidelines => 1,
        LinkType::Support => 2,
        LinkType::Status => 3,
        LinkType::Feedback => 4,
        LinkType::Community => 5,
        LinkType::Website => 6,
        LinkType::Forums => 7,
        LinkType::News => 8,
        LinkType::Announcements => 9,
    }
}

impl LinkType {
    /// The number this kind is sent as.
    pub fn id(&self) -> (r: i32)
        ensures
            r == link_type_id(*self),
    {
        match self {
            LinkType::BugReport => 0,
            LinkType::CommunityGuidelines => 1,
            LinkType::Support => 2,
            LinkType::Status => 3,
            LinkType::Feedback => 4,
            LinkType::Community => 5,
            LinkType::Website => 6,
            LinkType::Forums => 7,
            LinkType::News => 8,
            LinkType::Announcements => 9,
        }
    }

    /// Appends the wire form of this kind: its number as a VarInt.
    pub fn write_to(&self, out: &mut Vec<u8>)
        ensures
            final(out)@ == old(out)@ + varint_bytes(link_type_id(*self)),
    {
        VarInt(self.id()).encode(out);
    }
}

/// The label of a server link: a built-in kind or a custom text.
pub enum Label {
    BuiltIn(LinkType),
    TextComponent(Box<TextComponent>),
}

/// A server link shown in the client's pause menu.
pub struct Link<'a> {
    pub is_built_in: bool,
    pub label: Label,
    pub url: &'a String,
}

impl<'a> Link<'a> {
    /// A link with the given label and address; it is built in exactly
    /// when its label is a built-in kind.
    pub fn new(label: Label, url: &'a String) -> (r: Self)
        ensures
            r.is_built_in == (label is BuiltIn),
            r.label == label,
            r.url == url,
    {
        Link {
            is_built_in: match label {
                Label::BuiltIn(_) => true,
                Label::TextComponent(_) => false,
            },
            label,
            url,
        }
    }
}

/// Errors of packet encoding.
#[derive(Debug)]
pub enum PacketEncodeError {
    /// The packet is longer than allowed, with its length.
    TooLong(usize),
    CompressionFailed(String),
    Message(String),
}

/// Errors of packet decoding.
#[derive(Debug)]
pub enum PacketDecodeError {
    DecodeID,
    TooLong,
    OutOfBounds,
    MalformedLength(String),
    FailedDecompression(String),
    NotCompressed,
    ConnectionClosed,
}

/// Errors met while writing values.
#[derive(Debug)]
pub enum WritingError {
    Message(String),
}

/// A packet the server sends to a Java client.
pub trait ClientPacket {
    /// Appends the packet's body to `out`.
    fn write_packet_data(&self, out: &mut Vec<u8>) -> Result<(), WritingError>;
}

/// A packet the server receives from a Java client.
pub trait ServerPacket: Sized {
    /// Reads the packet's body at `pos`, giving it with the position just past it.
    fn read(buf: &[u8], pos: usize) -> Result<(Self, usize), ReadingError>
        requires
            pos <= buf@.len(),
    ;
}

/// A packet the server sends to a Bedrock client.
pub trait BClientPacket {
    /// Appends the packet to `out`.
    fn write_packet(&self, out: &mut Vec<u8>) -> Result<(), WritingError>;
}

/// A packet the server receives from a Bedrock client.
pub trait BServerPacket: Sized {
    /// Reads the packet at `pos`.
    fn read(buf: &[u8], pos: usize) -> Result<(Self, usize), ReadingError>
        requires
            pos <= buf@.len(),
    ;
}

/// The server's answer to a status request.
#[derive(Clone)]
pub struct StatusResponse {
    /// The version the server runs, if told.
    pub version: Option<Version>,
    /// The online players, if told.
    pub players: Option<Players>,
    /// The message of the day.
    pub description: String,
    /// The icon, if any.
    pub favicon: Option<String>,
    /// Whether players must use secure chat.
    pub enforce_secure_chat: bool,
}

/// A server version: its name and protocol number.
#[derive(Clone)]
pub struct Version {
    pub name: String,
    pub protocol: u32,
}

/// Player counts and a sample of online players.
#[derive(Clone)]
pub struct Players {
    pub max: u32,
    pub online: u32,
    pub sample: Vec<Sample>,
}

/// One listed player: name and UUID text.
#[derive(Clone)]
pub struct Sample {
    pub name: String,
    pub id: String,
}

/// A game-profile property: name, base64 value and optional base64 signature.
#[derive(Clone, Debug)]
pub struct Property {
    pub name: String,
    pub value: String,
    pub signature: Option<String>,
}

/// A data pack both sides know.
pub struct KnownPack<'a> {
    pub namespace: &'a str,
    pub id: &'a str,
    pub version: &'a str,
}

} // verus!
