//! Small play-state packets: the passengers of a vehicle (sent) and the
//! paddle state of a boat (received).

use vstd::prelude::*;

use crate::protocol::{ClientPacket, ServerPacket, WritingError};
use crate::varint::{varint_bytes, ReadingError, VarInt};
use crate::wire::{parse_bool, read_bool, read_matches, Parsed};

verus! {

/// Tells clients which entities ride a vehicle.
pub struct CSetPassengers<'a> {
    pub entity_id: VarInt,
    pub passengers: &'a [VarInt],
}

/// The wire forms of `ids`, one after another.
pub open spec fn varints_wire(ids: Seq<VarInt>) -> Seq<u8>
    decreases ids.len(),
{
    if ids.len() == 0 {
        Seq::empty()
    } else {
        varints_wire(ids.drop_last()) + varint_bytes(ids.last().0)
    }
}

/// Body of the passengers packet: the vehicle, the passenger count, then
/// each passenger, all as VarInts.
pub open spec fn set_passengers_wire(entity_id: i32, passengers: Seq<VarInt>) -> Seq<u8> {
    varint_bytes(entity_id) + varint_bytes(passengers.len() as i32) + varints_wire(passengers)
}

impl<'a> CSetPassengers<'a> {
    /// The packet for the vehicle `entity_id` and its `passengers`.
    pub fn new(entity_id: VarInt, passengers: &'a [VarInt]) -> (r: Self)
        ensures
            r.entity_id == entity_id,
            r.passengers@ == passengers@,
    {
        CSetPassengers { entity_id, passengers }
    }
}

impl<'a> ClientPacket for CSetPassengers<'a> {
    /// Writes the vehicle, the passenger count and the passengers; fails
    /// only when there are more passengers than a VarInt count can tell.
    fn write_packet_data(&self, out: &mut Vec<u8>) -> (r: Result<(), WritingError>)
        ensures
            r is Ok <==> self.passengers@.len() <= i32::MAX,
            r is Ok ==> final(out)@ == old(out)@ + set_passengers_wire(
                self.entity_id.0,
                self.passengers@,
            ),
            r is Err ==> final(out)@ == old(out)@,
    {
        if self.passengers.len() > 2147483647 {
            return Err(WritingError::Message(std::borrow::ToOwned::to_owned("too many passengers")));
        }
        self.entity_id.encode(out);
        VarInt(self.passengers.len() as i32).encode(out);
        let ghost head = out@;
        let mut i: usize = 0;
        while i < self.passengers.len()
            invariant
                i <= self.passengers@.len(),
                out@ == head + varints_wire(self.passengers@.subrange(0, i as int)),
            decreases self.passengers@.len() - i,
        {
            self.passengers[i].encode(out);
            i += 1;
            assert(self.passengers@.subrange(0, i as int).drop_last() =~= self.passengers@.subrange(
                0,
                (i - 1) as int,
            ));
        }
        assert(self.passengers@.subrange(0, self.passengers@.len() as int) =~= self.passengers@);
        assert(out@ =~= old(out)@ + set_passengers_wire(self.entity_id.0, self.passengers@));
        Ok(())
    }
}

/// The client's paddle state for the boat it steers.
pub struct SPaddleBoat {
    pub left_paddle: bool,
    pub right_paddle: bool,
}

/// Reading the paddle state: two booleans, left then right.
pub open spec fn parse_paddle_boat(s: Seq<u8>) -> Parsed<(bool, bool)> {
    match parse_bool(s) {
        Parsed::Value(l, n) => match parse_bool(s.skip(n as int)) {
            Parsed::Value(r, m) => Parsed::Value((l, r), n + m),
            Parsed::Incomplete => Parsed::Incomplete,
            Parsed::TooLarge => Parsed::TooLarge,
            Parsed::Malformed => Parsed::Malformed,
        },
        Parsed::Incomplete => Parsed::Incomplete,
        Parsed::TooLarge => Parsed::TooLarge,
        Parsed::Malformed => Parsed::Malformed,
    }
}

impl ServerPacket for SPaddleBoat {
    /// Reads the left then the right paddle flag.
    fn read(buf: &[u8], pos: usize) -> (r: Result<(SPaddleBoat, usize), ReadingError>)
        ensures
            read_matches(
                r,
                parse_paddle_boat(buf@.skip(pos as int)),
                pos as int,
                |p: SPaddleBoat| (p.left_paddle, p.right_paddle),
            ),
    {
        let (left_paddle, p) = match read_bool(buf, pos) {
            Ok(v) => v,
            Err(e) => {
                return Err(e);
            },
        };
        assert(buf@.skip(p as int) =~= buf@.skip(pos as int).skip(1));
        let (right_paddle, q) = match read_bool(buf, p) {
            Ok(v) => v,
            Err(e) => {
                return Err(e);
            },
        };
        Ok((SPaddleBoat { left_paddle, right_paddle }, q))
    }
}

} // verus!
