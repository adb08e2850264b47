use pumpkin::edit_book::SEditBook;
use pumpkin::packets::{CSetPassengers, SPaddleBoat};
use pumpkin::protocol::{
    ClientPacket, ConnectionState, IdOr, NetworkValue, PositionFlag, ServerPacket, SoundEvent,
};
use pumpkin::varint::{ReadingError, VarInt};
use pumpkin::wire::{read_string_bounded, write_string};

#[test]
fn serde_id_or_id() {
    let mut buf = Vec::new();
    let id = IdOr::<SoundEvent>::Id(0);
    id.write_to(&mut buf);
    let (deser_id, _) = IdOr::<SoundEvent>::read_from(&buf, 0).unwrap();
    assert!(id == deser_id);
}

#[test]
fn serde_id_or_value() {
    let mut buf = Vec::new();
    let event = SoundEvent {
        sound_name: "test".to_string(),
        range_bits: Some(1.0f32.to_bits()),
    };
    let id = IdOr::<SoundEvent>::Value(event);
    id.write_to(&mut buf);
    let (deser_id, _) = IdOr::<SoundEvent>::read_from(&buf, 0).unwrap();
    assert!(id == deser_id);
}

#[test]
fn id_or_id_is_sent_plus_one() {
    let mut buf = Vec::new();
    IdOr::<SoundEvent>::Id(5).write_to(&mut buf);
    assert_eq!(buf, vec![6u8]);
}

#[test]
fn id_or_value_bytes() {
    let mut buf = Vec::new();
    let event = SoundEvent { sound_name: "ab".to_string(), range_bits: None };
    IdOr::Value(event).write_to(&mut buf);
    assert_eq!(buf, vec![0u8, 2, b'a', b'b', 0]);
}

#[test]
fn varint_roundtrip_and_bytes() {
    for v in [0, 1, 127, 128, 255, 25565, 2097151, i32::MAX, -1, i32::MIN] {
        let mut buf = Vec::new();
        VarInt(v).encode(&mut buf);
        let (back, end) = VarInt::decode(&buf, 0).unwrap();
        assert_eq!(back, VarInt(v));
        assert_eq!(end, buf.len());
    }
    let mut buf = Vec::new();
    VarInt(300).encode(&mut buf);
    assert_eq!(buf, vec![0xac, 0x02]);
    let mut buf = Vec::new();
    VarInt(-1).encode(&mut buf);
    assert_eq!(buf, vec![0xff, 0xff, 0xff, 0xff, 0x0f]);
}

#[test]
fn varint_errors() {
    assert!(matches!(VarInt::decode(&[0x80, 0x80], 0), Err(ReadingError::Incomplete)));
    assert!(matches!(
        VarInt::decode(&[0x80, 0x80, 0x80, 0x80, 0x80, 0x01], 0),
        Err(ReadingError::TooLarge)
    ));
}

#[test]
fn string_roundtrip() {
    let mut buf = Vec::new();
    write_string("héllo", &mut buf);
    let (s, end) = read_string_bounded(&buf, 0, 32767).unwrap();
    assert_eq!(s, "héllo");
    assert_eq!(end, buf.len());
}

#[test]
fn connection_state_from_varint() {
    assert!(matches!(ConnectionState::try_from(VarInt(1)), Ok(ConnectionState::Status)));
    assert!(matches!(ConnectionState::try_from(VarInt(2)), Ok(ConnectionState::Login)));
    assert!(ConnectionState::try_from(VarInt(7)).is_err());
}

#[test]
fn position_flags_bitfield() {
    assert_eq!(PositionFlag::get_bitfield(&[]), 0);
    assert_eq!(PositionFlag::get_bitfield(&[PositionFlag::X, PositionFlag::Z]), 0b101);
    assert_eq!(PositionFlag::get_bitfield(&[PositionFlag::DeltaX, PositionFlag::YRot]), (1 << 5) | (1 << 3));
}

#[test]
fn set_passengers_packet() {
    let ids = [VarInt(3), VarInt(300)];
    let packet = CSetPassengers::new(VarInt(7), &ids);
    let mut out = Vec::new();
    packet.write_packet_data(&mut out).unwrap();
    assert_eq!(out, vec![7u8, 2, 3, 0xac, 0x02]);
}

#[test]
fn paddle_boat_packet() {
    let (p, end) = SPaddleBoat::read(&[1, 0], 0).unwrap();
    assert!(p.left_paddle);
    assert!(!p.right_paddle);
    assert_eq!(end, 2);
    assert!(SPaddleBoat::read(&[1], 0).is_err());
}

#[test]
fn edit_book_packet() {
    let mut buf = Vec::new();
    VarInt(4).encode(&mut buf);
    VarInt(1).encode(&mut buf);
    write_string("page", &mut buf);
    buf.push(1);
    write_string("t", &mut buf);
    let (book, end) = SEditBook::read(&buf, 0).unwrap();
    assert_eq!(book.slot, VarInt(4));
    assert_eq!(book.pages, vec!["page".to_string()]);
    assert_eq!(book.title, Some("t".to_string()));
    assert_eq!(end, buf.len());
}

#[test]
fn edit_book_too_many_pages() {
    let mut buf = Vec::new();
    VarInt(0).encode(&mut buf);
    VarInt(101).encode(&mut buf);
    match SEditBook::read(&buf, 0) {
        Err(ReadingError::Message(m)) => assert_eq!(m, "Too many book pages"),
        _ => panic!("expected an error"),
    }
}
