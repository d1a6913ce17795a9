use air_hockey::packet::{Packet, PacketError};
use air_hockey::rink::{PaddleState, PuckState};
use serde::ser::{SerializeStruct, SerializeStructVariant};

struct WirePaddle(f32, f32);

struct WirePuck(f32, f32, f32, f32);

enum WirePacket {
    Hello,
    Input(WirePaddle),
    State {
        paddle: WirePaddle,
        opponent: WirePaddle,
        puck: WirePuck,
        score_left: i32,
        score_right: i32,
        game_over: bool,
    },
}

impl serde::Serialize for WirePaddle {
    fn serialize<S: serde::Serializer>(&self, s: S) -> Result<S::Ok, S::Error> {
        let mut t = s.serialize_struct("PaddleState", 2)?;
        t.serialize_field("x", &self.0)?;
        t.serialize_field("y", &self.1)?;
        t.end()
    }
}

impl serde::Serialize for WirePuck {
    fn serialize<S: serde::Serializer>(&self, s: S) -> Result<S::Ok, S::Error> {
        let mut t = s.serialize_struct("PuckState", 4)?;
        t.serialize_field("x", &self.0)?;
        t.serialize_field("y", &self.1)?;
        t.serialize_field("vx", &self.2)?;
        t.serialize_field("vy", &self.3)?;
        t.end()
    }
}

impl serde::Serialize for WirePacket {
    fn serialize<S: serde::Serializer>(&self, s: S) -> Result<S::Ok, S::Error> {
        match self {
            WirePacket::Hello => s.serialize_unit_variant("Packet", 0, "Hello"),
            WirePacket::Input(p) => s.serialize_newtype_variant("Packet", 1, "Input", p),
            WirePacket::State { paddle, opponent, puck, score_left, score_right, game_over } => {
                let mut t = s.serialize_struct_variant("Packet", 2, "State", 6)?;
                t.serialize_field("paddle", paddle)?;
                t.serialize_field("opponent", opponent)?;
                t.serialize_field("puck", puck)?;
                t.serialize_field("score_left", score_left)?;
                t.serialize_field("score_right", score_right)?;
                t.serialize_field("game_over", game_over)?;
                t.end()
            }
        }
    }
}

fn paddle(x: f32, y: f32) -> PaddleState {
    PaddleState { x: x.to_bits(), y: y.to_bits() }
}

fn state(score_left: i32, score_right: i32, game_over: bool) -> Packet {
    Packet::State {
        paddle: paddle(120.00001, 240.0),
        opponent: paddle(680.0, -0.0),
        puck: PuckState {
            x: 400.5f32.to_bits(),
            y: 13.25f32.to_bits(),
            vx: (-160.0f32).to_bits(),
            vy: 1.0e-40f32.to_bits(),
        },
        score_left,
        score_right,
        game_over,
    }
}

fn wire_state(score_left: i32, score_right: i32, game_over: bool) -> WirePacket {
    WirePacket::State {
        paddle: WirePaddle(120.00001, 240.0),
        opponent: WirePaddle(680.0, -0.0),
        puck: WirePuck(400.5, 13.25, -160.0, 1.0e-40),
        score_left,
        score_right,
        game_over,
    }
}

#[test]
fn hello_is_four_zero_bytes() {
    assert_eq!(Packet::Hello.encode(), vec![0, 0, 0, 0]);
    assert_eq!(Packet::decode(&[0, 0, 0, 0]), Ok(Packet::Hello));
}

#[test]
fn input_is_twelve_bytes() {
    let bytes = Packet::Input(paddle(1.0, -2.0)).encode();
    assert_eq!(bytes, vec![1, 0, 0, 0, 0, 0, 0x80, 0x3f, 0, 0, 0, 0xc0]);
    assert_eq!(Packet::decode(&bytes), Ok(Packet::Input(paddle(1.0, -2.0))));
}

#[test]
fn bytes_are_those_of_the_serialized_enum() {
    assert_eq!(Packet::Hello.encode(), bincode::serialize(&WirePacket::Hello).unwrap());
    assert_eq!(
        Packet::Input(paddle(3.5, 462.0)).encode(),
        bincode::serialize(&WirePacket::Input(WirePaddle(3.5, 462.0))).unwrap()
    );
    for (l, r, over) in [(0, 0, false), (13, 7, true), (-1, i32::MIN, false), (i32::MAX, 256, true)] {
        let bytes = bincode::serialize(&wire_state(l, r, over)).unwrap();
        assert_eq!(bytes.len(), 45);
        assert_eq!(state(l, r, over).encode(), bytes);
        assert_eq!(Packet::decode(&bytes), Ok(state(l, r, over)));
    }
}

#[test]
fn packets_read_back_with_anything_after_them() {
    let packets = [
        Packet::Hello,
        Packet::Input(PaddleState { x: 0x7fc0_0001, y: 0xdead_beef }),
        state(-5, 1 << 30, true),
    ];
    for p in packets {
        let mut bytes = p.encode();
        assert_eq!(Packet::decode(&bytes), Ok(p));
        bytes.extend([7, 255, 0]);
        assert_eq!(Packet::decode(&bytes), Ok(p));
    }
}

#[test]
fn short_bytes_are_truncated() {
    for p in [Packet::Hello, Packet::Input(paddle(1.0, 2.0)), state(1, 2, false)] {
        let bytes = p.encode();
        for n in 0..bytes.len() {
            assert_eq!(Packet::decode(&bytes[..n]), Err(PacketError::Truncated));
        }
    }
}

#[test]
fn other_kinds_are_unknown() {
    assert_eq!(Packet::decode(&[3, 0, 0, 0]), Err(PacketError::UnknownKind(3)));
    assert_eq!(Packet::decode(b"DEBUG_HELLO"), Err(PacketError::UnknownKind(0x5542_4544)));
    assert_eq!(Packet::decode(b"FORCE_DEBUG_HELLO"), Err(PacketError::UnknownKind(0x4352_4f46)));
    assert_eq!(Packet::decode(&[0, 0, 0, 1]), Err(PacketError::UnknownKind(0x0100_0000)));
}

#[test]
fn truth_values_are_zero_or_one() {
    let mut bytes = state(1, 2, true).encode();
    bytes[44] = 2;
    assert_eq!(Packet::decode(&bytes), Err(PacketError::InvalidBool(2)));
    bytes[44] = 0;
    assert_eq!(Packet::decode(&bytes), Ok(state(1, 2, false)));
}
