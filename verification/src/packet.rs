//! The packets that the two players exchange, and their bytes on the wire.
//!
//! A packet is a little-endian 32-bit number that tells its kind, followed by
//! its fields in order: four bytes for each coordinate, speed and score, one
//! byte for a truth value. What follows the last field is ignored.

use crate::rink::{PaddleState, PuckState};
use vstd::prelude::*;

verus! {

/// The first number of each kind of packet.
pub const HELLO_TAG: u32 = 0;
pub const INPUT_TAG: u32 = 1;
pub const STATE_TAG: u32 = 2;

/// The bytes of an input packet, and of a state packet.
pub const INPUT_LENGTH: usize = 12;
pub const STATE_LENGTH: usize = 45;

/// What the players send each other.
#[derive(Clone, Copy, Debug, PartialEq, Eq, Structural)]
pub enum Packet {
    /// The handshake.
    Hello,
    /// Where the sender's paddle is.
    Input(PaddleState),
    /// The match as the sender sees it.
    State {
        paddle: PaddleState,
        opponent: PaddleState,
        puck: PuckState,
        score_left: i32,
        score_right: i32,
        game_over: bool,
    },
}

/// Why bytes are not a packet.
#[derive(Clone, Copy, Debug, PartialEq, Eq, Structural)]
pub enum PacketError {
    /// They end before the packet does.
    Truncated,
    /// Their first number is that of no packet.
    UnknownKind(u32),
    /// The byte of a truth value is neither 0 nor 1.
    InvalidBool(u8),
}

/// The little-endian bytes of a number.
pub open spec fn word(v: u32) -> Seq<u8> {
    seq![
        (v % 0x100) as u8,
        (v / 0x100 % 0x100) as u8,
        (v / 0x1_0000 % 0x100) as u8,
        (v / 0x100_0000) as u8,
    ]
}

/// The number whose little-endian bytes stand at `i`.
pub open spec fn word_at(s: Seq<u8>, i: int) -> u32 {
    (s[i] + 0x100 * s[i + 1] + 0x1_0000 * s[i + 2] + 0x100_0000 * s[i + 3]) as u32
}

/// The two's complement of a signed number.
pub open spec fn twos_complement(v: i32) -> u32 {
    if v < 0 {
        (v + 0x1_0000_0000) as u32
    } else {
        v as u32
    }
}

/// The bytes of a signed number: those of its two's complement.
pub open spec fn signed_word(v: i32) -> Seq<u8> {
    word(twos_complement(v))
}

/// The signed number whose bytes stand at `i`.
pub open spec fn signed_word_at(s: Seq<u8>, i: int) -> i32 {
    let v = word_at(s, i);
    if v >= 0x8000_0000 {
        (v - 0x1_0000_0000) as i32
    } else {
        v as i32
    }
}

/// The byte of a truth value.
pub open spec fn flag(v: bool) -> Seq<u8> {
    seq![
        if v {
            1u8
        } else {
            0u8
        },
    ]
}

impl Packet {
    /// The packet's bytes on the wire.
    pub open spec fn wire(self) -> Seq<u8> {
        match self {
            Packet::Hello => word(HELLO_TAG),
            Packet::Input(p) => word(INPUT_TAG) + word(p.x) + word(p.y),
            Packet::State { paddle, opponent, puck, score_left, score_right, game_over } => word(
                STATE_TAG,
            ) + word(paddle.x) + word(paddle.y) + word(opponent.x) + word(opponent.y) + word(puck.x)
                + word(puck.y) + word(puck.vx) + word(puck.vy) + signed_word(score_left)
                + signed_word(score_right) + flag(game_over),
        }
    }
}

/// The packet that starts with the first byte of `s`.
pub open spec fn parsed(s: Seq<u8>) -> Result<Packet, PacketError> {
    if s.len() < 4 {
        Err(PacketError::Truncated)
    } else if word_at(s, 0) == HELLO_TAG {
        Ok(Packet::Hello)
    } else if word_at(s, 0) == INPUT_TAG {
        if s.len() < INPUT_LENGTH {
            Err(PacketError::Truncated)
        } else {
            Ok(Packet::Input(PaddleState { x: word_at(s, 4), y: word_at(s, 8) }))
        }
    } else if word_at(s, 0) == STATE_TAG {
        if s.len() < STATE_LENGTH {
            Err(PacketError::Truncated)
        } else if s[44] > 1 {
            Err(PacketError::InvalidBool(s[44]))
        } else {
            Ok(
                Packet::State {
                    paddle: PaddleState { x: word_at(s, 4), y: word_at(s, 8) },
                    opponent: PaddleState { x: word_at(s, 12), y: word_at(s, 16) },
                    puck: PuckState {
                        x: word_at(s, 20),
                        y: word_at(s, 24),
                        vx: word_at(s, 28),
                        vy: word_at(s, 32),
                    },
                    score_left: signed_word_at(s, 36),
                    score_right: signed_word_at(s, 40),
                    game_over: s[44] == 1,
                },
            )
        }
    } else {
        Err(PacketError::UnknownKind(word_at(s, 0)))
    }
}

/// The errors of `bincode`, which hold nothing that is read here.
#[verifier::external_type_specification]
#[verifier::external_body]
pub struct ExErrorKind(bincode::ErrorKind);

/// `bincode::serialize` on one number. With the configuration of that function
/// a number is four bytes in little-endian order; there is no limit on the size
/// and the bytes go to a vector, so it does not fail.
#[verifier::external_body]
fn serialize_tag(tag: u32) -> (r: Result<Vec<u8>, Box<bincode::ErrorKind>>)
    ensures
        r is Ok,
        r->Ok_0@ == word(tag),
{
    bincode::serialize(&tag)
}

/// `bincode::serialize` on three numbers. A tuple is its items one after the
/// other, with nothing between them.
#[verifier::external_body]
fn serialize_input(tag: u32, paddle: (u32, u32)) -> (r: Result<Vec<u8>, Box<bincode::ErrorKind>>)
    ensures
        r is Ok,
        r->Ok_0@ == word(tag) + word(paddle.0) + word(paddle.1),
{
    bincode::serialize(&(tag, paddle))
}

/// `bincode::serialize` on the fields of a state packet. Nested tuples too are
/// their items one after the other; a signed number is the four bytes of its
/// two's complement, and a truth value is one byte, 0 or 1.
#[verifier::external_body]
fn serialize_state(
    tag: u32,
    paddle: (u32, u32),
    opponent: (u32, u32),
    puck: (u32, u32, u32, u32),
    scores: (i32, i32),
    game_over: bool,
) -> (r: Result<Vec<u8>, Box<bincode::ErrorKind>>)
    ensures
        r is Ok,
        r->Ok_0@ == word(tag) + word(paddle.0) + word(paddle.1) + word(opponent.0) + word(
            opponent.1,
        ) + word(puck.0) + word(puck.1) + word(puck.2) + word(puck.3) + signed_word(scores.0)
            + signed_word(scores.1) + flag(game_over),
{
    bincode::serialize(&(tag, paddle, opponent, puck, scores, game_over))
}

/// `bincode::deserialize` of one number: it fails where there are fewer than
/// four bytes, and takes no notice of what follows them.
#[verifier::external_body]
fn deserialize_tag(data: &[u8]) -> (r: Result<u32, Box<bincode::ErrorKind>>)
    ensures
        r is Ok == (data@.len() >= 4),
        r is Ok ==> r->Ok_0 == word_at(data@, 0),
{
    bincode::deserialize(data)
}

/// `bincode::deserialize` of three numbers: it fails where there are too few
/// bytes for them, and takes no notice of what follows.
#[verifier::external_body]
fn deserialize_input(data: &[u8]) -> (r: Result<(u32, (u32, u32)), Box<bincode::ErrorKind>>)
    ensures
        r is Ok == (data@.len() >= 12),
        r is Ok ==> r->Ok_0 == (word_at(data@, 0), (word_at(data@, 4), word_at(data@, 8))),
{
    bincode::deserialize(data)
}

/// `bincode::deserialize` of the fields of a state packet: it fails where there
/// are too few bytes for them, or where the byte of the truth value is neither
/// 0 nor 1, and takes no notice of what follows.
#[verifier::external_body]
fn deserialize_state(data: &[u8]) -> (r: Result<
    (u32, (u32, u32), (u32, u32), (u32, u32, u32, u32), (i32, i32), bool),
    Box<bincode::ErrorKind>,
>)
    ensures
        r is Ok == (data@.len() >= 45 && data@[44] <= 1),
        r is Ok ==> r->Ok_0 == (
            word_at(data@, 0),
            (word_at(data@, 4), word_at(data@, 8)),
            (word_at(data@, 12), word_at(data@, 16)),
            (word_at(data@, 20), word_at(data@, 24), word_at(data@, 28), word_at(data@, 32)),
            (signed_word_at(data@, 36), signed_word_at(data@, 40)),
            data@[44] == 1,
        ),
{
    bincode::deserialize(data)
}

impl Packet {
    /// The packet's bytes.
    pub fn encode(&self) -> (r: Vec<u8>)
        ensures
            r@ == self.wire(),
    {
        match *self {
            Packet::Hello => serialize_tag(HELLO_TAG).unwrap(),
            Packet::Input(p) => serialize_input(INPUT_TAG, (p.x, p.y)).unwrap(),
            Packet::State { paddle, opponent, puck, score_left, score_right, game_over } => {
                serialize_state(
                    STATE_TAG,
                    (paddle.x, paddle.y),
                    (opponent.x, opponent.y),
                    (puck.x, puck.y, puck.vx, puck.vy),
                    (score_left, score_right),
                    game_over,
                ).unwrap()
            },
        }
    }

    /// The packet that `data` starts with.
    pub fn decode(data: &[u8]) -> (r: Result<Packet, PacketError>)
        ensures
            r == parsed(data@),
    {
        let tag: u32 = match deserialize_tag(data) {
            Ok(tag) => tag,
            Err(_) => return Err(PacketError::Truncated),
        };
        if tag == HELLO_TAG {
            Ok(Packet::Hello)
        } else if tag == INPUT_TAG {
            match deserialize_input(data) {
                Ok((_, (x, y))) => Ok(Packet::Input(PaddleState { x, y })),
                Err(_) => Err(PacketError::Truncated),
            }
        } else if tag == STATE_TAG {
            match deserialize_state(data) {
                Ok((_, paddle, opponent, puck, scores, game_over)) => Ok(
                    Packet::State {
                        paddle: PaddleState { x: paddle.0, y: paddle.1 },
                        opponent: PaddleState { x: opponent.0, y: opponent.1 },
                        puck: PuckState { x: puck.0, y: puck.1, vx: puck.2, vy: puck.3 },
                        score_left: scores.0,
                        score_right: scores.1,
                        game_over,
                    },
                ),
                Err(_) => {
                    if data.len() < STATE_LENGTH {
                        Err(PacketError::Truncated)
                    } else {
                        Err(PacketError::InvalidBool(data[44]))
                    }
                },
            }
        } else {
            Err(PacketError::UnknownKind(tag))
        }
    }
}

proof fn lemma_word_reads_back(s: Seq<u8>, i: int, v: u32)
    requires
        0 <= i,
        i + 4 <= s.len(),
        s.subrange(i, i + 4) == word(v),
    ensures
        word_at(s, i) == v,
{
    let t = s.subrange(i, i + 4);
    assert(t[0] == s[i] && t[1] == s[i + 1] && t[2] == s[i + 2] && t[3] == s[i + 3]);
}

proof fn lemma_word_writes_back(s: Seq<u8>, i: int)
    requires
        0 <= i,
        i + 4 <= s.len(),
    ensures
        word(word_at(s, i)) == s.subrange(i, i + 4),
{
    lemma_digits(s[i] as int, s[i + 1] as int, s[i + 2] as int, s[i + 3] as int);
    assert(word(word_at(s, i)) =~= s.subrange(i, i + 4));
}

proof fn lemma_digits(a: int, b: int, c: int, d: int)
    requires
        0 <= a < 0x100,
        0 <= b < 0x100,
        0 <= c < 0x100,
        0 <= d < 0x100,
    ensures
        ({
            let v = a + 0x100 * b + 0x1_0000 * c + 0x100_0000 * d;
            &&& 0 <= v < 0x1_0000_0000
            &&& v % 0x100 == a
            &&& v / 0x100 % 0x100 == b
            &&& v / 0x1_0000 % 0x100 == c
            &&& v / 0x100_0000 == d
        }),
{
    let v = a + 0x100 * b + 0x1_0000 * c + 0x100_0000 * d;
    assert(v / 0x100 == b + 0x100 * c + 0x1_0000 * d);
    assert(v / 0x1_0000 == c + 0x100 * d);
}

/// Reading the bytes of a packet, whatever comes after them, gives the packet
/// back.
pub proof fn packet_reads_back(p: Packet, rest: Seq<u8>)
    ensures
        parsed(p.wire() + rest) == Ok::<Packet, PacketError>(p),
        parsed(p.wire()) == Ok::<Packet, PacketError>(p),
{
    lemma_reads_back(p, rest);
    lemma_reads_back(p, Seq::empty());
    assert(p.wire() + Seq::<u8>::empty() =~= p.wire());
}

/// Where the fields of a state packet stand in its bytes.
proof fn lemma_state_layout(
    a: Seq<u8>,
    b: Seq<u8>,
    c: Seq<u8>,
    d: Seq<u8>,
    e: Seq<u8>,
    f: Seq<u8>,
    g: Seq<u8>,
    h: Seq<u8>,
    i: Seq<u8>,
    j: Seq<u8>,
    k: Seq<u8>,
    l: Seq<u8>,
    rest: Seq<u8>,
)
    requires
        a.len() == 4,
        b.len() == 4,
        c.len() == 4,
        d.len() == 4,
        e.len() == 4,
        f.len() == 4,
        g.len() == 4,
        h.len() == 4,
        i.len() == 4,
        j.len() == 4,
        k.len() == 4,
        l.len() == 1,
    ensures
        ({
            let s = a + b + c + d + e + f + g + h + i + j + k + l + rest;
            &&& s.len() == 45 + rest.len()
            &&& s.subrange(0, 4) == a
            &&& s.subrange(4, 8) == b
            &&& s.subrange(8, 12) == c
            &&& s.subrange(12, 16) == d
            &&& s.subrange(16, 20) == e
            &&& s.subrange(20, 24) == f
            &&& s.subrange(24, 28) == g
            &&& s.subrange(28, 32) == h
            &&& s.subrange(32, 36) == i
            &&& s.subrange(36, 40) == j
            &&& s.subrange(40, 44) == k
            &&& s.subrange(44, 45) == l
        }),
{
    let s = a + b + c + d + e + f + g + h + i + j + k + l + rest;
    assert(s.subrange(0, 4) =~= a);
    assert(s.subrange(4, 8) =~= b);
    assert(s.subrange(8, 12) =~= c);
    assert(s.subrange(12, 16) =~= d);
    assert(s.subrange(16, 20) =~= e);
    assert(s.subrange(20, 24) =~= f);
    assert(s.subrange(24, 28) =~= g);
    assert(s.subrange(28, 32) =~= h);
    assert(s.subrange(32, 36) =~= i);
    assert(s.subrange(36, 40) =~= j);
    assert(s.subrange(40, 44) =~= k);
    assert(s.subrange(44, 45) =~= l);
}

proof fn lemma_state_words(
    a: u32,
    b: u32,
    c: u32,
    d: u32,
    e: u32,
    f: u32,
    g: u32,
    h: u32,
    i: u32,
    j: u32,
    k: u32,
    l: bool,
    rest: Seq<u8>,
)
    ensures
        ({
            let s = word(a) + word(b) + word(c) + word(d) + word(e) + word(f) + word(g) + word(h)
                + word(i) + word(j) + word(k) + flag(l) + rest;
            &&& s.len() == 45 + rest.len()
            &&& word_at(s, 0) == a
            &&& word_at(s, 4) == b
            &&& word_at(s, 8) == c
            &&& word_at(s, 12) == d
            &&& word_at(s, 16) == e
            &&& word_at(s, 20) == f
            &&& word_at(s, 24) == g
            &&& word_at(s, 28) == h
            &&& word_at(s, 32) == i
            &&& word_at(s, 36) == j
            &&& word_at(s, 40) == k
            &&& s[44] == flag(l)[0]
        }),
{
    let s = word(a) + word(b) + word(c) + word(d) + word(e) + word(f) + word(g) + word(h) + word(i)
        + word(j) + word(k) + flag(l) + rest;
    lemma_state_layout(
        word(a),
        word(b),
        word(c),
        word(d),
        word(e),
        word(f),
        word(g),
        word(h),
        word(i),
        word(j),
        word(k),
        flag(l),
        rest,
    );
    lemma_word_reads_back(s, 0, a);
    lemma_word_reads_back(s, 4, b);
    lemma_word_reads_back(s, 8, c);
    lemma_word_reads_back(s, 12, d);
    lemma_word_reads_back(s, 16, e);
    lemma_word_reads_back(s, 20, f);
    lemma_word_reads_back(s, 24, g);
    lemma_word_reads_back(s, 28, h);
    lemma_word_reads_back(s, 32, i);
    lemma_word_reads_back(s, 36, j);
    lemma_word_reads_back(s, 40, k);
    assert(s[44] == s.subrange(44, 45)[0]);
}

proof fn lemma_reads_back(p: Packet, rest: Seq<u8>)
    ensures
        parsed(p.wire() + rest) == Ok::<Packet, PacketError>(p),
{
    let s = p.wire() + rest;
    match p {
        Packet::Hello => {
            assert(s.subrange(0, 4) =~= word(HELLO_TAG));
            lemma_word_reads_back(s, 0, HELLO_TAG);
        },
        Packet::Input(q) => {
            assert(s.subrange(0, 4) =~= word(INPUT_TAG));
            lemma_word_reads_back(s, 0, INPUT_TAG);
            assert(s.subrange(4, 8) =~= word(q.x));
            lemma_word_reads_back(s, 4, q.x);
            assert(s.subrange(8, 12) =~= word(q.y));
            lemma_word_reads_back(s, 8, q.y);
        },
        Packet::State { paddle, opponent, puck, score_left, score_right, game_over } => {
            let l = twos_complement(score_left);
            let r = twos_complement(score_right);
            lemma_state_words(
                STATE_TAG,
                paddle.x,
                paddle.y,
                opponent.x,
                opponent.y,
                puck.x,
                puck.y,
                puck.vx,
                puck.vy,
                l,
                r,
                game_over,
                rest,
            );
        },
    }
}

/// Two packets with the same bytes are the same packet.
pub proof fn packet_bytes_are_unambiguous(p: Packet, q: Packet)
    requires
        p.wire() == q.wire(),
    ensures
        p == q,
{
    packet_reads_back(p, Seq::empty());
    packet_reads_back(q, Seq::empty());
}

/// Bytes that are read as a packet start with the bytes that the packet is
/// written as.
pub proof fn packet_writes_back(s: Seq<u8>)
    requires
        parsed(s) is Ok,
    ensures
        parsed(s)->Ok_0.wire().len() <= s.len(),
        parsed(s)->Ok_0.wire() == s.take(parsed(s)->Ok_0.wire().len() as int),
{
    let p = parsed(s)->Ok_0;
    lemma_word_writes_back(s, 0);
    match p {
        Packet::Hello => {
            assert(p.wire() =~= s.take(4));
        },
        Packet::Input(_) => {
            lemma_word_writes_back(s, 4);
            lemma_word_writes_back(s, 8);
            assert(s.take(12) =~= s.subrange(0, 4) + s.subrange(4, 8) + s.subrange(8, 12));
        },
        Packet::State { score_left, score_right, game_over, .. } => {
            lemma_word_writes_back(s, 4);
            lemma_word_writes_back(s, 8);
            lemma_word_writes_back(s, 12);
            lemma_word_writes_back(s, 16);
            lemma_word_writes_back(s, 20);
            lemma_word_writes_back(s, 24);
            lemma_word_writes_back(s, 28);
            lemma_word_writes_back(s, 32);
            lemma_word_writes_back(s, 36);
            lemma_word_writes_back(s, 40);
            assert(signed_word(score_left) == word(word_at(s, 36)));
            assert(signed_word(score_right) == word(word_at(s, 40)));
            assert(flag(game_over) =~= s.subrange(44, 45));
            assert(s.take(45) =~= s.subrange(0, 4) + s.subrange(4, 8) + s.subrange(8, 12)
                + s.subrange(12, 16) + s.subrange(16, 20) + s.subrange(20, 24) + s.subrange(24, 28)
                + s.subrange(28, 32) + s.subrange(32, 36) + s.subrange(36, 40) + s.subrange(40, 44)
                + s.subrange(44, 45));
        },
    }
}

/// Where the fields of a packet stand in its bytes: each number's bytes from the
/// lowest to the highest, a negative number as the number below it by 2^32.
pub proof fn packets_have_their_layout(p: Packet)
    ensures
        p is Hello ==> p.wire() =~= seq![0u8, 0, 0, 0],
        p matches Packet::Input(q) ==> {
            let s = p.wire();
            &&& s.len() == 12
            &&& s[0] == 1 && s[1] == 0 && s[2] == 0 && s[3] == 0
            &&& s[4] + 0x100 * s[5] + 0x1_0000 * s[6] + 0x100_0000 * s[7] == q.x
            &&& s[8] + 0x100 * s[9] + 0x1_0000 * s[10] + 0x100_0000 * s[11] == q.y
        },
        p matches Packet::State { paddle, opponent, puck, score_left, score_right, game_over } ==> {
            let s = p.wire();
            &&& s.len() == 45
            &&& s[0] == 2 && s[1] == 0 && s[2] == 0 && s[3] == 0
            &&& s[4] + 0x100 * s[5] + 0x1_0000 * s[6] + 0x100_0000 * s[7] == paddle.x
            &&& s[8] + 0x100 * s[9] + 0x1_0000 * s[10] + 0x100_0000 * s[11] == paddle.y
            &&& s[12] + 0x100 * s[13] + 0x1_0000 * s[14] + 0x100_0000 * s[15] == opponent.x
            &&& s[16] + 0x100 * s[17] + 0x1_0000 * s[18] + 0x100_0000 * s[19] == opponent.y
            &&& s[20] + 0x100 * s[21] + 0x1_0000 * s[22] + 0x100_0000 * s[23] == puck.x
            &&& s[24] + 0x100 * s[25] + 0x1_0000 * s[26] + 0x100_0000 * s[27] == puck.y
            &&& s[28] + 0x100 * s[29] + 0x1_0000 * s[30] + 0x100_0000 * s[31] == puck.vx
            &&& s[32] + 0x100 * s[33] + 0x1_0000 * s[34] + 0x100_0000 * s[35] == puck.vy
            &&& s[36] + 0x100 * s[37] + 0x1_0000 * s[38] + 0x100_0000 * s[39] == (if score_left
                < 0 {
                score_left + 0x1_0000_0000
            } else {
                score_left as int
            })
            &&& s[40] + 0x100 * s[41] + 0x1_0000 * s[42] + 0x100_0000 * s[43] == (if score_right
                < 0 {
                score_right + 0x1_0000_0000
            } else {
                score_right as int
            })
            &&& game_over ==> s[44] == 1
            &&& !game_over ==> s[44] == 0
        },
{
    let s = p.wire();
    let none = Seq::<u8>::empty();
    match p {
        Packet::Hello => {},
        Packet::Input(q) => {
            assert(s[4] == word(q.x)[0] && s[5] == word(q.x)[1] && s[6] == word(q.x)[2] && s[7]
                == word(q.x)[3]);
            assert(s[8] == word(q.y)[0] && s[9] == word(q.y)[1] && s[10] == word(q.y)[2] && s[11]
                == word(q.y)[3]);
        },
        Packet::State { paddle, opponent, puck, score_left, score_right, game_over } => {
            assert(s + none =~= s);
            lemma_state_words(
                STATE_TAG,
                paddle.x,
                paddle.y,
                opponent.x,
                opponent.y,
                puck.x,
                puck.y,
                puck.vx,
                puck.vy,
                twos_complement(score_left),
                twos_complement(score_right),
                game_over,
                none,
            );
        },
    }
}

/// When bytes are a packet, and why they are none: the first four tell the kind,
/// 0, 1 or 2; the kinds need 4, 12 and 45 bytes; and the last byte of the third
/// is 0 or 1.
pub proof fn bytes_are_judged_by_kind_and_length(s: Seq<u8>)
    ensures
        s.len() < 4 ==> parsed(s) == Err::<Packet, PacketError>(PacketError::Truncated),
        s.len() >= 4 ==> {
            let kind = s[0] + 0x100 * s[1] + 0x1_0000 * s[2] + 0x100_0000 * s[3];
            &&& kind == 0 ==> parsed(s) == Ok::<Packet, PacketError>(Packet::Hello)
            &&& kind == 1 && s.len() >= 12 ==> parsed(s) is Ok && parsed(s)->Ok_0 is Input
            &&& kind == 1 && s.len() < 12 ==> parsed(s) == Err::<Packet, PacketError>(
                PacketError::Truncated,
            )
            &&& kind == 2 && s.len() < 45 ==> parsed(s) == Err::<Packet, PacketError>(
                PacketError::Truncated,
            )
            &&& kind == 2 && s.len() >= 45 && s[44] > 1 ==> parsed(s) == Err::<Packet, PacketError>(
                PacketError::InvalidBool(s[44]),
            )
            &&& kind == 2 && s.len() >= 45 && s[44] <= 1 ==> parsed(s) is Ok
                && parsed(s)->Ok_0 is State
            &&& kind > 2 ==> parsed(s) == Err::<Packet, PacketError>(
                PacketError::UnknownKind(kind as u32),
            )
        },
{
}

} // verus!
