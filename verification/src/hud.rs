//! The window, and the lines of text drawn over the rink or written to the log.

use crate::packet::PacketError;
use crate::rink::{WINDOW_HEIGHT, WINDOW_WIDTH};
use crate::session::{fair, WINNING_SCORE};
use vstd::prelude::*;
use vstd::utf8::{
    decode_utf8, encode_utf8, encode_utf8_decode_utf8, encode_utf8_valid_utf8, valid_utf8,
};

verus! {

/// The title of the window and of the menu.
pub fn title() -> (r: &'static str)
    ensures
        r@ == "Minah Air Hockey"@,
{
    "Minah Air Hockey"
}

/// What the window is opened with.
#[derive(Clone, Copy, Debug)]
pub struct WindowConf {
    pub title: &'static str,
    pub width: i32,
    pub height: i32,
}

/// The window: as large as the rink.
pub fn window_conf() -> (r: WindowConf)
    ensures
        r.title@ == "Minah Air Hockey"@,
        r.width == WINDOW_WIDTH,
        r.height == WINDOW_HEIGHT,
{
    WindowConf { title: title(), width: WINDOW_WIDTH, height: WINDOW_HEIGHT }
}

/// The decimal digit of a number below ten.
pub open spec fn digit(n: int) -> char {
    (0x30 + n) as u8 as char
}

/// The decimal digits of a number.
pub open spec fn digits(n: int) -> Seq<char>
    decreases n,
{
    if n < 10 {
        seq![digit(n)]
    } else {
        digits(n / 10).push(digit(n % 10))
    }
}

/// A number in decimal.
pub open spec fn decimal(n: int) -> Seq<char> {
    if n < 0 {
        seq!['-'] + digits(-n)
    } else {
        digits(n)
    }
}

fn push_digits(text: &mut String, n: u64)
    ensures
        final(text)@ == old(text)@ + digits(n as int),
    decreases n,
{
    let last: u8 = (n % 10) as u8;
    if n >= 10 {
        push_digits(text, n / 10);
    }
    text.push((0x30 + last) as char);
    proof {
        if n >= 10 {
            assert(text@ =~= old(text)@ + digits(n as int / 10).push(digit(n as int % 10)));
        }
    }
}

fn push_decimal(text: &mut String, n: i32)
    ensures
        final(text)@ == old(text)@ + decimal(n as int),
{
    if n < 0 {
        text.push('-');
        push_digits(text, (-(n as i64)) as u64);
        assert(text@ =~= old(text)@ + (seq!['-'] + digits(-n)));
    } else {
        push_digits(text, n as u64);
    }
}

/// The line of the score.
pub open spec fn score_line(score_left: int, score_right: int) -> Seq<char> {
    decimal(score_left) + "  -  "@ + decimal(score_right)
}

/// The score, the left player's first.
pub fn score_text(score_left: i32, score_right: i32) -> (r: String)
    ensures
        r@ == score_line(score_left as int, score_right as int),
        r@ == decimal(score_left as int) + "  -  "@ + decimal(score_right as int),
{
    let mut text: String = String::new();
    push_decimal(&mut text, score_left);
    text.append("  -  ");
    push_decimal(&mut text, score_right);
    assert(text@ =~= decimal(score_left as int) + "  -  "@ + decimal(score_right as int));
    text
}

/// Whether a match that is over is the host's: its score is the higher one.
pub open spec fn host_won(score_left: int, score_right: int) -> bool {
    score_left > score_right
}

/// Whether the player on this side has won a match that is over.
pub open spec fn won(host: bool, score_left: int, score_right: int) -> bool {
    host == host_won(score_left, score_right)
}

/// The line of the winner.
pub open spec fn winner_line(score_left: int, score_right: int) -> Seq<char> {
    if host_won(score_left, score_right) {
        "Host Wins!"@
    } else {
        "Client Wins!"@
    }
}

/// The line of the verdict.
pub open spec fn verdict_line(host: bool, score_left: int, score_right: int) -> Seq<char> {
    if won(host, score_left, score_right) {
        "You Win"@
    } else {
        "You Lose"@
    }
}

/// Who has won a match that is over.
pub fn winner_text(score_left: i32, score_right: i32) -> (r: &'static str)
    ensures
        r@ == winner_line(score_left as int, score_right as int),
        r@ == (if host_won(score_left as int, score_right as int) {
            "Host Wins!"@
        } else {
            "Client Wins!"@
        }),
{
    if score_left > score_right {
        "Host Wins!"
    } else {
        "Client Wins!"
    }
}

/// What a match that is over means for the player on this side.
pub fn verdict_text(host: bool, score_left: i32, score_right: i32) -> (r: &'static str)
    ensures
        r@ == verdict_line(host, score_left as int, score_right as int),
        r@ == (if won(host, score_left as int, score_right as int) {
            "You Win"@
        } else {
            "You Lose"@
        }),
{
    if host == (score_left > score_right) {
        "You Win"
    } else {
        "You Lose"
    }
}

/// Which side this player is on.
pub fn role_text(host: bool) -> (r: &'static str)
    ensures
        r@ == (if host {
            "Host (authoritative) - WASD to move"@
        } else {
            "Client - WASD to move"@
        }),
{
    if host {
        "Host (authoritative) - WASD to move"
    } else {
        "Client - WASD to move"
    }
}

/// How a player gets to this side.
pub fn usage_text(host: bool) -> (r: &'static str)
    ensures
        r@ == (if host {
            "Run: cargo run -- host (binds 0.0.0.0:3456)"@
        } else {
            "Run: cargo run -- connect <host_ip:3456>"@
        }),
{
    if host {
        "Run: cargo run -- host (binds 0.0.0.0:3456)"
    } else {
        "Run: cargo run -- connect <host_ip:3456>"
    }
}

/// The line of the other player's address.
pub open spec fn peer_line(address: Option<Seq<char>>) -> Seq<char> {
    match address {
        Some(text) => "Peer: "@ + text,
        None => "Peer: (none)"@,
    }
}

/// Whom this player has heard from, by the address as it is shown.
pub fn peer_text(shown: Option<&str>) -> (r: String)
    ensures
        r@ == peer_line(
            match shown {
                Some(address) => Some(address@),
                None => None,
            },
        ),
        r@ == (match shown {
            Some(address) => "Peer: "@ + address@,
            None => "Peer: (none)"@,
        }),
{
    match shown {
        Some(address) => {
            let mut text: String = "Peer: ".to_owned();
            text.append(address);
            text
        },
        None => "Peer: (none)".to_owned(),
    }
}

/// The error of `std::str::from_utf8`, which holds nothing that is read here.
#[verifier::external_type_specification]
#[verifier::external_body]
pub struct ExUtf8Error(std::str::Utf8Error);

/// `std::str::from_utf8`: succeeds on valid UTF-8 and on nothing else, with the
/// string that the bytes encode.
pub assume_specification[ std::str::from_utf8 ](v: &[u8]) -> (r: Result<
    &str,
    std::str::Utf8Error,
>)
    ensures
        r is Ok == valid_utf8(v@),
        r is Ok ==> encode_utf8(r->Ok_0@) == v@,
;

/// Bytes in decimal, with commas between them.
pub open spec fn listed(data: Seq<u8>) -> Seq<char>
    decreases data.len(),
{
    if data.len() == 0 {
        seq![]
    } else if data.len() == 1 {
        digits(data[0] as int)
    } else {
        listed(data.drop_last()) + ", "@ + digits(data.last() as int)
    }
}

fn push_listed(text: &mut String, data: &[u8])
    ensures
        final(text)@ == old(text)@ + listed(data@),
{
    let mut i: usize = 0;
    assert(data@.take(0) =~= Seq::<u8>::empty());
    assert(text@ =~= old(text)@ + listed(data@.take(0)));
    while i < data.len()
        invariant
            i <= data@.len(),
            text@ == old(text)@ + listed(data@.take(i as int)),
        decreases data@.len() - i,
    {
        let ghost next = data@.take(i + 1);
        assert(next.drop_last() =~= data@.take(i as int));
        if i > 0 {
            text.append(", ");
        }
        push_digits(text, data[i] as u64);
        assert(text@ =~= old(text)@ + listed(next));
        i = i + 1;
    }
    assert(data@.take(i as int) =~= data@);
}

/// The line of bytes that are no packet.
pub open spec fn raw_line(data: Seq<u8>) -> Seq<char> {
    if valid_utf8(data) {
        "as utf8: '"@ + decode_utf8(data) + "'"@
    } else {
        "bytes: ["@ + listed(data) + "]"@
    }
}

/// What has come in that is no packet: as text where it is text, and otherwise
/// as a list of its bytes.
pub fn raw_text(data: &[u8]) -> (r: String)
    ensures
        r@ == raw_line(data@),
        r@ == (if valid_utf8(data@) {
            "as utf8: '"@ + decode_utf8(data@) + "'"@
        } else {
            "bytes: ["@ + listed(data@) + "]"@
        }),
{
    match std::str::from_utf8(data) {
        Ok(text) => {
            proof {
                encode_utf8_decode_utf8(text@);
            }
            let mut line: String = "as utf8: '".to_owned();
            line.append(text);
            line.append("'");
            line
        },
        Err(_) => {
            let mut line: String = "bytes: [".to_owned();
            push_listed(&mut line, data);
            line.append("]");
            line
        },
    }
}

/// The line of an error.
pub open spec fn error_line(error: PacketError) -> Seq<char> {
    match error {
        PacketError::Truncated => "io error: unexpected end of file"@,
        PacketError::UnknownKind(n) => "invalid value: integer `"@ + digits(n as int)
            + "`, expected variant index 0 <= i < 3"@,
        PacketError::InvalidBool(n) => "invalid u8 while decoding bool, expected 0 or 1, found "@
            + digits(n as int),
    }
}

/// What is wrong with bytes that are no packet.
pub fn error_text(error: PacketError) -> (r: String)
    ensures
        r@ == error_line(error),
        r@ == (match error {
            PacketError::Truncated => "io error: unexpected end of file"@,
            PacketError::UnknownKind(n) => "invalid value: integer `"@ + digits(n as int)
                + "`, expected variant index 0 <= i < 3"@,
            PacketError::InvalidBool(n) =>
                "invalid u8 while decoding bool, expected 0 or 1, found "@ + digits(n as int),
        }),
{
    match error {
        PacketError::Truncated => "io error: unexpected end of file".to_owned(),
        PacketError::UnknownKind(n) => {
            let mut line: String = "invalid value: integer `".to_owned();
            push_digits(&mut line, n as u64);
            line.append("`, expected variant index 0 <= i < 3");
            line
        },
        PacketError::InvalidBool(n) => {
            let mut line: String =
                "invalid u8 while decoding bool, expected 0 or 1, found ".to_owned();
            push_digits(&mut line, n as u64);
            line
        },
    }
}

/// Of the two players of one match, exactly one has won it.
pub proof fn one_player_wins(score_left: int, score_right: int)
    ensures
        won(true, score_left, score_right) != won(false, score_left, score_right),
{
}

/// The winner of a match that its host has ended is the player with the
/// winning score.
pub proof fn winner_has_the_winning_score(score_left: i32, score_right: i32)
    requires
        fair(score_left, score_right, true),
    ensures
        host_won(score_left as int, score_right as int) == (score_left == WINNING_SCORE),
        !host_won(score_left as int, score_right as int) == (score_right == WINNING_SCORE),
{
}

/// Decimal digits: one for a number below ten, and each further place appends
/// one; no number starts with a nought but nought itself, and a negative number
/// has a minus before the digits of its opposite.
pub proof fn numbers_are_decimal(n: int, d: int)
    requires
        0 <= d < 10,
    ensures
        digits(d).len() == 1,
        digits(d)[0] as int == 48 + d,
        n > 0 ==> digits(10 * n + d) == digits(n).push(digits(d)[0]),
        n > 0 ==> digits(n).len() >= 1 && digits(n)[0] as int != 48,
        n >= 0 ==> decimal(n) == digits(n),
        n > 0 ==> decimal(-n) == seq!['-'] + decimal(n),
{
    if n > 0 {
        lemma_no_leading_nought(n);
    }
}

proof fn lemma_no_leading_nought(n: int)
    requires
        n > 0,
    ensures
        digits(n).len() >= 1,
        digits(n)[0] as int != 48,
    decreases n,
{
    if n >= 10 {
        lemma_no_leading_nought(n / 10);
    }
}

/// The score is the left player's number, a dash between two blanks on either
/// side, and the right player's number.
pub proof fn scores_are_shown_in_order(left: int, right: int)
    ensures
        ({
            let line = score_line(left, right);
            let n = decimal(left).len() as int;
            &&& line.len() == n + 5 + decimal(right).len()
            &&& line.take(n) == decimal(left)
            &&& line.subrange(n, n + 5) == seq![' ', ' ', '-', ' ', ' ']
            &&& line.skip(n + 5) == decimal(right)
        }),
{
    reveal_strlit("  -  ");
    let line = score_line(left, right);
    let n = decimal(left).len() as int;
    assert(line.take(n) =~= decimal(left));
    assert(line.subrange(n, n + 5) =~= seq![' ', ' ', '-', ' ', ' ']);
    assert(line.skip(n + 5) =~= decimal(right));
}

/// The host is said to have won where the left score is the higher one, and the
/// client otherwise; the side that has won is told so, and the other that it has
/// lost.
pub proof fn the_higher_score_is_said_to_win(left: int, right: int)
    ensures
        left > right ==> winner_line(left, right) == "Host Wins!"@,
        left <= right ==> winner_line(left, right) == "Client Wins!"@,
        left > right ==> verdict_line(true, left, right) == "You Win"@,
        left > right ==> verdict_line(false, left, right) == "You Lose"@,
        left <= right ==> verdict_line(true, left, right) == "You Lose"@,
        left <= right ==> verdict_line(false, left, right) == "You Win"@,
        host_won(left, right) == (left > right),
{
}

/// The address of the other player follows its label as it is.
pub proof fn addresses_are_shown_whole(text: Seq<char>)
    ensures
        peer_line(Some(text)) == seq!['P', 'e', 'e', 'r', ':', ' '] + text,
        peer_line(None) == "Peer: (none)"@,
{
    reveal_strlit("Peer: ");
    assert("Peer: "@ =~= seq!['P', 'e', 'e', 'r', ':', ' ']);
}

/// A list of bytes shows each as a decimal number, and two lists after each
/// other with a comma and a blank between them.
pub proof fn byte_lists_join(a: Seq<u8>, b: Seq<u8>, x: u8)
    ensures
        listed(Seq::<u8>::empty()).len() == 0,
        listed(seq![x]) == decimal(x as int),
        a.len() > 0 && b.len() > 0 ==> listed(a + b) == listed(a) + seq![',', ' '] + listed(b),
    decreases b.len(),
{
    reveal_strlit(", ");
    assert(", "@ =~= seq![',', ' ']);
    if a.len() > 0 && b.len() > 0 {
        let c = b.drop_last();
        assert((a + b).drop_last() =~= a + c);
        if c.len() == 0 {
            assert(a + c =~= a);
        } else {
            byte_lists_join(a, c, x);
            assert(listed(a + b) =~= listed(a) + seq![',', ' '] + listed(b));
        }
    }
}

/// Bytes are shown as the text they encode, between quotes, where they encode
/// one, and as a list between brackets otherwise.
pub proof fn raw_bytes_are_shown_whole(data: Seq<u8>, text: Seq<char>)
    ensures
        raw_line(encode_utf8(text)) == "as utf8: '"@ + text + seq!['\''],
        !valid_utf8(data) ==> raw_line(data) == "bytes: ["@ + listed(data) + seq![']'],
{
    encode_utf8_valid_utf8(text);
    encode_utf8_decode_utf8(text);
    reveal_strlit("'");
    reveal_strlit("]");
    assert("'"@ =~= seq!['\'']);
    assert("]"@ =~= seq![']']);
}

/// An error names the number that is wrong, in decimal.
pub proof fn errors_name_the_number(n: u32, b: u8)
    ensures
        error_line(PacketError::Truncated) == "io error: unexpected end of file"@,
        error_line(PacketError::UnknownKind(n)) == "invalid value: integer `"@ + decimal(n as int)
            + "`, expected variant index 0 <= i < 3"@,
        error_line(PacketError::InvalidBool(b))
            == "invalid u8 while decoding bool, expected 0 or 1, found "@ + decimal(b as int),
{
}

} // verus!
