use air_hockey::hud::{
    error_text, peer_text, raw_text, role_text, score_text, title, usage_text, verdict_text,
    window_conf, winner_text,
};
use air_hockey::packet::PacketError;
use serde::de::Error;

#[test]
fn scores_are_decimal() {
    for (l, r) in [(0, 0), (3, 12), (13, 9), (-1, 100), (i32::MIN, i32::MAX), (1000000, -20)] {
        assert_eq!(score_text(l, r), format!("{}  -  {}", l, r));
    }
    assert_eq!(score_text(10, 7), "10  -  7");
}

#[test]
fn the_higher_score_wins() {
    assert_eq!(winner_text(13, 5), "Host Wins!");
    assert_eq!(winner_text(5, 13), "Client Wins!");
    assert_eq!(winner_text(5, 5), "Client Wins!");
}

#[test]
fn one_player_is_told_to_have_won() {
    assert_eq!(verdict_text(true, 13, 5), "You Win");
    assert_eq!(verdict_text(false, 13, 5), "You Lose");
    assert_eq!(verdict_text(true, 5, 13), "You Lose");
    assert_eq!(verdict_text(false, 5, 13), "You Win");
}

#[test]
fn roles_are_shown() {
    assert_eq!(title(), "Minah Air Hockey");
    assert_eq!(role_text(true), "Host (authoritative) - WASD to move");
    assert_eq!(role_text(false), "Client - WASD to move");
    assert_eq!(usage_text(true), "Run: cargo run -- host (binds 0.0.0.0:3456)");
    assert_eq!(usage_text(false), "Run: cargo run -- connect <host_ip:3456>");
}

#[test]
fn peers_are_shown() {
    assert_eq!(peer_text(None), "Peer: (none)");
    assert_eq!(peer_text(Some("10.0.0.7:3456")), "Peer: 10.0.0.7:3456");
}

#[test]
fn the_window_is_as_large_as_the_rink() {
    let conf = window_conf();
    assert_eq!(conf.title, "Minah Air Hockey");
    assert_eq!((conf.width, conf.height), (800, 480));
}

#[test]
fn raw_data_is_text_or_bytes() {
    let samples: Vec<&[u8]> = vec![
        b"DEBUG_HELLO",
        b"",
        b"\xc3\xa9 \xf0\x9f\x8f\x92",
        b"\xff",
        b"\x01\x02\xc3",
        b"\xed\xa0\x80",
        b"\xc0\x80",
        b"\x00\x09\x0a\x63\x64\xfe",
    ];
    for data in samples {
        let expected = match std::str::from_utf8(data) {
            Ok(text) => format!("as utf8: '{}'", text),
            Err(_) => format!("bytes: {:?}", data),
        };
        assert_eq!(raw_text(data), expected);
    }
    assert_eq!(raw_text(b"hi"), "as utf8: 'hi'");
    assert_eq!(raw_text(&[10, 255]), "bytes: [10, 255]");
}

#[test]
fn errors_read_as_those_of_the_decoder() {
    let short = bincode::deserialize::<u32>(&[1, 2]).unwrap_err();
    assert_eq!(error_text(PacketError::Truncated), short.to_string());
    let flag = bincode::deserialize::<bool>(&[7]).unwrap_err();
    assert_eq!(error_text(PacketError::InvalidBool(7)), flag.to_string());
    for n in [3u32, 10, 0x5542_4544, u32::MAX] {
        let kind: bincode::Error = Error::invalid_value(
            serde::de::Unexpected::Unsigned(n as u64),
            &"variant index 0 <= i < 3",
        );
        assert_eq!(error_text(PacketError::UnknownKind(n)), kind.to_string());
    }
}
