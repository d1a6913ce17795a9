use air_hockey::packet::{Packet, PacketError};
use air_hockey::rink::{start_left, start_puck, start_right, Keys, PaddleState, PuckState};
use air_hockey::session::{Message, Outgoing, Session, Work};

const HOST: u16 = 1;
const CLIENT: u16 = 2;

fn paddle(x: f32, y: f32) -> PaddleState {
    PaddleState { x: x.to_bits(), y: y.to_bits() }
}

fn puck(x: f32, y: f32, vx: f32, vy: f32) -> PuckState {
    PuckState { x: x.to_bits(), y: y.to_bits(), vx: vx.to_bits(), vy: vy.to_bits() }
}

fn left_goal() -> PuckState {
    puck(5.0, 240.0, -300.0, 10.0)
}

fn right_goal() -> PuckState {
    puck(795.0, 240.0, 300.0, 10.0)
}

fn to<A>(to: A, packet: Packet) -> Outgoing<A> {
    Outgoing { to, message: Message::Packet(packet) }
}

fn finished() -> Session<u16> {
    let mut s: Session<u16> = Session::host();
    for _ in 0..13 {
        assert!(s.rallying());
        s.rally(left_goal());
    }
    assert!(s.game_over());
    s
}

#[test]
fn a_host_opens_a_match() {
    let s: Session<u16> = Session::host();
    assert!(s.is_host());
    assert!(s.rallying());
    assert!(s.awaits_client());
    assert_eq!(s.my_paddle(), start_left());
    assert_eq!(s.other_paddle(), start_right());
    assert_eq!(s.puck(), start_puck());
    assert_eq!((s.score_left(), s.score_right(), s.game_over()), (0, 0, false));
    assert_eq!(s.known_peer(), None);
    assert_eq!(s.recv_count(), 0);
    assert_eq!(s.greetings(), vec![]);
}

#[test]
fn a_client_joins_a_match() {
    let s: Session<u16> = Session::client(Some(HOST));
    assert!(!s.is_host());
    assert!(!s.rallying());
    assert!(!s.awaits_client());
    assert_eq!(s.my_paddle(), start_right());
    assert_eq!(s.other_paddle(), start_left());
    assert_eq!(
        s.greetings(),
        vec![
            to(HOST, Packet::Hello),
            Outgoing { to: HOST, message: Message::DebugHello },
        ]
    );
    let lost: Session<u16> = Session::client(None);
    assert_eq!(lost.greetings(), vec![]);
}

#[test]
fn messages_have_their_bytes() {
    assert_eq!(Message::DebugHello.bytes(), b"DEBUG_HELLO".to_vec());
    assert_eq!(Message::ForceDebugHello.bytes(), b"FORCE_DEBUG_HELLO".to_vec());
    assert_eq!(Message::Packet(Packet::Hello).bytes(), vec![0, 0, 0, 0]);
}

#[test]
fn notes_leave_everything_as_it_was() {
    let mut s: Session<u16> = Session::host();
    for m in [Message::DebugHello, Message::ForceDebugHello] {
        let r = s.receive_bytes(CLIENT, &m.bytes());
        assert!(matches!(r, Err(PacketError::UnknownKind(_))));
    }
    assert_eq!(s.receive_bytes(CLIENT, &[]), Err(PacketError::Truncated));
    assert_eq!(s.known_peer(), None);
    assert_eq!(s.recv_count(), 0);
}

#[test]
fn a_handshake_joins_both_sides() {
    let mut host: Session<u16> = Session::host();
    let mut client: Session<u16> = Session::client(Some(HOST));
    host.rally(right_goal());
    host.steer(paddle(200.0, 100.0));
    let hello = client.greetings()[0].message.bytes();
    let receipt = host.receive_bytes(CLIENT, &hello).unwrap();
    assert_eq!(receipt.packet, Packet::Hello);
    assert_eq!(receipt.reply, Some(host.snapshot()));
    assert_eq!(host.known_peer(), Some(CLIENT));
    assert!(!host.awaits_client());
    let answer = receipt.reply.unwrap().encode();
    let receipt = client.receive_bytes(HOST, &answer).unwrap();
    assert_eq!(receipt.reply, None);
    assert_eq!(client.known_peer(), Some(HOST));
    assert_eq!(client.puck(), host.puck());
    assert_eq!((client.score_left(), client.score_right()), (1, 0));
    assert_eq!(client.other_paddle(), paddle(200.0, 100.0));
    assert_eq!(client.my_paddle(), start_right());
    assert_eq!(client.recv_count(), 1);
}

#[test]
fn a_host_takes_a_paddle_and_no_state() {
    let mut host: Session<u16> = Session::host();
    assert_eq!(host.receive(CLIENT, Packet::Input(paddle(500.0, 7.0))), None);
    assert_eq!(host.other_paddle(), paddle(500.0, 7.0));
    assert_eq!(host.known_peer(), None);
    let state = Packet::State {
        paddle: paddle(1.0, 2.0),
        opponent: paddle(3.0, 4.0),
        puck: puck(5.0, 6.0, 7.0, 8.0),
        score_left: 99,
        score_right: -4,
        game_over: true,
    };
    assert_eq!(host.receive(CLIENT, state), None);
    assert_eq!(host.other_paddle(), paddle(500.0, 7.0));
    assert_eq!(host.puck(), start_puck());
    assert_eq!((host.score_left(), host.score_right(), host.game_over()), (0, 0, false));
    assert_eq!(host.known_peer(), None);
    assert_eq!(host.recv_count(), 2);
}

#[test]
fn a_client_takes_state_and_no_paddle() {
    let mut client: Session<u16> = Session::client(Some(HOST));
    assert_eq!(client.receive(9, Packet::Input(paddle(500.0, 7.0))), None);
    assert_eq!(client.other_paddle(), start_left());
    assert_eq!(client.known_peer(), None);
    let state = Packet::State {
        paddle: paddle(1.0, 2.0),
        opponent: paddle(3.0, 4.0),
        puck: puck(5.0, 6.0, 7.0, 8.0),
        score_left: 99,
        score_right: -4,
        game_over: true,
    };
    assert_eq!(client.receive(HOST, state), None);
    assert_eq!(client.known_peer(), Some(HOST));
    assert_eq!(client.other_paddle(), paddle(1.0, 2.0));
    assert_eq!(client.my_paddle(), start_right());
    assert_eq!(client.puck(), puck(5.0, 6.0, 7.0, 8.0));
    assert_eq!((client.score_left(), client.score_right(), client.game_over()), (99, -4, true));
}

#[test]
fn a_client_answers_a_greeting_too() {
    let mut client: Session<u16> = Session::client(Some(HOST));
    assert_eq!(client.receive(9, Packet::Hello), Some(client.snapshot()));
    assert_eq!(client.known_peer(), Some(9));
}

#[test]
fn a_goal_counts_for_the_other_side() {
    let mut s: Session<u16> = Session::host();
    assert_eq!(s.rally(left_goal()), vec![]);
    assert_eq!((s.score_left(), s.score_right()), (0, 1));
    assert_eq!(s.puck(), puck(400.0, 240.0, 160.0, 30.0));
    s.rally(right_goal());
    assert_eq!((s.score_left(), s.score_right()), (1, 1));
    assert_eq!(s.puck(), puck(400.0, 240.0, -160.0, -30.0));
    s.rally(puck(5.0, 100.0, -300.0, 10.0));
    assert_eq!((s.score_left(), s.score_right()), (1, 1));
    assert_eq!(s.puck(), puck(12.0, 100.0, 300.0, 10.0));
    s.rally(puck(300.0, 100.0, -300.0, 10.0));
    assert_eq!(s.puck(), puck(300.0, 100.0, -300.0, 10.0));
}

#[test]
fn a_rally_tells_a_known_player() {
    let mut s: Session<u16> = Session::host();
    s.receive(CLIENT, Packet::Hello);
    let sends = s.rally(right_goal());
    assert_eq!(sends, vec![to(CLIENT, s.snapshot())]);
}

#[test]
fn a_rally_runs_in_order() {
    let mut s: Session<u16> = Session::host();
    s.receive(CLIENT, Packet::Input(paddle(600.0, 200.0)));
    let work = s.begin_rally();
    assert_eq!(work, Work::Drift { puck: start_puck() });
    let work = s.continue_rally(work, puck(300.0, 3.0, 140.0, -60.0));
    let bounced = puck(300.0, 12.0, 140.0, 60.0);
    assert_eq!(work, Work::StrikeOwn { paddle: start_left(), puck: bounced });
    let work = s.continue_rally(work, puck(301.0, 3.0, 1.0, 2.0));
    let struck = puck(301.0, 3.0, 1.0, 2.0);
    assert_eq!(work, Work::StrikeOther { paddle: paddle(600.0, 200.0), puck: struck });
    let work = s.continue_rally(work, struck);
    assert_eq!(work, Work::Settle { puck: struck });
    assert_eq!(s.continue_rally(work, left_goal()), work);
}

#[test]
fn the_winning_score_ends_the_match() {
    let mut s: Session<u16> = Session::host();
    for n in 1..=12 {
        s.rally(right_goal());
        s.rally(left_goal());
        assert_eq!((s.score_left(), s.score_right(), s.game_over()), (n, n, false));
    }
    s.rally(right_goal());
    assert_eq!((s.score_left(), s.score_right(), s.game_over()), (13, 12, true));
    assert!(!s.rallying());
}

#[test]
fn a_finished_match_is_frozen() {
    let mut s = finished();
    let before = s.puck();
    s.receive(CLIENT, Packet::Hello);
    let frame = s.idle(false, true);
    assert_eq!(frame.sends, vec![to(CLIENT, Packet::Input(s.my_paddle()))]);
    assert!(!frame.greeted);
    assert_eq!((s.score_left(), s.score_right(), s.game_over()), (0, 13, true));
    assert_eq!(s.puck(), before);
    let keys = Keys { up: true, down: false, left: false, right: true };
    assert_eq!(s.steering(keys), (0, 0));
}

#[test]
fn the_host_starts_over() {
    let mut s = finished();
    s.receive(CLIENT, Packet::Hello);
    let frame = s.idle(true, false);
    assert_eq!((s.score_left(), s.score_right(), s.game_over()), (0, 0, false));
    assert_eq!(s.puck(), start_puck());
    assert_eq!(s.known_peer(), Some(CLIENT));
    assert!(s.rallying());
    assert_eq!(
        frame.sends,
        vec![to(CLIENT, s.snapshot()), to(CLIENT, Packet::Input(s.my_paddle()))]
    );
    let mut alone = finished();
    assert_eq!(alone.idle(true, true).sends, vec![]);
    assert!(!alone.game_over());
}

#[test]
fn a_client_does_not_start_over() {
    let mut client: Session<u16> = Session::client(Some(HOST));
    client.receive(HOST, finished().snapshot());
    assert!(client.game_over());
    client.idle(true, true);
    assert!(client.game_over());
    assert_eq!((client.score_left(), client.score_right()), (0, 13));
}

#[test]
fn a_client_greets_until_it_is_answered() {
    let mut client: Session<u16> = Session::client(Some(HOST));
    let force = Outgoing { to: HOST, message: Message::ForceDebugHello };
    let frame = client.idle(false, true);
    assert!(frame.greeted);
    assert_eq!(
        frame.sends,
        vec![to(HOST, Packet::Hello), Outgoing { to: HOST, message: Message::DebugHello }, force]
    );
    let force = Outgoing { to: HOST, message: Message::ForceDebugHello };
    let frame = client.idle(false, false);
    assert!(!frame.greeted);
    assert_eq!(frame.sends, vec![force]);
    client.receive(HOST, Session::<u16>::host().snapshot());
    let frame = client.idle(false, true);
    assert!(!frame.greeted);
    assert_eq!(frame.sends, vec![to(HOST, Packet::Input(start_right()))]);
    let mut lost: Session<u16> = Session::client(None);
    let frame = lost.idle(false, true);
    assert!(!frame.greeted);
    assert_eq!(frame.sends, vec![]);
}

#[test]
fn steering_keeps_paddles_apart() {
    let mut host: Session<u16> = Session::host();
    host.receive(CLIENT, Packet::Input(paddle(10.0, 900.0)));
    host.steer(paddle(790.0, -5.0));
    assert_eq!(host.my_paddle(), paddle(382.0, 18.0));
    assert_eq!(host.other_paddle(), paddle(418.0, 900.0));
    let mut client: Session<u16> = Session::client(None);
    client.steer(paddle(10.0, 1000.0));
    assert_eq!(client.my_paddle(), paddle(418.0, 462.0));
    assert_eq!(client.other_paddle(), start_left());
    client.steer(paddle(600.0, 300.0));
    assert_eq!(client.my_paddle(), paddle(600.0, 300.0));
}

#[test]
fn keys_steer_while_the_match_lasts() {
    let s: Session<u16> = Session::host();
    let keys = Keys { up: true, down: false, left: false, right: true };
    let unit = 1.0f32 / 2.0f32.sqrt();
    assert_eq!(s.steering(keys), (unit.to_bits(), (-unit).to_bits()));
}
