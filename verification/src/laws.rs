//! What holds of a match over more than one step, or between its two sides.

use crate::packet::{packet_reads_back, parsed, word_at, Packet, PacketError};
use crate::rink::{
    bounced, direction, edge_of, ends_go_by_position, ends_turn_or_serve_the_puck,
    kept_paddle_is_between_walls, kept_paddle_is_in_its_half, matches_start_in_place,
    paddles_stop_at_their_bounds, rink_measures, Edge, Keys, PaddleState, PuckState, CENTRE_X,
    HEIGHT, PADDLE_RADIUS, PADDLE_RIGHTMOST,
};
use crate::scalar::{at_most, is_nan, value, whole};
use crate::session::{
    debug_hello, force_debug_hello, Message, Outgoing, Receipt, SessionView, Work, WINNING_SCORE,
};
use vstd::arithmetic::power2::pow2;
use vstd::prelude::*;

verus! {

/// A match starts valid on either side, and every step keeps it so.
pub proof fn matches_stay_valid<A>(
    v: SessionView<A>,
    wanted: PaddleState,
    from: A,
    packet: Packet,
    puck: PuckState,
    restart: bool,
)
    requires
        v.valid(),
    ensures
        SessionView::<A>::opened().valid(),
        SessionView::joined(v.target).valid(),
        v.steered(wanted).valid(),
        v.received(from, packet).valid(),
        v.rallying() ==> v.rallied(puck).valid(),
        v.idled(restart).valid(),
{
}

/// A player keeps its side for the whole match.
pub proof fn sides_are_for_good<A>(
    v: SessionView<A>,
    wanted: PaddleState,
    from: A,
    packet: Packet,
    puck: PuckState,
    restart: bool,
)
    ensures
        v.steered(wanted).host == v.host,
        v.received(from, packet).host == v.host,
        v.rallied(puck).host == v.host,
        v.idled(restart).host == v.host,
{
}

/// A message is read as a packet where it is one, and then as the one it is;
/// the notes are read as none.
pub proof fn notes_are_no_packets(m: Message)
    ensures
        match m {
            Message::Packet(packet) => parsed(m.wire()) == Ok::<Packet, PacketError>(packet),
            _ => parsed(m.wire()) is Err && parsed(m.wire())->Err_0 is UnknownKind,
        },
{
    match m {
        Message::Packet(packet) => {
            packet_reads_back(packet, Seq::empty());
        },
        Message::DebugHello => {
            assert(word_at(debug_hello(), 0) == 0x5542_4544);
        },
        Message::ForceDebugHello => {
            assert(word_at(force_debug_hello(), 0) == 0x4352_4f46);
        },
    }
}

/// The host decides: no packet moves its puck, changes its score, or ends or
/// restarts its match.
pub proof fn host_decides<A>(v: SessionView<A>, from: A, packet: Packet)
    requires
        v.host,
    ensures
        v.received(from, packet).puck == v.puck,
        v.received(from, packet).score_left == v.score_left,
        v.received(from, packet).score_right == v.score_right,
        v.received(from, packet).game_over == v.game_over,
{
}

/// No packet moves the paddle of the player it comes to.
pub proof fn own_paddle_is_the_players<A>(v: SessionView<A>, from: A, packet: Packet)
    ensures
        v.received(from, packet).my_paddle == v.my_paddle,
{
}

/// A packet that is not for this side, the match for a host or a paddle for a
/// client, is counted and changes nothing else.
pub proof fn misdirected_packets_change_nothing<A>(v: SessionView<A>, from: A, packet: Packet)
    requires
        if v.host {
            packet is State
        } else {
            packet is Input
        },
    ensures
        v.received(from, packet) == (SessionView {
            recv_count: (v.recv_count + 1) as usize,
            ..v
        }),
        v.reply(packet) is None,
{
}

/// Once a client has read what its host tells of the match, both see the same
/// puck, the same score and the same end, and the client sees the host's paddle
/// where the host has it.
pub proof fn client_follows_host<A>(host: SessionView<A>, client: SessionView<A>, from: A)
    requires
        !client.host,
    ensures
        ({
            let bytes = Message::Packet(host.snapshot()).wire();
            let synced = client.received(from, parsed(bytes)->Ok_0);
            &&& parsed(bytes) is Ok
            &&& synced.puck == host.puck
            &&& synced.score_left == host.score_left
            &&& synced.score_right == host.score_right
            &&& synced.game_over == host.game_over
            &&& synced.other_paddle == host.my_paddle
            &&& synced.my_paddle == client.my_paddle
            &&& synced.known_peer == Some(from)
        }),
{
    packet_reads_back(host.snapshot(), Seq::empty());
}

/// Once a host has read where its client's paddle is, it has it there, and
/// nothing else of the match has changed.
pub proof fn host_follows_paddle<A>(host: SessionView<A>, client: SessionView<A>, from: A)
    requires
        host.host,
    ensures
        ({
            let bytes = Message::Packet(Packet::Input(client.my_paddle)).wire();
            let told = host.received(from, parsed(bytes)->Ok_0);
            &&& parsed(bytes) is Ok
            &&& told == (SessionView {
                other_paddle: client.my_paddle,
                recv_count: told.recv_count,
                ..host
            })
        }),
{
    packet_reads_back(Packet::Input(client.my_paddle), Seq::empty());
}

/// A greeting that reaches a host, and the answer that reaches the client, make
/// each known to the other, and the client see the host's match.
pub proof fn handshake_joins_both<A>(
    host: SessionView<A>,
    client: SessionView<A>,
    host_at: A,
    client_at: A,
)
    requires
        host.host,
        !client.host,
    ensures
        ({
            let hello = parsed(Message::Packet(Packet::Hello).wire())->Ok_0;
            let greeted = host.received(client_at, hello);
            let answer = parsed(Message::Packet(host.reply(hello)->0).wire())->Ok_0;
            let joined = client.received(host_at, answer);
            &&& host.reply(hello) is Some
            &&& greeted.known_peer == Some(client_at)
            &&& joined.known_peer == Some(host_at)
            &&& joined.puck == greeted.puck
            &&& joined.score_left == greeted.score_left
            &&& joined.score_right == greeted.score_right
            &&& joined.game_over == greeted.game_over
            &&& joined.other_paddle == greeted.my_paddle
        }),
{
    packet_reads_back(Packet::Hello, Seq::empty());
    packet_reads_back(host.snapshot(), Seq::empty());
}

/// A player, once known, stays known: no step forgets it, though another may
/// take its place.
pub proof fn peers_stay_known<A>(
    v: SessionView<A>,
    wanted: PaddleState,
    from: A,
    packet: Packet,
    puck: PuckState,
    restart: bool,
)
    requires
        v.known_peer is Some,
    ensures
        v.steered(wanted).known_peer == v.known_peer,
        v.rallied(puck).known_peer == v.known_peer,
        v.idled(restart).known_peer == v.known_peer,
        v.received(from, packet).known_peer == v.known_peer || v.received(from, packet).known_peer
            == Some(from),
{
}

/// A host greets nobody and sends no notes: all it sends goes to a player it
/// has heard from, and is a packet other than the greeting.
pub proof fn hosts_do_not_greet<A>(v: SessionView<A>, restart: bool, due: bool)
    requires
        v.valid(),
        v.host,
    ensures
        v.greetings() == Seq::<Outgoing<A>>::empty(),
        v.known_peer is None ==> v.idle_sends(restart, due) == Seq::<Outgoing<A>>::empty(),
        forall|i: int|
            0 <= i < v.idle_sends(restart, due).len() ==> {
                let sent = #[trigger] v.idle_sends(restart, due)[i];
                &&& v.known_peer == Some(sent.to)
                &&& sent.message is Packet
                &&& !(sent.message->Packet_0 is Hello)
            },
{
}

/// A client greets until it hears from its host, and from then on sends only
/// where its paddle is.
pub proof fn greeting_ends_with_an_answer<A>(v: SessionView<A>, restart: bool, due: bool)
    requires
        !v.host,
    ensures
        match (v.known_peer, v.target) {
            (Some(to), _) => v.idle_sends(restart, due) == seq![
                Outgoing { to, message: Message::Packet(Packet::Input(v.my_paddle)) },
            ],
            (None, Some(to)) => if due {
                v.idle_sends(restart, due) == seq![
                    Outgoing { to, message: Message::Packet(Packet::Hello) },
                    Outgoing { to, message: Message::DebugHello },
                    Outgoing { to, message: Message::ForceDebugHello },
                ]
            } else {
                v.idle_sends(restart, due) == seq![
                    Outgoing { to, message: Message::ForceDebugHello },
                ]
            },
            (None, None) => v.idle_sends(restart, due).len() == 0,
        },
{
}

/// However the caller lets the puck drift and rebound, a rally is: drift, the
/// upper and the lower wall, this player's paddle, the other's, the ends of the
/// rink.
pub proof fn rallies_run_in_order<A>(
    v: SessionView<A>,
    drift: spec_fn(PuckState) -> PuckState,
    strike: spec_fn(PaddleState, PuckState) -> PuckState,
)
    ensures
        ({
            let drifted = drift(v.puck);
            let once = strike(v.my_paddle, bounced(drifted));
            let twice = strike(v.other_paddle, once);
            let a = v.first_work();
            let b = v.next_work(a, drifted);
            let c = v.next_work(b, once);
            &&& a == (Work::Drift { puck: v.puck })
            &&& b == (Work::StrikeOwn { paddle: v.my_paddle, puck: bounced(drifted) })
            &&& c == (Work::StrikeOther { paddle: v.other_paddle, puck: once })
            &&& v.next_work(c, twice) == (Work::Settle { puck: twice })
        }),
{
}

/// A frame scores at most one goal: for the right player in the left goal, for
/// the left player in the right one.
pub proof fn one_goal_a_frame<A>(v: SessionView<A>, puck: PuckState)
    requires
        v.valid(),
        v.rallying(),
    ensures
        ({
            let w = v.rallied(puck);
            &&& w.score_left - v.score_left == (if edge_of(puck) == Edge::RightGoal {
                1int
            } else {
                0
            })
            &&& w.score_right - v.score_right == (if edge_of(puck) == Edge::LeftGoal {
                1int
            } else {
                0
            })
            &&& w.score_left + w.score_right <= v.score_left + v.score_right + 1
        }),
{
}

/// A match ends with the goal that brings a player to the winning score, and
/// with no other; so it has at most twice the winning score less one goals.
pub proof fn winning_score_ends_the_match<A>(v: SessionView<A>, puck: PuckState)
    requires
        v.valid(),
        v.rallying(),
    ensures
        ({
            let w = v.rallied(puck);
            &&& w.game_over == (w.score_left == WINNING_SCORE || w.score_right == WINNING_SCORE)
            &&& w.game_over ==> edge_of(puck) == Edge::LeftGoal || edge_of(puck) == Edge::RightGoal
            &&& w.score_left + w.score_right <= 2 * WINNING_SCORE - 1
            &&& w.score_left + w.score_right == 2 * WINNING_SCORE - 1 ==> w.game_over
        }),
{
}

/// A match that is over stays as it is on the host's side, whatever comes in
/// and wherever paddles go, until its host starts over.
pub proof fn finished_match_is_frozen<A>(
    v: SessionView<A>,
    wanted: PaddleState,
    from: A,
    packet: Packet,
)
    requires
        v.host,
        v.game_over,
    ensures
        !v.rallying(),
        ({
            let w = v.steered(wanted).received(from, packet).idled(false);
            &&& w.game_over
            &&& w.puck == v.puck
            &&& w.score_left == v.score_left
            &&& w.score_right == v.score_right
        }),
{
}

/// Only the host can start over, and only a match that is over; it is then as
/// it was when it was opened, but for the paddles and for who is known.
pub proof fn only_the_host_restarts<A>(v: SessionView<A>)
    ensures
        v.host && v.game_over ==> v.idled(true) == (SessionView {
            my_paddle: v.my_paddle,
            other_paddle: v.other_paddle,
            known_peer: v.known_peer,
            target: v.target,
            recv_count: v.recv_count,
            ..SessionView::<A>::opened()
        }),
        v.host && v.game_over ==> v.idled(true).rallying(),
        !(v.host && v.game_over) ==> v.idled(true) == v,
{
}

/// Once a player has steered, the paddles are apart, each in its own half of
/// the rink, and the player's own is between the walls.
pub proof fn steered_paddles_are_apart<A>(v: SessionView<A>, wanted: PaddleState)
    ensures
        ({
            let w = v.steered(wanted);
            let left = if v.host {
                w.my_paddle
            } else {
                w.other_paddle
            };
            let right = if v.host {
                w.other_paddle
            } else {
                w.my_paddle
            };
            &&& at_most(PADDLE_RADIUS, left.x)
            &&& value(left.x) + value(PADDLE_RADIUS) <= value(CENTRE_X)
            &&& value(CENTRE_X) <= value(right.x) - value(PADDLE_RADIUS)
            &&& at_most(right.x, PADDLE_RIGHTMOST)
            &&& at_most(PADDLE_RADIUS, w.my_paddle.y)
            &&& value(w.my_paddle.y) + value(PADDLE_RADIUS) <= value(HEIGHT)
        }),
{
    kept_paddle_is_in_its_half(wanted.x, v.other_paddle.x);
    kept_paddle_is_in_its_half(v.other_paddle.x, wanted.x);
    kept_paddle_is_between_walls(wanted.y);
}

/// A match is opened at 0:0, not over, by a host on the left who knows nobody;
/// paddles and puck are in their starting places.
pub proof fn matches_open_at_nil<A>()
    ensures
        ({
            let v = SessionView::<A>::opened();
            &&& v.host
            &&& v.score_left == 0 && v.score_right == 0 && !v.game_over
            &&& v.known_peer is None && v.target is None && v.recv_count == 0
            &&& value(v.my_paddle.x) == 120 * whole(1) + pow2(132)
            &&& value(v.my_paddle.y) == 240 * whole(1)
            &&& value(v.other_paddle.x) == 680 * whole(1)
            &&& value(v.other_paddle.y) == 240 * whole(1)
            &&& value(v.puck.x) == 400 * whole(1)
            &&& value(v.puck.y) == 240 * whole(1)
            &&& value(v.puck.vx) == 140 * whole(1)
            &&& value(v.puck.vy) == 60 * whole(1)
        }),
{
    matches_start_in_place();
}

/// A match is joined as it is opened, from the other side: the same puck, 0:0,
/// not over, nobody known, and each paddle the other's.
pub proof fn joining_mirrors_opening<A>(target: Option<A>)
    ensures
        ({
            let v = SessionView::joined(target);
            let w = SessionView::<A>::opened();
            &&& v.host != w.host
            &&& v.score_left == 0 && v.score_right == 0 && !v.game_over
            &&& v.puck == w.puck
            &&& v.my_paddle == w.other_paddle
            &&& v.other_paddle == w.my_paddle
            &&& v.known_peer is None
            &&& v.target == target
            &&& v.recv_count == 0
        }),
{
}

/// A host's score is between 0 and 13 for each player, 13 for at most one of
/// them, and the match is over once one has 13.
pub proof fn host_scores_are_fair<A>(v: SessionView<A>)
    requires
        v.valid(),
        v.host,
    ensures
        v.target is None,
        0 <= v.score_left <= 13,
        0 <= v.score_right <= 13,
        v.score_left + v.score_right <= 25,
        v.game_over == (v.score_left == 13 || v.score_right == 13),
{
}

/// Who plays, who waits and who may steer: only a host whose match is not over
/// moves the puck, only a host that has heard from nobody waits, and anybody
/// steers by the keys until the match is over, and not at all from then on.
pub proof fn turns_are_fixed<A>(v: SessionView<A>, keys: Keys)
    ensures
        v.rallying() == (v.host && !v.game_over),
        v.awaiting() == (v.host && v.known_peer is None),
        v.game_over ==> v.steering(keys) == (0u32, 0u32),
        !v.game_over ==> v.steering(keys) == direction(keys),
{
}

/// Steering takes the player's paddle where it is wanted, or to the bound that
/// this is past: 18 to 382 on the left, 418 to 782 on the right, 18 to 462 in
/// height.
pub proof fn steering_reaches_the_wanted_place<A>(v: SessionView<A>, wanted: PaddleState)
    ensures
        ({
            let x = v.steered(wanted).my_paddle.x;
            let low = (if v.host {
                18int
            } else {
                418
            }) * whole(1);
            let high = (if v.host {
                382int
            } else {
                782
            }) * whole(1);
            &&& !is_nan(x)
            &&& !is_nan(wanted.x) && low <= value(wanted.x) <= high ==> x == wanted.x
            &&& !is_nan(wanted.x) && value(wanted.x) < low ==> value(x) == low
            &&& is_nan(wanted.x) || value(wanted.x) > high ==> value(x) == high
        }),
        ({
            let y = v.steered(wanted).my_paddle.y;
            let low = 18 * whole(1);
            let high = 462 * whole(1);
            &&& !is_nan(y)
            &&& !is_nan(wanted.y) && low <= value(wanted.y) <= high ==> y == wanted.y
            &&& !is_nan(wanted.y) && value(wanted.y) < low ==> value(y) == low
            &&& is_nan(wanted.y) || value(wanted.y) > high ==> value(y) == high
        }),
{
    paddles_stop_at_their_bounds(wanted.x);
    paddles_stop_at_their_bounds(wanted.y);
}

/// Steering leaves the other player's paddle where it is if that is in its half,
/// moves it along the rink to the bound it is past otherwise, and never changes
/// its height; wherever the player steers to, the other paddle ends up in the
/// same place, and nothing else of the match changes.
pub proof fn steering_lets_the_rest_be<A>(
    v: SessionView<A>,
    wanted: PaddleState,
    elsewhere: PaddleState,
)
    ensures
        ({
            let w = v.steered(wanted);
            let x = v.other_paddle.x;
            let low = (if v.host {
                418int
            } else {
                18
            }) * whole(1);
            let high = (if v.host {
                782int
            } else {
                382
            }) * whole(1);
            &&& !is_nan(x) && low <= value(x) <= high ==> w.other_paddle == v.other_paddle
            &&& !is_nan(x) && value(x) < low ==> value(w.other_paddle.x) == low
            &&& is_nan(x) || value(x) > high ==> value(w.other_paddle.x) == high
            &&& !is_nan(w.other_paddle.x)
            &&& w.other_paddle.y == v.other_paddle.y
            &&& w.other_paddle == v.steered(elsewhere).other_paddle
            &&& w == (SessionView { my_paddle: w.my_paddle, other_paddle: w.other_paddle, ..v })
        }),
        v.steered(wanted).steered(v.steered(wanted).my_paddle) == v.steered(wanted),
{
    paddles_stop_at_their_bounds(v.other_paddle.x);
    paddles_stop_at_their_bounds(wanted.x);
    paddles_stop_at_their_bounds(wanted.y);
    paddles_stop_at_their_bounds(v.steered(wanted).other_paddle.x);
    paddles_stop_at_their_bounds(v.steered(wanted).my_paddle.x);
    paddles_stop_at_their_bounds(v.steered(wanted).my_paddle.y);
    rink_measures();
}

/// What a side tells of the match is what it has: its own paddle first, then
/// the other's, the puck, the score and whether the match is over.
pub proof fn snapshots_tell_the_match<A>(v: SessionView<A>)
    ensures
        v.snapshot() matches Packet::State {
            paddle,
            opponent,
            puck,
            score_left,
            score_right,
            game_over,
        } && {
            &&& paddle == v.my_paddle
            &&& opponent == v.other_paddle
            &&& puck == v.puck
            &&& score_left == v.score_left
            &&& score_right == v.score_right
            &&& game_over == v.game_over
        },
{
}

/// A greeting makes its sender known to either side, is answered with the match,
/// and changes nothing else.
pub proof fn greetings_are_answered<A>(v: SessionView<A>, from: A)
    requires
        v.recv_count < usize::MAX,
    ensures
        ({
            let w = v.received(from, Packet::Hello);
            &&& w.known_peer == Some(from)
            &&& w.recv_count == v.recv_count + 1
            &&& w == (SessionView { known_peer: w.known_peer, recv_count: w.recv_count, ..v })
            &&& v.reply(Packet::Hello) == Some(v.snapshot())
            &&& v.reply(Packet::Hello) == Some(w.snapshot())
        }),
{
}

/// A paddle that comes in is the other player's to a host, and nothing to a
/// client; it is not answered, and makes nobody known.
pub proof fn paddles_are_for_the_host<A>(v: SessionView<A>, from: A, paddle: PaddleState)
    requires
        v.recv_count < usize::MAX,
    ensures
        ({
            let w = v.received(from, Packet::Input(paddle));
            &&& v.host ==> w.other_paddle == paddle
            &&& !v.host ==> w.other_paddle == v.other_paddle
            &&& w.recv_count == v.recv_count + 1
            &&& w == (SessionView { other_paddle: w.other_paddle, recv_count: w.recv_count, ..v })
            &&& v.reply(Packet::Input(paddle)) is None
        }),
{
}

/// A match that comes in is taken over by a client, all but its own paddle, and
/// makes its sender known; to a host it is nothing. It is not answered.
pub proof fn matches_are_for_the_client<A>(v: SessionView<A>, from: A, packet: Packet)
    requires
        v.recv_count < usize::MAX,
        packet is State,
    ensures
        ({
            let w = v.received(from, packet);
            &&& !v.host ==> {
                &&& w.known_peer == Some(from)
                &&& w.other_paddle == packet->paddle
                &&& w.puck == packet->puck
                &&& w.score_left == packet->score_left
                &&& w.score_right == packet->score_right
                &&& w.game_over == packet->game_over
                &&& w.my_paddle == v.my_paddle
                &&& w.target == v.target
                &&& !w.host
            }
            &&& v.host ==> w == (SessionView { recv_count: w.recv_count, ..v })
            &&& w.recv_count == v.recv_count + 1
            &&& v.reply(packet) is None
        }),
{
}

/// A rally goes by where the puck has come to. Past the left end between 160
/// and 320 the right player scores, past the right end there the left one, and
/// nobody scores anywhere else; the match is over once somebody has 13.
pub proof fn goals_go_by_position<A>(v: SessionView<A>, puck: PuckState)
    requires
        v.valid(),
        v.rallying(),
    ensures
        ({
            let w = v.rallied(puck);
            let left = !is_nan(puck.x) && value(puck.x) < 12 * whole(1);
            let right = !is_nan(puck.x) && value(puck.x) > 788 * whole(1);
            let goal = !is_nan(puck.y) && 160 * whole(1) <= value(puck.y) <= 320 * whole(1);
            &&& left && goal ==> w.score_right == v.score_right + 1
            &&& !(left && goal) ==> w.score_right == v.score_right
            &&& right && goal ==> w.score_left == v.score_left + 1
            &&& !(right && goal) ==> w.score_left == v.score_left
            &&& w.game_over == (w.score_left == 13 || w.score_right == 13)
            &&& w == (SessionView {
                puck: w.puck,
                score_left: w.score_left,
                score_right: w.score_right,
                game_over: w.game_over,
                ..v
            })
        }),
{
    ends_go_by_position(puck);
}

/// After a rally, the puck is back from a wall, moving the other way; served
/// from the centre after a goal; and otherwise as it was.
pub proof fn rallies_leave_the_puck_in_play<A>(v: SessionView<A>, puck: PuckState)
    ensures
        ({
            let r = v.rallied(puck).puck;
            let left = !is_nan(puck.x) && value(puck.x) < 12 * whole(1);
            let right = !is_nan(puck.x) && value(puck.x) > 788 * whole(1);
            let goal = !is_nan(puck.y) && 160 * whole(1) <= value(puck.y) <= 320 * whole(1);
            &&& left && !goal ==> value(r.x) == 12 * whole(1)
            &&& right && !goal ==> value(r.x) == 788 * whole(1)
            &&& (left || right) && !goal ==> {
                &&& r.y == puck.y && r.vy == puck.vy
                &&& r.vx - puck.vx == 0x8000_0000 || puck.vx - r.vx == 0x8000_0000
            }
            &&& (left || right) && goal ==> {
                &&& value(r.x) == 400 * whole(1)
                &&& value(r.y) == 240 * whole(1)
                &&& left ==> value(r.vx) == 160 * whole(1) && value(r.vy) == 30 * whole(1)
                &&& right ==> value(r.vx) == -160 * whole(1) && value(r.vy) == -30 * whole(1)
            }
            &&& !left && !right ==> r == puck
            &&& !is_nan(puck.x) ==> !is_nan(r.x) && 12 * whole(1) <= value(r.x) <= 788 * whole(1)
        }),
{
    ends_turn_or_serve_the_puck(puck);
    rink_measures();
}

/// Where the rally's work stands is a matter of the work done and of the puck
/// it has brought about, which only the walls change on the way.
pub proof fn work_goes_on<A>(v: SessionView<A>, work: Work, puck: PuckState)
    ensures
        v.first_work() == (Work::Drift { puck: v.puck }),
        work is Drift ==> {
            &&& v.next_work(work, puck) is StrikeOwn
            &&& v.next_work(work, puck)->StrikeOwn_paddle == v.my_paddle
            &&& v.next_work(work, puck)->StrikeOwn_puck == bounced(puck)
        },
        work is StrikeOwn ==> v.next_work(work, puck) == (Work::StrikeOther {
            paddle: v.other_paddle,
            puck,
        }),
        work is StrikeOther ==> v.next_work(work, puck) == (Work::Settle { puck }),
        work is Settle ==> v.next_work(work, puck) == work,
{
}

/// A host that is asked to start a finished match over does so, with the score
/// back at 0:0 and the puck in its starting place; nothing else starts a match
/// over, and nothing else of it changes in a frame without a rally.
pub proof fn restarts_begin_at_nil<A>(v: SessionView<A>, restart: bool)
    ensures
        ({
            let w = v.idled(restart);
            let over = restart && v.host && v.game_over;
            &&& over ==> {
                &&& w.score_left == 0 && w.score_right == 0 && !w.game_over
                &&& value(w.puck.x) == 400 * whole(1)
                &&& value(w.puck.y) == 240 * whole(1)
                &&& value(w.puck.vx) == 140 * whole(1)
                &&& value(w.puck.vy) == 60 * whole(1)
                &&& w == (SessionView {
                    puck: w.puck,
                    score_left: w.score_left,
                    score_right: w.score_right,
                    game_over: w.game_over,
                    ..v
                })
            }
            &&& !over ==> w == v
        }),
{
    matches_start_in_place();
}

/// A rally sends the match to the player that was heard from, and nothing where
/// nobody was.
pub proof fn rallies_tell_the_known_player<A>(v: SessionView<A>)
    ensures
        v.known_peer is None ==> v.rally_sends().len() == 0,
        v.known_peer is Some ==> {
            &&& v.rally_sends().len() == 1
            &&& v.rally_sends()[0].to == v.known_peer->0
            &&& v.rally_sends()[0].message == Message::Packet(v.snapshot())
        },
{
}

/// A side whose match is over, or a client, tells a player it has heard from
/// where its paddle is, last of all; before that, and only if it has just
/// started the match over, the match as it now is.
pub proof fn known_players_are_told_the_paddle<A>(v: SessionView<A>, restart: bool, due: bool)
    requires
        v.known_peer is Some,
    ensures
        ({
            let sends = v.idle_sends(restart, due);
            let input = Outgoing {
                to: v.known_peer->0,
                message: Message::Packet(Packet::Input(v.my_paddle)),
            };
            let state = Outgoing {
                to: v.known_peer->0,
                message: Message::Packet(v.idled(restart).snapshot()),
            };
            &&& restart && v.host && v.game_over ==> sends == seq![state, input]
            &&& !(restart && v.host && v.game_over) ==> sends == seq![input]
            &&& v.idle_sends(restart, !due) == sends
        }),
{
}

/// A client that has heard from nobody sends, to its target and to nobody else,
/// the two greetings when they are due, and a note in any case; without a
/// target, nothing.
pub proof fn unknown_hosts_are_greeted<A>(v: SessionView<A>, restart: bool, due: bool)
    requires
        v.known_peer is None,
    ensures
        ({
            let sends = v.idle_sends(restart, due);
            &&& v.target is None ==> sends.len() == 0 && v.greetings().len() == 0
            &&& v.target matches Some(to) ==> {
                let hello = Outgoing { to, message: Message::Packet(Packet::Hello) };
                let note = Outgoing { to, message: Message::DebugHello };
                let force = Outgoing { to, message: Message::ForceDebugHello };
                &&& v.greetings() == seq![hello, note]
                &&& due ==> sends == seq![hello, note, force]
                &&& !due ==> sends == seq![force]
            }
        }),
{
}

/// A frame says that it greets where a greeting is among what it sends.
pub proof fn greeted_means_greeting<A>(v: SessionView<A>, restart: bool, due: bool)
    ensures
        v.greets(due) == exists|i: int|
            0 <= i < v.idle_sends(restart, due).len() && (#[trigger] v.idle_sends(
                restart,
                due,
            )[i]).message == Message::Packet(Packet::Hello),
{
    let sends = v.idle_sends(restart, due);
    if v.greets(due) {
        assert(sends[0].message == Message::Packet(Packet::Hello));
    }
}

/// The notes are the ASCII of their names.
pub proof fn notes_are_ascii()
    ensures
        debug_hello().len() == "DEBUG_HELLO"@.len(),
        forall|i: int|
            0 <= i < debug_hello().len() ==> #[trigger] debug_hello()[i] == "DEBUG_HELLO"@[i] as u8,
        force_debug_hello().len() == "FORCE_DEBUG_HELLO"@.len(),
        forall|i: int|
            0 <= i < force_debug_hello().len() ==> #[trigger] force_debug_hello()[i]
                == "FORCE_DEBUG_HELLO"@[i] as u8,
        Message::DebugHello.wire() == debug_hello(),
        Message::ForceDebugHello.wire() == force_debug_hello(),
{
    reveal_strlit("DEBUG_HELLO");
    reveal_strlit("FORCE_DEBUG_HELLO");
}

/// Bytes that start with those of a packet do what the packet does and are
/// answered as it is; bytes that are no packet change nothing and are said to
/// be none.
pub proof fn bytes_do_what_their_packet_does<A>(
    v: SessionView<A>,
    from: A,
    packet: Packet,
    rest: Seq<u8>,
    data: Seq<u8>,
)
    ensures
        ({
            let (w, r) = v.heard(from, packet.wire() + rest);
            &&& w == v.received(from, packet)
            &&& r is Ok && r->Ok_0.packet == packet
            &&& r is Ok && r->Ok_0.reply == v.reply(packet)
        }),
        parsed(data) matches Err(e) ==> v.heard(from, data).0 == v && v.heard(from, data).1
            == Err::<Receipt, PacketError>(e),
        v.heard(from, debug_hello()).0 == v,
        v.heard(from, force_debug_hello()).0 == v,
{
    packet_reads_back(packet, rest);
    notes_are_no_packets(Message::DebugHello);
    notes_are_no_packets(Message::ForceDebugHello);
}

/// A packet is sent as its own bytes, with nothing before or after them.
pub proof fn packets_are_sent_bare(packet: Packet)
    ensures
        Message::Packet(packet).wire() == packet.wire(),
{
}

/// Greetings go to the target and nowhere else, whatever has come in; two sides
/// with one target greet alike.
pub proof fn greetings_go_to_the_target<A>(v: SessionView<A>, w: SessionView<A>)
    requires
        v.target == w.target,
    ensures
        v.greetings() == w.greetings(),
        v.target is None ==> v.greetings().len() == 0,
        v.target matches Some(to) ==> {
            &&& v.greetings().len() == 2
            &&& v.greetings()[0] == (Outgoing { to, message: Message::Packet(Packet::Hello) })
            &&& v.greetings()[1] == (Outgoing { to, message: Message::DebugHello })
        },
{
}

} // verus!
