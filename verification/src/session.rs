//! A match as one of its two players sees it.
//!
//! The host plays on the left and decides: it moves the puck, keeps the score
//! and ends the match. The client plays on the right, tells the host where its
//! paddle is, and takes over what the host sends. Addresses are whatever the
//! caller names the other player by.

use crate::packet::{parsed, Packet, PacketError};
use crate::rink::{
    bounce_off_walls, bounced, direction, edge_of, heading, keep_between_walls, keep_in_half, kept_between_walls,
    kept_in_half, left_start, puck_start, right_start, settle_at_ends, settled, start_left,
    start_puck, start_right, Edge, Keys, PaddleState, PuckState, ZERO,
};
use crate::scalar::Scalar;
use vstd::prelude::*;

verus! {

/// The score that ends a match.
pub const WINNING_SCORE: i32 = 13;

/// What one player sends the other: a packet, or one of two notes that are no
/// packets, which show up in a capture of the traffic.
#[derive(Clone, Copy, Debug, PartialEq, Eq, Structural)]
pub enum Message {
    Packet(Packet),
    DebugHello,
    ForceDebugHello,
}

/// `DEBUG_HELLO`, in ASCII.
pub open spec fn debug_hello() -> Seq<u8> {
    seq![0x44, 0x45, 0x42, 0x55, 0x47, 0x5f, 0x48, 0x45, 0x4c, 0x4c, 0x4f]
}

/// `FORCE_DEBUG_HELLO`, in ASCII.
pub open spec fn force_debug_hello() -> Seq<u8> {
    seq![0x46, 0x4f, 0x52, 0x43, 0x45, 0x5f] + debug_hello()
}

impl Message {
    /// The bytes of the message.
    pub open spec fn wire(self) -> Seq<u8> {
        match self {
            Message::Packet(packet) => packet.wire(),
            Message::DebugHello => debug_hello(),
            Message::ForceDebugHello => force_debug_hello(),
        }
    }

    /// The bytes to send.
    pub fn bytes(&self) -> (r: Vec<u8>)
        ensures
            r@ == self.wire(),
    {
        match *self {
            Message::Packet(packet) => packet.encode(),
            Message::DebugHello => {
                vec![0x44, 0x45, 0x42, 0x55, 0x47, 0x5f, 0x48, 0x45, 0x4c, 0x4c, 0x4f]
            },
            Message::ForceDebugHello => {
                vec![
                    0x46, 0x4f, 0x52, 0x43, 0x45, 0x5f, 0x44, 0x45, 0x42, 0x55, 0x47, 0x5f, 0x48,
                    0x45, 0x4c, 0x4c, 0x4f,
                ]
            },
        }
    }
}

/// A message and whom it goes to.
#[derive(Debug, PartialEq, Eq)]
pub struct Outgoing<A> {
    pub to: A,
    pub message: Message,
}

/// A packet that came in, and the one to answer its sender with.
#[derive(Clone, Copy, Debug, PartialEq, Eq, Structural)]
pub struct Receipt {
    pub packet: Packet,
    pub reply: Option<Packet>,
}

/// What a frame without a rally sends, and whether it greets the host again.
#[derive(Debug, PartialEq, Eq)]
pub struct IdleFrame<A> {
    pub sends: Vec<Outgoing<A>>,
    pub greeted: bool,
}

/// What is to be done next to the puck in a rally. The caller does it and hands
/// in the puck it comes to.
#[derive(Clone, Copy, Debug, PartialEq, Eq, Structural)]
pub enum Work {
    /// Move the puck on by its velocity.
    Drift { puck: PuckState },
    /// Let the puck rebound from this player's paddle.
    StrikeOwn { paddle: PaddleState, puck: PuckState },
    /// Let the puck rebound from the other player's paddle.
    StrikeOther { paddle: PaddleState, puck: PuckState },
    /// Nothing: the puck is ready for the ends of the rink.
    Settle { puck: PuckState },
}

/// A score that a host can have come to: nobody is past the winning score, at
/// most one player has it, and the match is over once one does.
pub open spec fn fair(score_left: i32, score_right: i32, game_over: bool) -> bool {
    &&& 0 <= score_left <= WINNING_SCORE
    &&& 0 <= score_right <= WINNING_SCORE
    &&& game_over == (score_left == WINNING_SCORE || score_right == WINNING_SCORE)
    &&& !(score_left == WINNING_SCORE && score_right == WINNING_SCORE)
}

/// All there is to know of a player's side of a match.
pub struct SessionView<A> {
    pub host: bool,
    pub my_paddle: PaddleState,
    pub other_paddle: PaddleState,
    pub puck: PuckState,
    pub score_left: i32,
    pub score_right: i32,
    pub game_over: bool,
    /// Whom this player has heard from.
    pub known_peer: Option<A>,
    /// Where a client looks for its host, if that is an address.
    pub target: Option<A>,
    /// How many packets have come in.
    pub recv_count: usize,
}

impl<A> SessionView<A> {
    /// A match that a host has just opened.
    pub open spec fn opened() -> Self {
        SessionView {
            host: true,
            my_paddle: left_start(),
            other_paddle: right_start(),
            puck: puck_start(),
            score_left: 0,
            score_right: 0,
            game_over: false,
            known_peer: None,
            target: None,
            recv_count: 0,
        }
    }

    /// A match that a client has just asked to join.
    pub open spec fn joined(target: Option<A>) -> Self {
        SessionView {
            host: false,
            my_paddle: right_start(),
            other_paddle: left_start(),
            target,
            ..Self::opened()
        }
    }

    /// What holds of every side of every match.
    pub open spec fn valid(self) -> bool {
        self.host ==> self.target is None && fair(
            self.score_left,
            self.score_right,
            self.game_over,
        )
    }

    /// Whether this side moves the puck.
    pub open spec fn rallying(self) -> bool {
        self.host && !self.game_over
    }

    /// Whether this side waits for the other player to be heard from.
    pub open spec fn awaiting(self) -> bool {
        self.host && self.known_peer is None
    }

    /// The direction in which the keys move this player's paddle.
    pub open spec fn steering(self, keys: Keys) -> (Scalar, Scalar) {
        if self.game_over {
            (ZERO, ZERO)
        } else {
            direction(keys)
        }
    }

    /// Whether a frame without a rally greets the host.
    pub open spec fn greets(self, due: bool) -> bool {
        due && self.known_peer is None && self.target is Some
    }

    /// The match, as this side tells it.
    pub open spec fn snapshot(self) -> Packet {
        Packet::State {
            paddle: self.my_paddle,
            opponent: self.other_paddle,
            puck: self.puck,
            score_left: self.score_left,
            score_right: self.score_right,
            game_over: self.game_over,
        }
    }

    /// Once the player has steered its paddle to `wanted`: each paddle is kept
    /// in its half, and the player's own between the walls.
    pub open spec fn steered(self, wanted: PaddleState) -> Self {
        SessionView {
            my_paddle: PaddleState {
                x: kept_in_half(wanted.x, self.host),
                y: kept_between_walls(wanted.y),
            },
            other_paddle: PaddleState {
                x: kept_in_half(self.other_paddle.x, !self.host),
                ..self.other_paddle
            },
            ..self
        }
    }

    /// Once `packet` has come in from `from`. A greeting makes its sender known
    /// to either side; a host takes over the other player's paddle, a client
    /// the whole match, and neither takes over what is not for it.
    pub open spec fn received(self, from: A, packet: Packet) -> Self {
        let counted = SessionView { recv_count: (self.recv_count + 1) as usize, ..self };
        match packet {
            Packet::Hello => SessionView { known_peer: Some(from), ..counted },
            Packet::Input(paddle) => if self.host {
                SessionView { other_paddle: paddle, ..counted }
            } else {
                counted
            },
            Packet::State { paddle, puck, score_left, score_right, game_over, .. } => if self.host {
                counted
            } else {
                SessionView {
                    known_peer: Some(from),
                    other_paddle: paddle,
                    puck,
                    score_left,
                    score_right,
                    game_over,
                    ..counted
                }
            },
        }
    }

    /// Once `data` has come in from `from`, and what is said of it.
    pub open spec fn heard(self, from: A, data: Seq<u8>) -> (Self, Result<Receipt, PacketError>) {
        match parsed(data) {
            Ok(packet) => (
                self.received(from, packet),
                Ok(Receipt { packet, reply: self.reply(packet) }),
            ),
            Err(e) => (self, Err(e)),
        }
    }

    /// What `packet` is answered with.
    pub open spec fn reply(self, packet: Packet) -> Option<Packet> {
        if packet is Hello {
            Some(self.snapshot())
        } else {
            None
        }
    }

    /// Once the puck has moved to `puck` within the frame: it is taken off the
    /// ends of the rink, a goal counts for the player on the other side, and
    /// the winning score ends the match.
    pub open spec fn rallied(self, puck: PuckState) -> Self {
        let left = if edge_of(puck) is RightGoal {
            (self.score_left + 1) as i32
        } else {
            self.score_left
        };
        let right = if edge_of(puck) is LeftGoal {
            (self.score_right + 1) as i32
        } else {
            self.score_right
        };
        SessionView {
            puck: settled(puck),
            score_left: left,
            score_right: right,
            game_over: left >= WINNING_SCORE || right >= WINNING_SCORE,
            ..self
        }
    }

    /// What is to be done to the puck first in a frame.
    pub open spec fn first_work(self) -> Work {
        Work::Drift { puck: self.puck }
    }

    /// What is to be done once `work` has brought the puck to `puck`: it drifts,
    /// comes off the upper and the lower wall, and rebounds from this player's
    /// paddle and then from the other's.
    pub open spec fn next_work(self, work: Work, puck: PuckState) -> Work {
        match work {
            Work::Drift { .. } => Work::StrikeOwn { paddle: self.my_paddle, puck: bounced(puck) },
            Work::StrikeOwn { .. } => Work::StrikeOther { paddle: self.other_paddle, puck },
            Work::StrikeOther { .. } => Work::Settle { puck },
            Work::Settle { .. } => work,
        }
    }

    /// Whether the restart key has the host start over.
    pub open spec fn restarts(self, restart: bool) -> bool {
        restart && self.host && self.game_over
    }

    /// Once a frame without a rally has passed.
    pub open spec fn idled(self, restart: bool) -> Self {
        if self.restarts(restart) {
            SessionView {
                puck: puck_start(),
                score_left: 0,
                score_right: 0,
                game_over: false,
                ..self
            }
        } else {
            self
        }
    }

    /// What a client sends to be noticed by its host.
    pub open spec fn greetings(self) -> Seq<Outgoing<A>> {
        match self.target {
            Some(to) => seq![
                Outgoing { to, message: Message::Packet(Packet::Hello) },
                Outgoing { to, message: Message::DebugHello },
            ],
            None => seq![],
        }
    }

    /// What a frame with a rally sends: the match, to a known player.
    pub open spec fn rally_sends(self) -> Seq<Outgoing<A>> {
        match self.known_peer {
            Some(to) => seq![Outgoing { to, message: Message::Packet(self.snapshot()) }],
            None => seq![],
        }
    }

    /// What a frame without a rally sends. To a known player: the match, if it
    /// has just been started over, and this player's paddle. To the host that a
    /// client still looks for: the greetings when they are `due`, and one more
    /// note.
    pub open spec fn idle_sends(self, restart: bool, due: bool) -> Seq<Outgoing<A>> {
        match (self.known_peer, self.target) {
            (Some(to), _) => (if self.restarts(restart) {
                self.idled(restart).rally_sends()
            } else {
                seq![]
            }) + seq![Outgoing { to, message: Message::Packet(Packet::Input(self.my_paddle)) }],
            (None, Some(to)) => (if due {
                self.greetings()
            } else {
                seq![]
            }) + seq![Outgoing { to, message: Message::ForceDebugHello }],
            (None, None) => seq![],
        }
    }
}

/// A player's side of a match.
#[derive(Debug)]
pub struct Session<A> {
    host: bool,
    my_paddle: PaddleState,
    other_paddle: PaddleState,
    puck: PuckState,
    score_left: i32,
    score_right: i32,
    game_over: bool,
    known_peer: Option<A>,
    target: Option<A>,
    recv_count: usize,
}

impl<A> View for Session<A> {
    type V = SessionView<A>;

    closed spec fn view(&self) -> SessionView<A> {
        SessionView {
            host: self.host,
            my_paddle: self.my_paddle,
            other_paddle: self.other_paddle,
            puck: self.puck,
            score_left: self.score_left,
            score_right: self.score_right,
            game_over: self.game_over,
            known_peer: self.known_peer,
            target: self.target,
            recv_count: self.recv_count,
        }
    }
}

impl<A> Session<A> {
    #[verifier::type_invariant]
    spec fn inv(self) -> bool {
        self@.valid()
    }
}

impl<A: Copy> Session<A> {
    /// A match opened as its host.
    pub fn host() -> (r: Self)
        ensures
            r@ == SessionView::<A>::opened(),
            r@.valid(),
    {
        Session {
            host: true,
            my_paddle: start_left(),
            other_paddle: start_right(),
            puck: start_puck(),
            score_left: 0,
            score_right: 0,
            game_over: false,
            known_peer: None,
            target: None,
            recv_count: 0,
        }
    }

    /// A match joined as a client, whose host is at `target`; `None` where what
    /// the player entered is no address.
    pub fn client(target: Option<A>) -> (r: Self)
        ensures
            r@ == SessionView::joined(target),
            r@.valid(),
    {
        Session {
            host: false,
            my_paddle: start_right(),
            other_paddle: start_left(),
            puck: start_puck(),
            score_left: 0,
            score_right: 0,
            game_over: false,
            known_peer: None,
            target,
            recv_count: 0,
        }
    }

    pub fn is_host(&self) -> (r: bool)
        ensures
            r == self@.host,
    {
        self.host
    }

    pub fn my_paddle(&self) -> (r: PaddleState)
        ensures
            r == self@.my_paddle,
    {
        self.my_paddle
    }

    pub fn other_paddle(&self) -> (r: PaddleState)
        ensures
            r == self@.other_paddle,
    {
        self.other_paddle
    }

    pub fn puck(&self) -> (r: PuckState)
        ensures
            r == self@.puck,
    {
        self.puck
    }

    pub fn score_left(&self) -> (r: i32)
        ensures
            r == self@.score_left,
    {
        self.score_left
    }

    pub fn score_right(&self) -> (r: i32)
        ensures
            r == self@.score_right,
    {
        self.score_right
    }

    pub fn game_over(&self) -> (r: bool)
        ensures
            r == self@.game_over,
    {
        self.game_over
    }

    pub fn known_peer(&self) -> (r: Option<A>)
        ensures
            r == self@.known_peer,
    {
        self.known_peer
    }

    pub fn recv_count(&self) -> (r: usize)
        ensures
            r == self@.recv_count,
    {
        self.recv_count
    }

    /// Whether the host has not heard from a client yet.
    pub fn awaits_client(&self) -> (r: bool)
        ensures
            r == self@.awaiting(),
            r == (self@.host && self@.known_peer is None),
    {
        self.host && self.known_peer.is_none()
    }

    /// Whether this side moves the puck in the frame.
    pub fn rallying(&self) -> (r: bool)
        ensures
            r == self@.rallying(),
    {
        self.host && !self.game_over
    }

    /// The match, as this side tells it.
    pub fn snapshot(&self) -> (r: Packet)
        ensures
            r == self@.snapshot(),
    {
        Packet::State {
            paddle: self.my_paddle,
            opponent: self.other_paddle,
            puck: self.puck,
            score_left: self.score_left,
            score_right: self.score_right,
            game_over: self.game_over,
        }
    }

    /// The direction in which the keys move this player's paddle: none once
    /// the match is over.
    pub fn steering(&self, keys: Keys) -> (r: (Scalar, Scalar))
        ensures
            r == self@.steering(keys),
            r == (if self@.game_over { (ZERO, ZERO) } else { direction(keys) }),
    {
        if self.game_over {
            (ZERO, ZERO)
        } else {
            heading(keys)
        }
    }

    /// Moves this player's paddle to `wanted`, as far as it may go, and puts
    /// the other one back into its half.
    pub fn steer(&mut self, wanted: PaddleState)
        ensures
            final(self)@ == old(self)@.steered(wanted),
            final(self)@.valid(),
    {
        proof {
            use_type_invariant(&*self);
        }
        self.my_paddle =
        PaddleState { x: keep_in_half(wanted.x, self.host), y: keep_between_walls(wanted.y) };
        self.other_paddle =
        PaddleState { x: keep_in_half(self.other_paddle.x, !self.host), y: self.other_paddle.y };
    }

    /// Takes in `packet` from `from`, and says what to answer.
    pub fn receive(&mut self, from: A, packet: Packet) -> (r: Option<Packet>)
        requires
            old(self)@.recv_count < usize::MAX,
        ensures
            final(self)@ == old(self)@.received(from, packet),
            final(self)@.valid(),
            r == old(self)@.reply(packet),
    {
        proof {
            use_type_invariant(&*self);
        }
        self.recv_count = self.recv_count + 1;
        match packet {
            Packet::Hello => {
                self.known_peer = Some(from);
                Some(self.snapshot())
            },
            Packet::Input(paddle) => {
                if self.host {
                    self.other_paddle = paddle;
                }
                None
            },
            Packet::State { paddle, puck, score_left, score_right, game_over, .. } => {
                if !self.host {
                    self.known_peer = Some(from);
                    self.other_paddle = paddle;
                    self.puck = puck;
                    self.score_left = score_left;
                    self.score_right = score_right;
                    self.game_over = game_over;
                }
                None
            },
        }
    }

    /// Takes in the bytes that came from `from`. Bytes that are no packet leave
    /// everything as it was.
    pub fn receive_bytes(&mut self, from: A, data: &[u8]) -> (r: Result<Receipt, PacketError>)
        requires
            old(self)@.recv_count < usize::MAX,
        ensures
            (final(self)@, r) == old(self)@.heard(from, data@),
            final(self)@.valid(),
            match parsed(data@) {
                Ok(packet) => {
                    &&& r == Ok::<Receipt, PacketError>(
                        (Receipt { packet, reply: old(self)@.reply(packet) }),
                    )
                    &&& final(self)@ == old(self)@.received(from, packet)
                },
                Err(e) => r == Err::<Receipt, PacketError>(e) && final(self)@ == old(self)@,
            },
    {
        proof {
            use_type_invariant(&*self);
        }
        match Packet::decode(data) {
            Ok(packet) => {
                let reply: Option<Packet> = self.receive(from, packet);
                Ok(Receipt { packet, reply })
            },
            Err(e) => Err(e),
        }
    }

    /// Starts the rally of a frame: says what is to be done to the puck first.
    pub fn begin_rally(&self) -> (r: Work)
        requires
            self@.rallying(),
        ensures
            r == self@.first_work(),
    {
        Work::Drift { puck: self.puck }
    }

    /// Goes on with the rally once `work` has brought the puck to `puck`.
    pub fn continue_rally(&self, work: Work, puck: PuckState) -> (r: Work)
        requires
            self@.rallying(),
        ensures
            r == self@.next_work(work, puck),
    {
        match work {
            Work::Drift { .. } => {
                Work::StrikeOwn { paddle: self.my_paddle, puck: bounce_off_walls(puck) }
            },
            Work::StrikeOwn { .. } => Work::StrikeOther { paddle: self.other_paddle, puck },
            Work::StrikeOther { .. } => Work::Settle { puck },
            Work::Settle { .. } => work,
        }
    }

    /// Ends a frame in which the puck has moved to `puck`, and says what to
    /// send.
    pub fn rally(&mut self, puck: PuckState) -> (r: Vec<Outgoing<A>>)
        requires
            old(self)@.rallying(),
        ensures
            final(self)@ == old(self)@.rallied(puck),
            final(self)@.valid(),
            r@ == final(self)@.rally_sends(),
    {
        proof {
            use_type_invariant(&*self);
        }
        let (settled_puck, edge) = settle_at_ends(puck);
        let left: i32 = match edge {
            Edge::RightGoal => self.score_left + 1,
            _ => self.score_left,
        };
        let right: i32 = match edge {
            Edge::LeftGoal => self.score_right + 1,
            _ => self.score_right,
        };
        *self =
        Session {
            host: self.host,
            my_paddle: self.my_paddle,
            other_paddle: self.other_paddle,
            puck: settled_puck,
            score_left: left,
            score_right: right,
            game_over: left >= WINNING_SCORE || right >= WINNING_SCORE,
            known_peer: self.known_peer,
            target: self.target,
            recv_count: self.recv_count,
        };
        self.state_to_peer()
    }

    fn state_to_peer(&self) -> (r: Vec<Outgoing<A>>)
        ensures
            r@ == self@.rally_sends(),
    {
        let mut sends: Vec<Outgoing<A>> = Vec::new();
        if let Some(to) = self.known_peer {
            sends.push(Outgoing { to, message: Message::Packet(self.snapshot()) });
        }
        sends
    }

    /// What a client sends to be noticed by its host: when it joins, and again
    /// until it is.
    pub fn greetings(&self) -> (r: Vec<Outgoing<A>>)
        ensures
            r@ == self@.greetings(),
    {
        let mut sends: Vec<Outgoing<A>> = Vec::new();
        if let Some(to) = self.target {
            sends.push(Outgoing { to, message: Message::Packet(Packet::Hello) });
            sends.push(Outgoing { to, message: Message::DebugHello });
        }
        sends
    }

    /// Ends a frame without a rally, and says what to send. `restart` is
    /// whether the restart key was pressed, `due` whether it is time to greet
    /// again.
    pub fn idle(&mut self, restart: bool, due: bool) -> (r: IdleFrame<A>)
        requires
            !old(self)@.rallying(),
        ensures
            final(self)@ == old(self)@.idled(restart),
            final(self)@.valid(),
            r.sends@ == old(self)@.idle_sends(restart, due),
            r.greeted == old(self)@.greets(due),
            r.greeted == (due && old(self)@.known_peer is None && old(self)@.target is Some),
    {
        proof {
            use_type_invariant(&*self);
        }
        let mut sends: Vec<Outgoing<A>> = Vec::new();
        let mut greeted: bool = false;
        if restart && self.host && self.game_over {
            *self =
            Session {
                host: self.host,
                my_paddle: self.my_paddle,
                other_paddle: self.other_paddle,
                puck: start_puck(),
                score_left: 0,
                score_right: 0,
                game_over: false,
                known_peer: self.known_peer,
                target: self.target,
                recv_count: self.recv_count,
            };
            sends = self.state_to_peer();
        }
        match (self.known_peer, self.target) {
            (Some(to), _) => {
                sends.push(
                    Outgoing { to, message: Message::Packet(Packet::Input(self.my_paddle)) },
                );
            },
            (None, Some(to)) => {
                if due {
                    sends = self.greetings();
                    greeted = true;
                }
                sends.push(Outgoing { to, message: Message::ForceDebugHello });
            },
            (None, None) => {},
        }
        IdleFrame { sends, greeted }
    }
}

} // verus!
