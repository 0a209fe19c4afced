//! Realtime connections. A connection negotiates the one channel it joins,
//! then relays between its socket and the channel's room until either
//! direction ends. The functions here decide each step; the sockets and
//! the tasks that wait on them belong to the caller.
//!
//! Three things are settled here on purpose:
//! - a frame that is no connect message is answered, and the connection
//!   goes on waiting for one; only a token that names nobody, the end of
//!   the socket or the caller's timeout ends a negotiation;
//! - a subscription that lags ends the outbound relay, and with it the
//!   connection, with the number of messages lost as the reason: lag is
//!   neither skipped nor hidden;
//! - joins, leaves and relayed actions go to the room as plain text.

use crate::auth::{decode_user_token, AuthError, Claims, Keys};
use crate::game::{Game, GameId, ROUND_HIGH_MIDI, ROUND_LOW_MIDI};
use crate::json::{find_integer, find_text, integer_at, json_members, member_views, parse_object,
    text_at, Member, MemberView};
use crate::rooms::{receiver_channel, Room};
use crate::text::{decimal, decimal_text, same_text};
use crate::user::{User, UserView};
use tokio::sync::broadcast::Receiver;
use vstd::prelude::*;

verus! {

/// Why a frame could not be read as a message.
#[derive(Clone, Copy, Debug, PartialEq, Eq, Structural)]
pub enum FrameError {
    /// The frame is not one JSON object.
    NotAnObject,
    /// A member that the message needs is absent or of the wrong kind.
    MissingField,
    /// The `type` member names no known message.
    UnknownType,
}

/// The first frame of a connection: the bearer's token and the channel to
/// join.
#[derive(Debug)]
pub struct ConnectMessage {
    pub token: String,
    pub channel: String,
}

/// A connect message with its texts as character sequences.
pub struct ConnectView {
    pub token: Seq<char>,
    pub channel: Seq<char>,
}

impl View for ConnectMessage {
    type V = ConnectView;

    open spec fn view(&self) -> ConnectView {
        ConnectView { token: self.token@, channel: self.channel@ }
    }
}

/// An action that a client sends once it has joined.
#[derive(Debug)]
pub enum AppMessage {
    StartGame { token: String, game_id: GameId },
}

/// An action with its texts as character sequences.
pub enum AppMessageView {
    StartGame { token: Seq<char>, game_id: GameId },
}

impl View for AppMessage {
    type V = AppMessageView;

    open spec fn view(&self) -> AppMessageView {
        match self {
            AppMessage::StartGame { token, game_id } => AppMessageView::StartGame {
                token: token@,
                game_id: *game_id,
            },
        }
    }
}

/// The connect message that an object's members make: strings under
/// `token` and `channel`. Other members are passed over.
pub open spec fn connect_in(members: Seq<MemberView>) -> Result<ConnectView, FrameError> {
    match (text_at(members, "token"@), text_at(members, "channel"@)) {
        (Some(token), Some(channel)) => Ok(ConnectView { token, channel }),
        _ => Err(FrameError::MissingField),
    }
}

/// What was read from a frame, by its view.
pub open spec fn connect_view(message: Result<ConnectMessage, FrameError>) -> Result<
    ConnectView,
    FrameError,
> {
    match message {
        Ok(m) => Ok(m@),
        Err(e) => Err(e),
    }
}

/// The connect message that a frame holds.
pub open spec fn connect_frame(frame: Seq<char>) -> Result<ConnectView, FrameError> {
    match json_members(frame) {
        Some(members) => connect_in(members),
        None => Err(FrameError::NotAnObject),
    }
}

/// The action that an object's members make. The string under `type`
/// chooses the action; `StartGame` needs a string under `token` and an
/// integer under `game_id`.
pub open spec fn action_in(members: Seq<MemberView>) -> Result<AppMessageView, FrameError> {
    match text_at(members, "type"@) {
        Some(tag) => if tag == "StartGame"@ {
            match (text_at(members, "token"@), integer_at(members, "game_id"@)) {
                (Some(token), Some(game_id)) => Ok(
                    AppMessageView::StartGame { token, game_id: game_id as i64 },
                ),
                _ => Err(FrameError::MissingField),
            }
        } else {
            Err(FrameError::UnknownType)
        },
        None => Err(FrameError::MissingField),
    }
}

/// The action that a frame holds.
pub open spec fn action_frame(frame: Seq<char>) -> Result<AppMessageView, FrameError> {
    match json_members(frame) {
        Some(members) => action_in(members),
        None => Err(FrameError::NotAnObject),
    }
}

/// Reads a connect message from the members of a frame.
pub fn connect_from_members(members: &Vec<Member>) -> (r: Result<ConnectMessage, FrameError>)
    ensures
        match r {
            Ok(message) => connect_in(member_views(members@)) == Ok::<ConnectView, FrameError>(
                message@,
            ),
            Err(e) => connect_in(member_views(members@)) == Err::<ConnectView, FrameError>(e),
        },
{
    let token = match find_text(members, "token") {
        Some(token) => token,
        None => { return Err(FrameError::MissingField); },
    };
    let channel = match find_text(members, "channel") {
        Some(channel) => channel,
        None => { return Err(FrameError::MissingField); },
    };
    Ok(ConnectMessage { token, channel })
}

/// Reads the frame that opens a connection.
pub fn decode_connect(frame: &str) -> (r: Result<ConnectMessage, FrameError>)
    ensures
        match r {
            Ok(message) => connect_frame(frame@) == Ok::<ConnectView, FrameError>(message@),
            Err(e) => connect_frame(frame@) == Err::<ConnectView, FrameError>(e),
        },
{
    match parse_object(frame) {
        Some(members) => connect_from_members(&members),
        None => Err(FrameError::NotAnObject),
    }
}

/// Reads an action from the members of a frame.
pub fn action_from_members(members: &Vec<Member>) -> (r: Result<AppMessage, FrameError>)
    ensures
        match r {
            Ok(message) => action_in(member_views(members@)) == Ok::<AppMessageView, FrameError>(
                message@,
            ),
            Err(e) => action_in(member_views(members@)) == Err::<AppMessageView, FrameError>(e),
        },
{
    let tag = match find_text(members, "type") {
        Some(tag) => tag,
        None => { return Err(FrameError::MissingField); },
    };
    if !same_text(tag.as_str(), "StartGame") {
        return Err(FrameError::UnknownType);
    }
    let token = match find_text(members, "token") {
        Some(token) => token,
        None => { return Err(FrameError::MissingField); },
    };
    let game_id = match find_integer(members, "game_id") {
        Some(game_id) => game_id,
        None => { return Err(FrameError::MissingField); },
    };
    Ok(AppMessage::StartGame { token, game_id })
}

/// Reads a frame that a joined client sent.
pub fn decode_action(frame: &str) -> (r: Result<AppMessage, FrameError>)
    ensures
        match r {
            Ok(message) => action_frame(frame@) == Ok::<AppMessageView, FrameError>(message@),
            Err(e) => action_frame(frame@) == Err::<AppMessageView, FrameError>(e),
        },
{
    match parse_object(frame) {
        Some(members) => action_from_members(&members),
        None => Err(FrameError::NotAnObject),
    }
}

/// A text between double quotes with its special characters escaped, as
/// the `Debug` form of `str` writes it. It is not defined here.
pub uninterp spec fn debug_quoted(s: Seq<char>) -> Seq<char>;

/// Formats a text with `{:?}`, the `Debug` form of `str` in std. The
/// contract names the outcome `debug_quoted` and claims no more of it.
#[verifier::external_body]
fn quoted(s: &str) -> (r: String)
    ensures
        r@ == debug_quoted(s@),
{
    format!("{:?}", s)
}

/// The text that stands for a `StartGame` action in a room, given its
/// token between quotes.
pub open spec fn start_game_text(quoted_token: Seq<char>, game_id: int) -> Seq<char> {
    "StartGame { token: "@ + quoted_token + ", game_id: "@ + decimal_text(game_id) + " }"@
}

/// Writes a `StartGame` action for the room from its token between quotes
/// and its game id.
pub fn write_start_game(quoted_token: &str, game_id: GameId) -> (r: String)
    ensures
        r@ == start_game_text(quoted_token@, game_id as int),
{
    let mut r = "StartGame { token: ".to_owned();
    r.append(quoted_token);
    r.append(", game_id: ");
    r.append(decimal(game_id).as_str());
    r.append(" }");
    r
}

impl AppMessage {
    /// The text that stands for the action in a room.
    pub open spec fn room_text(message: AppMessageView) -> Seq<char> {
        match message {
            AppMessageView::StartGame { token, game_id } => start_game_text(
                debug_quoted(token),
                game_id as int,
            ),
        }
    }

    /// Writes the action as it is relayed to a room.
    pub fn debug_text(&self) -> (r: String)
        ensures
            r@ == AppMessage::room_text(self@),
    {
        match self {
            AppMessage::StartGame { token, game_id } => write_start_game(
                quoted(token.as_str()).as_str(),
                *game_id,
            ),
        }
    }
}

/// The announcement that a user has joined a channel.
pub open spec fn join_announcement(name: Seq<char>, channel: Seq<char>) -> Seq<char> {
    name + " joined "@ + channel
}

/// The announcement that a user has left.
pub open spec fn left_announcement(name: Seq<char>) -> Seq<char> {
    name + " left."@
}

/// The reply to a frame that is no connect message.
pub open spec fn parse_failure_reply() -> Seq<char> {
    "Failed to parse connect message"@
}

/// How many seconds a connection may take to name its channel.
pub const NEGOTIATION_TIMEOUT_SECS: u64 = 30;

/// Where a connection stands.
#[derive(Clone, Copy, Debug, PartialEq, Eq, Structural)]
pub enum Phase {
    /// Waiting for the frame that names the channel.
    Negotiating,
    /// Joined to a room, with both relays running.
    Relaying,
    /// Over.
    Closed,
}

/// The two directions of a joined connection.
#[derive(Clone, Copy, Debug, PartialEq, Eq, Structural)]
pub enum Relay {
    /// From the room to the socket.
    Outbound,
    /// From the socket to the room.
    Inbound,
}

impl Relay {
    pub open spec fn opposite(self) -> Relay {
        match self {
            Relay::Outbound => Relay::Inbound,
            Relay::Inbound => Relay::Outbound,
        }
    }

    /// The other direction.
    pub fn other(&self) -> (r: Relay)
        ensures
            r == self.opposite(),
    {
        match self {
            Relay::Outbound => Relay::Inbound,
            Relay::Inbound => Relay::Outbound,
        }
    }
}

/// Why a connection is over.
#[derive(Clone, Copy, Debug, PartialEq, Eq, Structural)]
pub enum CloseReason {
    /// The token of the connect message named nobody.
    Unauthorized,
    /// The socket gave no further text frame.
    SocketClosed,
    /// No connect message came within `NEGOTIATION_TIMEOUT_SECS`.
    TimedOut,
    /// A frame could not be written to the socket.
    SendFailed,
    /// The subscription fell behind and lost this many messages.
    Lagged(u64),
    /// The room has no publisher left.
    RoomClosed,
}

/// One connection: who it belongs to, the channel it joined if any, with
/// a handle to the channel's room, and where it stands.
#[derive(Debug)]
pub struct Connection {
    user: User,
    channel: Option<String>,
    room: Option<Room>,
    phase: Phase,
    reason: Option<CloseReason>,
}

/// A connection with its texts as character sequences.
pub struct ConnectionView {
    pub user: UserView,
    pub channel: Option<Seq<char>>,
    pub room: Option<Room>,
    pub phase: Phase,
    pub reason: Option<CloseReason>,
}

impl ConnectionView {
    /// A connection has a room only for the channel it was admitted to,
    /// has both from the moment it relays and no room before, and has a
    /// reason exactly when it is closed.
    pub open spec fn wf(self) -> bool {
        &&& self.phase == Phase::Negotiating ==> self.room is None
        &&& self.phase == Phase::Relaying ==> self.room is Some
        &&& self.room is Some ==> self.channel is Some
        &&& self.phase == Phase::Closed <==> self.reason is Some
    }

    /// Whether the connection still waits for its connect message.
    pub open spec fn awaits_connect(self) -> bool {
        self.phase == Phase::Negotiating && self.channel is None
    }

    /// Whether the connection was admitted to a channel and has not
    /// entered its room yet.
    pub open spec fn awaits_room(self) -> bool {
        self.phase == Phase::Negotiating && self.channel is Some
    }

    /// What a connect frame makes of a connection that waits for one, given
    /// the message in the frame and whether its token named a bearer. A
    /// frame without a message changes nothing; a token without a bearer
    /// closes the connection; otherwise the connection is admitted to the
    /// message's channel.
    pub open spec fn negotiated(
        self,
        message: Result<ConnectView, FrameError>,
        has_bearer: bool,
    ) -> ConnectionView {
        match message {
            Err(_) => self,
            Ok(m) => if has_bearer {
                ConnectionView { channel: Some(m.channel), ..self }
            } else {
                self.finished(CloseReason::Unauthorized)
            },
        }
    }

    /// The connection once it has entered the room of the channel it was
    /// admitted to.
    pub open spec fn entered(self, room: Room) -> ConnectionView {
        ConnectionView { room: Some(room), phase: Phase::Relaying, ..self }
    }

    /// The connection once a relay has ended, or the socket has before a
    /// channel was joined: closed for the given reason, unless it was
    /// closed already.
    pub open spec fn finished(self, reason: CloseReason) -> ConnectionView {
        if self.phase == Phase::Closed {
            self
        } else {
            ConnectionView { phase: Phase::Closed, reason: Some(reason), ..self }
        }
    }

    /// Whether ending a relay now makes the connection announce that its
    /// user has left.
    pub open spec fn announces_leaving(self) -> bool {
        self.phase == Phase::Relaying
    }
}

impl View for Connection {
    type V = ConnectionView;

    closed spec fn view(&self) -> ConnectionView {
        ConnectionView {
            user: self.user@,
            channel: match self.channel {
                Some(channel) => Some(channel@),
                None => None,
            },
            room: self.room,
            phase: self.phase,
            reason: self.reason,
        }
    }
}

/// What a socket yields.
#[derive(Debug)]
pub enum SocketEvent {
    /// A text frame.
    Text(String),
    /// A frame of another kind.
    Other,
    /// The socket has ended or failed.
    Closed,
}

/// What came of a socket event while negotiating.
#[derive(Debug)]
pub enum Negotiation {
    /// The frame was no connect message. `reply` goes back to the client,
    /// and the connection waits for another frame.
    Malformed { reply: String },
    /// The token named nobody. `reply` goes back to the client, and the
    /// connection is over.
    Unauthorized { reply: String },
    /// The connection was admitted to `channel`. Its room is to be looked
    /// up in the registry and entered.
    Admitted { channel: String },
    /// The frame was not text. It is passed over, and the connection
    /// waits for another frame.
    Ignored,
    /// The socket ended before a channel was named: the connection is
    /// over.
    Ended,
    /// The connection did not wait for a connect message: nothing was
    /// done.
    NotNegotiating,
}

/// What a connection holds once it has entered a room: a handle to the
/// room, a subscription to what is published from then on, and the
/// announcement that was published.
#[derive(Debug)]
pub struct Entry {
    pub room: Room,
    pub subscription: Receiver<String>,
    pub announcement: String,
}

/// What a subscription to a room yields.
#[derive(Debug)]
pub enum RoomEvent {
    /// The next message of the room.
    Message(String),
    /// This many messages were lost because the subscriber fell behind.
    Lagged(u64),
    /// The room has no publisher left.
    Closed,
}

/// A room event with its text as a character sequence.
pub enum RoomEventView {
    Message(Seq<char>),
    Lagged(u64),
    Closed,
}

impl View for RoomEvent {
    type V = RoomEventView;

    open spec fn view(&self) -> RoomEventView {
        match self {
            RoomEvent::Message(text) => RoomEventView::Message(text@),
            RoomEvent::Lagged(missed) => RoomEventView::Lagged(*missed),
            RoomEvent::Closed => RoomEventView::Closed,
        }
    }
}

/// What the outbound relay does next.
#[derive(Debug)]
pub enum OutboundStep {
    /// Write this text frame to the socket.
    Forward(String),
    /// End the relay.
    Finish(CloseReason),
}

/// What the inbound relay does next.
#[derive(Debug)]
pub enum InboundStep {
    /// The frame was an action: it was relayed to the room as `relayed`.
    Relayed { message: AppMessage, relayed: String },
    /// The frame was no action and was dropped.
    Dropped(FrameError),
    /// End the relay.
    Finish(CloseReason),
}

/// What ends with a connection: the relay still running is cancelled, and
/// `announcement` was published to the room.
#[derive(Debug)]
pub struct Teardown {
    pub cancel: Relay,
    pub announcement: String,
}

/// What to do about a `StartGame` action.
#[derive(Debug)]
pub enum StartDecision {
    /// The game was started: store it.
    Started(Game),
    /// The requester is not the game's host: the game is as it was, and
    /// nothing is stored.
    Refused(Game),
}

impl Connection {
    /// Opens a connection for the user that the socket's upgrade request
    /// named. A request that named nobody is turned away as unauthorized.
    pub fn open(identity: Option<User>) -> (r: Result<Connection, AuthError>)
        ensures
            match identity {
                Some(user) => r matches Ok(c) && c@ == (ConnectionView {
                    user: user@,
                    channel: None,
                    room: None,
                    phase: Phase::Negotiating,
                    reason: None,
                }),
                None => r matches Err(e) && e == AuthError::WrongCredentials,
            },
    {
        match identity {
            Some(user) => Ok(
                Connection {
                    user,
                    channel: None,
                    room: None,
                    phase: Phase::Negotiating,
                    reason: None,
                },
            ),
            None => Err(AuthError::WrongCredentials),
        }
    }

    /// The connection's view is well formed.
    pub open spec fn wf(&self) -> bool {
        self@.wf()
    }

    pub fn phase(&self) -> (r: Phase)
        ensures
            r == self@.phase,
    {
        self.phase
    }

    pub fn user(&self) -> (r: &User)
        ensures
            r@ == self@.user,
    {
        &self.user
    }

    /// The channel that the connection has joined, if it has.
    pub fn channel(&self) -> (r: Option<&str>)
        ensures
            match r {
                Some(channel) => self@.channel == Some(channel@),
                None => self@.channel is None,
            },
    {
        match &self.channel {
            Some(channel) => Some(channel.as_str()),
            None => None,
        }
    }

    pub fn close_reason(&self) -> (r: Option<CloseReason>)
        ensures
            r == self@.reason,
    {
        self.reason
    }

    /// Whether `outcome` is what a connect frame comes to, given the
    /// message in the frame and the bearer that its token named.
    pub open spec fn answers(
        outcome: Negotiation,
        message: Result<ConnectView, FrameError>,
        has_bearer: bool,
    ) -> bool {
        match message {
            Err(_) => outcome matches Negotiation::Malformed { reply } && reply@
                == parse_failure_reply(),
            Ok(m) => if has_bearer {
                outcome matches Negotiation::Admitted { channel } && channel@ == m.channel
            } else {
                outcome matches Negotiation::Unauthorized { reply } && reply@
                    == AuthError::InvalidToken.message_text()
            },
        }
    }

    /// Whether `outcome` and the state after it are what a connect frame
    /// comes to, given the message in the frame, whichever way the check
    /// of its token went.
    pub open spec fn settles(
        before: ConnectionView,
        after: ConnectionView,
        outcome: Negotiation,
        message: Result<ConnectView, FrameError>,
    ) -> bool {
        exists|has_bearer: bool|
            #![trigger before.negotiated(message, has_bearer)]
            Connection::answers(outcome, message, has_bearer) && after == before.negotiated(
                message,
                has_bearer,
            )
    }

    /// Decides a connect frame once it was read and its token checked:
    /// `message` is what the frame held and `bearer` what the check of the
    /// message's token gave (nothing where there was no message). A frame
    /// without a message is answered and leaves the connection waiting for
    /// another. A token without a bearer is answered and ends the
    /// connection. Otherwise the connection is admitted to the channel.
    /// Who the bearer is does not matter: the connection keeps the user it
    /// was opened for.
    pub fn negotiate(
        &mut self,
        message: Result<ConnectMessage, FrameError>,
        bearer: Option<Claims>,
    ) -> (outcome: Negotiation)
        requires
            old(self).wf(),
        ensures
            final(self).wf(),
            !old(self)@.awaits_connect() ==> outcome is NotNegotiating,
            !old(self)@.awaits_connect() ==> final(self)@ == old(self)@,
            old(self)@.awaits_connect() ==> Connection::answers(
                outcome,
                connect_view(message),
                bearer is Some,
            ),
            old(self)@.awaits_connect() ==> final(self)@ == old(self)@.negotiated(
                connect_view(message),
                bearer is Some,
            ),
    {
        if !self.awaits_connect_frame() {
            return Negotiation::NotNegotiating;
        }
        match message {
            Err(_) => Negotiation::Malformed {
                reply: "Failed to parse connect message".to_owned(),
            },
            Ok(message) => {
                if bearer.is_none() {
                    self.phase = Phase::Closed;
                    self.reason = Some(CloseReason::Unauthorized);
                    Negotiation::Unauthorized { reply: AuthError::InvalidToken.message() }
                } else {
                    self.channel = Some(message.channel.clone());
                    Negotiation::Admitted { channel: message.channel }
                }
            },
        }
    }

    /// Takes the frame that a negotiating connection received. A frame
    /// that is no connect message is answered, and the connection goes on
    /// waiting for one. The token of a connect message is checked against
    /// the clock, so which of the two other outcomes follows is not known
    /// beforehand. No room is looked up or made here.
    pub fn on_join_frame(&mut self, keys: &Keys, frame: &str) -> (outcome: Negotiation)
        requires
            old(self).wf(),
        ensures
            final(self).wf(),
            !old(self)@.awaits_connect() ==> outcome is NotNegotiating,
            !old(self)@.awaits_connect() ==> final(self)@ == old(self)@,
            old(self)@.awaits_connect() ==> Connection::settles(
                old(self)@,
                final(self)@,
                outcome,
                connect_frame(frame@),
            ),
            old(self)@.awaits_connect() && connect_frame(frame@) is Err ==> outcome is Malformed
                && final(self)@ == old(self)@,
    {
        if !self.awaits_connect_frame() {
            return Negotiation::NotNegotiating;
        }
        let message = decode_connect(frame);
        let bearer = match &message {
            Ok(m) => match decode_user_token(m.token.as_str(), keys) {
                Ok(claims) => Some(claims),
                Err(_) => None,
            },
            Err(_) => None,
        };
        let ghost has_bearer = bearer is Some;
        let outcome = self.negotiate(message, bearer);
        assert(self@ == old(self)@.negotiated(connect_frame(frame@), has_bearer));
        outcome
    }

    /// Takes what the socket of a negotiating connection yielded. A text
    /// frame is read as a connect message, see `on_join_frame`. A frame of
    /// another kind is passed over. The end of the socket ends the
    /// connection.
    pub fn on_socket_event(&mut self, keys: &Keys, event: SocketEvent) -> (outcome: Negotiation)
        requires
            old(self).wf(),
        ensures
            final(self).wf(),
            !old(self)@.awaits_connect() ==> outcome is NotNegotiating,
            !old(self)@.awaits_connect() ==> final(self)@ == old(self)@,
            old(self)@.awaits_connect() ==> match event {
                SocketEvent::Text(frame) => Connection::settles(
                    old(self)@,
                    final(self)@,
                    outcome,
                    connect_frame(frame@),
                ),
                SocketEvent::Other => outcome is Ignored && final(self)@ == old(self)@,
                SocketEvent::Closed => outcome is Ended && final(self)@ == old(self)@.finished(
                    CloseReason::SocketClosed,
                ),
            },
    {
        if !self.awaits_connect_frame() {
            return Negotiation::NotNegotiating;
        }
        match event {
            SocketEvent::Text(frame) => self.on_join_frame(keys, frame.as_str()),
            SocketEvent::Other => Negotiation::Ignored,
            SocketEvent::Closed => {
                self.phase = Phase::Closed;
                self.reason = Some(CloseReason::SocketClosed);
                Negotiation::Ended
            },
        }
    }

    /// Enters the room of the channel that the connection was admitted to:
    /// subscribes to it, then tells it that the user has joined. `room` is
    /// the channel's room as the registry gave it. A connection that was
    /// not admitted, or has entered before, is left as it is and gets
    /// nothing.
    pub fn enter(&mut self, room: Room) -> (r: Option<Entry>)
        requires
            old(self).wf(),
        ensures
            final(self).wf(),
            r is Some <==> old(self)@.awaits_room(),
            r is None ==> final(self)@ == old(self)@,
            r matches Some(entry) ==> {
                &&& final(self)@ == old(self)@.entered(room)
                &&& entry.room == room
                &&& receiver_channel(entry.subscription) == room.tx
                &&& entry.announcement@ == join_announcement(
                    old(self)@.user.name,
                    old(self)@.channel->0,
                )
            },
    {
        match self.phase {
            Phase::Negotiating => {},
            _ => { return None; },
        }
        let mut announcement = self.user.name.clone();
        match &self.channel {
            Some(channel) => {
                announcement.append(" joined ");
                announcement.append(channel.as_str());
            },
            None => { return None; },
        }
        let subscription = room.subscribe();
        let _ = room.publish(announcement.clone());
        self.room = Some(room.handle());
        self.phase = Phase::Relaying;
        Some(Entry { room, subscription, announcement })
    }

    fn awaits_connect_frame(&self) -> (r: bool)
        ensures
            r == self@.awaits_connect(),
    {
        match self.phase {
            Phase::Negotiating => self.channel.is_none(),
            _ => false,
        }
    }

    /// Ends the connection because the relay `ended` has, or because the
    /// socket did before a channel was joined. The first end of a relay
    /// cancels the other one and tells the room that the connection joined
    /// that the user has left; any later call finds the connection closed
    /// and does nothing. A connection that never joined is closed without
    /// a word.
    pub fn finish(&mut self, ended: Relay, reason: CloseReason) -> (r: Option<Teardown>)
        requires
            old(self).wf(),
        ensures
            final(self).wf(),
            final(self)@ == old(self)@.finished(reason),
            match r {
                Some(teardown) => old(self)@.announces_leaving() && teardown.cancel
                    == ended.opposite() && teardown.announcement@ == left_announcement(
                    old(self)@.user.name,
                ),
                None => !old(self)@.announces_leaving(),
            },
    {
        match self.phase {
            Phase::Closed => None,
            Phase::Negotiating => {
                self.phase = Phase::Closed;
                self.reason = Some(reason);
                None
            },
            Phase::Relaying => {
                self.phase = Phase::Closed;
                self.reason = Some(reason);
                let mut announcement = self.user.name.clone();
                announcement.append(" left.");
                if let Some(room) = &self.room {
                    let _ = room.publish(announcement.clone());
                }
                Some(Teardown { cancel: ended.other(), announcement })
            },
        }
    }
}

/// What can happen to a connection.
pub enum ConnectionEvent {
    /// A frame came while negotiating: what it held, and whether its
    /// token named a bearer.
    Frame { message: Result<ConnectView, FrameError>, has_bearer: bool },
    /// The room of the channel was handed over.
    Room(Room),
    /// A relay or the socket ended.
    End(CloseReason),
}

impl ConnectionView {
    /// The connection after an event, as `Connection::negotiate`, `enter`
    /// and `finish` leave it. An event that does not fit the connection's
    /// state changes nothing.
    pub open spec fn after(self, event: ConnectionEvent) -> ConnectionView {
        match event {
            ConnectionEvent::Frame { message, has_bearer } => if self.awaits_connect() {
                self.negotiated(message, has_bearer)
            } else {
                self
            },
            ConnectionEvent::Room(room) => if self.awaits_room() {
                self.entered(room)
            } else {
                self
            },
            ConnectionEvent::End(reason) => self.finished(reason),
        }
    }

    /// The connection after a run of events.
    pub open spec fn after_all(self, events: Seq<ConnectionEvent>) -> ConnectionView
        decreases events.len(),
    {
        if events.len() == 0 {
            self
        } else {
            self.after_all(events.drop_last()).after(events.last())
        }
    }

    /// How far a connection has come: negotiating, relaying, closed.
    pub open spec fn progress(self) -> int {
        match self.phase {
            Phase::Negotiating => 0,
            Phase::Relaying => 1,
            Phase::Closed => 2,
        }
    }
}

/// No event takes a connection back or changes what is settled: the state
/// stays well formed, never returns to an earlier phase, and keeps its
/// user, the channel it was admitted to, the room it entered and the
/// reason it closed for.
pub proof fn lemma_event_settles(c: ConnectionView, event: ConnectionEvent)
    requires
        c.wf(),
    ensures
        c.after(event).wf(),
        c.after(event).user == c.user,
        c.progress() <= c.after(event).progress(),
        c.channel is Some ==> c.after(event).channel == c.channel,
        c.room is Some ==> c.after(event).room == c.room,
        c.reason is Some ==> c.after(event) == c,
{
}

/// A connection belongs to at most one channel for its whole life: once it
/// was admitted to a channel, no run of events gives it another, and once
/// it entered a room, none gives it another room.
pub proof fn lemma_one_channel_for_life(c: ConnectionView, events: Seq<ConnectionEvent>)
    requires
        c.wf(),
    ensures
        c.after_all(events).wf(),
        c.after_all(events).user == c.user,
        c.progress() <= c.after_all(events).progress(),
        c.channel is Some ==> c.after_all(events).channel == c.channel,
        c.room is Some ==> c.after_all(events).room == c.room,
        c.reason is Some ==> c.after_all(events) == c,
    decreases events.len(),
{
    if events.len() > 0 {
        lemma_one_channel_for_life(c, events.drop_last());
        lemma_event_settles(c.after_all(events.drop_last()), events.last());
    }
}

/// How often a user's leaving is announced while a connection takes in a
/// run of ends, of either relay or of the socket, one after the other.
pub open spec fn leaving_announcements(c: ConnectionView, ends: Seq<CloseReason>) -> nat
    decreases ends.len(),
{
    if ends.len() == 0 {
        0
    } else {
        let now: nat = if c.announces_leaving() {
            1
        } else {
            0
        };
        now + leaving_announcements(c.finished(ends[0]), ends.drop_first())
    }
}

/// A connection that is not relaying never announces that its user has
/// left, whatever ends it takes in.
pub proof fn lemma_no_leaving_unless_relaying(c: ConnectionView, ends: Seq<CloseReason>)
    requires
        c.wf(),
        c.phase != Phase::Relaying,
    ensures
        leaving_announcements(c, ends) == 0,
    decreases ends.len(),
{
    if ends.len() > 0 {
        lemma_no_leaving_unless_relaying(c.finished(ends[0]), ends.drop_first());
    }
}

/// When a relay of a joined connection ends, the user's leaving is
/// announced exactly once: by the first end, in the step that also
/// cancels the other relay. However many ends follow, none announces it
/// again.
pub proof fn lemma_leaving_announced_once(c: ConnectionView, ends: Seq<CloseReason>)
    requires
        c.wf(),
        c.phase == Phase::Relaying,
        ends.len() >= 1,
    ensures
        leaving_announcements(c, ends) == 1,
        c.announces_leaving(),
        c.finished(ends[0]).phase == Phase::Closed,
{
    lemma_no_leaving_unless_relaying(c.finished(ends[0]), ends.drop_first());
}

/// What the outbound relay makes of a room event: the frame to write for
/// a message, or the reason to end for anything else.
pub open spec fn outbound_decision(event: RoomEventView) -> Result<Seq<char>, CloseReason> {
    match event {
        RoomEventView::Message(text) => Ok(text),
        RoomEventView::Lagged(missed) => Err(CloseReason::Lagged(missed)),
        RoomEventView::Closed => Err(CloseReason::RoomClosed),
    }
}

/// The frames that the outbound relay writes while it takes in a run of
/// room events: one per message, up to the first event that ends it.
pub open spec fn outbound_frames(events: Seq<RoomEventView>) -> Seq<Seq<char>>
    decreases events.len(),
{
    if events.len() == 0 {
        Seq::<Seq<char>>::empty()
    } else {
        match outbound_decision(events[0]) {
            Ok(frame) => seq![frame] + outbound_frames(events.drop_first()),
            Err(_) => Seq::<Seq<char>>::empty(),
        }
    }
}

/// The reason for which the outbound relay ends while it takes in a run
/// of room events, if it does.
pub open spec fn outbound_end(events: Seq<RoomEventView>) -> Option<CloseReason>
    decreases events.len(),
{
    if events.len() == 0 {
        None
    } else {
        match outbound_decision(events[0]) {
            Ok(_) => outbound_end(events.drop_first()),
            Err(reason) => Some(reason),
        }
    }
}

/// While a subscription yields messages only, the outbound relay writes
/// every one of them to the socket, once each and in the order in which
/// they came, and does not end.
pub proof fn lemma_messages_forwarded_in_order(texts: Seq<Seq<char>>)
    ensures
        outbound_frames(texts.map_values(|t: Seq<char>| RoomEventView::Message(t))) == texts,
        outbound_end(texts.map_values(|t: Seq<char>| RoomEventView::Message(t))) is None,
    decreases texts.len(),
{
    let events = texts.map_values(|t: Seq<char>| RoomEventView::Message(t));
    if texts.len() > 0 {
        lemma_messages_forwarded_in_order(texts.drop_first());
        assert(events.drop_first() =~= texts.drop_first().map_values(
            |t: Seq<char>| RoomEventView::Message(t),
        ));
    }
}

/// Lag is never passed over: when a subscription reports lag after some
/// messages, the relay has written exactly those messages, ends there with
/// the number of messages lost as its reason, and writes nothing that
/// comes after.
pub proof fn lemma_lag_ends_the_relay(
    texts: Seq<Seq<char>>,
    missed: u64,
    later: Seq<RoomEventView>,
)
    ensures
        ({
            let events = texts.map_values(|t: Seq<char>| RoomEventView::Message(t)) + seq![
                RoomEventView::Lagged(missed),
            ] + later;
            outbound_frames(events) == texts && outbound_end(events) == Some(
                CloseReason::Lagged(missed),
            )
        }),
    decreases texts.len(),
{
    let messages = texts.map_values(|t: Seq<char>| RoomEventView::Message(t));
    let events = messages + seq![RoomEventView::Lagged(missed)] + later;
    if texts.len() > 0 {
        lemma_lag_ends_the_relay(texts.drop_first(), missed, later);
        let shorter = texts.drop_first().map_values(|t: Seq<char>| RoomEventView::Message(t))
            + seq![RoomEventView::Lagged(missed)] + later;
        assert(events.drop_first() =~= shorter);
    }
}

/// Decides what the outbound relay does with what its subscription
/// yielded. A message goes to the socket. Lag ends the relay and is kept
/// as the reason, with the number of messages lost; so does the end of the
/// room.
pub fn outbound_step(event: RoomEvent) -> (r: OutboundStep)
    ensures
        match outbound_decision(event@) {
            Ok(frame) => r matches OutboundStep::Forward(written) && written@ == frame,
            Err(reason) => r matches OutboundStep::Finish(given) && given == reason,
        },
{
    match event {
        RoomEvent::Message(text) => OutboundStep::Forward(text),
        RoomEvent::Lagged(missed) => OutboundStep::Finish(CloseReason::Lagged(missed)),
        RoomEvent::Closed => OutboundStep::Finish(CloseReason::RoomClosed),
    }
}

/// Decides whether the outbound relay goes on after a frame was written:
/// the first failure ends it.
pub fn after_forward(written: bool) -> (r: Option<CloseReason>)
    ensures
        r == if written {
            None
        } else {
            Some(CloseReason::SendFailed)
        },
{
    if written {
        None
    } else {
        Some(CloseReason::SendFailed)
    }
}

/// Reads a frame of a joined client and relays it to the room if it is an
/// action. A frame that is none is dropped.
pub fn process_message(room: &Room, frame: &str) -> (r: Result<(AppMessage, String), FrameError>)
    ensures
        match r {
            Ok((message, relayed)) => action_frame(frame@) == Ok::<AppMessageView, FrameError>(
                message@,
            ) && relayed@ == AppMessage::room_text(message@),
            Err(e) => action_frame(frame@) == Err::<AppMessageView, FrameError>(e),
        },
{
    match decode_action(frame) {
        Ok(message) => {
            let relayed = message.debug_text();
            let _ = room.publish(relayed.clone());
            Ok((message, relayed))
        },
        Err(e) => Err(e),
    }
}

/// Decides what the inbound relay does with what its socket yielded. A
/// text frame is processed and the relay goes on, whether the frame was an
/// action or not. Anything else ends the relay.
pub fn inbound_step(room: &Room, event: SocketEvent) -> (r: InboundStep)
    ensures
        match event {
            SocketEvent::Text(frame) => match action_frame(frame@) {
                Ok(m) => r matches InboundStep::Relayed { message, relayed } && message@ == m
                    && relayed@ == AppMessage::room_text(m),
                Err(e) => r matches InboundStep::Dropped(d) && d == e,
            },
            _ => r matches InboundStep::Finish(reason) && reason == CloseReason::SocketClosed,
        },
{
    match event {
        SocketEvent::Text(frame) => match process_message(room, frame.as_str()) {
            Ok((message, relayed)) => InboundStep::Relayed { message, relayed },
            Err(e) => InboundStep::Dropped(e),
        },
        _ => InboundStep::Finish(CloseReason::SocketClosed),
    }
}

/// Whether the bearer of a `StartGame` action may start the game: the
/// token must name somebody, and that user must be the game's host.
pub open spec fn may_start(bearer: Option<Claims>, game: Game) -> bool {
    bearer matches Some(claims) && game.host_id == Some(claims.sub)
}

/// Decides a `StartGame` action on the game that it names. `bearer` is
/// what the check of the action's token gave. The host's action starts
/// the game, which is then to be stored; anyone else's leaves the game as
/// it was.
pub fn handle_start_game(bearer: Option<Claims>, game: Game) -> (r: StartDecision)
    ensures
        match r {
            StartDecision::Started(started) => may_start(bearer, game) && Game::started_from(
                started,
                game,
            ) && ROUND_LOW_MIDI <= started.rounds@.last().note_to_guess.midi()
                <= ROUND_HIGH_MIDI,
            StartDecision::Refused(kept) => !may_start(bearer, game) && kept == game,
        },
{
    let mut game = game;
    match bearer {
        Some(claims) => {
            if game.start_by(claims.sub) {
                StartDecision::Started(game)
            } else {
                StartDecision::Refused(game)
            }
        },
        None => StartDecision::Refused(game),
    }
}

} // verus!
