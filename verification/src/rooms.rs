//! Rooms and their registry. A room is a broadcast channel of the `tokio`
//! crate that carries text; the registry maps channel names to rooms,
//! creates a room when a name is first asked for, and never removes one.

use crate::text::same_text;
use tokio::sync::broadcast::{Receiver, Sender};
use vstd::prelude::*;

verus! {

/// `tokio::sync::broadcast::Sender`, the publishing handle of a channel,
/// carried as it is: nothing inside it is read here.
#[verifier::external_type_specification]
#[verifier::external_body]
#[verifier::reject_recursive_types(T)]
pub struct ExSender<T>(Sender<T>);

/// `tokio::sync::broadcast::Receiver`, one subscription to a channel,
/// carried as it is.
#[verifier::external_type_specification]
#[verifier::external_body]
#[verifier::reject_recursive_types(T)]
pub struct ExReceiver<T>(Receiver<T>);

/// Messages that a room keeps for subscribers that have not read them yet.
pub const ROOM_CAPACITY: usize = 64;

/// The number of messages that a channel was opened to keep for a slow
/// subscriber: the capacity that `tokio::sync::broadcast::channel` was
/// given when the channel was made. It is the limit asked for, not what
/// the channel has allocated, and it is the same for every handle to the
/// channel.
pub uninterp spec fn channel_capacity(tx: Sender<String>) -> nat;

/// Opens a channel with `tokio::sync::broadcast::channel` and keeps its
/// sending half; the receiving half made with it is dropped at once, so the
/// channel starts without subscribers. `channel` panics on a capacity of
/// zero or above half of `usize::MAX`: those are left out. The contract
/// claims only that the channel was opened with the capacity given.
#[verifier::external_body]
fn open_channel(capacity: usize) -> (tx: Sender<String>)
    requires
        0 < capacity <= usize::MAX / 2,
    ensures
        channel_capacity(tx) == capacity,
{
    tokio::sync::broadcast::channel::<String>(capacity).0
}

/// `Sender::clone`: a second handle to the same channel. The clone holds
/// the same pointer to the channel's shared state as the handle it was made
/// from, which is what the contract's equality claims.
#[verifier::external_body]
fn another_handle(tx: &Sender<String>) -> (r: Sender<String>)
    ensures
        r == *tx,
{
    tx.clone()
}

/// `Sender::send`: hands a text to every receiver subscribed at this moment
/// and returns their number, or nothing where there is none. The contract
/// claims only that a number returned is at least one.
#[verifier::external_body]
fn send_text(tx: &Sender<String>, text: String) -> (receivers: Option<usize>)
    ensures
        receivers matches Some(n) ==> n >= 1,
{
    tx.send(text).ok()
}

/// The channel that a receiver listens on, by a handle to it: the channel
/// whose shared state the receiver was made to read from. A receiver keeps
/// to its channel for as long as it lives.
pub uninterp spec fn receiver_channel(rx: Receiver<String>) -> Sender<String>;

/// `Sender::subscribe`: a receiver for what is sent after this call. The
/// receiver is handed the sender's own shared state, which is what the
/// contract claims: it listens on the sender's channel. What it will
/// receive is not claimed. `subscribe` panics where the channel already
/// has a quarter of `usize::MAX` receivers, more than memory can hold.
#[verifier::external_body]
fn new_receiver(tx: &Sender<String>) -> (rx: Receiver<String>)
    ensures
        receiver_channel(rx) == *tx,
{
    tx.subscribe()
}

/// A named channel's publish point. Cloning the handle is cheap; every
/// handle publishes to, and subscribes at, the same room.
#[derive(Debug)]
pub struct Room {
    pub tx: Sender<String>,
}

impl Room {
    /// How many messages the room keeps for a subscriber that has not read
    /// them yet, before the oldest are lost to it.
    pub open spec fn capacity(&self) -> nat {
        channel_capacity(self.tx)
    }

    /// A new room without subscribers, keeping up to `ROOM_CAPACITY`
    /// messages for a slow subscriber.
    pub fn new() -> (r: Room)
        ensures
            r.capacity() == ROOM_CAPACITY,
    {
        Room { tx: open_channel(ROOM_CAPACITY) }
    }

    /// Another handle to this room.
    pub fn handle(&self) -> (r: Room)
        ensures
            r == *self,
    {
        Room { tx: another_handle(&self.tx) }
    }

    /// How many subscribers a text was handed to, given what sending it
    /// came to: the number that the channel reported, or none where the
    /// channel had no subscriber and dropped the text.
    pub fn reached(sent: Option<usize>) -> (receivers: usize)
        ensures
            receivers == match sent {
                Some(n) => n,
                None => 0,
            },
    {
        match sent {
            Some(n) => n,
            None => 0,
        }
    }

    /// Publishes a text to the room and returns how many subscribers it was
    /// handed to. With no subscriber the text is dropped and the count is 0.
    /// How many subscribers the room has at this moment is for the channel
    /// to say, so nothing is known of the count beforehand.
    pub fn publish(&self, text: String) -> usize {
        Room::reached(send_text(&self.tx, text))
    }

    /// Subscribes to what is published to this room from now on.
    pub fn subscribe(&self) -> (rx: Receiver<String>)
        ensures
            receiver_channel(rx) == self.tx,
    {
        new_receiver(&self.tx)
    }
}

/// What the registry holds after a channel was asked for: the rooms it had,
/// and `fresh` under the channel's name where the name was new.
pub open spec fn after_lookup(
    rooms: Map<Seq<char>, Room>,
    channel: Seq<char>,
    fresh: Room,
) -> Map<Seq<char>, Room> {
    if rooms.contains_key(channel) {
        rooms
    } else {
        rooms.insert(channel, fresh)
    }
}

/// What the registry holds after a run of lookups, each a channel's name
/// with the room that is made if the name is new.
pub open spec fn after_lookups(
    rooms: Map<Seq<char>, Room>,
    lookups: Seq<(Seq<char>, Room)>,
) -> Map<Seq<char>, Room>
    decreases lookups.len(),
{
    if lookups.len() == 0 {
        rooms
    } else {
        after_lookup(after_lookups(rooms, lookups.drop_last()), lookups.last().0, lookups.last().1)
    }
}

/// A channel that has a room keeps that very room, whatever channels are
/// looked up afterwards, its own among them: no second room is made for a
/// name, and none is removed.
pub proof fn lemma_room_stays(
    rooms: Map<Seq<char>, Room>,
    channel: Seq<char>,
    lookups: Seq<(Seq<char>, Room)>,
)
    requires
        rooms.contains_key(channel),
    ensures
        after_lookups(rooms, lookups).contains_key(channel),
        after_lookups(rooms, lookups)[channel] == rooms[channel],
    decreases lookups.len(),
{
    if lookups.len() > 0 {
        lemma_room_stays(rooms, channel, lookups.drop_last());
    }
}

/// Two lookups of one channel give the same room, whatever is looked up in
/// between and whichever rooms stood ready to be registered.
pub proof fn lemma_one_room_per_channel(
    rooms: Map<Seq<char>, Room>,
    channel: Seq<char>,
    first: Room,
    between: Seq<(Seq<char>, Room)>,
    second: Room,
)
    ensures
        ({
            let once = after_lookup(rooms, channel, first);
            let twice = after_lookup(after_lookups(once, between), channel, second);
            twice.contains_key(channel) && once.contains_key(channel) && twice[channel]
                == once[channel]
        }),
{
    let once = after_lookup(rooms, channel, first);
    lemma_room_stays(once, channel, between);
}

/// The rooms of a process, by channel name. The names stand in a list and
/// are compared as texts: the contracts of std's hash map hold only for
/// keys whose hashing is specified, and for `String` it is not.
pub struct RoomRegistry {
    names: Vec<String>,
    rooms: Vec<Room>,
}

impl RoomRegistry {
    /// The channel names, in the order in which their rooms were created.
    pub closed spec fn names(&self) -> Seq<Seq<char>> {
        Seq::new(self.names@.len(), |i: int| self.names@[i]@)
    }

    /// Every name has its room, no name occurs twice, and every room keeps
    /// `ROOM_CAPACITY` messages.
    pub closed spec fn wf(&self) -> bool {
        &&& self.names@.len() == self.rooms@.len()
        &&& forall|i: int, j: int|
            0 <= i < j < self.names@.len() ==> self.names@[i]@ != self.names@[j]@
        &&& forall|i: int|
            0 <= i < self.rooms@.len() ==> (#[trigger] self.rooms@[i]).capacity() == ROOM_CAPACITY
    }

    /// The registry as a mapping from channel name to room.
    pub closed spec fn view(&self) -> Map<Seq<char>, Room> {
        Map::new(
            |name: Seq<char>| self.names().contains(name),
            |name: Seq<char>| self.rooms@[self.names().index_of(name)],
        )
    }

    /// A registry without rooms.
    pub fn new() -> (r: RoomRegistry)
        ensures
            r.wf(),
            r@ == Map::<Seq<char>, Room>::empty(),
    {
        let r = RoomRegistry { names: Vec::new(), rooms: Vec::new() };
        r
    }

    /// How many rooms there are.
    pub fn len(&self) -> (n: usize)
        requires
            self.wf(),
        ensures
            n == self@.dom().len(),
            self@.dom().finite(),
    {
        proof {
            self.lemma_dom_len();
        }
        self.names.len()
    }

    proof fn lemma_dom_len(&self)
        requires
            self.wf(),
        ensures
            self@.dom().finite(),
            self@.dom().len() == self.names@.len(),
    {
        let names = self.names();
        names.unique_seq_to_set();
    }

    /// Where a channel's room stands, if it has one.
    fn position(&self, channel: &str) -> (r: Option<usize>)
        requires
            self.wf(),
        ensures
            match r {
                Some(i) => i < self.names@.len() && self.names@[i as int]@ == channel@,
                None => !self.names().contains(channel@),
            },
    {
        let mut i: usize = 0;
        while i < self.names.len()
            invariant
                i <= self.names@.len(),
                forall|j: int| 0 <= j < i ==> self.names@[j]@ != channel@,
            decreases self.names@.len() - i,
        {
            if same_text(self.names[i].as_str(), channel) {
                return Some(i);
            }
            i = i + 1;
        }
        None
    }

    /// Whether a channel has a room.
    pub fn contains(&self, channel: &str) -> (r: bool)
        requires
            self.wf(),
        ensures
            r == self@.contains_key(channel@),
    {
        let found = self.position(channel);
        proof {
            if let Some(i) = found {
                assert(self.names()[i as int] == channel@);
            }
        }
        found.is_some()
    }

    /// A handle to the channel's room. The first call for a name creates the
    /// room; every later call finds it. Rooms already there are left as
    /// they are.
    pub fn get_or_create(&mut self, channel: &str) -> (room: Room)
        requires
            old(self).wf(),
        ensures
            final(self).wf(),
            final(self)@ == after_lookup(old(self)@, channel@, room),
            final(self)@.contains_key(channel@),
            final(self)@[channel@] == room,
            room.capacity() == ROOM_CAPACITY,
    {
        match self.position(channel) {
            Some(i) => {
                proof {
                    self.lemma_room_at(i as int);
                }
                self.rooms[i].handle()
            },
            None => {
                let room = Room::new();
                let handle = room.handle();
                let ghost before = *self;
                self.names.push(channel.to_owned());
                self.rooms.push(room);
                proof {
                    let n = before.names@.len() as int;
                    assert forall|i: int, j: int| 0 <= i < j < self.names@.len() implies
                        self.names@[i]@ != self.names@[j]@ by {
                        if j == n {
                            assert(before.names()[i] == self.names@[i]@);
                        }
                    }
                    self.lemma_room_at(n);
                    let grown = before@.insert(channel@, handle);
                    assert forall|name: Seq<char>|
                        self@.dom().contains(name) == grown.dom().contains(name) by {
                        if before@.dom().contains(name) {
                            let k = before.names().index_of(name);
                            assert(self.names()[k] == name);
                        }
                        if self@.dom().contains(name) {
                            let k = self.names().index_of(name);
                            if k < n {
                                assert(before.names()[k] == name);
                            }
                        }
                    }
                    assert forall|name: Seq<char>| self@.dom().contains(name) implies self@[name]
                        == grown[name] by {
                        let k = self.names().index_of(name);
                        self.lemma_room_at(k);
                        if k < n {
                            before.lemma_room_at(k);
                        }
                    }
                }
                handle
            },
        }
    }

    /// The room under the name at position `i` is the room at position `i`.
    proof fn lemma_room_at(&self, i: int)
        requires
            self.wf(),
            0 <= i < self.names@.len(),
        ensures
            self@.contains_key(self.names@[i]@),
            self@[self.names@[i]@] == self.rooms@[i],
    {
        let names = self.names();
        let k = names.index_of(names[i]);
    }
}

} // verus!
