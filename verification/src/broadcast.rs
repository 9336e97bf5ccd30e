//! A feed of market data with one sender and many receivers, over the broadcast
//! channel of `tokio`.
use tokio::sync::broadcast;
use vstd::prelude::*;

verus! {

/// The sending end of a broadcast channel.
#[verifier::external_type_specification]
#[verifier::external_body]
#[verifier::reject_recursive_types(T)]
pub struct ExSender<T>(tokio::sync::broadcast::Sender<T>);

/// The receiving end of a broadcast channel.
#[verifier::external_type_specification]
#[verifier::external_body]
#[verifier::reject_recursive_types(T)]
pub struct ExReceiver<T>(tokio::sync::broadcast::Receiver<T>);

/// The error of a channel that nobody receives from.
#[verifier::external_type_specification]
#[verifier::external_body]
#[verifier::reject_recursive_types(T)]
pub struct ExSendError<T>(tokio::sync::broadcast::error::SendError<T>);

/// What kind of market data a message holds.
#[derive(Debug, Clone, Copy, PartialEq, Eq, Structural)]
pub enum MarketDataType {
    Tick,
    Kline,
    Depth,
    Snapshot,
    Trade,
}

/// How a feed is made.
#[derive(Debug)]
pub struct BroadcastConfig {
    /// The number of messages that are kept for slow receivers.
    pub capacity: usize,
}

impl Clone for BroadcastConfig {
    fn clone(&self) -> (r: Self)
        ensures
            r == *self,
    {
        BroadcastConfig { capacity: self.capacity }
    }
}

impl Default for BroadcastConfig {
    fn default() -> (r: Self)
        ensures
            r.capacity == 1024,
    {
        BroadcastConfig { capacity: 1024 }
    }
}

impl BroadcastConfig {
    /// Whether a channel of this capacity can be made: it keeps something, and
    /// its buffer, rounded up to a power of two, fits the address space.
    pub open spec fn usable(self) -> bool {
        0 < self.capacity <= usize::MAX / 512
    }

    /// Whether a channel of this capacity can be made.
    pub fn is_usable(&self) -> (r: bool)
        ensures
            r == self.usable(),
    {
        0 < self.capacity && self.capacity <= usize::MAX / 512
    }
}

/// The messages that a channel has taken for its receivers so far.
pub uninterp spec fn taken_messages(
    sender: broadcast::Sender<(MarketDataType, Vec<u8>)>,
) -> Seq<(MarketDataType, Seq<u8>)>;

/// Whether a receiver was ever made of a channel.
pub uninterp spec fn ever_received(sender: broadcast::Sender<(MarketDataType, Vec<u8>)>) -> bool;

/// The messages that the channel of a receiver had taken before the receiver was
/// made, and that the receiver never gets.
pub uninterp spec fn earlier_messages(
    receiver: broadcast::Receiver<(MarketDataType, Vec<u8>)>,
) -> Seq<(MarketDataType, Seq<u8>)>;

/// `tokio::sync::broadcast::channel`: a channel that has taken nothing. The
/// sending end is kept; the receiving end that comes with it is dropped, so that
/// none is made yet.
#[verifier::external_body]
fn channel(capacity: usize) -> (r: broadcast::Sender<(MarketDataType, Vec<u8>)>)
    requires
        0 < capacity <= usize::MAX / 512,
    ensures
        taken_messages(r).len() == 0,
        !ever_received(r),
{
    broadcast::channel(capacity).0
}

/// `tokio::sync::broadcast::Sender::send`: the channel takes the message where
/// there are receivers, and tells how many they are at that moment; where there
/// is none, as where none was ever made, it takes nothing, and the result is an
/// error.
#[verifier::external_body]
fn send(
    sender: &mut broadcast::Sender<(MarketDataType, Vec<u8>)>,
    data_type: MarketDataType,
    payload: Vec<u8>,
) -> (r: Result<usize, broadcast::error::SendError<(MarketDataType, Vec<u8>)>>)
    ensures
        match r {
            Ok(n) => n > 0 && taken_messages(*final(sender)) == taken_messages(*old(sender)).push(
                (data_type, payload@),
            ),
            Err(_) => taken_messages(*final(sender)) == taken_messages(*old(sender)),
        },
        !ever_received(*old(sender)) ==> r is Err,
        ever_received(*final(sender)) == ever_received(*old(sender)),
{
    sender.send((data_type, payload))
}

/// `tokio::sync::broadcast::Sender::subscribe`: a new receiver of the channel,
/// which starts behind all that the channel has taken so far. It panics where the
/// channel already has a quarter of `usize::MAX` receivers.
#[verifier::external_body]
fn new_receiver(sender: &mut broadcast::Sender<(MarketDataType, Vec<u8>)>) -> (r: broadcast::Receiver<
    (MarketDataType, Vec<u8>),
>)
    ensures
        earlier_messages(r) == taken_messages(*old(sender)),
        taken_messages(*final(sender)) == taken_messages(*old(sender)),
        ever_received(*final(sender)),
{
    sender.subscribe()
}

/// `tokio::sync::broadcast::Sender::receiver_count`: the number of receivers at
/// that moment, which the channel keeps to a quarter of `usize::MAX`; zero where
/// none was ever made.
#[verifier::external_body]
fn count_receivers(sender: &broadcast::Sender<(MarketDataType, Vec<u8>)>) -> (r: usize)
    ensures
        r <= usize::MAX / 4,
        !ever_received(*sender) ==> r == 0,
{
    sender.receiver_count()
}

/// The number of receivers that a message went to: that of the channel, or zero
/// where nobody receives.
pub fn delivered(r: Result<usize, broadcast::error::SendError<(MarketDataType, Vec<u8>)>>) -> (n: usize)
    ensures
        n == match r {
            Ok(count) => count,
            Err(_) => 0,
        },
{
    match r {
        Ok(count) => count,
        Err(_) => 0,
    }
}

/// A feed of market data. Once somebody has received from it, who still does, and
/// how many, is up to the holders of the receivers.
pub struct DataBroadcaster {
    sender: broadcast::Sender<(MarketDataType, Vec<u8>)>,
}

impl View for DataBroadcaster {
    type V = Seq<(MarketDataType, Seq<u8>)>;

    /// The messages that went to receivers so far.
    closed spec fn view(&self) -> Seq<(MarketDataType, Seq<u8>)> {
        taken_messages(self.sender)
    }
}

impl DataBroadcaster {
    /// Whether somebody has ever subscribed to the feed.
    pub closed spec fn subscribed(&self) -> bool {
        ever_received(self.sender)
    }

    /// A feed that nobody receives yet.
    pub fn new(config: BroadcastConfig) -> (r: Self)
        requires
            config.usable(),
        ensures
            r@.len() == 0,
            !r.subscribed(),
    {
        DataBroadcaster { sender: channel(config.capacity) }
    }

    /// Sends a message to all receivers, and tells how many they are; where there
    /// is none, the message is lost.
    pub fn broadcast(&mut self, data_type: MarketDataType, payload: Vec<u8>) -> (n: usize)
        ensures
            final(self)@ == if n > 0 {
                old(self)@.push((data_type, payload@))
            } else {
                old(self)@
            },
            !old(self).subscribed() ==> n == 0,
            final(self).subscribed() == old(self).subscribed(),
    {
        delivered(send(&mut self.sender, data_type, payload))
    }

    /// A new receiver, for the messages from now on.
    pub fn subscribe(&mut self) -> (r: broadcast::Receiver<(MarketDataType, Vec<u8>)>)
        ensures
            earlier_messages(r) == old(self)@,
            final(self)@ == old(self)@,
            final(self).subscribed(),
    {
        new_receiver(&mut self.sender)
    }

    /// The number of receivers.
    pub fn receiver_count(&self) -> (n: usize)
        ensures
            n <= usize::MAX / 4,
            !self.subscribed() ==> n == 0,
    {
        count_receivers(&self.sender)
    }
}

/// What a receiver is owed of the messages that went to receivers: those after
/// the ones that came before it.
pub open spec fn owed(
    taken: Seq<(MarketDataType, Seq<u8>)>,
    receiver: broadcast::Receiver<(MarketDataType, Vec<u8>)>,
) -> Seq<(MarketDataType, Seq<u8>)> {
    taken.skip(earlier_messages(receiver).len() as int)
}

/// A new receiver is owed nothing. A message that goes to receivers is owed next
/// to each one that was made before, and not to one that is made after.
pub proof fn messages_are_owed_from_now_on(
    taken: Seq<(MarketDataType, Seq<u8>)>,
    message: (MarketDataType, Seq<u8>),
    receiver: broadcast::Receiver<(MarketDataType, Vec<u8>)>,
)
    ensures
        earlier_messages(receiver) == taken ==> owed(taken, receiver).len() == 0,
        earlier_messages(receiver).is_prefix_of(taken) ==> owed(taken.push(message), receiver)
            == owed(taken, receiver).push(message),
        earlier_messages(receiver) == taken.push(message) ==> owed(
            taken.push(message),
            receiver,
        ).len() == 0,
{
    if earlier_messages(receiver).is_prefix_of(taken) {
        assert(owed(taken.push(message), receiver) =~= owed(taken, receiver).push(message));
    }
}

} // verus!
