//! The decisions of the live listener: how the symbols of an exchange are
//! split among its stream connections, and what a connection does on each
//! thing that happens to it.
use vstd::prelude::*;

verus! {

/// The number of symbols one stream connection listens to.
pub const CHUNK_SIZE: usize = 200;

/// The chunks put back together, in order.
pub open spec fn joined(chunks: Seq<Vec<String>>) -> Seq<String>
    decreases chunks.len(),
{
    if chunks.len() == 0 {
        Seq::empty()
    } else {
        joined(chunks.drop_last()) + chunks.last()@
    }
}

/// Every chunk has between 1 and `size` symbols, and all but the last have
/// exactly `size`.
pub open spec fn well_cut(chunks: Seq<Vec<String>>, size: nat) -> bool {
    forall|i: int|
        0 <= i < chunks.len() ==> {
            &&& 1 <= (#[trigger] chunks[i])@.len() <= size
            &&& i < chunks.len() - 1 ==> chunks[i]@.len() == size
        }
}

/// The symbols cut into consecutive chunks of `size`, the last one
/// possibly shorter: put back together they are the symbols again.
pub fn chunk_symbols(symbols: &Vec<String>, size: usize) -> (r: Vec<Vec<String>>)
    requires
        size > 0,
    ensures
        joined(r@) == symbols@,
        well_cut(r@, size as nat),
{
    let mut chunks: Vec<Vec<String>> = Vec::new();
    let mut current: Vec<String> = Vec::new();
    let mut i: usize = 0;
    while i < symbols.len()
        invariant
            size > 0,
            i <= symbols.len(),
            joined(chunks@) + current@ == symbols@.take(i as int),
            current@.len() < size,
            forall|k: int| 0 <= k < chunks.len() ==> (#[trigger] chunks@[k])@.len() == size,
        decreases symbols.len() - i,
    {
        current.push(symbols[i].clone());
        assert(symbols@.take(i + 1) =~= symbols@.take(i as int).push(symbols@[i as int]));
        if current.len() == size {
            let ghost before = chunks@;
            let mut full: Vec<String> = Vec::new();
            std::mem::swap(&mut full, &mut current);
            chunks.push(full);
            assert(chunks@.drop_last() =~= before);
            assert(joined(chunks@) + current@ =~= joined(before) + full@);
        }
        i = i + 1;
    }
    if current.len() > 0 {
        let ghost before = chunks@;
        chunks.push(current);
        assert(chunks@.drop_last() =~= before);
    }
    assert(symbols@.take(symbols.len() as int) =~= symbols@);
    proof {
        lemma_well_cut(chunks@, size as nat);
    }
    chunks
}

proof fn lemma_well_cut(chunks: Seq<Vec<String>>, size: nat)
    requires
        forall|k: int| 0 <= k < chunks.len() - 1 ==> (#[trigger] chunks[k])@.len() == size,
        chunks.len() > 0 ==> 1 <= chunks.last()@.len() <= size,
    ensures
        well_cut(chunks, size),
{
}

/// Whether a stream connection is up.
#[derive(Clone, Copy, PartialEq, Eq, Structural, Debug)]
pub enum Link {
    /// Not connected: the next thing to do is to connect.
    Down,
    /// Connected and listening.
    Up,
}

/// What happens to a stream connection.
#[derive(Clone, Copy, PartialEq, Eq, Structural, Debug)]
pub enum StreamEvent {
    /// A connection attempt succeeded.
    Connected,
    /// A connection attempt failed.
    ConnectFailed,
    /// Sending the subscription failed.
    SubscribeFailed,
    /// A text message arrived.
    Text,
    /// A ping arrived.
    Ping,
    /// Another frame arrived, or a frame could not be read.
    OtherFrame,
    /// The stream ended.
    Closed,
}

/// What a stream connection does next.
#[derive(Clone, Copy, PartialEq, Eq, Structural, Debug)]
pub enum StreamAction {
    /// Send the subscription message, then listen.
    Subscribe,
    /// Listen, with nothing to send.
    Listen,
    /// Wait this many seconds, then connect again.
    RetryAfter(u64),
    /// Connect again at once.
    Reconnect,
    /// Read the text as a kline update of the exchange.
    Decode,
    /// Answer with a pong that carries the ping's data.
    Pong,
    /// Nothing.
    Ignore,
}

/// The seconds to wait after a failed connection attempt.
pub const RETRY_SECONDS: u64 = 5;

/// The next link state and action of a connection on `event`.
/// `has_subscription` tells whether there is a subscription message to
/// send (one that could be made and is not empty).
pub open spec fn reaction(link: Link, event: StreamEvent, has_subscription: bool) -> (Link, StreamAction) {
    match (link, event) {
        (Link::Down, StreamEvent::Connected) => (
            Link::Up,
            if has_subscription {
                StreamAction::Subscribe
            } else {
                StreamAction::Listen
            },
        ),
        (Link::Down, StreamEvent::ConnectFailed) => (
            Link::Down,
            StreamAction::RetryAfter(RETRY_SECONDS),
        ),
        (Link::Up, StreamEvent::SubscribeFailed) => (Link::Down, StreamAction::Reconnect),
        (Link::Up, StreamEvent::Text) => (Link::Up, StreamAction::Decode),
        (Link::Up, StreamEvent::Ping) => (Link::Up, StreamAction::Pong),
        (Link::Up, StreamEvent::Closed) => (Link::Down, StreamAction::Reconnect),
        _ => (link, StreamAction::Ignore),
    }
}

/// The next link state and action of a connection on `event`: a connected
/// stream subscribes if there is something to subscribe to; a failed
/// attempt waits `RETRY_SECONDS` and tries again; a failed subscription
/// or an ended stream reconnects at once; text is decoded, a ping answered
/// and anything else ignored.
pub fn react(link: Link, event: StreamEvent, has_subscription: bool) -> (r: (Link, StreamAction))
    ensures
        r == reaction(link, event, has_subscription),
{
    match (link, event) {
        (Link::Down, StreamEvent::Connected) => (
            Link::Up,
            if has_subscription {
                StreamAction::Subscribe
            } else {
                StreamAction::Listen
            },
        ),
        (Link::Down, StreamEvent::ConnectFailed) => (
            Link::Down,
            StreamAction::RetryAfter(RETRY_SECONDS),
        ),
        (Link::Up, StreamEvent::SubscribeFailed) => (Link::Down, StreamAction::Reconnect),
        (Link::Up, StreamEvent::Text) => (Link::Up, StreamAction::Decode),
        (Link::Up, StreamEvent::Ping) => (Link::Up, StreamAction::Pong),
        (Link::Up, StreamEvent::Closed) => (Link::Down, StreamAction::Reconnect),
        _ => (link, StreamAction::Ignore),
    }
}

/// The listener never gives up: from any state, whatever happens, a
/// connection that is down goes on to connect again (after a wait when
/// the attempt failed), and one that is up stays up unless its
/// subscription failed or its stream ended.
pub proof fn listener_keeps_trying(link: Link, event: StreamEvent, has_subscription: bool)
    ensures
        ({
            let (next, action) = reaction(link, event, has_subscription);
            &&& next is Down ==> (action is Reconnect || action is RetryAfter || action is Ignore)
            &&& link is Up && next is Down ==> (event is SubscribeFailed || event is Closed)
            &&& link is Down && next is Up ==> event is Connected
        }),
{
}

} // verus!
