//! The messages exchanged between the consumer and the worker, and the
//! lifecycle that turns the worker's messages into the consumer's events.
use vstd::prelude::*;

use crate::types::{DeviceInfo, DeviceKind};

verus! {

/// Requests (consumer to worker) and the worker's answers (worker to
/// consumer) share one message type.
#[derive(Debug, Clone, PartialEq)]
pub enum Message {
    Connected,
    Disconnected,
    GetSinks,
    GetSources,
    UpdateConnection,
    SetSinks(Vec<DeviceInfo>),
    SetSources(Vec<DeviceInfo>),
    GetDefaultSink,
    GetDefaultSource,
    SetDefaultSink(DeviceInfo),
    SetDefaultSource(DeviceInfo),
    SetSinkVolumeByName(String, Vec<u32>),
    SetSourceVolumeByName(String, Vec<u32>),
}

/// A request that needs a live connection to be served.
pub open spec fn is_data_request(m: Message) -> bool {
    match m {
        Message::GetSinks | Message::GetSources | Message::GetDefaultSink
        | Message::GetDefaultSource | Message::SetSinkVolumeByName(_, _)
        | Message::SetSourceVolumeByName(_, _) | Message::SetDefaultSink(_)
        | Message::SetDefaultSource(_) => true,
        _ => false,
    }
}

/// The event that reports the device list of one kind.
pub open spec fn list_event(kind: DeviceKind, list: Vec<DeviceInfo>) -> Message {
    match kind {
        DeviceKind::Sink => Message::SetSinks(list),
        DeviceKind::Source => Message::SetSources(list),
    }
}

/// The event that reports the default device of one kind.
pub open spec fn default_event(kind: DeviceKind, device: DeviceInfo) -> Message {
    match kind {
        DeviceKind::Sink => Message::SetDefaultSink(device),
        DeviceKind::Source => Message::SetDefaultSource(device),
    }
}

/// What the consumer observes. `C` is the request handle handed out once,
/// at the start.
#[derive(Debug, Clone)]
pub enum Event<C> {
    Init(C),
    Connected,
    Disconnected,
    MessageReceived(Message),
}

/// The phase of the event stream.
#[derive(Debug, Clone, Copy, PartialEq, Eq, Structural)]
pub enum LinkState {
    /// Nothing handed out yet.
    Init,
    /// Waiting for the worker to report a connection.
    Connecting,
    /// Relaying the worker's data events.
    Connected,
}

/// A broken promise of the worker's channel; the stream cannot go on.
#[derive(Debug, Clone)]
pub enum LinkFault {
    /// A message other than a connection report arrived while connecting.
    Unexpected(Message),
    /// The worker's channel closed.
    Closed,
}

/// A message that the consumer receives while connected.
pub open spec fn is_data_event(m: Message) -> bool {
    match m {
        Message::SetSinks(_) | Message::SetSources(_) | Message::SetDefaultSink(_)
        | Message::SetDefaultSource(_) => true,
        _ => false,
    }
}

impl LinkState {
    /// The stream before the handshake.
    pub fn new() -> (r: LinkState)
        ensures
            r == LinkState::Init,
    {
        LinkState::Init
    }

    /// The handshake: the consumer gets its request handle once, and the
    /// stream starts waiting for a connection.
    pub fn open<C>(&mut self, handle: C) -> (r: Event<C>)
        requires
            *old(self) == LinkState::Init,
        ensures
            *final(self) == LinkState::Connecting,
            r == Event::Init(handle),
    {
        *self = LinkState::Connecting;
        Event::Init(handle)
    }

    /// Turns what the worker's channel delivered (`None` once it is closed)
    /// into the event the consumer observes, if any.
    ///
    /// While connecting, a connection report is passed on and a disconnection
    /// keeps waiting; anything else is a fault. While connected, data events
    /// are passed on, a disconnection or a closed channel goes back to
    /// connecting, and other messages are ignored.
    pub fn relay<C>(&mut self, msg: Option<Message>) -> (r: Result<Option<Event<C>>, LinkFault>)
        requires
            *old(self) != LinkState::Init,
        ensures
            *old(self) == LinkState::Connecting ==> match msg {
                Some(Message::Connected) => r == Ok::<Option<Event<C>>, LinkFault>(
                    Some(Event::Connected),
                ) && *final(self) == LinkState::Connected,
                Some(Message::Disconnected) => r == Ok::<Option<Event<C>>, LinkFault>(
                    Some(Event::Disconnected),
                ) && *final(self) == LinkState::Connecting,
                Some(m) => r == Err::<Option<Event<C>>, LinkFault>(LinkFault::Unexpected(m)),
                None => r == Err::<Option<Event<C>>, LinkFault>(LinkFault::Closed),
            },
            *old(self) == LinkState::Connected ==> match msg {
                Some(m) => if is_data_event(m) {
                    r == Ok::<Option<Event<C>>, LinkFault>(Some(Event::MessageReceived(m)))
                        && *final(self) == LinkState::Connected
                } else if m == Message::Disconnected {
                    r == Ok::<Option<Event<C>>, LinkFault>(Some(Event::Disconnected))
                        && *final(self) == LinkState::Connecting
                } else {
                    r == Ok::<Option<Event<C>>, LinkFault>(None) && *final(self)
                        == LinkState::Connected
                },
                None => r == Ok::<Option<Event<C>>, LinkFault>(Some(Event::Disconnected))
                    && *final(self) == LinkState::Connecting,
            },
    {
        match *self {
            LinkState::Connecting => match msg {
                Some(Message::Connected) => {
                    *self = LinkState::Connected;
                    Ok(Some(Event::Connected))
                },
                Some(Message::Disconnected) => Ok(Some(Event::Disconnected)),
                Some(m) => Err(LinkFault::Unexpected(m)),
                None => Err(LinkFault::Closed),
            },
            _ => match msg {
                Some(Message::SetSinks(l)) => Ok(Some(Event::MessageReceived(Message::SetSinks(l)))),
                Some(Message::SetSources(l)) => Ok(
                    Some(Event::MessageReceived(Message::SetSources(l))),
                ),
                Some(Message::SetDefaultSink(d)) => Ok(
                    Some(Event::MessageReceived(Message::SetDefaultSink(d))),
                ),
                Some(Message::SetDefaultSource(d)) => Ok(
                    Some(Event::MessageReceived(Message::SetDefaultSource(d))),
                ),
                Some(Message::Disconnected) | None => {
                    *self = LinkState::Connecting;
                    Ok(Some(Event::Disconnected))
                },
                Some(_) => Ok(None),
            },
        }
    }
}

} // verus!
