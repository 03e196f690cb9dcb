//! Message types: classes, delivery semantics, subscription modes and
//! results, and the typed messages exchanged with the broker.

use vstd::prelude::*;
use vstd::std_specs::convert::IntoSpec;

pub mod command;
pub mod datagram;
pub mod event;
pub mod snapshot;
pub mod state;
pub mod stream;

verus! {

/// Whether `t` is what `s.into()` gives, for conversions that state it.
pub open spec fn converts_to<S: Into<String>>(s: S, t: String) -> bool {
    <S as IntoSpec<String>>::obeys_into_spec() ==> t == <S as IntoSpec<String>>::into_spec(s)
}

/// Top-level message class.
#[derive(Debug, Clone, Copy, PartialEq, Eq, Hash, Structural)]
pub enum MessageClass {
    Event,
    Command,
    Reply,
    State,
    Datagram,
    Stream,
    Snapshot,
    System,
}

/// The wire name of each class.
pub open spec fn class_name(c: MessageClass) -> Seq<char> {
    match c {
        MessageClass::Event => "event"@,
        MessageClass::Command => "command"@,
        MessageClass::Reply => "reply"@,
        MessageClass::State => "state"@,
        MessageClass::Datagram => "datagram"@,
        MessageClass::Stream => "stream"@,
        MessageClass::Snapshot => "snapshot"@,
        MessageClass::System => "system"@,
    }
}

impl MessageClass {
    /// The class's wire name, in snake case.
    pub fn as_str(self) -> (r: &'static str)
        ensures
            r@ == class_name(self),
    {
        match self {
            MessageClass::Event => "event",
            MessageClass::Command => "command",
            MessageClass::Reply => "reply",
            MessageClass::State => "state",
            MessageClass::Datagram => "datagram",
            MessageClass::Stream => "stream",
            MessageClass::Snapshot => "snapshot",
            MessageClass::System => "system",
        }
    }
}

/// Delivery semantics.
#[derive(Debug, Clone, Copy, PartialEq, Eq, Hash, Structural)]
pub enum DeliveryMode {
    AtMostOnce,
    AtLeastOnce,
    ExactlyOnceEffect,
    LatestOnly,
    BestEffort,
    DurableOrdered,
}

/// The default delivery mode of each class: state is latest-only,
/// datagrams best-effort, streams durable and ordered, everything else
/// at least once.
pub open spec fn default_delivery(c: MessageClass) -> DeliveryMode {
    match c {
        MessageClass::State => DeliveryMode::LatestOnly,
        MessageClass::Datagram => DeliveryMode::BestEffort,
        MessageClass::Stream => DeliveryMode::DurableOrdered,
        _ => DeliveryMode::AtLeastOnce,
    }
}

impl DeliveryMode {
    /// The default delivery mode for a message class.
    pub fn default_for(class: MessageClass) -> (r: DeliveryMode)
        ensures
            r == default_delivery(class),
    {
        match class {
            MessageClass::Event => DeliveryMode::AtLeastOnce,
            MessageClass::Command => DeliveryMode::AtLeastOnce,
            MessageClass::Reply => DeliveryMode::AtLeastOnce,
            MessageClass::State => DeliveryMode::LatestOnly,
            MessageClass::Datagram => DeliveryMode::BestEffort,
            MessageClass::Stream => DeliveryMode::DurableOrdered,
            MessageClass::Snapshot => DeliveryMode::AtLeastOnce,
            MessageClass::System => DeliveryMode::AtLeastOnce,
        }
    }
}

/// Subscription mode.
#[derive(Debug, Clone, Copy, PartialEq, Eq, Hash, Structural)]
pub enum SubscribeMode {
    Live,
    Replay,
    SnapshotThenLive,
    Latest,
    Passive,
    Ephemeral,
}

/// Result of a subscribe request.
#[derive(Debug, Clone, Copy, PartialEq, Eq, Hash, Structural)]
pub enum SubscribeResult {
    Accepted,
    Denied,
    NotFound,
    Gone,
    ReplayRequired,
    SnapshotRequired,
    RateLimited,
    Overloaded,
    InvalidFilter,
}

/// A typed message exchanged with the broker.
#[derive(Debug, Clone)]
pub enum Message {
    Event(event::Event),
    Command(command::Command),
    Reply(command::Reply),
    State(state::State),
    Datagram(datagram::Datagram),
    Stream(stream::StreamSegment),
    Snapshot(snapshot::Snapshot),
    /// A system message keyed by an event name.
    System { event: String, payload: serde_json::Value },
}

/// The class of each message: that of its variant.
pub open spec fn message_class(m: Message) -> MessageClass {
    match m {
        Message::Event(_) => MessageClass::Event,
        Message::Command(_) => MessageClass::Command,
        Message::Reply(_) => MessageClass::Reply,
        Message::State(_) => MessageClass::State,
        Message::Datagram(_) => MessageClass::Datagram,
        Message::Stream(_) => MessageClass::Stream,
        Message::Snapshot(_) => MessageClass::Snapshot,
        Message::System { .. } => MessageClass::System,
    }
}

impl Message {
    /// The message's class.
    pub fn class(&self) -> (r: MessageClass)
        ensures
            r == message_class(*self),
    {
        match self {
            Message::Event(_) => MessageClass::Event,
            Message::Command(_) => MessageClass::Command,
            Message::Reply(_) => MessageClass::Reply,
            Message::State(_) => MessageClass::State,
            Message::Datagram(_) => MessageClass::Datagram,
            Message::Stream(_) => MessageClass::Stream,
            Message::Snapshot(_) => MessageClass::Snapshot,
            Message::System { .. } => MessageClass::System,
        }
    }
}

} // verus!
