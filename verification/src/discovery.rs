//! The presence protocol: what each discovery message does to the registry,
//! what the three periodic tasks do at each turn, and the lifecycle of the
//! service that owns them.
//!
//! The embedding program owns the sockets and the timers. It hands each
//! received datagram to `discovery_listener`, asks `discovery_broadcaster`
//! and `device_cleanup_task` what to do at each turn, and carries out what
//! they answer.

use vstd::prelude::*;
use crate::registry::{lists, survivors, views_of, PeerMap, Registry};
use crate::types::{
    Device, DeviceView, DiscoveryMessage, DiscoveryMessageType, DiscoveryMessageView,
};

verus! {

/// The UDP port of the presence protocol.
pub const DISCOVERY_PORT: u16 = 8889;

/// The multicast group to which presence is announced.
pub const MULTICAST_ADDR: &'static str = "239.255.255.250";

/// Seconds of silence after which a peer counts as gone.
pub const PEER_TTL_SECS: u64 = 30;

/// Seconds between two announcements.
pub const ANNOUNCE_INTERVAL_SECS: u64 = 5;

/// Seconds between two eviction sweeps.
pub const CLEANUP_INTERVAL_SECS: u64 = 10;

/// Milliseconds for which the listener rests when no datagram waits.
pub const LISTEN_PAUSE_MILLIS: u64 = 10;

/// The registry after one message: a farewell removes the sender's entry,
/// every other message stores the sender's record under its id.
pub open spec fn after_message(m: PeerMap, message: DiscoveryMessageView) -> PeerMap {
    match message.message_type {
        DiscoveryMessageType::Goodbye => m.remove(message.device.id),
        _ => m.insert(message.device.id, message.device),
    }
}

/// The registry after a run of messages, taken in order.
pub open spec fn after_messages(m: PeerMap, messages: Seq<DiscoveryMessageView>) -> PeerMap
    decreases messages.len(),
{
    if messages.len() == 0 {
        m
    } else {
        after_message(after_messages(m, messages.drop_last()), messages.last())
    }
}

/// What a registry holds under `id`, if anything.
pub open spec fn entry(m: PeerMap, id: Seq<char>) -> Option<DeviceView> {
    if m.contains_key(id) {
        Some(m[id])
    } else {
        None
    }
}

/// The place of the last message of the run that speaks of `id`.
pub open spec fn last_about(messages: Seq<DiscoveryMessageView>, id: Seq<char>) -> Option<int>
    decreases messages.len(),
{
    if messages.len() == 0 {
        None
    } else if messages.last().device.id == id {
        Some(messages.len() - 1)
    } else {
        last_about(messages.drop_last(), id)
    }
}

/// The envelope in which `device` says `message_type` of itself.
pub open spec fn envelope(
    device: DeviceView,
    message_type: DiscoveryMessageType,
) -> DiscoveryMessageView {
    DiscoveryMessageView { device, message_type }
}

/// Of a run of messages, the last one that speaks of an id decides what the
/// registry holds under it: nothing after a farewell, otherwise the record
/// that the message carried, whole. An id of which no message speaks keeps
/// what it had.
pub proof fn law_last_message_decides(
    m: PeerMap,
    messages: Seq<DiscoveryMessageView>,
    id: Seq<char>,
)
    ensures
        match last_about(messages, id) {
            None => entry(after_messages(m, messages), id) == entry(m, id),
            Some(k) => 0 <= k < messages.len() && messages[k].device.id == id && entry(
                after_messages(m, messages),
                id,
            ) == (if messages[k].message_type == DiscoveryMessageType::Goodbye {
                None
            } else {
                Some(messages[k].device)
            }),
        },
    decreases messages.len(),
{
    if messages.len() > 0 {
        law_last_message_decides(m, messages.drop_last(), id);
    }
}

/// Last writer wins: after any non-empty run of announcements, pings and
/// pongs that all speak of one id, the registry holds under that id the
/// record of the last message, and nothing of the earlier ones.
pub proof fn law_last_writer_wins(m: PeerMap, messages: Seq<DiscoveryMessageView>, id: Seq<char>)
    requires
        messages.len() > 0,
        forall|i: int|
            0 <= i < messages.len() ==> (#[trigger] messages[i]).device.id == id
                && messages[i].message_type != DiscoveryMessageType::Goodbye,
    ensures
        after_messages(m, messages).contains_key(id),
        after_messages(m, messages)[id] == messages.last().device,
{
    law_last_message_decides(m, messages, id);
}

/// A farewell removes the sender's id whether or not it was known; where it
/// was not known, the registry is what it was.
pub proof fn law_goodbye_removes(m: PeerMap, device: DeviceView)
    ensures
        !after_message(m, envelope(device, DiscoveryMessageType::Goodbye)).contains_key(device.id),
        !m.contains_key(device.id) ==> after_message(
            m,
            envelope(device, DiscoveryMessageType::Goodbye),
        ) == m,
{
    if !m.contains_key(device.id) {
        assert(m.remove(device.id) =~= m);
    }
}

/// A sweep evicts an entry if and only if more than `ttl` seconds lie between
/// its `last_seen` and `now`: an entry at exactly `ttl` seconds stays, and
/// what stays is unchanged.
pub proof fn law_eviction_boundary(m: PeerMap, ttl: u64, now: u64, id: Seq<char>)
    requires
        m.contains_key(id),
    ensures
        !survivors(m, ttl, now).contains_key(id) <==> now - m[id].last_seen > ttl,
        now - m[id].last_seen == ttl ==> survivors(m, ttl, now).contains_key(id),
        survivors(m, ttl, now).contains_key(id) ==> survivors(m, ttl, now)[id] == m[id],
{
}

/// A sender that is heard stays: a peer that stores an announcement sent at
/// `sent` keeps the sender through every sweep that runs no more than `ttl`
/// seconds later, with the record that was announced.
pub proof fn law_heard_sender_stays(m: PeerMap, sender: DeviceView, sent: u64, ttl: u64, now: u64)
    requires
        now - sent <= ttl,
    ensures
        survivors(
            after_message(m, envelope(sender.seen_at(sent), DiscoveryMessageType::Announce)),
            ttl,
            now,
        ).contains_key(sender.id),
        survivors(
            after_message(m, envelope(sender.seen_at(sent), DiscoveryMessageType::Announce)),
            ttl,
            now,
        )[sender.id] == sender.seen_at(sent),
{
}

/// A reply and the address it goes to.
pub struct Reply<A> {
    pub to: A,
    pub message: DiscoveryMessage,
}

/// What the listener's socket yielded at one turn.
pub enum ListenerEvent<A> {
    /// A datagram came from `source`; `decoded` is `None` where its bytes
    /// are no discovery message.
    Datagram { decoded: Option<DiscoveryMessage>, source: A },
    /// No datagram waits.
    NoData,
    /// The socket reported another error.
    Failed,
}

/// What the listener does after one turn.
pub struct ListenerAction<A> {
    /// The listing to publish to the subscribers, if any.
    pub publish: Option<Vec<Device>>,
    /// The reply to send, if any.
    pub reply: Option<Reply<A>>,
    /// Milliseconds to rest before the next turn.
    pub pause_millis: u64,
}

/// What the broadcaster does at one turn.
pub enum BroadcastStep {
    /// Send `message` to the multicast group, rest, and take another turn.
    Announce { message: DiscoveryMessage, pause_secs: u64 },
    /// Send `message` to the multicast group once and end.
    Farewell { message: DiscoveryMessage },
}

/// What the cleanup task does at one turn.
pub enum CleanupStep {
    /// The service has stopped: end.
    Exit,
    /// The sweep is done: publish the listing if there is one, rest, and take
    /// another turn.
    Swept { publish: Option<Vec<Device>>, pause_secs: u64 },
}

/// What `start` asks of the embedding program.
#[derive(Debug, Clone, Copy, PartialEq, Eq, Structural)]
pub enum StartOutcome {
    /// The service was stopped and runs now: launch the three tasks.
    Started,
    /// The service was running already: nothing is to be done.
    AlreadyRunning,
}

/// The discovery service: the local identity, the registry of peers, and
/// whether the tasks are meant to run.
pub struct DiscoveryService {
    device: Device,
    registry: Registry,
    running: bool,
}

impl DiscoveryService {
    /// The local identity.
    pub closed spec fn identity(&self) -> DeviceView {
        self.device@
    }

    /// The peers that are known.
    pub closed spec fn peers(&self) -> PeerMap {
        self.registry@
    }

    /// Whether the tasks are meant to run.
    pub closed spec fn running(&self) -> bool {
        self.running
    }

    /// A stopped service for the local identity `device`, with no peer known.
    pub fn new(device: Device) -> (service: DiscoveryService)
        ensures
            service.identity() == device@,
            service.peers() == PeerMap::empty(),
            !service.running(),
    {
        DiscoveryService { device, registry: Registry::new(), running: false }
    }

    /// Whether the tasks are meant to run.
    pub fn is_running(&self) -> (running: bool)
        ensures
            running == self.running(),
    {
        self.running
    }

    /// The local identity.
    pub fn device(&self) -> (device: Device)
        ensures
            device@ == self.identity(),
    {
        self.device.clone()
    }

    /// Sets the service running. Where it ran already nothing changes and
    /// nothing is to be launched.
    pub fn start(&mut self) -> (outcome: StartOutcome)
        ensures
            final(self).running(),
            final(self).identity() == old(self).identity(),
            final(self).peers() == old(self).peers(),
            outcome == (if old(self).running() {
                StartOutcome::AlreadyRunning
            } else {
                StartOutcome::Started
            }),
    {
        if self.running {
            StartOutcome::AlreadyRunning
        } else {
            self.running = true;
            StartOutcome::Started
        }
    }

    /// Asks the tasks to end. They see it at their next turn.
    pub fn stop(&mut self)
        ensures
            !final(self).running(),
            final(self).identity() == old(self).identity(),
            final(self).peers() == old(self).peers(),
    {
        self.running = false;
    }

    /// Every known peer, each once, in no particular order.
    pub fn get_devices(&self) -> (listing: Vec<Device>)
        ensures
            lists(views_of(listing@), self.peers()),
    {
        self.registry.snapshot()
    }

    /// One turn of the listener at time `now`, in seconds since the Unix
    /// epoch.
    ///
    /// A decoded message changes the registry as `after_message` says, and
    /// the new listing is published. A ping is answered with exactly one
    /// pong, which carries the local identity as seen at `now` and goes to
    /// the ping's source; no other message is answered. Bytes that are no
    /// message change nothing and cause nothing. Where no datagram waits the
    /// listener rests for `LISTEN_PAUSE_MILLIS`; after any other outcome it
    /// goes on at once.
    pub fn discovery_listener<A>(&mut self, event: ListenerEvent<A>, now: u64) -> (action:
        ListenerAction<A>)
        ensures
            final(self).running() == old(self).running(),
            final(self).identity() == old(self).identity(),
            match event {
                ListenerEvent::Datagram { decoded: Some(message), source } => {
                    &&& final(self).peers() == after_message(old(self).peers(), message@)
                    &&& action.publish is Some
                    &&& lists(views_of(action.publish->0@), final(self).peers())
                    &&& action.pause_millis == 0
                    &&& if message.message_type == DiscoveryMessageType::Ping {
                        &&& action.reply is Some
                        &&& action.reply->0.to == source
                        &&& action.reply->0.message@ == envelope(
                            old(self).identity().seen_at(now),
                            DiscoveryMessageType::Pong,
                        )
                    } else {
                        action.reply is None
                    }
                },
                ListenerEvent::Datagram { decoded: None, source } => {
                    &&& final(self).peers() == old(self).peers()
                    &&& action.publish is None
                    &&& action.reply is None
                    &&& action.pause_millis == 0
                },
                ListenerEvent::NoData => {
                    &&& final(self).peers() == old(self).peers()
                    &&& action.publish is None
                    &&& action.reply is None
                    &&& action.pause_millis == LISTEN_PAUSE_MILLIS
                },
                ListenerEvent::Failed => {
                    &&& final(self).peers() == old(self).peers()
                    &&& action.publish is None
                    &&& action.reply is None
                    &&& action.pause_millis == 0
                },
            },
    {
        match event {
            ListenerEvent::Datagram { decoded: Some(message), source } => {
                let reply = match message.message_type {
                    DiscoveryMessageType::Ping => Some(
                        Reply {
                            to: source,
                            message: DiscoveryMessage {
                                device: self.device.seen_at(now),
                                message_type: DiscoveryMessageType::Pong,
                            },
                        },
                    ),
                    _ => None,
                };
                match message.message_type {
                    DiscoveryMessageType::Goodbye => {
                        let _ = self.registry.remove(&message.device.id);
                    },
                    _ => {
                        self.registry.upsert(message.device);
                    },
                }
                let listing = self.registry.snapshot();
                ListenerAction { publish: Some(listing), reply, pause_millis: 0 }
            },
            ListenerEvent::Datagram { decoded: None, source: _ } => ListenerAction {
                publish: None,
                reply: None,
                pause_millis: 0,
            },
            ListenerEvent::NoData => ListenerAction {
                publish: None,
                reply: None,
                pause_millis: LISTEN_PAUSE_MILLIS,
            },
            ListenerEvent::Failed => ListenerAction { publish: None, reply: None, pause_millis: 0 },
        }
    }

    /// One turn of the broadcaster at time `now`, in seconds since the Unix
    /// epoch: while the service runs, an announcement of the local identity
    /// as seen at `now` and a rest of `ANNOUNCE_INTERVAL_SECS`; once it has
    /// stopped, one farewell, after which the task ends.
    pub fn discovery_broadcaster(&self, now: u64) -> (step: BroadcastStep)
        ensures
            match step {
                BroadcastStep::Announce { message, pause_secs } => {
                    &&& self.running()
                    &&& message@ == envelope(
                        self.identity().seen_at(now),
                        DiscoveryMessageType::Announce,
                    )
                    &&& pause_secs == ANNOUNCE_INTERVAL_SECS
                },
                BroadcastStep::Farewell { message } => {
                    &&& !self.running()
                    &&& message@ == envelope(self.identity(), DiscoveryMessageType::Goodbye)
                },
            },
    {
        if self.running {
            BroadcastStep::Announce {
                message: DiscoveryMessage {
                    device: self.device.seen_at(now),
                    message_type: DiscoveryMessageType::Announce,
                },
                pause_secs: ANNOUNCE_INTERVAL_SECS,
            }
        } else {
            BroadcastStep::Farewell {
                message: DiscoveryMessage {
                    device: self.device.clone(),
                    message_type: DiscoveryMessageType::Goodbye,
                },
            }
        }
    }

    /// One turn of the cleanup task at time `now`, in seconds since the Unix
    /// epoch.
    ///
    /// While the service runs, every peer that is stale under
    /// `PEER_TTL_SECS` is evicted and no other. Where a peer is left, the
    /// listing of what is left is published; where none is left, nothing is
    /// published. Once the service has stopped the task ends and the registry
    /// stays as it is.
    pub fn device_cleanup_task(&mut self, now: u64) -> (step: CleanupStep)
        ensures
            final(self).running() == old(self).running(),
            final(self).identity() == old(self).identity(),
            match step {
                CleanupStep::Exit => !old(self).running() && final(self).peers() == old(
                    self,
                ).peers(),
                CleanupStep::Swept { publish, pause_secs } => {
                    &&& old(self).running()
                    &&& final(self).peers() == survivors(old(self).peers(), PEER_TTL_SECS, now)
                    &&& pause_secs == CLEANUP_INTERVAL_SECS
                    &&& publish is None <==> final(self).peers() == PeerMap::empty()
                    &&& publish is Some ==> lists(views_of(publish->0@), final(self).peers())
                },
            },
    {
        if !self.running {
            return CleanupStep::Exit;
        }
        self.registry.evict_older_than(PEER_TTL_SECS, now);
        let publish = if self.registry.is_empty() {
            None
        } else {
            Some(self.registry.snapshot())
        };
        CleanupStep::Swept { publish, pause_secs: CLEANUP_INTERVAL_SECS }
    }
}

} // verus!
