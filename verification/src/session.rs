use vstd::prelude::*;
use crate::bus::EventBus;
use crate::event::{Event, EventV, Timestamp};
use crate::identity::{Identity, IdentityV};
use crate::settings::{Settings, SettingsV};
use crate::stanza::{classify, classify_spec, Stanza, StanzaV};

verus! {

/// Connection lifecycle state, owned by the session manager alone and
/// driven only by transport lifecycle notifications. `Reconnecting` is
/// reserved for a transport that reports its own reconnect attempts; the
/// transitions of this core never enter it, since a disconnection ends
/// the loop and a recovered transport simply delivers a fresh online
/// notification.
pub enum ConnectionStateV {
    Disconnected,
    Connecting,
    Online(IdentityV),
    Reconnecting,
}

/// Executable form of the connection lifecycle state.
#[derive(Debug)]
pub enum ConnectionState {
    Disconnected,
    Connecting,
    Online(Identity),
    Reconnecting,
}

impl View for ConnectionState {
    type V = ConnectionStateV;

    open spec fn view(&self) -> ConnectionStateV {
        match self {
            ConnectionState::Disconnected => ConnectionStateV::Disconnected,
            ConnectionState::Connecting => ConnectionStateV::Connecting,
            ConnectionState::Online(id) => ConnectionStateV::Online(id@),
            ConnectionState::Reconnecting => ConnectionStateV::Reconnecting,
        }
    }
}

/// Model of one inbound transport item.
pub enum TransportItemV {
    Online { bound: IdentityV },
    Disconnected,
    Stanza { stanza: StanzaV, at: Timestamp },
}

/// One item handed in by the transport: a lifecycle notification, or a
/// decoded stanza stamped with its wire-arrival time.
#[derive(Debug)]
pub enum TransportItem {
    Online { bound: Identity },
    Disconnected,
    Stanza { stanza: Stanza, at: Timestamp },
}

impl View for TransportItem {
    type V = TransportItemV;

    open spec fn view(&self) -> TransportItemV {
        match self {
            TransportItem::Online { bound } => TransportItemV::Online { bound: bound@ },
            TransportItem::Disconnected => TransportItemV::Disconnected,
            TransportItem::Stanza { stanza, at } => TransportItemV::Stanza {
                stanza: stanza@,
                at: *at,
            },
        }
    }
}

/// Model of a presence stanza to be sent.
pub struct PresenceV {
    pub to: IdentityV,
    pub from: IdentityV,
}

/// A complete presence stanza value of neutral availability type,
/// addressed to the room-scoped identity, sent from the bound identity and
/// carrying the room-join payload. Built whole before it is handed to the
/// outbound sink; no partially built stanza is ever observable.
#[derive(Debug, PartialEq, Eq)]
pub struct Presence {
    pub to: Identity,
    pub from: Identity,
}

impl View for Presence {
    type V = PresenceV;

    open spec fn view(&self) -> PresenceV {
        PresenceV { to: self.to@, from: self.from@ }
    }
}

/// The connection state after one transport item: an online notification
/// binds, a disconnection disconnects, a stanza leaves the state alone.
pub open spec fn next_state_spec(state: ConnectionStateV, item: TransportItemV)
    -> ConnectionStateV {
    match item {
        TransportItemV::Online { bound } => ConnectionStateV::Online(bound),
        TransportItemV::Disconnected => ConnectionStateV::Disconnected,
        TransportItemV::Stanza { .. } => state,
    }
}

/// The presence stanza one transport item makes the session manager send:
/// exactly on an online notification, addressed to `room/nickname` and
/// from the bound identity.
pub open spec fn step_presence_spec(settings: SettingsV, item: TransportItemV) -> Option<
    PresenceV,
> {
    match item {
        TransportItemV::Online { bound } => Some(
            PresenceV { to: settings.room.with_resource(settings.nickname), from: bound },
        ),
        TransportItemV::Disconnected => None,
        TransportItemV::Stanza { .. } => None,
    }
}

/// The event one transport item makes the session manager emit: a `Join`
/// on an online notification, the classified message for a stanza, and
/// nothing at all for a disconnection.
pub open spec fn step_event_spec(settings: SettingsV, item: TransportItemV) -> Option<EventV> {
    match item {
        TransportItemV::Online { bound } => Some(
            EventV::Join { account: bound, channel: settings.room },
        ),
        TransportItemV::Disconnected => None,
        TransportItemV::Stanza { stanza, at } => classify_spec(settings.room, stanza, at),
    }
}

/// Whether one transport item terminates the session loop.
pub open spec fn step_done_spec(item: TransportItemV) -> bool {
    item is Disconnected
}

/// On an online notification the session manager sends exactly one
/// presence stanza, addressed to the configured room scoped with the
/// configured nickname and from the bound identity, and emits exactly one
/// `Join` event carrying the bound identity and the configured room.
pub proof fn lemma_online_presence_and_join(settings: SettingsV, bound: IdentityV)
    ensures
        step_presence_spec(settings, TransportItemV::Online { bound }) == Some(
            PresenceV { to: settings.room.with_resource(settings.nickname), from: bound },
        ),
        step_event_spec(settings, TransportItemV::Online { bound }) == Some(
            EventV::Join { account: bound, channel: settings.room },
        ),
        !step_done_spec(TransportItemV::Online { bound }),
{
}

/// A disconnection notification terminates the loop and emits nothing —
/// no event, no presence stanza — whatever state it arrives in.
pub proof fn lemma_disconnect_is_silent(settings: SettingsV, state: ConnectionStateV)
    ensures
        step_event_spec(settings, TransportItemV::Disconnected) is None,
        step_presence_spec(settings, TransportItemV::Disconnected) is None,
        step_done_spec(TransportItemV::Disconnected),
        next_state_spec(state, TransportItemV::Disconnected) is Disconnected,
{
}

/// The zero-or-one-element sequence that an optional action contributes
/// to a run.
pub open spec fn opt_seq<T>(o: Option<T>) -> Seq<T> {
    match o {
        Some(x) => seq![x],
        None => Seq::empty(),
    }
}

/// How a finite inbound sequence plays out: the events and the presence
/// stanzas produced, each in wire order, the final connection state, and
/// whether a disconnection ended the run. Processing stops at the first
/// `Disconnected` item, which itself contributes nothing.
pub struct RunV {
    pub events: Seq<EventV>,
    pub presences: Seq<PresenceV>,
    pub state: ConnectionStateV,
    pub stopped: bool,
}

/// The run that a finite inbound sequence denotes, item by item.
pub open spec fn run_spec(
    settings: SettingsV,
    state: ConnectionStateV,
    items: Seq<TransportItemV>,
) -> RunV
    decreases items.len(),
{
    if items.len() == 0 {
        RunV { events: Seq::empty(), presences: Seq::empty(), state, stopped: false }
    } else {
        let item = items[0];
        let state1 = next_state_spec(state, item);
        if step_done_spec(item) {
            RunV { events: Seq::empty(), presences: Seq::empty(), state: state1, stopped: true }
        } else {
            let rest = run_spec(settings, state1, items.drop_first());
            RunV {
                events: opt_seq(step_event_spec(settings, item)) + rest.events,
                presences: opt_seq(step_presence_spec(settings, item)) + rest.presences,
                state: rest.state,
                stopped: rest.stopped,
            }
        }
    }
}

/// What one transport item makes the session manager do: a presence
/// stanza to hand to the outbound sink, an event to put on the bus, and
/// whether the loop is over.
#[derive(Debug)]
pub struct Step {
    pub presence: Option<Presence>,
    pub event: Option<Event>,
    pub done: bool,
}

/// Owns the transport connection state and converts raw transport items
/// into domain events, leaving the settings untouched.
#[derive(Debug)]
pub struct SessionManager {
    pub settings: Settings,
    pub state: ConnectionState,
}

impl SessionManager {
    /// A fresh session manager, waiting for its first lifecycle
    /// notification.
    pub fn new(settings: Settings) -> (r: SessionManager)
        ensures
            r.settings@ == settings@,
            r.state@ is Connecting,
    {
        SessionManager { settings, state: ConnectionState::Connecting }
    }

    /// React to one transport item.
    pub fn step(&mut self, item: &TransportItem) -> (s: Step)
        ensures
            final(self).settings@ == old(self).settings@,
            final(self).state@ == next_state_spec(old(self).state@, item@),
            (match s.presence {
                Some(p) => step_presence_spec(old(self).settings@, item@) == Some(p@),
                None => step_presence_spec(old(self).settings@, item@) is None,
            }),
            (match s.event {
                Some(e) => step_event_spec(old(self).settings@, item@) == Some(e@),
                None => step_event_spec(old(self).settings@, item@) is None,
            }),
            s.done == step_done_spec(item@),
    {
        match item {
            TransportItem::Online { bound } => {
                self.state = ConnectionState::Online(bound.clone());
                let presence = Presence {
                    to: self.settings.room.with_resource(self.settings.nickname.as_str()),
                    from: bound.clone(),
                };
                let event = Event::Join {
                    account: bound.clone(),
                    channel: self.settings.room.clone(),
                };
                Step { presence: Some(presence), event: Some(event), done: false }
            },
            TransportItem::Disconnected => {
                self.state = ConnectionState::Disconnected;
                Step { presence: None, event: None, done: true }
            },
            TransportItem::Stanza { stanza, at } => {
                let event = classify(&self.settings.room, stanza, *at);
                Step { presence: None, event, done: false }
            },
        }
    }

    /// Process a finite prefix of the inbound transport sequence in wire
    /// order: emit the events onto `bus` in that same order, collect the
    /// presence stanzas to send in order, and stop at the first
    /// disconnection.
    pub fn drive(&mut self, items: &Vec<TransportItem>, bus: &mut EventBus) -> (r: Drive)
        ensures
            ({
                let run = run_spec(
                    old(self).settings@,
                    old(self).state@,
                    items@.map_values(|it: TransportItem| it@),
                );
                &&& final(self).settings@ == old(self).settings@
                &&& final(self).state@ == run.state
                &&& final(bus)@ == old(bus)@ + run.events
                &&& r.presences@.map_values(|p: Presence| p@) == run.presences
                &&& r.stopped == run.stopped
            }),
    {
        let ghost settings_v = self.settings@;
        let ghost items_v = items@.map_values(|it: TransportItem| it@);
        let ghost full = run_spec(settings_v, self.state@, items_v);
        let mut presences: Vec<Presence> = Vec::new();
        let mut stopped = false;
        let mut i: usize = 0;
        let ghost mut acc_e: Seq<EventV> = Seq::empty();
        let ghost mut acc_p: Seq<PresenceV> = Seq::empty();
        proof {
            assert(bus@ =~= old(bus)@ + acc_e);
            assert(presences@.map_values(|p: Presence| p@) =~= acc_p);
            assert(items_v.skip(0) =~= items_v);
            assert(acc_e + full.events =~= full.events);
            assert(acc_p + full.presences =~= full.presences);
        }
        while i < items.len() && !stopped
            invariant
                i <= items.len(),
                self.settings@ == settings_v,
                settings_v == old(self).settings@,
                items_v == items@.map_values(|it: TransportItem| it@),
                full == run_spec(settings_v, old(self).state@, items_v),
                bus@ == old(bus)@ + acc_e,
                presences@.map_values(|p: Presence| p@) == acc_p,
                !stopped ==> ({
                    let rem = run_spec(settings_v, self.state@, items_v.skip(i as int));
                    &&& full.events == acc_e + rem.events
                    &&& full.presences == acc_p + rem.presences
                    &&& full.state == rem.state
                    &&& full.stopped == rem.stopped
                }),
                stopped ==> full.events == acc_e && full.presences == acc_p && full.state
                    == self.state@ && full.stopped,
            decreases items.len() - i,
        {
            let ghost pre = self.state@;
            let ghost sk = items_v.skip(i as int);
            let ghost rem = run_spec(settings_v, pre, sk);
            let ghost old_acc_e = acc_e;
            let ghost old_acc_p = acc_p;
            let ghost item_v = items_v[i as int];
            proof {
                assert(sk.len() > 0);
                assert(sk[0] == item_v);
                assert(item_v == items@[i as int]@);
                assert(sk.drop_first() =~= items_v.skip(i as int + 1));
            }
            let item = &items[i];
            let s = self.step(item);
            match s.presence {
                Some(p) => {
                    let ghost pv = p@;
                    presences.push(p);
                    proof {
                        acc_p = acc_p.push(pv);
                        assert(presences@.map_values(|q: Presence| q@) =~= acc_p);
                    }
                },
                None => {},
            }
            match s.event {
                Some(e) => {
                    let ghost ev = e@;
                    bus.send(e);
                    proof {
                        acc_e = acc_e.push(ev);
                    }
                },
                None => {},
            }
            if s.done {
                stopped = true;
            }
            i = i + 1;
            proof {
                let sev = step_event_spec(settings_v, item_v);
                let spv = step_presence_spec(settings_v, item_v);
                assert(acc_e =~= old_acc_e + opt_seq(sev));
                assert(acc_p =~= old_acc_p + opt_seq(spv));
                if stopped {
                    assert(full.events =~= acc_e);
                    assert(full.presences =~= acc_p);
                } else {
                    let rem2 = run_spec(settings_v, self.state@, items_v.skip(i as int));
                    assert(rem.events == opt_seq(sev) + rem2.events);
                    assert(rem.presences == opt_seq(spv) + rem2.presences);
                    assert(full.events =~= acc_e + rem2.events);
                    assert(full.presences =~= acc_p + rem2.presences);
                }
            }
        }
        proof {
            if !stopped {
                assert(items_v.skip(i as int).len() == 0);
                assert(full.events =~= acc_e);
                assert(full.presences =~= acc_p);
            }
        }
        Drive { presences, stopped }
    }
}

/// What a finished `drive` hands back: the presence stanzas to send, in
/// order, and whether a disconnection ended the run.
#[derive(Debug)]
pub struct Drive {
    pub presences: Vec<Presence>,
    pub stopped: bool,
}

} // verus!
