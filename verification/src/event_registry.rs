pub mod error;
pub mod events;
pub mod types;

use vstd::prelude::*;
use crate::address::Address;
use crate::host::CallContext;
use crate::text::{text_eq, texts_view, Text};
use crate::event_registry::error::EventRegistryError;
use crate::event_registry::events::{
    AgoraEvent, EventRegisteredEvent, EventRegisteredEventView, EventStatusUpdatedEvent,
    EventStatusUpdatedEventView, FeeUpdatedEvent, InitializationEvent, InitializationEventView,
    RegistryUpgradedEvent, RegistryUpgradedEventView,
};
use crate::event_registry::types::{
    clone_tiers, EventInfo, EventInfoView, PaymentInfo, PaymentInfoView,
};

verus! {

/// The largest platform fee, in basis points: the whole amount.
pub const MAX_FEE_PERCENT: u32 = 10000;

/// The platform fee, in basis points, that a registry takes when it is initialized
/// with a fee of zero.
pub const DEFAULT_FEE_PERCENT: u32 = 500;

/// What initialization writes: who administers the registry, where the platform's
/// fees go and how large they are.
#[derive(Debug, PartialEq, Eq)]
pub struct RegistryConfig {
    /// Who administers the registry.
    pub admin: Address,
    /// The wallet that collects the platform's fees.
    pub platform_wallet: Address,
    /// The platform's fee, in basis points.
    pub platform_fee_percent: u32,
}

/// A registry's configuration as a mathematical value.
pub struct RegistryConfigView {
    pub admin: Seq<char>,
    pub platform_wallet: Seq<char>,
    pub platform_fee_percent: u32,
}

impl View for RegistryConfig {
    type V = RegistryConfigView;

    open spec fn view(&self) -> RegistryConfigView {
        RegistryConfigView {
            admin: self.admin@,
            platform_wallet: self.platform_wallet@,
            platform_fee_percent: self.platform_fee_percent,
        }
    }
}

/// A configuration that may not have been written yet, as a mathematical value.
pub open spec fn config_view(config: Option<RegistryConfig>) -> Option<RegistryConfigView> {
    match config {
        Some(config) => Some(config@),
        None => None,
    }
}

/// A list of events as mathematical values.
pub open spec fn events_view(events: Seq<EventInfo>) -> Seq<EventInfoView> {
    events.map_values(|event: EventInfo| event@)
}

/// The event registry: what the contract keeps in storage.
///
/// A registry starts empty and uninitialized. Events are kept in the order in which
/// they were first stored, each under its own identifier.
#[derive(Debug)]
pub struct EventRegistry {
    config: Option<RegistryConfig>,
    events: Vec<EventInfo>,
}

/// A registry as a mathematical value.
pub struct EventRegistryView {
    /// The configuration, once the registry has been initialized.
    pub config: Option<RegistryConfigView>,
    /// The stored events, in the order in which they were first stored.
    pub events: Seq<EventInfoView>,
}

impl EventRegistryView {
    /// No two events share an identifier, and the platform fee is at most the whole
    /// amount.
    pub open spec fn wf(self) -> bool {
        &&& forall|i: int, j: int|
            #![trigger self.events[i], self.events[j]]
            0 <= i < j < self.events.len() ==> self.events[i].event_id != self.events[j].event_id
        &&& self.config matches Some(config) ==> config.platform_fee_percent <= MAX_FEE_PERCENT
    }

    /// Whether an event is stored under `event_id`.
    pub open spec fn has_event(self, event_id: Seq<u8>) -> bool {
        exists|i: int| 0 <= i < self.events.len() && (#[trigger] self.events[i]).event_id == event_id
    }

    /// Where the event stored under `event_id` stands among the events.
    pub open spec fn position(self, event_id: Seq<u8>) -> int {
        choose|i: int| 0 <= i < self.events.len() && (#[trigger] self.events[i]).event_id == event_id
    }

    /// The event stored under `event_id`.
    pub open spec fn event(self, event_id: Seq<u8>) -> EventInfoView {
        self.events[self.position(event_id)]
    }

    /// The events with `event` stored under its identifier: in place of the event
    /// that was stored under it, or else behind the others.
    pub open spec fn with_event(self, event: EventInfoView) -> Seq<EventInfoView> {
        if self.has_event(event.event_id) {
            self.events.update(self.position(event.event_id), event)
        } else {
            self.events.push(event)
        }
    }

    /// The platform fee in force, in basis points: zero until the registry is
    /// initialized.
    pub open spec fn platform_fee(self) -> u32 {
        match self.config {
            Some(config) => config.platform_fee_percent,
            None => 0,
        }
    }

    /// The identifiers of the events that `organizer` runs, in the order in which
    /// the events were first stored.
    pub open spec fn organizer_events(self, organizer: Seq<char>) -> Seq<Seq<u8>> {
        self.events.filter(|event: EventInfoView| event.organizer_address == organizer).map_values(
            |event: EventInfoView| event.event_id,
        )
    }

    /// The error with which initialization is turned away, if it is.
    pub open spec fn initialize_refusal(
        self,
        contract_address: Seq<char>,
        admin: Seq<char>,
        platform_wallet: Seq<char>,
        platform_fee_percent: u32,
    ) -> Option<EventRegistryError> {
        if self.config is Some {
            Some(EventRegistryError::AlreadyInitialized)
        } else if admin == contract_address || platform_wallet == contract_address {
            Some(EventRegistryError::InvalidAddress)
        } else if initial_fee(platform_fee_percent) > MAX_FEE_PERCENT {
            Some(EventRegistryError::InvalidFeePercent)
        } else {
            None
        }
    }

    /// The error with which a registration is turned away, if it is.
    pub open spec fn register_event_refusal(self, event_id: Seq<u8>) -> Option<
        EventRegistryError,
    > {
        if self.config is None {
            Some(EventRegistryError::NotInitialized)
        } else if self.has_event(event_id) {
            Some(EventRegistryError::EventAlreadyExists)
        } else {
            None
        }
    }

    /// The error with which a change of the platform fee is turned away, if it is.
    pub open spec fn set_platform_fee_refusal(self, new_fee_percent: u32) -> Option<
        EventRegistryError,
    > {
        if self.config is None {
            Some(EventRegistryError::NotInitialized)
        } else if new_fee_percent > MAX_FEE_PERCENT {
            Some(EventRegistryError::InvalidFeePercent)
        } else {
            None
        }
    }
}

/// The fee that a registry initialized with `platform_fee_percent` starts with: the
/// default in place of zero.
pub open spec fn initial_fee(platform_fee_percent: u32) -> u32 {
    if platform_fee_percent == 0 {
        DEFAULT_FEE_PERCENT
    } else {
        platform_fee_percent
    }
}

/// The record that registration stores: an active event at the fee in force, with no
/// metadata, no supply limit, nothing sold and no tiers.
pub open spec fn registered_event(
    event_id: Seq<u8>,
    organizer_address: Seq<char>,
    payment_address: Seq<char>,
    platform_fee_percent: u32,
    timestamp: u64,
) -> EventInfoView {
    EventInfoView {
        event_id,
        organizer_address,
        payment_address,
        platform_fee_percent,
        is_active: true,
        created_at: timestamp,
        metadata_cid: Seq::empty(),
        max_supply: 0,
        current_supply: 0,
        tiers: Seq::empty(),
    }
}

impl View for EventRegistry {
    type V = EventRegistryView;

    closed spec fn view(&self) -> EventRegistryView {
        EventRegistryView { config: config_view(self.config), events: events_view(self.events@) }
    }
}

/// Storing an event keeps a registry well formed; the event is then found under its
/// identifier, and under every other identifier is found what was found before.
pub proof fn lemma_with_event(registry: EventRegistryView, event: EventInfoView, other: Seq<u8>)
    requires
        registry.wf(),
    ensures
        (EventRegistryView { events: registry.with_event(event), ..registry }).wf(),
        (EventRegistryView { events: registry.with_event(event), ..registry }).has_event(
            event.event_id,
        ),
        (EventRegistryView { events: registry.with_event(event), ..registry }).event(event.event_id)
            == event,
        other != event.event_id ==> (EventRegistryView {
            events: registry.with_event(event),
            ..registry
        }).has_event(other) == registry.has_event(other),
        other != event.event_id && registry.has_event(other) ==> (EventRegistryView {
            events: registry.with_event(event),
            ..registry
        }).event(other) == registry.event(other),
{
    let after = EventRegistryView { events: registry.with_event(event), ..registry };
    let id = event.event_id;
    if registry.has_event(id) {
        let p = registry.position(id);
        assert(registry.events[p].event_id == id);
        assert(after.events.len() == registry.events.len());
        assert forall|i: int| 0 <= i < after.events.len() implies (#[trigger] after.events[i]).event_id
            == registry.events[i].event_id by {}
        assert(after.wf()) by {
            assert forall|i: int, j: int|
                #![trigger after.events[i], after.events[j]]
                0 <= i < j < after.events.len() implies after.events[i].event_id
                != after.events[j].event_id by {
                assert(registry.events[i].event_id != registry.events[j].event_id);
            }
        }
        assert(after.events[p].event_id == id);
        assert(after.has_event(id));
        let q = after.position(id);
        assert(after.events[q].event_id == after.events[p].event_id);
        assert(q == p);
        if other != id {
            if registry.has_event(other) {
                let r = registry.position(other);
                assert(registry.events[r].event_id == other);
                assert(after.events[r].event_id == other);
                assert(after.has_event(other));
                let t = after.position(other);
                assert(after.events[t].event_id == after.events[r].event_id);
                assert(t == r);
            }
            if after.has_event(other) {
                let t = after.position(other);
                assert(after.events[t].event_id == other);
                assert(registry.events[t].event_id == other);
            }
        }
    } else {
        let n = registry.events.len() as int;
        assert(after.events.len() == n + 1);
        assert(after.events[n] == event);
        assert forall|i: int| 0 <= i < n implies (#[trigger] after.events[i])
            == registry.events[i] by {}
        assert forall|i: int| 0 <= i < n implies (#[trigger] registry.events[i]).event_id != id by {}
        assert(after.wf()) by {
            assert forall|i: int, j: int|
                #![trigger after.events[i], after.events[j]]
                0 <= i < j < after.events.len() implies after.events[i].event_id
                != after.events[j].event_id by {
                if j < n {
                    assert(registry.events[i].event_id != registry.events[j].event_id);
                } else {
                    assert(registry.events[i].event_id != id);
                }
            }
        }
        assert(after.has_event(id));
        let q = after.position(id);
        assert(after.events[q].event_id == after.events[n].event_id);
        assert(q == n);
        if other != id {
            if registry.has_event(other) {
                let r = registry.position(other);
                assert(registry.events[r].event_id == other);
                assert(after.events[r].event_id == other);
                assert(after.has_event(other));
                let t = after.position(other);
                assert(after.events[t].event_id == after.events[r].event_id);
                assert(t == r);
            }
            if after.has_event(other) {
                let t = after.position(other);
                assert(after.events[t].event_id == other);
                assert(t < n);
                assert(registry.events[t].event_id == other);
            }
        }
    }
}

/// Taking one more event into account either appends its identifier to those that an
/// organizer runs, or leaves them as they are.
proof fn lemma_organizer_events_step(events: Seq<EventInfoView>, organizer: Seq<char>, i: int)
    requires
        0 <= i < events.len(),
    ensures
        (EventRegistryView { config: None, events: events.take(i + 1) }).organizer_events(organizer)
            == if events[i].organizer_address == organizer {
            (EventRegistryView { config: None, events: events.take(i) }).organizer_events(
                organizer,
            ).push(events[i].event_id)
        } else {
            (EventRegistryView { config: None, events: events.take(i) }).organizer_events(organizer)
        },
{
    let runs = |event: EventInfoView| event.organizer_address == organizer;
    let id = |event: EventInfoView| event.event_id;
    reveal(Seq::filter);
    assert(events.take(i + 1).drop_last() =~= events.take(i));
    assert(events.take(i + 1).last() == events[i]);
    if events[i].organizer_address == organizer {
        assert(events.take(i + 1).filter(runs) == events.take(i).filter(runs).push(events[i]));
        assert(events.take(i).filter(runs).push(events[i]).map_values(id) =~= events.take(
            i,
        ).filter(runs).map_values(id).push(events[i].event_id));
    } else {
        assert(events.take(i + 1).filter(runs) == events.take(i).filter(runs));
    }
}

/// Whether no two of the events share an identifier.
fn distinct_ids(events: &Vec<EventInfo>) -> (distinct: bool)
    ensures
        distinct == forall|i: int, j: int|
            #![trigger events_view(events@)[i], events_view(events@)[j]]
            0 <= i < j < events.len() ==> events_view(events@)[i].event_id != events_view(
                events@,
            )[j].event_id,
{
    let mut j: usize = 0;
    while j < events.len()
        invariant
            j <= events.len(),
            forall|a: int, b: int|
                #![trigger events_view(events@)[a], events_view(events@)[b]]
                0 <= a < b < j ==> events_view(events@)[a].event_id != events_view(
                    events@,
                )[b].event_id,
        decreases events.len() - j,
    {
        let mut i: usize = 0;
        while i < j
            invariant
                i <= j < events.len(),
                forall|a: int|
                    0 <= a < i ==> (#[trigger] events_view(events@)[a]).event_id != events_view(
                        events@,
                    )[j as int].event_id,
            decreases j - i,
        {
            if text_eq(&events[i].event_id, &events[j].event_id) {
                assert(events_view(events@)[i as int].event_id == events_view(
                    events@,
                )[j as int].event_id);
                return false;
            }
            i += 1;
        }
        j += 1;
    }
    true
}

/// Turns away the registry's own address.
fn validate_address(ctx: &CallContext, address: &Address) -> (res: Result<(), EventRegistryError>)
    ensures
        res == if address@ == ctx.contract_address@ {
            Err::<(), EventRegistryError>(EventRegistryError::InvalidAddress)
        } else {
            Ok::<(), EventRegistryError>(())
        },
{
    if *address == ctx.contract_address {
        return Err(EventRegistryError::InvalidAddress);
    }
    Ok(())
}

impl EventRegistry {
    /// Whether the registry holds what its operations rely on: see
    /// [`EventRegistryView::wf`].
    pub open spec fn wf(&self) -> bool {
        self@.wf()
    }

    /// A registry with nothing in storage.
    pub fn new() -> (registry: EventRegistry)
        ensures
            registry.wf(),
            registry@ == (EventRegistryView { config: None, events: Seq::empty() }),
    {
        let registry = EventRegistry { config: None, events: Vec::new() };
        assert(registry@.events =~= Seq::empty());
        registry
    }

    /// The registry that holds the given configuration and events, where these make
    /// a registry: where no two events share an identifier and the fee is at most
    /// the whole amount.
    pub fn from_parts(config: Option<RegistryConfig>, events: Vec<EventInfo>) -> (res: Option<
        EventRegistry,
    >)
        ensures
            res is Some <==> (EventRegistryView {
                config: config_view(config),
                events: events_view(events@),
            }).wf(),
            res matches Some(registry) ==> registry@ == (EventRegistryView {
                config: config_view(config),
                events: events_view(events@),
            }),
    {
        let fee_in_range = match &config {
            Some(config) => config.platform_fee_percent <= MAX_FEE_PERCENT,
            None => true,
        };
        if !fee_in_range {
            return None;
        }
        let distinct = distinct_ids(&events);
        proof {
            let parts = EventRegistryView {
                config: config_view(config),
                events: events_view(events@),
            };
            if parts.wf() {
                assert forall|i: int, j: int|
                    #![trigger events_view(events@)[i], events_view(events@)[j]]
                    0 <= i < j < events.len() implies events_view(events@)[i].event_id
                    != events_view(events@)[j].event_id by {
                    assert(parts.events[i].event_id != parts.events[j].event_id);
                }
            }
        }
        if !distinct {
            return None;
        }
        Some(EventRegistry { config, events })
    }

    /// The configuration and the events that the registry holds.
    pub fn into_parts(self) -> (parts: (Option<RegistryConfig>, Vec<EventInfo>))
        ensures
            config_view(parts.0) == self@.config,
            events_view(parts.1@) == self@.events,
    {
        (self.config, self.events)
    }

    /// Where the event stored under `event_id` stands, if there is one.
    fn find(&self, event_id: &Text) -> (found: Option<usize>)
        requires
            self.wf(),
        ensures
            found is Some <==> self@.has_event(event_id@),
            found matches Some(k) ==> k < self.events.len() && k == self@.position(event_id@)
                && self.events[k as int]@ == self@.event(event_id@)
                && self.events[k as int].event_id@ == event_id@,
    {
        let mut k: usize = 0;
        while k < self.events.len()
            invariant
                self.wf(),
                k <= self.events.len(),
                forall|i: int| 0 <= i < k ==> (#[trigger] self@.events[i]).event_id != event_id@,
            decreases self.events.len() - k,
        {
            if text_eq(&self.events[k].event_id, event_id) {
                proof {
                    let p = self@.position(event_id@);
                    assert(self@.events[k as int].event_id == event_id@);
                    assert(self@.events[p].event_id == self@.events[k as int].event_id);
                }
                return Some(k);
            }
            k += 1;
        }
        None
    }

    /// Sets the registry up: records the administrator, the platform's wallet and
    /// the platform fee, in basis points, where a fee of zero stands for the default.
    ///
    /// This succeeds once. Neither address may be the registry's own, and the fee
    /// may not exceed the whole amount. On success the result is the notice to
    /// publish, with its topic.
    pub fn initialize(
        &mut self,
        ctx: &CallContext,
        admin: Address,
        platform_wallet: Address,
        platform_fee_percent: u32,
    ) -> (res: Result<(AgoraEvent, InitializationEvent), EventRegistryError>)
        requires
            old(self).wf(),
        ensures
            final(self).wf(),
            res is Err <==> old(self)@.initialize_refusal(
                ctx.contract_address@,
                admin@,
                platform_wallet@,
                platform_fee_percent,
            ) is Some,
            res matches Err(e) ==> final(self)@ == old(self)@ && Some(e) == old(
                self,
            )@.initialize_refusal(
                ctx.contract_address@,
                admin@,
                platform_wallet@,
                platform_fee_percent,
            ),
            res matches Ok((topic, event)) ==> {
                &&& topic == AgoraEvent::ContractInitialized
                &&& event@ == (InitializationEventView {
                    admin_address: admin@,
                    platform_wallet: platform_wallet@,
                    platform_fee_percent: initial_fee(platform_fee_percent),
                    timestamp: ctx.timestamp,
                })
                &&& final(self)@ == (EventRegistryView {
                    config: Some(
                        RegistryConfigView {
                            admin: admin@,
                            platform_wallet: platform_wallet@,
                            platform_fee_percent: initial_fee(platform_fee_percent),
                        },
                    ),
                    events: old(self)@.events,
                })
            },
    {
        if self.config.is_some() {
            return Err(EventRegistryError::AlreadyInitialized);
        }
        match validate_address(ctx, &admin) {
            Err(e) => {
                return Err(e);
            },
            Ok(_) => {},
        }
        match validate_address(ctx, &platform_wallet) {
            Err(e) => {
                return Err(e);
            },
            Ok(_) => {},
        }
        let fee: u32 = if platform_fee_percent == 0 {
            DEFAULT_FEE_PERCENT
        } else {
            platform_fee_percent
        };
        if fee > MAX_FEE_PERCENT {
            return Err(EventRegistryError::InvalidFeePercent);
        }
        let event = InitializationEvent {
            admin_address: admin.clone(),
            platform_wallet: platform_wallet.clone(),
            platform_fee_percent: fee,
            timestamp: ctx.timestamp,
        };
        self.config = Some(RegistryConfig { admin, platform_wallet, platform_fee_percent: fee });
        Ok((AgoraEvent::ContractInitialized, event))
    }

    /// Registers a new event for an organizer, active and at the platform fee in
    /// force.
    ///
    /// The registry must be initialized; the organizer must have authorised the
    /// call; and the identifier must be free. On success the result is the notice
    /// to publish, with its topic.
    pub fn register_event(
        &mut self,
        ctx: &CallContext,
        event_id: Text,
        organizer_address: Address,
        payment_address: Address,
    ) -> (res: Result<(AgoraEvent, EventRegisteredEvent), EventRegistryError>)
        requires
            old(self).wf(),
            old(self)@.config is Some ==> ctx.authorizes(organizer_address@),
        ensures
            final(self).wf(),
            res is Err <==> old(self)@.register_event_refusal(event_id@) is Some,
            res matches Err(e) ==> final(self)@ == old(self)@ && Some(e) == old(
                self,
            )@.register_event_refusal(event_id@),
            res matches Ok((topic, event)) ==> {
                &&& topic == AgoraEvent::EventRegistered
                &&& event@ == (EventRegisteredEventView {
                    event_id: event_id@,
                    organizer_address: organizer_address@,
                    payment_address: payment_address@,
                    timestamp: ctx.timestamp,
                })
                &&& final(self)@ == (EventRegistryView {
                    config: old(self)@.config,
                    events: old(self)@.events.push(
                        registered_event(
                            event_id@,
                            organizer_address@,
                            payment_address@,
                            old(self)@.platform_fee(),
                            ctx.timestamp,
                        ),
                    ),
                })
            },
    {
        if self.config.is_none() {
            return Err(EventRegistryError::NotInitialized);
        }
        if self.event_exists(event_id.clone()) {
            return Err(EventRegistryError::EventAlreadyExists);
        }
        let platform_fee_percent = self.get_platform_fee();
        let event_info = EventInfo {
            event_id: event_id.clone(),
            organizer_address: organizer_address.clone(),
            payment_address: payment_address.clone(),
            platform_fee_percent,
            is_active: true,
            created_at: ctx.timestamp,
            metadata_cid: Vec::new(),
            max_supply: 0,
            current_supply: 0,
            tiers: Vec::new(),
        };
        assert(event_info@ =~= registered_event(
            event_id@,
            organizer_address@,
            payment_address@,
            self@.platform_fee(),
            ctx.timestamp,
        )) by {
            assert(event_info@.tiers =~= Seq::empty());
        }
        self.store_event(event_info);
        Ok(
            (
                AgoraEvent::EventRegistered,
                EventRegisteredEvent {
                    event_id,
                    organizer_address,
                    payment_address,
                    timestamp: ctx.timestamp,
                },
            ),
        )
    }

    /// What a payment for the event needs to know: where it goes, the fee and the
    /// tiers. The event must be stored and active.
    pub fn get_event_payment_info(&self, event_id: Text) -> (res: Result<
        PaymentInfo,
        EventRegistryError,
    >)
        requires
            self.wf(),
        ensures
            !self@.has_event(event_id@) ==> res == Err::<PaymentInfo, EventRegistryError>(
                EventRegistryError::EventNotFound,
            ),
            self@.has_event(event_id@) && !self@.event(event_id@).is_active ==> res == Err::<
                PaymentInfo,
                EventRegistryError,
            >(EventRegistryError::EventInactive),
            self@.has_event(event_id@) && self@.event(event_id@).is_active ==> res is Ok
                && res->Ok_0@ == (PaymentInfoView {
                payment_address: self@.event(event_id@).payment_address,
                platform_fee_percent: self@.event(event_id@).platform_fee_percent,
                tiers: self@.event(event_id@).tiers,
            }),
    {
        match self.find(&event_id) {
            Some(k) => {
                let event_info = &self.events[k];
                if !event_info.is_active {
                    return Err(EventRegistryError::EventInactive);
                }
                Ok(
                    PaymentInfo {
                        payment_address: event_info.payment_address.clone(),
                        platform_fee_percent: event_info.platform_fee_percent,
                        tiers: clone_tiers(&event_info.tiers),
                    },
                )
            },
            None => Err(EventRegistryError::EventNotFound),
        }
    }

    /// Switches an event on or off. The event must be stored, and its organizer must
    /// have authorised the call. On success the result is the notice to publish,
    /// with its topic.
    pub fn update_event_status(&mut self, ctx: &CallContext, event_id: Text, is_active: bool) -> (res:
        Result<(AgoraEvent, EventStatusUpdatedEvent), EventRegistryError>)
        requires
            old(self).wf(),
            old(self)@.has_event(event_id@) ==> ctx.authorizes(
                old(self)@.event(event_id@).organizer_address,
            ),
        ensures
            final(self).wf(),
            !old(self)@.has_event(event_id@) ==> final(self)@ == old(self)@ && res == Err::<
                (AgoraEvent, EventStatusUpdatedEvent),
                EventRegistryError,
            >(EventRegistryError::EventNotFound),
            old(self)@.has_event(event_id@) ==> {
                &&& res matches Ok((topic, event))
                &&& topic == AgoraEvent::EventStatusUpdated
                &&& event@ == (EventStatusUpdatedEventView {
                    event_id: event_id@,
                    is_active,
                    updated_by: old(self)@.event(event_id@).organizer_address,
                    timestamp: ctx.timestamp,
                })
                &&& final(self)@ == (EventRegistryView {
                    config: old(self)@.config,
                    events: old(self)@.events.update(
                        old(self)@.position(event_id@),
                        EventInfoView { is_active, ..old(self)@.event(event_id@) },
                    ),
                })
            },
    {
        match self.find(&event_id) {
            Some(k) => {
                let mut event_info = self.events[k].clone();
                event_info.is_active = is_active;
                let updated_by = event_info.organizer_address.clone();
                self.store_event(event_info);
                Ok(
                    (
                        AgoraEvent::EventStatusUpdated,
                        EventStatusUpdatedEvent {
                            event_id,
                            is_active,
                            updated_by,
                            timestamp: ctx.timestamp,
                        },
                    ),
                )
            },
            None => Err(EventRegistryError::EventNotFound),
        }
    }

    /// Stores an event's record under its identifier: in place of the record that
    /// was stored under it, or else behind the events stored so far.
    pub fn store_event(&mut self, event_info: EventInfo)
        requires
            old(self).wf(),
        ensures
            final(self).wf(),
            final(self)@.config == old(self)@.config,
            final(self)@.events == old(self)@.with_event(event_info@),
    {
        match self.find(&event_info.event_id) {
            Some(k) => {
                self.events.set(k, event_info);
                assert(self@.events =~= old(self)@.events.update(k as int, event_info@));
            },
            None => {
                self.events.push(event_info);
                assert(self@.events =~= old(self)@.events.push(event_info@));
            },
        }
    }

    /// The record stored under `event_id`, if there is one.
    pub fn get_event(&self, event_id: Text) -> (res: Option<EventInfo>)
        requires
            self.wf(),
        ensures
            res is Some <==> self@.has_event(event_id@),
            res matches Some(event_info) ==> event_info@ == self@.event(event_id@),
    {
        match self.find(&event_id) {
            Some(k) => Some(self.events[k].clone()),
            None => None,
        }
    }

    /// Whether an event is stored under `event_id`.
    pub fn event_exists(&self, event_id: Text) -> (res: bool)
        requires
            self.wf(),
        ensures
            res == self@.has_event(event_id@),
    {
        self.find(&event_id).is_some()
    }

    /// The identifiers of the events that `organizer` runs, in the order in which
    /// the events were first stored.
    pub fn get_organizer_events(&self, organizer: Address) -> (res: Vec<Text>)
        ensures
            texts_view(res@) == self@.organizer_events(organizer@),
    {
        let mut ids: Vec<Text> = Vec::new();
        let mut k: usize = 0;
        assert(self@.events.take(0) =~= Seq::empty());
        assert(texts_view(ids@) =~= Seq::empty());
        assert((EventRegistryView { config: None, events: self@.events.take(0) }).organizer_events(
            organizer@,
        ) =~= Seq::empty()) by {
            reveal(Seq::filter);
        }
        while k < self.events.len()
            invariant
                k <= self.events.len(),
                texts_view(ids@) == (EventRegistryView {
                    config: None,
                    events: self@.events.take(k as int),
                }).organizer_events(organizer@),
            decreases self.events.len() - k,
        {
            proof {
                lemma_organizer_events_step(self@.events, organizer@, k as int);
            }
            let ghost before = texts_view(ids@);
            if self.events[k].organizer_address == organizer {
                ids.push(self.events[k].event_id.clone());
                assert(texts_view(ids@) =~= before.push(self@.events[k as int].event_id));
            }
            k += 1;
        }
        assert(self@.events.take(k as int) =~= self@.events);
        ids
    }

    /// Changes the platform fee, in basis points. The registry must be initialized,
    /// its administrator must have authorised the call, and the fee may not exceed
    /// the whole amount. On success the result is the notice to publish, with its
    /// topic.
    pub fn set_platform_fee(&mut self, ctx: &CallContext, new_fee_percent: u32) -> (res: Result<
        (AgoraEvent, FeeUpdatedEvent),
        EventRegistryError,
    >)
        requires
            old(self).wf(),
            old(self)@.config matches Some(config) ==> ctx.authorizes(config.admin),
        ensures
            final(self).wf(),
            res is Err <==> old(self)@.set_platform_fee_refusal(new_fee_percent) is Some,
            res matches Err(e) ==> final(self)@ == old(self)@ && Some(e) == old(
                self,
            )@.set_platform_fee_refusal(new_fee_percent),
            res matches Ok((topic, event)) ==> {
                &&& topic == AgoraEvent::FeeUpdated
                &&& event == (FeeUpdatedEvent { new_fee_percent })
                &&& old(self)@.config matches Some(config)
                &&& final(self)@ == (EventRegistryView {
                    config: Some(
                        RegistryConfigView { platform_fee_percent: new_fee_percent, ..config },
                    ),
                    events: old(self)@.events,
                })
            },
    {
        let config = match self.config.take() {
            Some(config) => config,
            None => {
                return Err(EventRegistryError::NotInitialized);
            },
        };
        if new_fee_percent > MAX_FEE_PERCENT {
            self.config = Some(config);
            return Err(EventRegistryError::InvalidFeePercent);
        }
        self.config = Some(
            RegistryConfig {
                admin: config.admin,
                platform_wallet: config.platform_wallet,
                platform_fee_percent: new_fee_percent,
            },
        );
        Ok((AgoraEvent::FeeUpdated, FeeUpdatedEvent { new_fee_percent }))
    }

    /// The platform fee in force, in basis points: zero until the registry is
    /// initialized, and never more than the whole amount.
    pub fn get_platform_fee(&self) -> (fee: u32)
        requires
            self.wf(),
        ensures
            fee == self@.platform_fee(),
            fee <= MAX_FEE_PERCENT,
    {
        match &self.config {
            Some(config) => config.platform_fee_percent,
            None => 0,
        }
    }

    /// The administrator, once the registry is initialized.
    pub fn get_admin(&self) -> (res: Result<Address, EventRegistryError>)
        ensures
            self@.config is None ==> res == Err::<Address, EventRegistryError>(
                EventRegistryError::NotInitialized,
            ),
            self@.config matches Some(config) ==> res is Ok && res->Ok_0@ == config.admin,
    {
        match &self.config {
            Some(config) => Ok(config.admin.clone()),
            None => Err(EventRegistryError::NotInitialized),
        }
    }

    /// The wallet that collects the platform's fees, once the registry is
    /// initialized.
    pub fn get_platform_wallet(&self) -> (res: Result<Address, EventRegistryError>)
        ensures
            self@.config is None ==> res == Err::<Address, EventRegistryError>(
                EventRegistryError::NotInitialized,
            ),
            self@.config matches Some(config) ==> res is Ok && res->Ok_0@
                == config.platform_wallet,
    {
        match &self.config {
            Some(config) => Ok(config.platform_wallet.clone()),
            None => Err(EventRegistryError::NotInitialized),
        }
    }

    /// Clears the replacement of the registry's code and gives the notice to publish
    /// about it, with its topic. The registry must be initialized, and its
    /// administrator must have authorised the call. Nothing in storage changes.
    pub fn upgrade(&self, ctx: &CallContext) -> (res: Result<
        (AgoraEvent, RegistryUpgradedEvent),
        EventRegistryError,
    >)
        requires
            self@.config matches Some(config) ==> ctx.authorizes(config.admin),
        ensures
            self@.config is None ==> res == Err::<
                (AgoraEvent, RegistryUpgradedEvent),
                EventRegistryError,
            >(EventRegistryError::NotInitialized),
            self@.config matches Some(config) ==> {
                &&& res matches Ok((topic, event))
                &&& topic == AgoraEvent::ContractUpgraded
                &&& event@ == (RegistryUpgradedEventView {
                    admin_address: config.admin,
                    timestamp: ctx.timestamp,
                })
            },
    {
        let admin = match self.get_admin() {
            Ok(admin) => admin,
            Err(e) => {
                return Err(e);
            },
        };
        Ok(
            (
                AgoraEvent::ContractUpgraded,
                RegistryUpgradedEvent { admin_address: admin, timestamp: ctx.timestamp },
            ),
        )
    }
}

} // verus!
