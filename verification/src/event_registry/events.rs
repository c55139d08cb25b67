use vstd::prelude::*;
use crate::address::Address;
use crate::text::Text;

verus! {

/// The topics under which the registry publishes what it has done.
#[derive(Clone, Copy, Debug, PartialEq, Eq, Structural)]
pub enum AgoraEvent {
    EventRegistered,
    EventStatusUpdated,
    FeeUpdated,
    ContractInitialized,
    ContractUpgraded,
}

/// Published when an event has been registered.
#[derive(Debug, PartialEq, Eq)]
pub struct EventRegisteredEvent {
    pub event_id: Text,
    pub organizer_address: Address,
    pub payment_address: Address,
    pub timestamp: u64,
}

/// A registration notice as a mathematical value.
pub struct EventRegisteredEventView {
    pub event_id: Seq<u8>,
    pub organizer_address: Seq<char>,
    pub payment_address: Seq<char>,
    pub timestamp: u64,
}

impl Clone for EventRegisteredEvent {
    fn clone(&self) -> (copy: EventRegisteredEvent)
        ensures
            copy@ == self@,
    {
        EventRegisteredEvent {
            event_id: self.event_id.clone(),
            organizer_address: self.organizer_address.clone(),
            payment_address: self.payment_address.clone(),
            timestamp: self.timestamp,
        }
    }
}

impl View for EventRegisteredEvent {
    type V = EventRegisteredEventView;

    open spec fn view(&self) -> EventRegisteredEventView {
        EventRegisteredEventView {
            event_id: self.event_id@,
            organizer_address: self.organizer_address@,
            payment_address: self.payment_address@,
            timestamp: self.timestamp,
        }
    }
}

/// Published when an event has been switched on or off.
#[derive(Debug, PartialEq, Eq)]
pub struct EventStatusUpdatedEvent {
    pub event_id: Text,
    pub is_active: bool,
    pub updated_by: Address,
    pub timestamp: u64,
}

/// A status notice as a mathematical value.
pub struct EventStatusUpdatedEventView {
    pub event_id: Seq<u8>,
    pub is_active: bool,
    pub updated_by: Seq<char>,
    pub timestamp: u64,
}

impl Clone for EventStatusUpdatedEvent {
    fn clone(&self) -> (copy: EventStatusUpdatedEvent)
        ensures
            copy@ == self@,
    {
        EventStatusUpdatedEvent {
            event_id: self.event_id.clone(),
            is_active: self.is_active,
            updated_by: self.updated_by.clone(),
            timestamp: self.timestamp,
        }
    }
}

impl View for EventStatusUpdatedEvent {
    type V = EventStatusUpdatedEventView;

    open spec fn view(&self) -> EventStatusUpdatedEventView {
        EventStatusUpdatedEventView {
            event_id: self.event_id@,
            is_active: self.is_active,
            updated_by: self.updated_by@,
            timestamp: self.timestamp,
        }
    }
}

/// Published when the platform fee has been changed.
#[derive(Clone, Copy, Debug, PartialEq, Eq, Structural)]
pub struct FeeUpdatedEvent {
    pub new_fee_percent: u32,
}

/// Published when the registry has been initialized.
#[derive(Debug, PartialEq, Eq)]
pub struct InitializationEvent {
    pub admin_address: Address,
    pub platform_wallet: Address,
    pub platform_fee_percent: u32,
    pub timestamp: u64,
}

/// An initialization notice as a mathematical value.
pub struct InitializationEventView {
    pub admin_address: Seq<char>,
    pub platform_wallet: Seq<char>,
    pub platform_fee_percent: u32,
    pub timestamp: u64,
}

impl Clone for InitializationEvent {
    fn clone(&self) -> (copy: InitializationEvent)
        ensures
            copy@ == self@,
    {
        InitializationEvent {
            admin_address: self.admin_address.clone(),
            platform_wallet: self.platform_wallet.clone(),
            platform_fee_percent: self.platform_fee_percent,
            timestamp: self.timestamp,
        }
    }
}

impl View for InitializationEvent {
    type V = InitializationEventView;

    open spec fn view(&self) -> InitializationEventView {
        InitializationEventView {
            admin_address: self.admin_address@,
            platform_wallet: self.platform_wallet@,
            platform_fee_percent: self.platform_fee_percent,
            timestamp: self.timestamp,
        }
    }
}

/// Published when the registry's code has been replaced.
#[derive(Debug, PartialEq, Eq)]
pub struct RegistryUpgradedEvent {
    pub admin_address: Address,
    pub timestamp: u64,
}

/// An upgrade notice as a mathematical value.
pub struct RegistryUpgradedEventView {
    pub admin_address: Seq<char>,
    pub timestamp: u64,
}

impl Clone for RegistryUpgradedEvent {
    fn clone(&self) -> (copy: RegistryUpgradedEvent)
        ensures
            copy@ == self@,
    {
        RegistryUpgradedEvent {
            admin_address: self.admin_address.clone(),
            timestamp: self.timestamp,
        }
    }
}

impl View for RegistryUpgradedEvent {
    type V = RegistryUpgradedEventView;

    open spec fn view(&self) -> RegistryUpgradedEventView {
        RegistryUpgradedEventView { admin_address: self.admin_address@, timestamp: self.timestamp }
    }
}

} // verus!
