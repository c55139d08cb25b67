use agora_contracts::address::Address;
use agora_contracts::event_registry::error::EventRegistryError;
use agora_contracts::event_registry::events::{
    AgoraEvent, EventRegisteredEvent, EventStatusUpdatedEvent, FeeUpdatedEvent,
    InitializationEvent, RegistryUpgradedEvent,
};
use agora_contracts::event_registry::types::{EventInfo, PaymentInfo, TicketTier};
use agora_contracts::event_registry::{
    EventRegistry, RegistryConfig, DEFAULT_FEE_PERCENT, MAX_FEE_PERCENT,
};
use agora_contracts::host::CallContext;

fn reg_addr(text: &str) -> Address {
    Address::new(text.to_string())
}

fn reg_ctx(timestamp: u64, authorized: Vec<Address>) -> CallContext {
    CallContext { contract_address: reg_addr("CREGISTRY"), timestamp, authorized }
}

fn reg_text(text: &str) -> Vec<u8> {
    text.as_bytes().to_vec()
}

fn ready_registry(fee: u32) -> EventRegistry {
    let mut registry = EventRegistry::new();
    let res = registry.initialize(&reg_ctx(1, vec![]), reg_addr("GADMIN"), reg_addr("GWALLET"), fee);
    assert!(res.is_ok());
    registry
}

fn plain_event(id: &str, organizer: &str) -> EventInfo {
    EventInfo {
        event_id: reg_text(id),
        organizer_address: reg_addr(organizer),
        payment_address: reg_addr("GPAY"),
        platform_fee_percent: 300,
        is_active: true,
        created_at: 5,
        metadata_cid: reg_text("bafy"),
        max_supply: 100,
        current_supply: 7,
        tiers: vec![(
            reg_text("vip"),
            TicketTier {
                name: reg_text("VIP"),
                price: 5_000,
                tier_limit: 10,
                current_sold: 2,
                is_refundable: true,
            },
        )],
    }
}

#[test]
fn new_registry_is_empty_and_uninitialized() {
    let registry = EventRegistry::new();
    assert_eq!(registry.get_admin(), Err(EventRegistryError::NotInitialized));
    assert_eq!(registry.get_platform_wallet(), Err(EventRegistryError::NotInitialized));
    assert_eq!(registry.get_platform_fee(), 0);
    assert!(!registry.event_exists(reg_text("e1")));
    assert_eq!(registry.get_event(reg_text("e1")), None);
    assert!(registry.get_organizer_events(reg_addr("GORG")).is_empty());
    let (config, events) = registry.into_parts();
    assert_eq!(config, None);
    assert!(events.is_empty());
}

#[test]
fn initialize_records_configuration_and_gives_the_notice() {
    let mut registry = EventRegistry::new();
    let res = registry.initialize(&reg_ctx(42, vec![]), reg_addr("GADMIN"), reg_addr("GWALLET"), 250);
    assert_eq!(
        res,
        Ok((
            AgoraEvent::ContractInitialized,
            InitializationEvent {
                admin_address: reg_addr("GADMIN"),
                platform_wallet: reg_addr("GWALLET"),
                platform_fee_percent: 250,
                timestamp: 42,
            }
        ))
    );
    assert_eq!(registry.get_admin(), Ok(reg_addr("GADMIN")));
    assert_eq!(registry.get_platform_wallet(), Ok(reg_addr("GWALLET")));
    assert_eq!(registry.get_platform_fee(), 250);
}

#[test]
fn initialize_with_zero_fee_takes_the_default() {
    let mut registry = EventRegistry::new();
    let res = registry.initialize(&reg_ctx(1, vec![]), reg_addr("GADMIN"), reg_addr("GWALLET"), 0);
    let (_, event) = res.unwrap();
    assert_eq!(event.platform_fee_percent, 500);
    assert_eq!(DEFAULT_FEE_PERCENT, 500);
    assert_eq!(registry.get_platform_fee(), 500);
}

#[test]
fn initialize_twice_is_turned_away() {
    let mut registry = ready_registry(250);
    let res = registry.initialize(&reg_ctx(2, vec![]), reg_addr("GOTHER"), reg_addr("GWALLET2"), 100);
    assert_eq!(res, Err(EventRegistryError::AlreadyInitialized));
    assert_eq!(registry.get_admin(), Ok(reg_addr("GADMIN")));
    assert_eq!(registry.get_platform_fee(), 250);
}

#[test]
fn initialize_twice_comes_before_other_refusals() {
    let mut registry = ready_registry(250);
    let res =
        registry.initialize(&reg_ctx(2, vec![]), reg_addr("CREGISTRY"), reg_addr("GWALLET2"), 20_000);
    assert_eq!(res, Err(EventRegistryError::AlreadyInitialized));
}

#[test]
fn initialize_turns_away_the_registry_as_admin() {
    let mut registry = EventRegistry::new();
    let res = registry.initialize(&reg_ctx(1, vec![]), reg_addr("CREGISTRY"), reg_addr("GWALLET"), 250);
    assert_eq!(res, Err(EventRegistryError::InvalidAddress));
    assert_eq!(registry.get_admin(), Err(EventRegistryError::NotInitialized));
}

#[test]
fn initialize_turns_away_the_registry_as_wallet() {
    let mut registry = EventRegistry::new();
    let res = registry.initialize(&reg_ctx(1, vec![]), reg_addr("GADMIN"), reg_addr("CREGISTRY"), 250);
    assert_eq!(res, Err(EventRegistryError::InvalidAddress));
    assert_eq!(registry.get_platform_wallet(), Err(EventRegistryError::NotInitialized));
}

#[test]
fn initialize_address_refusal_comes_before_fee_refusal() {
    let mut registry = EventRegistry::new();
    let res =
        registry.initialize(&reg_ctx(1, vec![]), reg_addr("GADMIN"), reg_addr("CREGISTRY"), 10_001);
    assert_eq!(res, Err(EventRegistryError::InvalidAddress));
}

#[test]
fn initialize_fee_bounds() {
    assert_eq!(MAX_FEE_PERCENT, 10_000);
    let mut at_bound = EventRegistry::new();
    assert!(at_bound
        .initialize(&reg_ctx(1, vec![]), reg_addr("GADMIN"), reg_addr("GWALLET"), 10_000)
        .is_ok());
    assert_eq!(at_bound.get_platform_fee(), 10_000);
    let mut beyond = EventRegistry::new();
    assert_eq!(
        beyond.initialize(&reg_ctx(1, vec![]), reg_addr("GADMIN"), reg_addr("GWALLET"), 10_001),
        Err(EventRegistryError::InvalidFeePercent)
    );
    assert_eq!(beyond.get_admin(), Err(EventRegistryError::NotInitialized));
    assert_eq!(beyond.get_platform_fee(), 0);
}

#[test]
fn register_event_needs_an_initialized_registry() {
    let mut registry = EventRegistry::new();
    let res = registry.register_event(
        &reg_ctx(3, vec![reg_addr("GORG")]),
        reg_text("e1"),
        reg_addr("GORG"),
        reg_addr("GPAY"),
    );
    assert_eq!(res, Err(EventRegistryError::NotInitialized));
    assert!(!registry.event_exists(reg_text("e1")));
}

#[test]
fn register_event_stores_an_active_event_at_the_fee_in_force() {
    let mut registry = ready_registry(250);
    let res = registry.register_event(
        &reg_ctx(77, vec![reg_addr("GORG")]),
        reg_text("e1"),
        reg_addr("GORG"),
        reg_addr("GPAY"),
    );
    assert_eq!(
        res,
        Ok((
            AgoraEvent::EventRegistered,
            EventRegisteredEvent {
                event_id: reg_text("e1"),
                organizer_address: reg_addr("GORG"),
                payment_address: reg_addr("GPAY"),
                timestamp: 77,
            }
        ))
    );
    assert!(registry.event_exists(reg_text("e1")));
    assert_eq!(
        registry.get_event(reg_text("e1")),
        Some(EventInfo {
            event_id: reg_text("e1"),
            organizer_address: reg_addr("GORG"),
            payment_address: reg_addr("GPAY"),
            platform_fee_percent: 250,
            is_active: true,
            created_at: 77,
            metadata_cid: vec![],
            max_supply: 0,
            current_supply: 0,
            tiers: vec![],
        })
    );
}

#[test]
fn register_event_twice_is_turned_away() {
    let mut registry = ready_registry(250);
    let ctx = reg_ctx(3, vec![reg_addr("GORG"), reg_addr("GORG2")]);
    assert!(registry
        .register_event(&ctx, reg_text("e1"), reg_addr("GORG"), reg_addr("GPAY"))
        .is_ok());
    let again = registry.register_event(&ctx, reg_text("e1"), reg_addr("GORG2"), reg_addr("GPAY2"));
    assert_eq!(again, Err(EventRegistryError::EventAlreadyExists));
    let kept = registry.get_event(reg_text("e1")).unwrap();
    assert_eq!(kept.organizer_address, reg_addr("GORG"));
    assert_eq!(kept.payment_address, reg_addr("GPAY"));
}

#[test]
fn registered_event_keeps_its_fee_when_the_platform_fee_changes() {
    let mut registry = ready_registry(250);
    let ctx = reg_ctx(3, vec![reg_addr("GORG"), reg_addr("GADMIN")]);
    registry.register_event(&ctx, reg_text("e1"), reg_addr("GORG"), reg_addr("GPAY")).unwrap();
    registry.set_platform_fee(&ctx, 900).unwrap();
    registry.register_event(&ctx, reg_text("e2"), reg_addr("GORG"), reg_addr("GPAY")).unwrap();
    assert_eq!(registry.get_event(reg_text("e1")).unwrap().platform_fee_percent, 250);
    assert_eq!(registry.get_event(reg_text("e2")).unwrap().platform_fee_percent, 900);
}

#[test]
fn payment_info_of_an_unknown_event() {
    let registry = ready_registry(250);
    assert_eq!(
        registry.get_event_payment_info(reg_text("nope")),
        Err(EventRegistryError::EventNotFound)
    );
}

#[test]
fn payment_info_of_an_active_event() {
    let mut registry = ready_registry(250);
    registry.store_event(plain_event("e1", "GORG"));
    let info = registry.get_event_payment_info(reg_text("e1")).unwrap();
    assert_eq!(
        info,
        PaymentInfo {
            payment_address: reg_addr("GPAY"),
            platform_fee_percent: 300,
            tiers: plain_event("e1", "GORG").tiers,
        }
    );
}

#[test]
fn payment_info_of_an_inactive_event() {
    let mut registry = ready_registry(250);
    let ctx = reg_ctx(9, vec![reg_addr("GORG")]);
    registry.register_event(&ctx, reg_text("e1"), reg_addr("GORG"), reg_addr("GPAY")).unwrap();
    registry.update_event_status(&ctx, reg_text("e1"), false).unwrap();
    assert_eq!(
        registry.get_event_payment_info(reg_text("e1")),
        Err(EventRegistryError::EventInactive)
    );
    registry.update_event_status(&ctx, reg_text("e1"), true).unwrap();
    assert!(registry.get_event_payment_info(reg_text("e1")).is_ok());
}

#[test]
fn update_event_status_of_an_unknown_event() {
    let mut registry = ready_registry(250);
    let res = registry.update_event_status(&reg_ctx(9, vec![]), reg_text("nope"), false);
    assert_eq!(res, Err(EventRegistryError::EventNotFound));
}

#[test]
fn update_event_status_changes_only_the_status() {
    let mut registry = ready_registry(250);
    registry.store_event(plain_event("e1", "GORG"));
    registry.store_event(plain_event("e2", "GORG"));
    let res = registry.update_event_status(&reg_ctx(99, vec![reg_addr("GORG")]), reg_text("e1"), false);
    assert_eq!(
        res,
        Ok((
            AgoraEvent::EventStatusUpdated,
            EventStatusUpdatedEvent {
                event_id: reg_text("e1"),
                is_active: false,
                updated_by: reg_addr("GORG"),
                timestamp: 99,
            }
        ))
    );
    let mut expected = plain_event("e1", "GORG");
    expected.is_active = false;
    assert_eq!(registry.get_event(reg_text("e1")), Some(expected));
    assert_eq!(registry.get_event(reg_text("e2")), Some(plain_event("e2", "GORG")));
    let (_, events) = registry.into_parts();
    assert_eq!(events.len(), 2);
    assert_eq!(events[0].event_id, reg_text("e1"));
    assert_eq!(events[1].event_id, reg_text("e2"));
}

#[test]
fn update_event_status_works_on_an_uninitialized_registry() {
    let mut registry = EventRegistry::new();
    registry.store_event(plain_event("e1", "GORG"));
    let res = registry.update_event_status(&reg_ctx(9, vec![reg_addr("GORG")]), reg_text("e1"), false);
    assert!(res.is_ok());
    assert!(!registry.get_event(reg_text("e1")).unwrap().is_active);
}

#[test]
fn store_event_adds_and_replaces() {
    let mut registry = EventRegistry::new();
    registry.store_event(plain_event("e1", "GORG"));
    registry.store_event(plain_event("e2", "GORG"));
    let mut changed = plain_event("e1", "GOTHER");
    changed.platform_fee_percent = 20_000;
    changed.current_supply = 8;
    registry.store_event(changed.clone());
    assert_eq!(registry.get_event(reg_text("e1")), Some(changed));
    let (_, events) = registry.into_parts();
    assert_eq!(events.len(), 2);
    assert_eq!(events[0].event_id, reg_text("e1"));
    assert_eq!(events[1].event_id, reg_text("e2"));
}

#[test]
fn event_ids_are_compared_byte_by_byte() {
    let mut registry = EventRegistry::new();
    registry.store_event(plain_event("e1", "GORG"));
    assert!(registry.event_exists(reg_text("e1")));
    assert!(!registry.event_exists(reg_text("E1")));
    assert!(!registry.event_exists(reg_text("e1 ")));
    assert!(!registry.event_exists(reg_text("")));
    assert!(!registry.event_exists(vec![0xff, 0x00]));
    let mut odd = plain_event("e1", "GORG");
    odd.event_id = vec![0xff, 0x00];
    registry.store_event(odd);
    assert!(registry.event_exists(vec![0xff, 0x00]));
}

#[test]
fn organizer_events_in_order_of_storage() {
    let mut registry = ready_registry(250);
    let ctx = reg_ctx(3, vec![reg_addr("GORG"), reg_addr("GORG2")]);
    registry.register_event(&ctx, reg_text("b"), reg_addr("GORG"), reg_addr("GPAY")).unwrap();
    registry.register_event(&ctx, reg_text("x"), reg_addr("GORG2"), reg_addr("GPAY")).unwrap();
    registry.register_event(&ctx, reg_text("a"), reg_addr("GORG"), reg_addr("GPAY")).unwrap();
    assert_eq!(registry.get_organizer_events(reg_addr("GORG")), vec![reg_text("b"), reg_text("a")]);
    assert_eq!(registry.get_organizer_events(reg_addr("GORG2")), vec![reg_text("x")]);
    assert!(registry.get_organizer_events(reg_addr("GNOBODY")).is_empty());
    registry.update_event_status(&ctx, reg_text("b"), false).unwrap();
    assert_eq!(registry.get_organizer_events(reg_addr("GORG")), vec![reg_text("b"), reg_text("a")]);
}

#[test]
fn set_platform_fee_needs_an_initialized_registry() {
    let mut registry = EventRegistry::new();
    assert_eq!(
        registry.set_platform_fee(&reg_ctx(1, vec![]), 100),
        Err(EventRegistryError::NotInitialized)
    );
    assert_eq!(
        registry.set_platform_fee(&reg_ctx(1, vec![]), 10_001),
        Err(EventRegistryError::NotInitialized)
    );
    assert_eq!(registry.get_platform_fee(), 0);
}

#[test]
fn set_platform_fee_bounds() {
    let mut registry = ready_registry(250);
    let ctx = reg_ctx(1, vec![reg_addr("GADMIN")]);
    assert_eq!(registry.set_platform_fee(&ctx, 10_001), Err(EventRegistryError::InvalidFeePercent));
    assert_eq!(registry.get_platform_fee(), 250);
    assert_eq!(
        registry.set_platform_fee(&ctx, 10_000),
        Ok((AgoraEvent::FeeUpdated, FeeUpdatedEvent { new_fee_percent: 10_000 }))
    );
    assert_eq!(registry.get_platform_fee(), 10_000);
    assert_eq!(
        registry.set_platform_fee(&ctx, 0),
        Ok((AgoraEvent::FeeUpdated, FeeUpdatedEvent { new_fee_percent: 0 }))
    );
    assert_eq!(registry.get_platform_fee(), 0);
    assert_eq!(registry.get_admin(), Ok(reg_addr("GADMIN")));
    assert_eq!(registry.get_platform_wallet(), Ok(reg_addr("GWALLET")));
}

#[test]
fn upgrade_needs_an_initialized_registry() {
    let registry = EventRegistry::new();
    assert_eq!(registry.upgrade(&reg_ctx(5, vec![])), Err(EventRegistryError::NotInitialized));
}

#[test]
fn upgrade_gives_the_notice() {
    let registry = ready_registry(250);
    assert_eq!(
        registry.upgrade(&reg_ctx(123, vec![reg_addr("GADMIN")])),
        Ok((
            AgoraEvent::ContractUpgraded,
            RegistryUpgradedEvent { admin_address: reg_addr("GADMIN"), timestamp: 123 }
        ))
    );
}

#[test]
fn registry_from_parts_and_back() {
    let config = RegistryConfig {
        admin: reg_addr("GADMIN"),
        platform_wallet: reg_addr("GWALLET"),
        platform_fee_percent: 10_000,
    };
    let registry = EventRegistry::from_parts(
        Some(config),
        vec![plain_event("e2", "GORG"), plain_event("e1", "GORG2")],
    )
    .unwrap();
    assert_eq!(registry.get_platform_fee(), 10_000);
    assert_eq!(registry.get_admin(), Ok(reg_addr("GADMIN")));
    assert_eq!(registry.get_event(reg_text("e1")), Some(plain_event("e1", "GORG2")));
    let (config, events) = registry.into_parts();
    assert_eq!(
        config,
        Some(RegistryConfig {
            admin: reg_addr("GADMIN"),
            platform_wallet: reg_addr("GWALLET"),
            platform_fee_percent: 10_000,
        })
    );
    assert_eq!(events, vec![plain_event("e2", "GORG"), plain_event("e1", "GORG2")]);
}

#[test]
fn registry_from_parts_turns_away_a_fee_beyond_the_whole() {
    let config = RegistryConfig {
        admin: reg_addr("GADMIN"),
        platform_wallet: reg_addr("GWALLET"),
        platform_fee_percent: 10_001,
    };
    assert!(EventRegistry::from_parts(Some(config), vec![]).is_none());
}

#[test]
fn registry_from_parts_turns_away_a_repeated_identifier() {
    let events =
        vec![plain_event("e1", "GORG"), plain_event("e2", "GORG"), plain_event("e1", "GORG2")];
    assert!(EventRegistry::from_parts(None, events).is_none());
    let events = vec![plain_event("e1", "GORG"), plain_event("e2", "GORG")];
    assert!(EventRegistry::from_parts(None, events).is_some());
}
