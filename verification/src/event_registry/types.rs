use vstd::prelude::*;
use crate::address::Address;
use crate::text::Text;

verus! {

/// One price class of an event's tickets.
#[derive(Debug, PartialEq, Eq)]
pub struct TicketTier {
    /// The tier's name, such as "General" or "VIP".
    pub name: Text,
    /// The price of one ticket, in stroops.
    pub price: i128,
    /// How many tickets the tier offers.
    pub tier_limit: i128,
    /// How many tickets of the tier have been sold.
    pub current_sold: i128,
    /// Whether a buyer can have a ticket of this tier refunded.
    pub is_refundable: bool,
}

/// A ticket tier as a mathematical value.
pub struct TicketTierView {
    pub name: Seq<u8>,
    pub price: i128,
    pub tier_limit: i128,
    pub current_sold: i128,
    pub is_refundable: bool,
}

impl View for TicketTier {
    type V = TicketTierView;

    open spec fn view(&self) -> TicketTierView {
        TicketTierView {
            name: self.name@,
            price: self.price,
            tier_limit: self.tier_limit,
            current_sold: self.current_sold,
            is_refundable: self.is_refundable,
        }
    }
}

impl Clone for TicketTier {
    fn clone(&self) -> (copy: TicketTier)
        ensures
            copy@ == self@,
    {
        TicketTier {
            name: self.name.clone(),
            price: self.price,
            tier_limit: self.tier_limit,
            current_sold: self.current_sold,
            is_refundable: self.is_refundable,
        }
    }
}

/// The tiers of an event as mathematical values: pairs of a tier's identifier and
/// the tier, in the order in which the event lists them.
pub open spec fn tiers_view(tiers: Seq<(Text, TicketTier)>) -> Seq<(Seq<u8>, TicketTierView)> {
    tiers.map_values(|entry: (Text, TicketTier)| (entry.0@, entry.1@))
}

/// A copy of a list of tiers.
pub fn clone_tiers(tiers: &Vec<(Text, TicketTier)>) -> (copy: Vec<(Text, TicketTier)>)
    ensures
        tiers_view(copy@) == tiers_view(tiers@),
{
    let mut copy: Vec<(Text, TicketTier)> = Vec::new();
    let mut i: usize = 0;
    while i < tiers.len()
        invariant
            i <= tiers.len(),
            copy@.len() == i,
            forall|j: int| 0 <= j < i ==> tiers_view(copy@)[j] == tiers_view(tiers@)[j],
        decreases tiers.len() - i,
    {
        let entry = &tiers[i];
        copy.push((entry.0.clone(), entry.1.clone()));
        i += 1;
    }
    assert(tiers_view(copy@) =~= tiers_view(tiers@));
    copy
}

/// What the registry keeps about one event.
#[derive(Debug, PartialEq, Eq)]
pub struct EventInfo {
    /// The identifier under which the event is registered.
    pub event_id: Text,
    /// The organizer's wallet.
    pub organizer_address: Address,
    /// Where payments for the event are to go.
    pub payment_address: Address,
    /// The platform's fee on the event's payments, in basis points.
    pub platform_fee_percent: u32,
    /// Whether the event accepts payments at present.
    pub is_active: bool,
    /// The ledger time at which the event was registered.
    pub created_at: u64,
    /// The content identifier of the event's metadata.
    pub metadata_cid: Text,
    /// How many tickets the event offers; 0 stands for no limit.
    pub max_supply: i128,
    /// How many tickets have been bought.
    pub current_supply: i128,
    /// The event's ticket tiers, each under its identifier.
    pub tiers: Vec<(Text, TicketTier)>,
}

/// An event's record as a mathematical value.
pub struct EventInfoView {
    pub event_id: Seq<u8>,
    pub organizer_address: Seq<char>,
    pub payment_address: Seq<char>,
    pub platform_fee_percent: u32,
    pub is_active: bool,
    pub created_at: u64,
    pub metadata_cid: Seq<u8>,
    pub max_supply: i128,
    pub current_supply: i128,
    pub tiers: Seq<(Seq<u8>, TicketTierView)>,
}

impl View for EventInfo {
    type V = EventInfoView;

    open spec fn view(&self) -> EventInfoView {
        EventInfoView {
            event_id: self.event_id@,
            organizer_address: self.organizer_address@,
            payment_address: self.payment_address@,
            platform_fee_percent: self.platform_fee_percent,
            is_active: self.is_active,
            created_at: self.created_at,
            metadata_cid: self.metadata_cid@,
            max_supply: self.max_supply,
            current_supply: self.current_supply,
            tiers: tiers_view(self.tiers@),
        }
    }
}

impl Clone for EventInfo {
    fn clone(&self) -> (copy: EventInfo)
        ensures
            copy@ == self@,
    {
        EventInfo {
            event_id: self.event_id.clone(),
            organizer_address: self.organizer_address.clone(),
            payment_address: self.payment_address.clone(),
            platform_fee_percent: self.platform_fee_percent,
            is_active: self.is_active,
            created_at: self.created_at,
            metadata_cid: self.metadata_cid.clone(),
            max_supply: self.max_supply,
            current_supply: self.current_supply,
            tiers: clone_tiers(&self.tiers),
        }
    }
}

/// What a payment for an event needs to know about the event.
#[derive(Debug, PartialEq, Eq)]
pub struct PaymentInfo {
    /// Where payments for the event are to go.
    pub payment_address: Address,
    /// The platform's fee on the event's payments, in basis points.
    pub platform_fee_percent: u32,
    /// The event's ticket tiers, each under its identifier.
    pub tiers: Vec<(Text, TicketTier)>,
}

/// An event's payment information as a mathematical value.
pub struct PaymentInfoView {
    pub payment_address: Seq<char>,
    pub platform_fee_percent: u32,
    pub tiers: Seq<(Seq<u8>, TicketTierView)>,
}

impl View for PaymentInfo {
    type V = PaymentInfoView;

    open spec fn view(&self) -> PaymentInfoView {
        PaymentInfoView {
            payment_address: self.payment_address@,
            platform_fee_percent: self.platform_fee_percent,
            tiers: tiers_view(self.tiers@),
        }
    }
}

impl Clone for PaymentInfo {
    fn clone(&self) -> (copy: PaymentInfo)
        ensures
            copy@ == self@,
    {
        PaymentInfo {
            payment_address: self.payment_address.clone(),
            platform_fee_percent: self.platform_fee_percent,
            tiers: clone_tiers(&self.tiers),
        }
    }
}

} // verus!
