use vstd::prelude::*;
use crate::address::Address;
use crate::text::Text;
use crate::ticket_payment2::PaymentStatus;

verus! {

/// The topics under which the payment contract publishes what it has done.
#[derive(Clone, Copy, Debug, PartialEq, Eq, Structural)]
pub enum AgoraEvent {
    PaymentProcessed,
    PaymentStatusChanged,
}

/// Published when a payment has been taken.
#[derive(Debug, PartialEq, Eq)]
pub struct PaymentProcessedEvent {
    pub payment_id: Text,
    pub event_id: Text,
    pub buyer_address: Address,
    pub amount: i128,
    pub platform_fee: i128,
    pub timestamp: u64,
}

/// A payment notice as a mathematical value.
pub struct PaymentProcessedEventView {
    pub payment_id: Seq<u8>,
    pub event_id: Seq<u8>,
    pub buyer_address: Seq<char>,
    pub amount: i128,
    pub platform_fee: i128,
    pub timestamp: u64,
}

impl Clone for PaymentProcessedEvent {
    fn clone(&self) -> (copy: PaymentProcessedEvent)
        ensures
            copy@ == self@,
    {
        PaymentProcessedEvent {
            payment_id: self.payment_id.clone(),
            event_id: self.event_id.clone(),
            buyer_address: self.buyer_address.clone(),
            amount: self.amount,
            platform_fee: self.platform_fee,
            timestamp: self.timestamp,
        }
    }
}

impl View for PaymentProcessedEvent {
    type V = PaymentProcessedEventView;

    open spec fn view(&self) -> PaymentProcessedEventView {
        PaymentProcessedEventView {
            payment_id: self.payment_id@,
            event_id: self.event_id@,
            buyer_address: self.buyer_address@,
            amount: self.amount,
            platform_fee: self.platform_fee,
            timestamp: self.timestamp,
        }
    }
}

/// Published when a payment has passed from one status to another.
#[derive(Debug, PartialEq, Eq)]
pub struct PaymentStatusChangedEvent {
    pub payment_id: Text,
    pub old_status: PaymentStatus,
    pub new_status: PaymentStatus,
    pub transaction_hash: Text,
    pub timestamp: u64,
}

/// A status notice as a mathematical value.
pub struct PaymentStatusChangedEventView {
    pub payment_id: Seq<u8>,
    pub old_status: PaymentStatus,
    pub new_status: PaymentStatus,
    pub transaction_hash: Seq<u8>,
    pub timestamp: u64,
}

impl Clone for PaymentStatusChangedEvent {
    fn clone(&self) -> (copy: PaymentStatusChangedEvent)
        ensures
            copy@ == self@,
    {
        PaymentStatusChangedEvent {
            payment_id: self.payment_id.clone(),
            old_status: self.old_status,
            new_status: self.new_status,
            transaction_hash: self.transaction_hash.clone(),
            timestamp: self.timestamp,
        }
    }
}

impl View for PaymentStatusChangedEvent {
    type V = PaymentStatusChangedEventView;

    open spec fn view(&self) -> PaymentStatusChangedEventView {
        PaymentStatusChangedEventView {
            payment_id: self.payment_id@,
            old_status: self.old_status,
            new_status: self.new_status,
            transaction_hash: self.transaction_hash@,
            timestamp: self.timestamp,
        }
    }
}

} // verus!
