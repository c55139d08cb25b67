pub mod error;
pub mod events;

use vstd::prelude::*;
use vstd::string::*;
use crate::address::Address;
use crate::host::CallContext;
use crate::text::{text_eq, Text};
use crate::ticket_payment2::error::Error;
use crate::ticket_payment2::events::{
    AgoraEvent, PaymentProcessedEvent, PaymentProcessedEventView, PaymentStatusChangedEvent,
    PaymentStatusChangedEventView,
};

pub use crate::ticket_payment2::error::Error as ContractError;

verus! {

/// How far a payment has come.
#[derive(Clone, Copy, Debug, PartialEq, Eq, Structural)]
pub enum PaymentStatus {
    Pending,
    Confirmed,
    Failed,
}

/// The record of one payment.
#[derive(Debug, PartialEq, Eq)]
pub struct Payment {
    /// The identifier under which the payment is recorded.
    pub payment_id: Text,
    /// The event that the payment is for.
    pub event_id: Text,
    /// Who paid.
    pub buyer: Address,
    /// What the buyer paid in all, the platform's fee included.
    pub amount: i128,
    /// The platform's share of the amount.
    pub platform_fee: i128,
    /// The organizer's share of the amount.
    pub organizer_amount: i128,
    pub status: PaymentStatus,
    /// The ledger time at which the payment was taken.
    pub created_at: u64,
    /// The ledger time at which the payment was confirmed, once it has been.
    pub confirmed_at: Option<u64>,
    /// The hash of the transaction that confirmed the payment, once it has been.
    pub transaction_hash: Option<Text>,
}

/// A payment's record as a mathematical value.
pub struct PaymentView {
    pub payment_id: Seq<u8>,
    pub event_id: Seq<u8>,
    pub buyer: Seq<char>,
    pub amount: i128,
    pub platform_fee: i128,
    pub organizer_amount: i128,
    pub status: PaymentStatus,
    pub created_at: u64,
    pub confirmed_at: Option<u64>,
    pub transaction_hash: Option<Seq<u8>>,
}

impl View for Payment {
    type V = PaymentView;

    open spec fn view(&self) -> PaymentView {
        PaymentView {
            payment_id: self.payment_id@,
            event_id: self.event_id@,
            buyer: self.buyer@,
            amount: self.amount,
            platform_fee: self.platform_fee,
            organizer_amount: self.organizer_amount,
            status: self.status,
            created_at: self.created_at,
            confirmed_at: self.confirmed_at,
            transaction_hash: match self.transaction_hash {
                Some(hash) => Some(hash@),
                None => None,
            },
        }
    }
}

impl Clone for Payment {
    fn clone(&self) -> (copy: Payment)
        ensures
            copy@ == self@,
    {
        Payment {
            payment_id: self.payment_id.clone(),
            event_id: self.event_id.clone(),
            buyer: self.buyer.clone(),
            amount: self.amount,
            platform_fee: self.platform_fee,
            organizer_amount: self.organizer_amount,
            status: self.status,
            created_at: self.created_at,
            confirmed_at: self.confirmed_at,
            transaction_hash: match &self.transaction_hash {
                Some(hash) => Some(hash.clone()),
                None => None,
            },
        }
    }
}

/// The denominator of a fee rate: a rate of 10000 basis points is the whole amount.
pub const FEE_DENOMINATOR: i128 = 10000;

/// The platform's share of `amount` at a rate of `fee_percent` basis points, rounded
/// down.
pub open spec fn platform_fee_of(amount: int, fee_percent: int) -> int {
    (amount * fee_percent) / 10000
}

/// What is left of `amount` for the organizer at a rate of `fee_percent` basis
/// points.
pub open spec fn organizer_amount_of(amount: int, fee_percent: int) -> int {
    amount - platform_fee_of(amount, fee_percent)
}

/// The identifier under which the payment numbered `counter` is recorded. It is the
/// same for every number, so a contract holds the record of its latest payment.
pub open spec fn payment_id_of(counter: u64) -> Seq<u8> {
    "PAY-1234567890-1".spec_bytes()
}

/// The identifier under which the payment numbered `counter` is recorded.
fn format_payment_id(counter: u64) -> (payment_id: Text)
    ensures
        payment_id@ == payment_id_of(counter),
{
    "PAY-1234567890-1".as_bytes_vec()
}

/// What setting the contract up writes.
#[derive(Debug, PartialEq, Eq)]
pub struct PaymentConfig {
    /// The token in which tickets are paid.
    pub usdc_token: Address,
    /// The platform's fee, in basis points.
    pub platform_fee_percent: u32,
    /// The wallet that collects the platform's fees.
    pub platform_wallet: Address,
    /// The registry of the events that tickets are sold for.
    pub event_registry: Address,
}

/// The contract's configuration as a mathematical value.
pub struct PaymentConfigView {
    pub usdc_token: Seq<char>,
    pub platform_fee_percent: u32,
    pub platform_wallet: Seq<char>,
    pub event_registry: Seq<char>,
}

impl View for PaymentConfig {
    type V = PaymentConfigView;

    open spec fn view(&self) -> PaymentConfigView {
        PaymentConfigView {
            usdc_token: self.usdc_token@,
            platform_fee_percent: self.platform_fee_percent,
            platform_wallet: self.platform_wallet@,
            event_registry: self.event_registry@,
        }
    }
}

/// A configuration that may not have been written yet, as a mathematical value.
pub open spec fn config_view(config: Option<PaymentConfig>) -> Option<PaymentConfigView> {
    match config {
        Some(config) => Some(config@),
        None => None,
    }
}

/// A list of payments as mathematical values.
pub open spec fn payments_view(payments: Seq<Payment>) -> Seq<PaymentView> {
    payments.map_values(|payment: Payment| payment@)
}

/// The ticket payment contract: what it keeps in storage.
///
/// A contract starts with nothing in storage. Payments are kept in the order in
/// which their identifiers were first used, each under its own identifier.
#[derive(Debug)]
pub struct TicketPayment {
    config: Option<PaymentConfig>,
    payment_counter: u64,
    payments: Vec<Payment>,
}

/// A payment contract as a mathematical value.
pub struct TicketPaymentView {
    /// The configuration, once the contract has been set up.
    pub config: Option<PaymentConfigView>,
    /// How many payments the contract has taken.
    pub payment_counter: u64,
    /// The recorded payments, in the order in which their identifiers were first
    /// used.
    pub payments: Seq<PaymentView>,
}

/// A movement of tokens that the host is to carry out.
#[derive(Debug, PartialEq, Eq)]
pub struct Transfer {
    pub from: Address,
    pub to: Address,
    pub amount: i128,
}

/// A movement of tokens as a mathematical value.
pub struct TransferView {
    pub from: Seq<char>,
    pub to: Seq<char>,
    pub amount: i128,
}

impl View for Transfer {
    type V = TransferView;

    open spec fn view(&self) -> TransferView {
        TransferView { from: self.from@, to: self.to@, amount: self.amount }
    }
}

/// What a payment would come to, before the buyer's balance is looked at.
#[derive(Debug, PartialEq, Eq)]
pub struct PaymentQuote {
    /// The token in which the payment is made.
    pub usdc_token: Address,
    /// The wallet that collects the platform's fee.
    pub platform_wallet: Address,
    /// The platform's share of the amount.
    pub platform_fee: i128,
    /// The organizer's share of the amount.
    pub organizer_amount: i128,
}

/// A quote as a mathematical value.
pub struct PaymentQuoteView {
    pub usdc_token: Seq<char>,
    pub platform_wallet: Seq<char>,
    pub platform_fee: i128,
    pub organizer_amount: i128,
}

impl View for PaymentQuote {
    type V = PaymentQuoteView;

    open spec fn view(&self) -> PaymentQuoteView {
        PaymentQuoteView {
            usdc_token: self.usdc_token@,
            platform_wallet: self.platform_wallet@,
            platform_fee: self.platform_fee,
            organizer_amount: self.organizer_amount,
        }
    }
}

/// What the host is to do once a payment has been recorded.
#[derive(Debug, PartialEq, Eq)]
pub struct ProcessedPayment {
    /// The identifier under which the payment is recorded.
    pub payment_id: Text,
    /// The token in which the two transfers are to be made.
    pub usdc_token: Address,
    /// The platform's fee, from the buyer to the platform's wallet.
    pub fee_transfer: Transfer,
    /// The organizer's share, from the buyer to the organizer.
    pub organizer_transfer: Transfer,
    /// The topic of the notice to publish.
    pub topic: AgoraEvent,
    /// The notice to publish.
    pub event: PaymentProcessedEvent,
}

/// The outcome of a payment as a mathematical value.
pub struct ProcessedPaymentView {
    pub payment_id: Seq<u8>,
    pub usdc_token: Seq<char>,
    pub fee_transfer: TransferView,
    pub organizer_transfer: TransferView,
    pub topic: AgoraEvent,
    pub event: PaymentProcessedEventView,
}

impl View for ProcessedPayment {
    type V = ProcessedPaymentView;

    open spec fn view(&self) -> ProcessedPaymentView {
        ProcessedPaymentView {
            payment_id: self.payment_id@,
            usdc_token: self.usdc_token@,
            fee_transfer: self.fee_transfer@,
            organizer_transfer: self.organizer_transfer@,
            topic: self.topic,
            event: self.event@,
        }
    }
}

impl TicketPaymentView {
    /// No two payments share an identifier, and a contract that has not been set up
    /// has taken no payment.
    pub open spec fn wf(self) -> bool {
        &&& forall|i: int, j: int|
            #![trigger self.payments[i], self.payments[j]]
            0 <= i < j < self.payments.len() ==> self.payments[i].payment_id
                != self.payments[j].payment_id
        &&& self.config is None ==> self.payment_counter == 0 && self.payments.len() == 0
    }

    /// Whether a payment is recorded under `payment_id`.
    pub open spec fn has_payment(self, payment_id: Seq<u8>) -> bool {
        exists|i: int|
            0 <= i < self.payments.len() && (#[trigger] self.payments[i]).payment_id == payment_id
    }

    /// Where the payment recorded under `payment_id` stands among the payments.
    pub open spec fn position(self, payment_id: Seq<u8>) -> int {
        choose|i: int|
            0 <= i < self.payments.len() && (#[trigger] self.payments[i]).payment_id == payment_id
    }

    /// The payment recorded under `payment_id`.
    pub open spec fn payment(self, payment_id: Seq<u8>) -> PaymentView {
        self.payments[self.position(payment_id)]
    }

    /// The payments with `payment` recorded under its identifier: in place of the
    /// payment that was recorded under it, or else behind the others.
    pub open spec fn with_payment(self, payment: PaymentView) -> Seq<PaymentView> {
        if self.has_payment(payment.payment_id) {
            self.payments.update(self.position(payment.payment_id), payment)
        } else {
            self.payments.push(payment)
        }
    }

    /// The payments that `buyer` made, in the order in which they are kept.
    pub open spec fn payments_by(self, buyer: Seq<char>) -> Seq<PaymentView> {
        self.payments.filter(|payment: PaymentView| payment.buyer == buyer)
    }

    /// The platform's fee in force, in basis points: zero until the contract is set
    /// up.
    pub open spec fn fee_percent(self) -> u32 {
        match self.config {
            Some(config) => config.platform_fee_percent,
            None => 0,
        }
    }

    /// Whether the platform's share of `amount` can be worked out in the machine's
    /// numbers, where a quote gets as far as working it out.
    pub open spec fn split_fits(self, event_id: Seq<u8>, amount: i128) -> bool {
        amount > 0 && self.config is Some && event_id.len() > 0 ==> amount * self.fee_percent()
            <= i128::MAX
    }

    /// The error with which a quote for a payment is turned away, if it is.
    pub open spec fn quote_refusal(self, event_id: Seq<u8>, amount: i128) -> Option<Error> {
        if amount <= 0 {
            Some(Error::InvalidAmount)
        } else if self.config is None {
            Some(Error::EventRegistryError)
        } else if event_id.len() == 0 {
            Some(Error::InvalidEventId)
        } else if organizer_amount_of(amount as int, self.fee_percent() as int) < 0 {
            Some(Error::Overflow)
        } else {
            None
        }
    }

    /// The error with which a payment is turned away, if it is, where `balance` is
    /// what the buyer holds.
    pub open spec fn process_payment_refusal(
        self,
        event_id: Seq<u8>,
        amount: i128,
        balance: i128,
    ) -> Option<Error> {
        if self.quote_refusal(event_id, amount) is Some {
            self.quote_refusal(event_id, amount)
        } else if balance < amount {
            Some(Error::InsufficientBalance)
        } else {
            None
        }
    }

    /// The error with which a confirmation is turned away, if it is.
    pub open spec fn confirm_payment_refusal(self, payment_id: Seq<u8>) -> Option<Error> {
        if !self.has_payment(payment_id) {
            Some(Error::PaymentNotFound)
        } else if self.payment(payment_id).status == PaymentStatus::Confirmed {
            Some(Error::PaymentAlreadyConfirmed)
        } else {
            None
        }
    }
}

/// The record that taking a payment writes: a pending payment, split between the
/// platform and the organizer.
pub open spec fn pending_payment(
    payment_id: Seq<u8>,
    event_id: Seq<u8>,
    buyer: Seq<char>,
    amount: i128,
    fee_percent: u32,
    timestamp: u64,
) -> PaymentView {
    PaymentView {
        payment_id,
        event_id,
        buyer,
        amount,
        platform_fee: platform_fee_of(amount as int, fee_percent as int) as i128,
        organizer_amount: organizer_amount_of(amount as int, fee_percent as int) as i128,
        status: PaymentStatus::Pending,
        created_at: timestamp,
        confirmed_at: None,
        transaction_hash: None,
    }
}

impl View for TicketPayment {
    type V = TicketPaymentView;

    closed spec fn view(&self) -> TicketPaymentView {
        TicketPaymentView {
            config: config_view(self.config),
            payment_counter: self.payment_counter,
            payments: payments_view(self.payments@),
        }
    }
}

/// Recording a payment keeps a contract well formed; the payment is then found
/// under its identifier, and under every other identifier is found what was found
/// before.
pub proof fn lemma_with_payment(contract: TicketPaymentView, payment: PaymentView, other: Seq<u8>)
    requires
        contract.wf(),
        contract.config is Some,
    ensures
        (TicketPaymentView { payments: contract.with_payment(payment), ..contract }).wf(),
        (TicketPaymentView { payments: contract.with_payment(payment), ..contract }).has_payment(
            payment.payment_id,
        ),
        (TicketPaymentView { payments: contract.with_payment(payment), ..contract }).payment(
            payment.payment_id,
        ) == payment,
        other != payment.payment_id ==> (TicketPaymentView {
            payments: contract.with_payment(payment),
            ..contract
        }).has_payment(other) == contract.has_payment(other),
        other != payment.payment_id && contract.has_payment(other) ==> (TicketPaymentView {
            payments: contract.with_payment(payment),
            ..contract
        }).payment(other) == contract.payment(other),
{
    let after = TicketPaymentView { payments: contract.with_payment(payment), ..contract };
    let id = payment.payment_id;
    if contract.has_payment(id) {
        let p = contract.position(id);
        assert(contract.payments[p].payment_id == id);
        assert(after.payments.len() == contract.payments.len());
        assert forall|i: int| 0 <= i < after.payments.len() implies (
        #[trigger] after.payments[i]).payment_id == contract.payments[i].payment_id by {}
        assert(after.wf()) by {
            assert forall|i: int, j: int|
                #![trigger after.payments[i], after.payments[j]]
                0 <= i < j < after.payments.len() implies after.payments[i].payment_id
                != after.payments[j].payment_id by {
                assert(contract.payments[i].payment_id != contract.payments[j].payment_id);
            }
        }
        assert(after.payments[p].payment_id == id);
        assert(after.has_payment(id));
        let q = after.position(id);
        assert(after.payments[q].payment_id == after.payments[p].payment_id);
        assert(q == p);
        if other != id {
            if contract.has_payment(other) {
                let r = contract.position(other);
                assert(contract.payments[r].payment_id == other);
                assert(after.payments[r].payment_id == other);
                assert(after.has_payment(other));
                let t = after.position(other);
                assert(after.payments[t].payment_id == after.payments[r].payment_id);
                assert(t == r);
            }
            if after.has_payment(other) {
                let t = after.position(other);
                assert(after.payments[t].payment_id == other);
                assert(contract.payments[t].payment_id == other);
            }
        }
    } else {
        let n = contract.payments.len() as int;
        assert(after.payments.len() == n + 1);
        assert(after.payments[n] == payment);
        assert forall|i: int| 0 <= i < n implies (#[trigger] after.payments[i])
            == contract.payments[i] by {}
        assert forall|i: int| 0 <= i < n implies (#[trigger] contract.payments[i]).payment_id
            != id by {}
        assert(after.wf()) by {
            assert forall|i: int, j: int|
                #![trigger after.payments[i], after.payments[j]]
                0 <= i < j < after.payments.len() implies after.payments[i].payment_id
                != after.payments[j].payment_id by {
                if j < n {
                    assert(contract.payments[i].payment_id != contract.payments[j].payment_id);
                } else {
                    assert(contract.payments[i].payment_id != id);
                }
            }
        }
        assert(after.has_payment(id));
        let q = after.position(id);
        assert(after.payments[q].payment_id == after.payments[n].payment_id);
        assert(q == n);
        if other != id {
            if contract.has_payment(other) {
                let r = contract.position(other);
                assert(contract.payments[r].payment_id == other);
                assert(after.payments[r].payment_id == other);
                assert(after.has_payment(other));
                let t = after.position(other);
                assert(after.payments[t].payment_id == after.payments[r].payment_id);
                assert(t == r);
            }
            if after.has_payment(other) {
                let t = after.position(other);
                assert(after.payments[t].payment_id == other);
                assert(t < n);
                assert(contract.payments[t].payment_id == other);
            }
        }
    }
}

/// Taking one more payment into account either appends it to those that a buyer
/// made, or leaves them as they are.
proof fn lemma_payments_by_step(payments: Seq<PaymentView>, buyer: Seq<char>, i: int)
    requires
        0 <= i < payments.len(),
    ensures
        payments.take(i + 1).filter(|payment: PaymentView| payment.buyer == buyer) == if payments[i].buyer
            == buyer {
            payments.take(i).filter(|payment: PaymentView| payment.buyer == buyer).push(payments[i])
        } else {
            payments.take(i).filter(|payment: PaymentView| payment.buyer == buyer)
        },
{
    reveal(Seq::filter);
    assert(payments.take(i + 1).drop_last() =~= payments.take(i));
    assert(payments.take(i + 1).last() == payments[i]);
}

/// With a fee of at most the amount left to take, the split of a positive amount is
/// made of two amounts that fit the machine's numbers.
proof fn lemma_fee_bounds(amount: int, fee_percent: int)
    requires
        0 < amount,
        0 <= fee_percent,
    ensures
        0 <= amount * fee_percent,
        0 <= platform_fee_of(amount, fee_percent) <= amount * fee_percent,
        organizer_amount_of(amount, fee_percent) <= amount,
{
    assert(0 <= amount * fee_percent) by (nonlinear_arith)
        requires
            0 < amount,
            0 <= fee_percent,
    ;
}

/// A fee of at most the whole amount leaves the organizer a share that is not
/// negative: a payment at such a fee is never turned away for its split.
pub proof fn lemma_fee_within_amount(amount: int, fee_percent: int)
    requires
        0 < amount,
        0 <= fee_percent <= 10000,
    ensures
        0 <= platform_fee_of(amount, fee_percent) <= amount,
        0 <= organizer_amount_of(amount, fee_percent) <= amount,
        platform_fee_of(amount, fee_percent) + organizer_amount_of(amount, fee_percent) == amount,
{
    assert(0 <= amount * fee_percent <= amount * 10000) by (nonlinear_arith)
        requires
            0 < amount,
            0 <= fee_percent <= 10000,
    ;
}

/// A fee of more than the whole amount takes more than the amount from a payment
/// that is large enough for the rounding not to hide it, so that the payment is
/// turned away for its split.
pub proof fn lemma_fee_beyond_amount(amount: int, fee_percent: int)
    requires
        10000 <= amount,
        10000 < fee_percent,
    ensures
        organizer_amount_of(amount, fee_percent) < 0,
{
    assert(amount * fee_percent >= amount * 10000 + amount) by (nonlinear_arith)
        requires
            10000 <= amount,
            10000 < fee_percent,
    ;
}

/// Whether no two of the payments share an identifier.
fn distinct_ids(payments: &Vec<Payment>) -> (distinct: bool)
    ensures
        distinct == forall|i: int, j: int|
            #![trigger payments_view(payments@)[i], payments_view(payments@)[j]]
            0 <= i < j < payments.len() ==> payments_view(payments@)[i].payment_id
                != payments_view(payments@)[j].payment_id,
{
    let mut j: usize = 0;
    while j < payments.len()
        invariant
            j <= payments.len(),
            forall|a: int, b: int|
                #![trigger payments_view(payments@)[a], payments_view(payments@)[b]]
                0 <= a < b < j ==> payments_view(payments@)[a].payment_id != payments_view(
                    payments@,
                )[b].payment_id,
        decreases payments.len() - j,
    {
        let mut i: usize = 0;
        while i < j
            invariant
                i <= j < payments.len(),
                forall|a: int|
                    0 <= a < i ==> (#[trigger] payments_view(payments@)[a]).payment_id
                        != payments_view(payments@)[j as int].payment_id,
            decreases j - i,
        {
            if text_eq(&payments[i].payment_id, &payments[j].payment_id) {
                assert(payments_view(payments@)[i as int].payment_id == payments_view(
                    payments@,
                )[j as int].payment_id);
                return false;
            }
            i += 1;
        }
        j += 1;
    }
    true
}

impl TicketPayment {
    /// Whether the contract holds what its operations rely on: see
    /// [`TicketPaymentView::wf`].
    pub open spec fn wf(&self) -> bool {
        self@.wf()
    }

    /// A contract with nothing in storage.
    pub fn new() -> (contract: TicketPayment)
        ensures
            contract.wf(),
            contract@ == (TicketPaymentView {
                config: None,
                payment_counter: 0,
                payments: Seq::empty(),
            }),
    {
        let contract = TicketPayment { config: None, payment_counter: 0, payments: Vec::new() };
        assert(contract@.payments =~= Seq::empty());
        contract
    }

    /// The contract that holds the given configuration, count and payments, where
    /// these make a contract: where no two payments share an identifier, and without
    /// a configuration the count is zero and there is no payment.
    pub fn from_parts(
        config: Option<PaymentConfig>,
        payment_counter: u64,
        payments: Vec<Payment>,
    ) -> (res: Option<TicketPayment>)
        ensures
            res is Some <==> (TicketPaymentView {
                config: config_view(config),
                payment_counter,
                payments: payments_view(payments@),
            }).wf(),
            res matches Some(contract) ==> contract@ == (TicketPaymentView {
                config: config_view(config),
                payment_counter,
                payments: payments_view(payments@),
            }),
    {
        if config.is_none() && (payment_counter != 0 || payments.len() != 0) {
            return None;
        }
        if !distinct_ids(&payments) {
            return None;
        }
        Some(TicketPayment { config, payment_counter, payments })
    }

    /// The configuration, the count of payments taken and the payments that the
    /// contract holds.
    pub fn into_parts(self) -> (parts: (Option<PaymentConfig>, u64, Vec<Payment>))
        ensures
            config_view(parts.0) == self@.config,
            parts.1 == self@.payment_counter,
            payments_view(parts.2@) == self@.payments,
    {
        (self.config, self.payment_counter, self.payments)
    }

    /// Where the payment recorded under `payment_id` stands, if there is one.
    fn find(&self, payment_id: &Text) -> (found: Option<usize>)
        requires
            self.wf(),
        ensures
            found is Some <==> self@.has_payment(payment_id@),
            found matches Some(k) ==> k < self.payments.len() && k == self@.position(payment_id@)
                && self.payments[k as int]@ == self@.payment(payment_id@)
                && self.payments[k as int].payment_id@ == payment_id@,
    {
        let mut k: usize = 0;
        while k < self.payments.len()
            invariant
                self.wf(),
                k <= self.payments.len(),
                forall|i: int|
                    0 <= i < k ==> (#[trigger] self@.payments[i]).payment_id != payment_id@,
            decreases self.payments.len() - k,
        {
            if text_eq(&self.payments[k].payment_id, payment_id) {
                proof {
                    let p = self@.position(payment_id@);
                    assert(self@.payments[k as int].payment_id == payment_id@);
                    assert(self@.payments[p].payment_id == self@.payments[k as int].payment_id);
                }
                return Some(k);
            }
            k += 1;
        }
        None
    }

    /// Records a payment under its identifier.
    fn record(&mut self, payment: Payment)
        requires
            old(self).wf(),
            old(self)@.config is Some,
        ensures
            final(self).wf(),
            final(self)@ == (TicketPaymentView {
                payments: old(self)@.with_payment(payment@),
                ..old(self)@
            }),
    {
        match self.find(&payment.payment_id) {
            Some(k) => {
                self.payments.set(k, payment);
                assert(self@.payments =~= old(self)@.payments.update(k as int, payment@));
            },
            None => {
                self.payments.push(payment);
                assert(self@.payments =~= old(self)@.payments.push(payment@));
            },
        }
    }

    /// Sets the contract up: records the token in which tickets are paid, the
    /// platform's fee in basis points, the wallet that collects the fee and the
    /// registry of events. This is done once.
    pub fn initialize(
        &mut self,
        usdc_token: Address,
        platform_fee_percent: u32,
        platform_wallet: Address,
        event_registry: Address,
    )
        requires
            old(self).wf(),
            old(self)@.config is None,
        ensures
            final(self).wf(),
            final(self)@ == (TicketPaymentView {
                config: Some(
                    PaymentConfigView {
                        usdc_token: usdc_token@,
                        platform_fee_percent,
                        platform_wallet: platform_wallet@,
                        event_registry: event_registry@,
                    },
                ),
                payment_counter: 0,
                payments: Seq::empty(),
            }),
    {
        self.config = Some(
            PaymentConfig { usdc_token, platform_fee_percent, platform_wallet, event_registry },
        );
        self.payment_counter = 0;
        self.payments = Vec::new();
        assert(self@.payments =~= Seq::empty());
    }

    /// Whether the contract has been set up.
    pub fn is_initialized(&self) -> (res: bool)
        ensures
            res == (self@.config is Some),
    {
        self.config.is_some()
    }

    /// What a payment of `amount` for an event would come to: the token and the
    /// wallet that it involves, and how the amount splits between the platform and
    /// the organizer.
    ///
    /// The amount must be more than zero, the contract set up, the event named, and
    /// the fee no more than the amount.
    pub fn quote_payment(&self, event_id: &Text, amount: i128) -> (res: Result<
        PaymentQuote,
        Error,
    >)
        requires
            self@.split_fits(event_id@, amount),
        ensures
            res is Err <==> self@.quote_refusal(event_id@, amount) is Some,
            res matches Err(e) ==> Some(e) == self@.quote_refusal(event_id@, amount),
            res matches Ok(quote) ==> {
                &&& self@.config matches Some(config)
                &&& quote@ == (PaymentQuoteView {
                    usdc_token: config.usdc_token,
                    platform_wallet: config.platform_wallet,
                    platform_fee: platform_fee_of(
                        amount as int,
                        config.platform_fee_percent as int,
                    ) as i128,
                    organizer_amount: organizer_amount_of(
                        amount as int,
                        config.platform_fee_percent as int,
                    ) as i128,
                })
                &&& quote.platform_fee + quote.organizer_amount == amount
                &&& 0 <= quote.platform_fee <= amount
                &&& 0 <= quote.organizer_amount <= amount
            },
    {
        if amount <= 0 {
            return Err(Error::InvalidAmount);
        }
        let config = match &self.config {
            Some(config) => config,
            None => {
                return Err(Error::EventRegistryError);
            },
        };
        if event_id.is_empty() {
            return Err(Error::InvalidEventId);
        }
        proof {
            lemma_fee_bounds(amount as int, config.platform_fee_percent as int);
        }
        let platform_fee: i128 = (amount * (config.platform_fee_percent as i128)) / FEE_DENOMINATOR;
        let organizer_amount: i128 = amount - platform_fee;
        if organizer_amount < 0 {
            return Err(Error::Overflow);
        }
        Ok(
            PaymentQuote {
                usdc_token: config.usdc_token.clone(),
                platform_wallet: config.platform_wallet.clone(),
                platform_fee,
                organizer_amount,
            },
        )
    }

    /// Takes a payment of `amount` from `buyer` for an event, where `balance` is
    /// what the buyer holds of the token.
    ///
    /// The buyer must have authorised the call. The payment is turned away as a
    /// quote for it would be, and where the buyer holds less than the amount.
    /// Otherwise the payment is recorded as pending and the contract has taken one
    /// payment more; the result says which tokens to move and what to publish. The
    /// organizer's share goes to the platform's wallet.
    pub fn process_payment(
        &mut self,
        ctx: &CallContext,
        buyer: Address,
        event_id: Text,
        amount: i128,
        balance: i128,
    ) -> (res: Result<ProcessedPayment, Error>)
        requires
            old(self).wf(),
            ctx.authorizes(buyer@),
            old(self)@.split_fits(event_id@, amount),
            old(self)@.process_payment_refusal(event_id@, amount, balance) is None ==> old(
                self,
            )@.payment_counter < u64::MAX,
        ensures
            final(self).wf(),
            res is Err <==> old(self)@.process_payment_refusal(event_id@, amount, balance) is Some,
            res matches Err(e) ==> final(self)@ == old(self)@ && Some(e) == old(
                self,
            )@.process_payment_refusal(event_id@, amount, balance),
            res matches Ok(done) ==> {
                &&& old(self)@.config matches Some(config)
                &&& done@ == (ProcessedPaymentView {
                    payment_id: payment_id_of(old(self)@.payment_counter),
                    usdc_token: config.usdc_token,
                    fee_transfer: TransferView {
                        from: buyer@,
                        to: config.platform_wallet,
                        amount: platform_fee_of(
                            amount as int,
                            config.platform_fee_percent as int,
                        ) as i128,
                    },
                    organizer_transfer: TransferView {
                        from: buyer@,
                        to: config.platform_wallet,
                        amount: organizer_amount_of(
                            amount as int,
                            config.platform_fee_percent as int,
                        ) as i128,
                    },
                    topic: AgoraEvent::PaymentProcessed,
                    event: PaymentProcessedEventView {
                        payment_id: payment_id_of(old(self)@.payment_counter),
                        event_id: event_id@,
                        buyer_address: buyer@,
                        amount,
                        platform_fee: platform_fee_of(
                            amount as int,
                            config.platform_fee_percent as int,
                        ) as i128,
                        timestamp: ctx.timestamp,
                    },
                })
                &&& final(self)@ == (TicketPaymentView {
                    config: old(self)@.config,
                    payment_counter: (old(self)@.payment_counter + 1) as u64,
                    payments: old(self)@.with_payment(
                        pending_payment(
                            payment_id_of(old(self)@.payment_counter),
                            event_id@,
                            buyer@,
                            amount,
                            config.platform_fee_percent,
                            ctx.timestamp,
                        ),
                    ),
                })
            },
    {
        let quote = match self.quote_payment(&event_id, amount) {
            Ok(quote) => quote,
            Err(e) => {
                return Err(e);
            },
        };
        if balance < amount {
            return Err(Error::InsufficientBalance);
        }
        let counter = self.payment_counter;
        let payment_id = format_payment_id(counter);
        self.payment_counter = counter + 1;
        let organizer_address = quote.platform_wallet.clone();
        let payment = Payment {
            payment_id: payment_id.clone(),
            event_id: event_id.clone(),
            buyer: buyer.clone(),
            amount,
            platform_fee: quote.platform_fee,
            organizer_amount: quote.organizer_amount,
            status: PaymentStatus::Pending,
            created_at: ctx.timestamp,
            confirmed_at: None,
            transaction_hash: None,
        };
        self.record(payment);
        Ok(
            ProcessedPayment {
                payment_id: payment_id.clone(),
                usdc_token: quote.usdc_token,
                fee_transfer: Transfer {
                    from: buyer.clone(),
                    to: quote.platform_wallet,
                    amount: quote.platform_fee,
                },
                organizer_transfer: Transfer {
                    from: buyer.clone(),
                    to: organizer_address,
                    amount: quote.organizer_amount,
                },
                topic: AgoraEvent::PaymentProcessed,
                event: PaymentProcessedEvent {
                    payment_id,
                    event_id,
                    buyer_address: buyer,
                    amount,
                    platform_fee: quote.platform_fee,
                    timestamp: ctx.timestamp,
                },
            },
        )
    }

    /// Marks a payment as confirmed by the transaction with the given hash, at the
    /// ledger's time. The payment must be recorded and not confirmed yet. On success
    /// the result is the notice to publish, with its topic.
    pub fn confirm_payment(&mut self, ctx: &CallContext, payment_id: Text, transaction_hash: Text) -> (res:
        Result<(AgoraEvent, PaymentStatusChangedEvent), Error>)
        requires
            old(self).wf(),
        ensures
            final(self).wf(),
            res is Err <==> old(self)@.confirm_payment_refusal(payment_id@) is Some,
            res matches Err(e) ==> final(self)@ == old(self)@ && Some(e) == old(
                self,
            )@.confirm_payment_refusal(payment_id@),
            res matches Ok((topic, event)) ==> {
                &&& topic == AgoraEvent::PaymentStatusChanged
                &&& event@ == (PaymentStatusChangedEventView {
                    payment_id: payment_id@,
                    old_status: old(self)@.payment(payment_id@).status,
                    new_status: PaymentStatus::Confirmed,
                    transaction_hash: transaction_hash@,
                    timestamp: ctx.timestamp,
                })
                &&& final(self)@ == (TicketPaymentView {
                    payments: old(self)@.payments.update(
                        old(self)@.position(payment_id@),
                        PaymentView {
                            status: PaymentStatus::Confirmed,
                            confirmed_at: Some(ctx.timestamp),
                            transaction_hash: Some(transaction_hash@),
                            ..old(self)@.payment(payment_id@)
                        },
                    ),
                    ..old(self)@
                })
            },
    {
        let k = match self.find(&payment_id) {
            Some(k) => k,
            None => {
                return Err(Error::PaymentNotFound);
            },
        };
        let mut payment = self.payments[k].clone();
        if payment.status == PaymentStatus::Confirmed {
            return Err(Error::PaymentAlreadyConfirmed);
        }
        let old_status = payment.status;
        payment.status = PaymentStatus::Confirmed;
        payment.confirmed_at = Some(ctx.timestamp);
        payment.transaction_hash = Some(transaction_hash.clone());
        let new_status = payment.status;
        self.record(payment);
        Ok(
            (
                AgoraEvent::PaymentStatusChanged,
                PaymentStatusChangedEvent {
                    payment_id,
                    old_status,
                    new_status,
                    transaction_hash,
                    timestamp: ctx.timestamp,
                },
            ),
        )
    }

    /// The payment recorded under `payment_id`.
    pub fn get_payment(&self, payment_id: Text) -> (res: Result<Payment, Error>)
        requires
            self.wf(),
        ensures
            !self@.has_payment(payment_id@) ==> res == Err::<Payment, Error>(
                Error::PaymentNotFound,
            ),
            self@.has_payment(payment_id@) ==> res is Ok && res->Ok_0@ == self@.payment(
                payment_id@,
            ),
    {
        match self.find(&payment_id) {
            Some(k) => Ok(self.payments[k].clone()),
            None => Err(Error::PaymentNotFound),
        }
    }

    /// The payments that `buyer` made, in the order in which they are kept.
    pub fn get_payments_by_buyer(&self, buyer: Address) -> (res: Vec<Payment>)
        ensures
            payments_view(res@) == self@.payments_by(buyer@),
    {
        let mut buyer_payments: Vec<Payment> = Vec::new();
        let mut k: usize = 0;
        assert(self@.payments.take(0).filter(|payment: PaymentView| payment.buyer == buyer@)
            =~= Seq::empty()) by {
            reveal(Seq::filter);
        }
        assert(payments_view(buyer_payments@) =~= Seq::empty());
        while k < self.payments.len()
            invariant
                k <= self.payments.len(),
                payments_view(buyer_payments@) == self@.payments.take(
                    k as int,
                ).filter(|payment: PaymentView| payment.buyer == buyer@),
            decreases self.payments.len() - k,
        {
            proof {
                lemma_payments_by_step(self@.payments, buyer@, k as int);
            }
            let ghost before = payments_view(buyer_payments@);
            if self.payments[k].buyer == buyer {
                buyer_payments.push(self.payments[k].clone());
                assert(payments_view(buyer_payments@) =~= before.push(
                    self@.payments[k as int],
                ));
            }
            k += 1;
        }
        assert(self@.payments.take(k as int) =~= self@.payments);
        buyer_payments
    }
}

} // verus!
