//! The settlement transaction builder: a pure, deterministic function from an
//! order snapshot and a requested outcome to the payout transaction. The same
//! snapshot always yields the same transaction; round 2 of the signing session
//! depends on rebuilding, bit for bit, what round 1 built.

use vstd::prelude::*;

use crate::codec::decode_fixed32;
use crate::codec::hex_decoded;
use crate::codec::is_hex_string;
use crate::errors::EscrowError;
use crate::order::Order;
use crate::order::OrderView;
use crate::status::OrderStatus;
use crate::status::Outcome;

verus! {

/// The buyer's refundable deposit, in base units: ten whole coins of
/// a hundred million base units each.
pub const CUSTOMER_DEPOSIT: u64 = 1_000_000_000;

/// The fixed network fee, in base units, withheld from the deposit returned
/// to the buyer on delivery.
pub const FIXED_FEE: u64 = 1;

/// A reference to one output of an earlier transaction: the settlement spends
/// output 0 of the buyer's payment transaction.
#[derive(Debug, PartialEq, Eq)]
pub struct TxoPointer {
    pub id: Vec<u8>,
    pub index: u32,
}

pub ghost struct TxoPointerView {
    pub id: Seq<u8>,
    pub index: u32,
}

impl View for TxoPointer {
    type V = TxoPointerView;

    open spec fn view(&self) -> TxoPointerView {
        TxoPointerView { id: self.id@, index: self.index }
    }
}

impl DeepView for TxoPointer {
    type V = TxoPointerView;

    open spec fn deep_view(&self) -> TxoPointerView {
        self.view()
    }
}

/// One payout: an address and a value in base units.
#[derive(Debug, PartialEq, Eq)]
pub struct TxOut {
    pub address: String,
    pub value: u64,
}

pub ghost struct TxOutView {
    pub address: Seq<char>,
    pub value: u64,
}

impl View for TxOut {
    type V = TxOutView;

    open spec fn view(&self) -> TxOutView {
        TxOutView { address: self.address@, value: self.value }
    }
}

impl DeepView for TxOut {
    type V = TxOutView;

    open spec fn deep_view(&self) -> TxOutView {
        self.view()
    }
}

/// Grants one view key read access over the transaction's whole confidential
/// payload.
#[derive(Debug, PartialEq, Eq)]
pub struct TxAccessPolicy {
    pub view_key: String,
}

pub ghost struct TxAccessPolicyView {
    pub view_key: Seq<char>,
}

impl View for TxAccessPolicy {
    type V = TxAccessPolicyView;

    open spec fn view(&self) -> TxAccessPolicyView {
        TxAccessPolicyView { view_key: self.view_key@ }
    }
}

impl DeepView for TxAccessPolicy {
    type V = TxAccessPolicyView;

    open spec fn deep_view(&self) -> TxAccessPolicyView {
        self.view()
    }
}

/// The transaction's network tag and access grants.
#[derive(Debug, PartialEq, Eq)]
pub struct TxAttributes {
    pub chain_hex_id: u8,
    pub allowed_view: Vec<TxAccessPolicy>,
}

pub ghost struct TxAttributesView {
    pub chain_hex_id: u8,
    pub allowed_view: Seq<TxAccessPolicyView>,
}

impl View for TxAttributes {
    type V = TxAttributesView;

    open spec fn view(&self) -> TxAttributesView {
        TxAttributesView { chain_hex_id: self.chain_hex_id, allowed_view: self.allowed_view.deep_view() }
    }
}

impl DeepView for TxAttributes {
    type V = TxAttributesView;

    open spec fn deep_view(&self) -> TxAttributesView {
        self.view()
    }
}

/// A settlement transaction.
#[derive(Debug, PartialEq, Eq)]
pub struct Transaction {
    pub inputs: Vec<TxoPointer>,
    pub outputs: Vec<TxOut>,
    pub attributes: TxAttributes,
}

pub ghost struct TransactionView {
    pub inputs: Seq<TxoPointerView>,
    pub outputs: Seq<TxOutView>,
    pub attributes: TxAttributesView,
}

impl View for Transaction {
    type V = TransactionView;

    open spec fn view(&self) -> TransactionView {
        TransactionView {
            inputs: self.inputs.deep_view(),
            outputs: self.outputs.deep_view(),
            attributes: self.attributes@,
        }
    }
}

impl DeepView for Transaction {
    type V = TransactionView;

    open spec fn deep_view(&self) -> TransactionView {
        self.view()
    }
}

/// The outcome a signing session on an order in this status works toward.
/// Only meaningful for `Delivering` and `Refunding`.
pub open spec fn spec_outcome_for(status: OrderStatus) -> Outcome {
    if status == OrderStatus::Delivering {
        Outcome::Delivery
    } else {
        Outcome::Refund
    }
}

pub fn outcome_for(status: OrderStatus) -> (r: Outcome)
    ensures
        r == spec_outcome_for(status),
{
    match status {
        OrderStatus::Delivering => Outcome::Delivery,
        _ => Outcome::Refund,
    }
}

/// A settlement transaction can be built from this snapshot: the payment
/// transaction id is a recorded 32-byte value, and on delivery the amount
/// covers the deposit.
pub open spec fn spec_buildable(o: OrderView, outcome: Outcome) -> bool {
    &&& o.payment_transaction_id.len() == 64
    &&& is_hex_string(o.payment_transaction_id)
    &&& (outcome == Outcome::Delivery ==> o.amount >= CUSTOMER_DEPOSIT)
}

/// The payouts by outcome. On delivery the merchant receives the amount net
/// of the deposit and the buyer gets the deposit back minus the fixed fee; on
/// refund the whole amount goes back to the buyer (the deposit is not added,
/// and the chain fee is borne by the remaining input value).
pub open spec fn spec_outputs(o: OrderView, outcome: Outcome) -> Seq<TxOutView> {
    match outcome {
        Outcome::Delivery => seq![
            TxOutView { address: o.merchant_address, value: (o.amount - CUSTOMER_DEPOSIT) as u64 },
            TxOutView { address: o.buyer_address, value: (CUSTOMER_DEPOSIT - FIXED_FEE) as u64 },
        ],
        Outcome::Refund => seq![TxOutView { address: o.buyer_address, value: o.amount }],
    }
}

/// The settlement transaction of an order snapshot: one input (output 0 of
/// the payment transaction), the payouts of the outcome, and read access for
/// the merchant, buyer and escrow view keys under the given network tag.
pub open spec fn spec_build(o: OrderView, outcome: Outcome, network_id: u8) -> TransactionView {
    TransactionView {
        inputs: seq![TxoPointerView { id: hex_decoded(o.payment_transaction_id), index: 0u32 }],
        outputs: spec_outputs(o, outcome),
        attributes: TxAttributesView {
            chain_hex_id: network_id,
            allowed_view: seq![
                TxAccessPolicyView { view_key: o.merchant_view_key },
                TxAccessPolicyView { view_key: o.buyer_view_key },
                TxAccessPolicyView { view_key: o.escrow_view_key },
            ],
        },
    }
}

/// Builds the settlement transaction of the snapshot `order` for `outcome`.
/// Succeeds exactly when the snapshot can fund the outcome
/// (`spec_buildable`); the result is the one transaction `spec_build` gives,
/// so two calls on the same snapshot yield identical transactions.
pub fn build(order: &Order, outcome: Outcome, network_id: u8) -> (r: Result<
    Transaction,
    EscrowError,
>)
    ensures
        r is Ok <==> spec_buildable(order@, outcome),
        r is Ok ==> r->Ok_0@ == spec_build(order@, outcome, network_id),
        r is Err ==> r->Err_0 == EscrowError::InvalidInput,
{
    let payment_id = match decode_fixed32(order.payment_transaction_id.as_str()) {
        Ok(v) => v,
        Err(_) => {
            return Err(EscrowError::InvalidInput);
        },
    };

    let mut outputs: Vec<TxOut> = Vec::new();
    match outcome {
        Outcome::Delivery => {
            if order.amount < CUSTOMER_DEPOSIT {
                return Err(EscrowError::InvalidInput);
            }
            outputs.push(TxOut {
                address: order.merchant_address.clone(),
                value: order.amount - CUSTOMER_DEPOSIT,
            });
            outputs.push(TxOut {
                address: order.buyer_address.clone(),
                value: CUSTOMER_DEPOSIT - FIXED_FEE,
            });
        },
        Outcome::Refund => {
            outputs.push(TxOut { address: order.buyer_address.clone(), value: order.amount });
        },
    }

    let mut inputs: Vec<TxoPointer> = Vec::new();
    inputs.push(TxoPointer { id: payment_id, index: 0 });

    let mut allowed_view: Vec<TxAccessPolicy> = Vec::new();
    allowed_view.push(TxAccessPolicy { view_key: order.merchant_view_key.clone() });
    allowed_view.push(TxAccessPolicy { view_key: order.buyer_view_key.clone() });
    allowed_view.push(TxAccessPolicy { view_key: order.escrow_view_key.clone() });

    let transaction = Transaction {
        inputs,
        outputs,
        attributes: TxAttributes { chain_hex_id: network_id, allowed_view },
    };

    proof {
        let s = spec_build(order@, outcome, network_id);
        assert(transaction@.inputs =~= s.inputs);
        assert(transaction@.outputs =~= s.outputs);
        assert(transaction@.attributes.allowed_view =~= s.attributes.allowed_view);
    }
    Ok(transaction)
}

/// Law: the builder is pure and deterministic. Equal order snapshots give, for
/// the same outcome and network, the same settlement transaction; together
/// with `build`'s postcondition, two `build` calls on one snapshot return
/// identical transactions, and therefore transactions with identical ids.
pub proof fn lemma_build_deterministic(
    o1: OrderView,
    o2: OrderView,
    outcome: Outcome,
    network_id: u8,
)
    requires
        o1 == o2,
    ensures
        spec_build(o1, outcome, network_id) == spec_build(o2, outcome, network_id),
{
}

} // verus!
