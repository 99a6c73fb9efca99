//! Request and response shapes of the core operations. The transport layer
//! converts its own wire types into these and back.

use vstd::prelude::*;

use crate::builder::Transaction;
use crate::order::Order;
use crate::status::OrderStatus;

verus! {

/// A request to create an order. The amount arrives as a decimal string of
/// base units, as it does on the wire.
#[derive(Debug)]
pub struct NewOrderRequest {
    pub order_id: String,
    pub amount: String,
    pub buyer_public_key: String,
    pub buyer_view_key: String,
    pub buyer_address: String,
    pub escrow_public_key: String,
    pub escrow_view_key: String,
}

pub ghost struct NewOrderRequestView {
    pub order_id: Seq<char>,
    pub amount: Seq<char>,
    pub buyer_public_key: Seq<char>,
    pub buyer_view_key: Seq<char>,
    pub buyer_address: Seq<char>,
    pub escrow_public_key: Seq<char>,
    pub escrow_view_key: Seq<char>,
}

impl View for NewOrderRequest {
    type V = NewOrderRequestView;

    open spec fn view(&self) -> NewOrderRequestView {
        NewOrderRequestView {
            order_id: self.order_id@,
            amount: self.amount@,
            buyer_public_key: self.buyer_public_key@,
            buyer_view_key: self.buyer_view_key@,
            buyer_address: self.buyer_address@,
            escrow_public_key: self.escrow_public_key@,
            escrow_view_key: self.escrow_view_key@,
        }
    }
}

/// The merchant-side key material the external wallet service derives when an
/// order is created. It is handed back to the buyer in the creation response.
#[derive(Debug)]
pub struct NewOrderResponse {
    pub public_key: String,
    pub address: String,
    pub view_key: String,
    pub multisig_address: String,
}

/// A submitted proof of payment: the id of the buyer's payment transaction.
#[derive(Debug)]
pub struct PaymentProof {
    pub order_id: String,
    pub transaction_id: String,
}

/// A request naming one order.
#[derive(Debug)]
pub struct OrderRequest {
    pub order_id: String,
}

/// Acknowledges a recorded payment.
#[derive(Debug)]
pub struct OrderPaidResponse {
    pub order_id: String,
}

/// The buyer's view of an order.
#[derive(Debug)]
pub struct OrderResponse {
    pub order_id: String,
    pub amount: u64,
    pub status: OrderStatus,
    pub buyer_public_key: String,
    pub buyer_view_key: String,
    pub buyer_address: String,
    pub escrow_public_key: String,
    pub escrow_view_key: String,
    pub session_id: String,
    pub payment_transaction_id: String,
    pub settlement_transaction_id: String,
}

impl OrderResponse {
    /// The response view of a stored order.
    pub fn of_order(order: &Order) -> (r: OrderResponse)
        ensures
            r.order_id@ == order.order_id@,
            r.amount == order.amount,
            r.status == order.status,
            r.buyer_public_key@ == order.buyer_public_key@,
            r.buyer_view_key@ == order.buyer_view_key@,
            r.buyer_address@ == order.buyer_address@,
            r.escrow_public_key@ == order.escrow_public_key@,
            r.escrow_view_key@ == order.escrow_view_key@,
            r.session_id@ == order.session_id@,
            r.payment_transaction_id@ == order.payment_transaction_id@,
            r.settlement_transaction_id@ == order.settlement_transaction_id@,
    {
        OrderResponse {
            order_id: order.order_id.clone(),
            amount: order.amount,
            status: order.status,
            buyer_public_key: order.buyer_public_key.clone(),
            buyer_view_key: order.buyer_view_key.clone(),
            buyer_address: order.buyer_address.clone(),
            escrow_public_key: order.escrow_public_key.clone(),
            escrow_view_key: order.escrow_view_key.clone(),
            session_id: order.session_id.clone(),
            payment_transaction_id: order.payment_transaction_id.clone(),
            settlement_transaction_id: order.settlement_transaction_id.clone(),
        }
    }
}

/// Round 1 of the signing session: the buyer's nonce commitment, hex-encoded.
#[derive(Debug)]
pub struct ExchangeCommitmentRequest {
    pub order_id: String,
    pub commitment: String,
}

/// Round 1's answer: the merchant's commitment and nonce, the settlement
/// transaction and its externally computed id, all hex-encoded where binary.
#[derive(Debug)]
pub struct ExchangeCommitmentResponse {
    pub order_id: String,
    pub commitment: String,
    pub nonce: String,
    pub transaction_id: String,
    pub transaction: Transaction,
}

/// Round 2 of the signing session: the buyer's revealed nonce and partial
/// signature.
#[derive(Debug)]
pub struct ConfirmRequest {
    pub order_id: String,
    pub nonce: String,
    pub partial_signature: String,
}

/// Round 2's answer: the settlement transaction id recorded at round 1.
#[derive(Debug)]
pub struct ConfirmResponse {
    pub order_id: String,
    pub transaction_id: String,
}

/// Answer to a merchant marking an order as delivering or refunding: the
/// settlement transaction the decision leads to. Its id field is filled by
/// the caller once the external digest of the transaction is known.
#[derive(Debug)]
pub struct OrderUpdatedResponse {
    pub order_id: String,
    pub status: OrderStatus,
    pub settlement_transaction_id: String,
    pub transaction: Transaction,
}

} // verus!
