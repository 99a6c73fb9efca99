//! The order record: a tracked three-party escrow agreement.

use vstd::prelude::*;

use crate::codec::is_hex_string;
use crate::status::OrderStatus;

verus! {

/// A durable escrow order. Amounts are held in base units; binary fields
/// (session id, transaction ids) are held hex-encoded, empty until set, and
/// written at most once. The merchant columns are derived by the external
/// wallet service when the order is created and never change.
#[derive(Debug)]
pub struct Order {
    pub order_id: String,
    pub status: OrderStatus,
    pub amount: u64,
    pub merchant_address: String,
    pub merchant_view_key: String,
    pub buyer_public_key: String,
    pub buyer_view_key: String,
    pub buyer_address: String,
    pub escrow_public_key: String,
    pub escrow_view_key: String,
    pub session_id: String,
    pub payment_transaction_id: String,
    pub settlement_transaction_id: String,
}

/// The mathematical value of an order.
pub ghost struct OrderView {
    pub order_id: Seq<char>,
    pub status: OrderStatus,
    pub amount: u64,
    pub merchant_address: Seq<char>,
    pub merchant_view_key: Seq<char>,
    pub buyer_public_key: Seq<char>,
    pub buyer_view_key: Seq<char>,
    pub buyer_address: Seq<char>,
    pub escrow_public_key: Seq<char>,
    pub escrow_view_key: Seq<char>,
    pub session_id: Seq<char>,
    pub payment_transaction_id: Seq<char>,
    pub settlement_transaction_id: Seq<char>,
}

impl View for Order {
    type V = OrderView;

    open spec fn view(&self) -> OrderView {
        OrderView {
            order_id: self.order_id@,
            status: self.status,
            amount: self.amount,
            merchant_address: self.merchant_address@,
            merchant_view_key: self.merchant_view_key@,
            buyer_public_key: self.buyer_public_key@,
            buyer_view_key: self.buyer_view_key@,
            buyer_address: self.buyer_address@,
            escrow_public_key: self.escrow_public_key@,
            escrow_view_key: self.escrow_view_key@,
            session_id: self.session_id@,
            payment_transaction_id: self.payment_transaction_id@,
            settlement_transaction_id: self.settlement_transaction_id@,
        }
    }
}

impl DeepView for Order {
    type V = OrderView;

    open spec fn deep_view(&self) -> OrderView {
        self.view()
    }
}

impl Clone for Order {
    /// A copy with the same value.
    fn clone(&self) -> (r: Order)
        ensures
            r@ == self@,
    {
        Order {
            order_id: self.order_id.clone(),
            status: self.status,
            amount: self.amount,
            merchant_address: self.merchant_address.clone(),
            merchant_view_key: self.merchant_view_key.clone(),
            buyer_public_key: self.buyer_public_key.clone(),
            buyer_view_key: self.buyer_view_key.clone(),
            buyer_address: self.buyer_address.clone(),
            escrow_public_key: self.escrow_public_key.clone(),
            escrow_view_key: self.escrow_view_key.clone(),
            session_id: self.session_id.clone(),
            payment_transaction_id: self.payment_transaction_id.clone(),
            settlement_transaction_id: self.settlement_transaction_id.clone(),
        }
    }
}

/// A write-once hex field: empty until set, then exactly 64 hex digits
/// (the encoding of a 32-byte value).
pub open spec fn hex_field_wf(s: Seq<char>) -> bool {
    s.len() == 0 || (s.len() == 64 && is_hex_string(s))
}

/// Well-formedness of a stored order: each of the three write-once binary
/// fields is empty or holds a hex-encoded 32-byte value.
pub open spec fn order_wf(o: OrderView) -> bool {
    &&& hex_field_wf(o.session_id)
    &&& hex_field_wf(o.payment_transaction_id)
    &&& hex_field_wf(o.settlement_transaction_id)
}

} // verus!
