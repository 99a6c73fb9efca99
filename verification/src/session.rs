//! The escrow session coordinator: the decision logic of the two-round
//! multi-signature exchange, of payment-proof submission and of the
//! merchant's delivering/refunding decision. Each operation is split into the
//! part that decides and computes — here, verified — and the calls into the
//! external wallet service and blockchain client, which the surrounding
//! program performs between the `begin` and `finish` steps.

use vstd::prelude::*;

use crate::builder::build;
use crate::builder::outcome_for;
use crate::builder::spec_build;
use crate::builder::spec_buildable;
use crate::builder::spec_outcome_for;
use crate::builder::Transaction;
use crate::builder::TransactionView;
use crate::builder::TxOut;
use crate::builder::TxOutView;
use crate::codec::decode_fixed32;
use crate::codec::hex_decode_string;
use crate::codec::hex_decoded;
use crate::codec::hex_encode_bytes;
use crate::codec::hex_encoded;
use crate::codec::is_hex_string;
use crate::dto::ConfirmRequest;
use crate::dto::ConfirmResponse;
use crate::dto::ExchangeCommitmentRequest;
use crate::dto::ExchangeCommitmentResponse;
use crate::dto::OrderPaidResponse;
use crate::dto::PaymentProof;
use crate::errors::EscrowError;
use crate::order::OrderView;
use crate::status::OrderStatus;
use crate::status::Outcome;
use crate::store::spec_record_payment_transaction;
use crate::store::spec_record_session_and_settlement;
use crate::store::spec_transition_status;
use crate::store::OrderStore;

verus! {

/// What round 1 hands to the external wallet service: the deterministically
/// built settlement transaction (the session is keyed by its id), the buyer's
/// decoded nonce commitment, and the buyer's key to register it under.
#[derive(Debug)]
pub struct Round1Plan {
    pub transaction: Transaction,
    pub buyer_commitment: Vec<u8>,
    pub buyer_public_key: String,
}

pub ghost struct Round1PlanView {
    pub transaction: TransactionView,
    pub buyer_commitment: Seq<u8>,
    pub buyer_public_key: Seq<char>,
}

impl View for Round1Plan {
    type V = Round1PlanView;

    open spec fn view(&self) -> Round1PlanView {
        Round1PlanView {
            transaction: self.transaction@,
            buyer_commitment: self.buyer_commitment@,
            buyer_public_key: self.buyer_public_key@,
        }
    }
}

/// What round 2 hands to the external wallet service: the rebuilt settlement
/// transaction (byte-identical to round 1's), the decoded session id, the
/// buyer's decoded partial signature and the buyer's key.
#[derive(Debug)]
pub struct Round2Plan {
    pub transaction: Transaction,
    pub session_id: Vec<u8>,
    pub buyer_partial_signature: Vec<u8>,
    pub buyer_public_key: String,
}

pub ghost struct Round2PlanView {
    pub transaction: TransactionView,
    pub session_id: Seq<u8>,
    pub buyer_partial_signature: Seq<u8>,
    pub buyer_public_key: Seq<char>,
}

impl View for Round2Plan {
    type V = Round2PlanView;

    open spec fn view(&self) -> Round2PlanView {
        Round2PlanView {
            transaction: self.transaction@,
            session_id: self.session_id@,
            buyer_partial_signature: self.buyer_partial_signature@,
            buyer_public_key: self.buyer_public_key@,
        }
    }
}

/// Round 1's decision: `InvalidInput` unless the commitment is 64 hex digits
/// (32 bytes) and the snapshot can fund the settlement; `NotFound` on an
/// unknown order; `InvalidState` unless the order is delivering or refunding;
/// `Conflict` once a session exists. Otherwise the plan holds the settlement
/// transaction of the current snapshot.
pub open spec fn spec_round_one(
    m: Map<Seq<char>, OrderView>,
    id: Seq<char>,
    commitment_hex: Seq<char>,
    network_id: u8,
) -> Result<Round1PlanView, EscrowError> {
    if !(is_hex_string(commitment_hex) && commitment_hex.len() == 64) {
        Err(EscrowError::InvalidInput)
    } else if !m.contains_key(id) {
        Err(EscrowError::NotFound)
    } else if !(m[id].status == OrderStatus::Delivering || m[id].status
        == OrderStatus::Refunding) {
        Err(EscrowError::InvalidState)
    } else if m[id].session_id.len() != 0 {
        Err(EscrowError::Conflict)
    } else if !spec_buildable(m[id], spec_outcome_for(m[id].status)) {
        Err(EscrowError::InvalidInput)
    } else {
        Ok(
            Round1PlanView {
                transaction: spec_build(m[id], spec_outcome_for(m[id].status), network_id),
                buyer_commitment: hex_decoded(commitment_hex),
                buyer_public_key: m[id].buyer_public_key,
            },
        )
    }
}

/// Validates round 1 and builds its plan. Reads only; the store is mutated
/// solely by `round_one_finish` after the wallet calls succeed, so a rejected
/// round 1 leaves every order — in particular its session id — unchanged.
pub fn round_one_begin(
    store: &OrderStore,
    request: &ExchangeCommitmentRequest,
    network_id: u8,
) -> (r: Result<Round1Plan, EscrowError>)
    requires
        store.wf(),
    ensures
        r is Ok <==> spec_round_one(
            store@,
            request.order_id@,
            request.commitment@,
            network_id,
        ) is Ok,
        r is Ok ==> r->Ok_0@ == spec_round_one(
            store@,
            request.order_id@,
            request.commitment@,
            network_id,
        )->Ok_0,
        r is Err ==> r->Err_0 == spec_round_one(
            store@,
            request.order_id@,
            request.commitment@,
            network_id,
        )->Err_0,
{
    let buyer_commitment = match decode_fixed32(request.commitment.as_str()) {
        Ok(v) => v,
        Err(e) => {
            return Err(e);
        },
    };
    let order = match store.get_order(&request.order_id) {
        Ok(o) => o,
        Err(e) => {
            return Err(e);
        },
    };
    match order.status {
        OrderStatus::Delivering | OrderStatus::Refunding => {},
        _ => {
            return Err(EscrowError::InvalidState);
        },
    }
    if !order.session_id.as_str().is_empty() {
        return Err(EscrowError::Conflict);
    }
    let transaction = match build(order, outcome_for(order.status), network_id) {
        Ok(t) => t,
        Err(e) => {
            return Err(e);
        },
    };
    Ok(
        Round1Plan {
            transaction,
            buyer_commitment,
            buyer_public_key: order.buyer_public_key.clone(),
        },
    )
}

/// Persists round 1's results — the session id the wallet opened and the id
/// the settlement transaction digested to — through the store's write-once
/// conditional write, and assembles the round-1 answer from the merchant
/// commitment and nonce the wallet derived.
pub fn round_one_finish(
    store: &mut OrderStore,
    order_id: &String,
    session_id: &Vec<u8>,
    settlement_transaction_id: &Vec<u8>,
    merchant_commitment: &Vec<u8>,
    merchant_nonce: &String,
    transaction: Transaction,
) -> (r: Result<ExchangeCommitmentResponse, EscrowError>)
    requires
        old(store).wf(),
    ensures
        final(store).wf(),
        final(store)@ == spec_record_session_and_settlement(
            old(store)@,
            order_id@,
            session_id@,
            settlement_transaction_id@,
        ).0,
        r is Ok <==> spec_record_session_and_settlement(
            old(store)@,
            order_id@,
            session_id@,
            settlement_transaction_id@,
        ).1 is Ok,
        r is Err ==> Err::<(), EscrowError>(r->Err_0) == spec_record_session_and_settlement(
            old(store)@,
            order_id@,
            session_id@,
            settlement_transaction_id@,
        ).1,
        r is Ok ==> ({
            let resp = r->Ok_0;
            &&& resp.order_id@ == order_id@
            &&& resp.commitment@ == hex_encoded(merchant_commitment@)
            &&& resp.nonce@ == merchant_nonce@
            &&& resp.transaction_id@ == hex_encoded(settlement_transaction_id@)
            &&& resp.transaction@ == transaction@
        }),
{
    match store.record_session_and_settlement(order_id, session_id, settlement_transaction_id) {
        Ok(()) => Ok(
            ExchangeCommitmentResponse {
                order_id: order_id.clone(),
                commitment: hex_encode_bytes(merchant_commitment),
                nonce: merchant_nonce.clone(),
                transaction_id: hex_encode_bytes(settlement_transaction_id),
                transaction,
            },
        ),
        Err(e) => Err(e),
    }
}

/// Round 2's decision: `InvalidInput` unless the partial signature is 64 hex
/// digits (32 bytes) and the snapshot can fund the outcome; `NotFound` on an
/// unknown order; `InvalidState` when no session was established or the
/// requested outcome does not fit the current status (delivery confirms only
/// a delivering order, refund only a refunding one). Otherwise the plan
/// rebuilds the settlement transaction from the same snapshot rule round 1
/// used.
pub open spec fn spec_round_two(
    m: Map<Seq<char>, OrderView>,
    id: Seq<char>,
    partial_signature_hex: Seq<char>,
    outcome: Outcome,
    network_id: u8,
) -> Result<Round2PlanView, EscrowError> {
    if !(is_hex_string(partial_signature_hex) && partial_signature_hex.len() == 64) {
        Err(EscrowError::InvalidInput)
    } else if !m.contains_key(id) {
        Err(EscrowError::NotFound)
    } else if m[id].session_id.len() == 0 {
        Err(EscrowError::InvalidState)
    } else if !outcome.spec_compatible_with(m[id].status) {
        Err(EscrowError::InvalidState)
    } else if !spec_buildable(m[id], outcome) {
        Err(EscrowError::InvalidInput)
    } else {
        Ok(
            Round2PlanView {
                transaction: spec_build(m[id], outcome, network_id),
                session_id: hex_decoded(m[id].session_id),
                buyer_partial_signature: hex_decoded(partial_signature_hex),
                buyer_public_key: m[id].buyer_public_key,
            },
        )
    }
}

/// Validates round 2 and builds its plan. Reads only: a rejected confirm —
/// in particular a delivery confirm on a refunding order — changes no status.
pub fn round_two_begin(
    store: &OrderStore,
    request: &ConfirmRequest,
    outcome: Outcome,
    network_id: u8,
) -> (r: Result<Round2Plan, EscrowError>)
    requires
        store.wf(),
    ensures
        r is Ok <==> spec_round_two(
            store@,
            request.order_id@,
            request.partial_signature@,
            outcome,
            network_id,
        ) is Ok,
        r is Ok ==> r->Ok_0@ == spec_round_two(
            store@,
            request.order_id@,
            request.partial_signature@,
            outcome,
            network_id,
        )->Ok_0,
        r is Err ==> r->Err_0 == spec_round_two(
            store@,
            request.order_id@,
            request.partial_signature@,
            outcome,
            network_id,
        )->Err_0,
{
    let buyer_partial_signature = match decode_fixed32(request.partial_signature.as_str()) {
        Ok(v) => v,
        Err(e) => {
            return Err(e);
        },
    };
    let order = match store.get_order(&request.order_id) {
        Ok(o) => o,
        Err(e) => {
            return Err(e);
        },
    };
    if order.session_id.as_str().is_empty() {
        return Err(EscrowError::InvalidState);
    }
    if !outcome.compatible_with(order.status) {
        return Err(EscrowError::InvalidState);
    }
    proof {
        store.lemma_view_facts();
    }
    let session_id = match hex_decode_string(order.session_id.as_str()) {
        Some(v) => v,
        None => {
            // The store invariant keeps a set session id a 64-digit hex
            // string, so decoding cannot fail.
            proof {
                assert(false);
            }
            return Err(EscrowError::InvalidState);
        },
    };
    let transaction = match build(order, outcome, network_id) {
        Ok(t) => t,
        Err(e) => {
            return Err(e);
        },
    };
    Ok(
        Round2Plan {
            transaction,
            session_id,
            buyer_partial_signature,
            buyer_public_key: order.buyer_public_key.clone(),
        },
    )
}

/// After the aggregate signature was attached and the settlement broadcast,
/// moves the order to the requested terminal outcome and answers with the
/// settlement transaction id recorded at round 1. The transition is the state
/// machine's: an outcome the current status does not allow is `InvalidState`
/// and changes nothing.
pub fn round_two_finish(store: &mut OrderStore, order_id: &String, outcome: Outcome) -> (r: Result<
    ConfirmResponse,
    EscrowError,
>)
    requires
        old(store).wf(),
    ensures
        final(store).wf(),
        final(store)@ == spec_transition_status(
            old(store)@,
            order_id@,
            outcome.spec_terminal_status(),
        ).0,
        r is Ok <==> spec_transition_status(
            old(store)@,
            order_id@,
            outcome.spec_terminal_status(),
        ).1 is Ok,
        r is Err ==> Err::<(), EscrowError>(r->Err_0) == spec_transition_status(
            old(store)@,
            order_id@,
            outcome.spec_terminal_status(),
        ).1,
        r is Ok ==> r->Ok_0.order_id@ == order_id@ && r->Ok_0.transaction_id@ == old(
            store,
        )@[order_id@].settlement_transaction_id,
{
    let terminal = outcome.terminal_status();
    match store.transition_status(order_id, terminal) {
        Ok(()) => {
            let order = match store.get_order(order_id) {
                Ok(o) => o,
                Err(_) => {
                    // The transition just succeeded, so the id is present.
                    proof {
                        assert(false);
                    }
                    return Err(EscrowError::NotFound);
                },
            };
            Ok(
                ConfirmResponse {
                    order_id: order_id.clone(),
                    transaction_id: order.settlement_transaction_id.clone(),
                },
            )
        },
        Err(e) => Err(e),
    }
}

/// Payment-proof validation before any outside call: `InvalidInput` unless
/// the claimed transaction id is 64 hex digits, `NotFound` on an unknown
/// order, `InvalidState` unless the order still awaits payment.
pub open spec fn spec_payment_proof_check(
    m: Map<Seq<char>, OrderView>,
    id: Seq<char>,
    txn: Seq<char>,
) -> Result<(), EscrowError> {
    if !(is_hex_string(txn) && txn.len() == 64) {
        Err(EscrowError::InvalidInput)
    } else if !m.contains_key(id) {
        Err(EscrowError::NotFound)
    } else if m[id].status != OrderStatus::PendingPayment {
        Err(EscrowError::InvalidState)
    } else {
        Ok(())
    }
}

/// Validates a submitted payment proof before the payment transaction is
/// looked up on the chain. Reads only; `Ok` means the caller should fetch the
/// transaction and call `payment_proof_finish` with its outputs.
pub fn payment_proof_begin(store: &OrderStore, payment: &PaymentProof) -> (r: Result<
    (),
    EscrowError,
>)
    requires
        store.wf(),
    ensures
        r == spec_payment_proof_check(store@, payment.order_id@, payment.transaction_id@),
{
    if decode_fixed32(payment.transaction_id.as_str()).is_err() {
        return Err(EscrowError::InvalidInput);
    }
    let order = match store.get_order(&payment.order_id) {
        Ok(o) => o,
        Err(e) => {
            return Err(e);
        },
    };
    if !matches!(order.status, OrderStatus::PendingPayment) {
        return Err(EscrowError::InvalidState);
    }
    Ok(())
}

/// What accepting a payment proof does once the payment transaction was
/// fetched: the proof must still pass `spec_payment_proof_check`; the fetched
/// transaction must have an output 0 paying the order's amount to the given
/// multisig address (`InvalidInput` otherwise); then the payment transaction
/// id is recorded write-once.
pub open spec fn spec_payment_proof_finish(
    m: Map<Seq<char>, OrderView>,
    id: Seq<char>,
    txn: Seq<char>,
    outputs: Seq<TxOutView>,
    multisig_address: Seq<char>,
) -> (Map<Seq<char>, OrderView>, Result<(), EscrowError>) {
    if spec_payment_proof_check(m, id, txn) is Err {
        (m, Err(spec_payment_proof_check(m, id, txn)->Err_0))
    } else if outputs.len() == 0 {
        (m, Err(EscrowError::InvalidInput))
    } else if outputs[0].address != multisig_address {
        (m, Err(EscrowError::InvalidInput))
    } else if outputs[0].value != m[id].amount {
        (m, Err(EscrowError::InvalidInput))
    } else {
        spec_record_payment_transaction(m, id, txn)
    }
}

/// Checks the fetched payment transaction against the order — it must pay
/// the order's amount to the order's multisig address in output 0 — and
/// records its id write-once.
pub fn payment_proof_finish(
    store: &mut OrderStore,
    payment: &PaymentProof,
    outputs: &Vec<TxOut>,
    multisig_address: &String,
) -> (r: Result<OrderPaidResponse, EscrowError>)
    requires
        old(store).wf(),
    ensures
        final(store).wf(),
        final(store)@ == spec_payment_proof_finish(
            old(store)@,
            payment.order_id@,
            payment.transaction_id@,
            outputs.deep_view(),
            multisig_address@,
        ).0,
        r is Ok <==> spec_payment_proof_finish(
            old(store)@,
            payment.order_id@,
            payment.transaction_id@,
            outputs.deep_view(),
            multisig_address@,
        ).1 is Ok,
        r is Err ==> Err::<(), EscrowError>(r->Err_0) == spec_payment_proof_finish(
            old(store)@,
            payment.order_id@,
            payment.transaction_id@,
            outputs.deep_view(),
            multisig_address@,
        ).1,
        r is Ok ==> r->Ok_0.order_id@ == payment.order_id@,
{
    if let Err(e) = payment_proof_begin(store, payment) {
        return Err(e);
    }
    if outputs.len() == 0 {
        return Err(EscrowError::InvalidInput);
    }
    if !outputs[0].address.eq(multisig_address) {
        return Err(EscrowError::InvalidInput);
    }
    let order = match store.get_order(&payment.order_id) {
        Ok(o) => o,
        Err(_) => {
            // `payment_proof_begin` already found the order.
            proof {
                assert(false);
            }
            return Err(EscrowError::NotFound);
        },
    };
    if outputs[0].value != order.amount {
        return Err(EscrowError::InvalidInput);
    }
    match store.record_payment_transaction(&payment.order_id, &payment.transaction_id) {
        Ok(()) => Ok(OrderPaidResponse { order_id: payment.order_id.clone() }),
        Err(e) => Err(e),
    }
}

/// What the merchant's mark does: `NotFound` on an unknown order;
/// `InvalidState` unless the move to `Delivering` or `Refunding` is one the
/// state machine allows; `InvalidInput` when the updated snapshot cannot fund
/// its settlement (no payment recorded yet, or an amount below the deposit on
/// delivery) — the status is then left untouched. On success the status
/// advances and the settlement transaction of the updated snapshot is
/// returned.
pub open spec fn spec_mark(
    m: Map<Seq<char>, OrderView>,
    id: Seq<char>,
    new_status: OrderStatus,
    network_id: u8,
) -> (Map<Seq<char>, OrderView>, Result<TransactionView, EscrowError>) {
    let updated = OrderView { status: new_status, ..m[id] };
    if !m.contains_key(id) {
        (m, Err(EscrowError::NotFound))
    } else if !(new_status == OrderStatus::Delivering || new_status == OrderStatus::Refunding) {
        (m, Err(EscrowError::InvalidState))
    } else if !m[id].status.spec_can_transition_to(new_status) {
        (m, Err(EscrowError::InvalidState))
    } else if !spec_buildable(updated, spec_outcome_for(new_status)) {
        (m, Err(EscrowError::InvalidInput))
    } else {
        (m.insert(id, updated), Ok(spec_build(updated, spec_outcome_for(new_status), network_id)))
    }
}

/// Marks an order as delivering or refunding and returns the settlement
/// transaction that decision leads to, for the merchant to preview. All
/// checks run before the mutation: a rejected mark changes nothing.
pub fn mark(
    store: &mut OrderStore,
    order_id: &String,
    new_status: OrderStatus,
    network_id: u8,
) -> (r: Result<Transaction, EscrowError>)
    requires
        old(store).wf(),
    ensures
        final(store).wf(),
        final(store)@ == spec_mark(old(store)@, order_id@, new_status, network_id).0,
        r is Ok <==> spec_mark(old(store)@, order_id@, new_status, network_id).1 is Ok,
        r is Ok ==> r->Ok_0@ == spec_mark(old(store)@, order_id@, new_status, network_id).1->Ok_0,
        r is Err ==> r->Err_0 == spec_mark(
            old(store)@,
            order_id@,
            new_status,
            network_id,
        ).1->Err_0,
{
    let order = match store.get_order(order_id) {
        Ok(o) => o,
        Err(e) => {
            return Err(e);
        },
    };
    match new_status {
        OrderStatus::Delivering | OrderStatus::Refunding => {},
        _ => {
            return Err(EscrowError::InvalidState);
        },
    }
    if !order.status.can_transition_to(new_status) {
        return Err(EscrowError::InvalidState);
    }
    let mut snapshot = order.clone();
    snapshot.status = new_status;
    let transaction = match build(&snapshot, outcome_for(new_status), network_id) {
        Ok(t) => t,
        Err(e) => {
            return Err(e);
        },
    };
    match store.transition_status(order_id, new_status) {
        Ok(()) => Ok(transaction),
        Err(_) => {
            // The transition was validated above.
            proof {
                assert(false);
            }
            Err(EscrowError::InvalidState)
        },
    }
}

/// Marks an order as being delivered.
pub fn mark_delivering(store: &mut OrderStore, order_id: &String, network_id: u8) -> (r: Result<
    Transaction,
    EscrowError,
>)
    requires
        old(store).wf(),
    ensures
        final(store).wf(),
        final(store)@ == spec_mark(old(store)@, order_id@, OrderStatus::Delivering, network_id).0,
        r is Ok <==> spec_mark(
            old(store)@,
            order_id@,
            OrderStatus::Delivering,
            network_id,
        ).1 is Ok,
        r is Ok ==> r->Ok_0@ == spec_mark(
            old(store)@,
            order_id@,
            OrderStatus::Delivering,
            network_id,
        ).1->Ok_0,
        r is Err ==> r->Err_0 == spec_mark(
            old(store)@,
            order_id@,
            OrderStatus::Delivering,
            network_id,
        ).1->Err_0,
{
    mark(store, order_id, OrderStatus::Delivering, network_id)
}

/// Marks an order as being refunded.
pub fn mark_refunding(store: &mut OrderStore, order_id: &String, network_id: u8) -> (r: Result<
    Transaction,
    EscrowError,
>)
    requires
        old(store).wf(),
    ensures
        final(store).wf(),
        final(store)@ == spec_mark(old(store)@, order_id@, OrderStatus::Refunding, network_id).0,
        r is Ok <==> spec_mark(
            old(store)@,
            order_id@,
            OrderStatus::Refunding,
            network_id,
        ).1 is Ok,
        r is Ok ==> r->Ok_0@ == spec_mark(
            old(store)@,
            order_id@,
            OrderStatus::Refunding,
            network_id,
        ).1->Ok_0,
        r is Err ==> r->Err_0 == spec_mark(
            old(store)@,
            order_id@,
            OrderStatus::Refunding,
            network_id,
        ).1->Err_0,
{
    mark(store, order_id, OrderStatus::Refunding, network_id)
}

/// Law: round 2 rebuilds, from the same snapshot rule, exactly the
/// transaction round 1 built — whatever happened in between was the round-1
/// persist, which touches only the session id and the settlement transaction
/// id. The transaction id is a pure digest of the transaction, computed
/// outside, so the id round 2 reconstructs equals the id round 1 reported.
pub proof fn lemma_round_two_rebuilds_round_one_transaction(
    m: Map<Seq<char>, OrderView>,
    id: Seq<char>,
    commitment_hex: Seq<char>,
    session_id: Seq<u8>,
    settlement_transaction_id: Seq<u8>,
    partial_signature_hex: Seq<char>,
    outcome: Outcome,
    network_id: u8,
)
    requires
        spec_round_one(m, id, commitment_hex, network_id) is Ok,
        spec_record_session_and_settlement(m, id, session_id, settlement_transaction_id).1 is Ok,
        spec_round_two(
            spec_record_session_and_settlement(m, id, session_id, settlement_transaction_id).0,
            id,
            partial_signature_hex,
            outcome,
            network_id,
        ) is Ok,
    ensures
        spec_round_two(
            spec_record_session_and_settlement(m, id, session_id, settlement_transaction_id).0,
            id,
            partial_signature_hex,
            outcome,
            network_id,
        )->Ok_0.transaction == spec_round_one(m, id, commitment_hex, network_id)->Ok_0.transaction,
{
    let m2 = spec_record_session_and_settlement(m, id, session_id, settlement_transaction_id).0;
    assert(m2[id] == (OrderView {
        session_id: hex_encoded(session_id),
        settlement_transaction_id: hex_encoded(settlement_transaction_id),
        ..m[id]
    }));
    assert(outcome.spec_compatible_with(m2[id].status));
    assert(outcome == spec_outcome_for(m[id].status));
}

/// Law: a round 1 asked of an order still awaiting payment is rejected as
/// `InvalidState` (for any well-formed commitment; a malformed one is
/// rejected earlier as `InvalidInput`). Round 1's validation reads only, so
/// the order's session id stays unset.
pub proof fn lemma_round_one_rejects_pending_payment(
    m: Map<Seq<char>, OrderView>,
    id: Seq<char>,
    commitment_hex: Seq<char>,
    network_id: u8,
)
    requires
        m.contains_key(id),
        m[id].status == OrderStatus::PendingPayment,
        is_hex_string(commitment_hex),
        commitment_hex.len() == 64,
    ensures
        spec_round_one(m, id, commitment_hex, network_id) == Err::<Round1PlanView, EscrowError>(
            EscrowError::InvalidState,
        ),
{
}

/// Law: a delivery confirm on a refunding order is rejected as
/// `InvalidState`, at validation (round 2's begin) and again at the final
/// transition, each of which then leaves the store unchanged.
pub proof fn lemma_confirm_delivery_rejected_while_refunding(
    m: Map<Seq<char>, OrderView>,
    id: Seq<char>,
    partial_signature_hex: Seq<char>,
    network_id: u8,
)
    requires
        m.contains_key(id),
        m[id].status == OrderStatus::Refunding,
        m[id].session_id.len() != 0,
        is_hex_string(partial_signature_hex),
        partial_signature_hex.len() == 64,
    ensures
        spec_round_two(m, id, partial_signature_hex, Outcome::Delivery, network_id) == Err::<
            Round2PlanView,
            EscrowError,
        >(EscrowError::InvalidState),
        spec_transition_status(m, id, Outcome::Delivery.spec_terminal_status()).0 == m,
        spec_transition_status(m, id, Outcome::Delivery.spec_terminal_status()).1 == Err::<
            (),
            EscrowError,
        >(EscrowError::InvalidState),
{
}

} // verus!
