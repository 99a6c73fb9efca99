use escrow_core::builder::TxOut;
use escrow_core::dto::{ConfirmRequest, ExchangeCommitmentRequest, NewOrderRequest, PaymentProof};
use escrow_core::errors::EscrowError;
use escrow_core::session::{
    mark, mark_delivering, mark_refunding, payment_proof_begin, payment_proof_finish,
    round_one_begin, round_one_finish, round_two_begin, round_two_finish,
};
use escrow_core::status::{OrderStatus, Outcome};
use escrow_core::store::OrderStore;

const NETWORK_ID: u8 = 0x42;

fn session_request(order_id: &str, amount: &str) -> NewOrderRequest {
    NewOrderRequest {
        order_id: order_id.to_string(),
        amount: amount.to_string(),
        buyer_public_key: "buyer-pk".to_string(),
        buyer_view_key: "buyer-vk".to_string(),
        buyer_address: "buyer-addr".to_string(),
        escrow_public_key: "escrow-pk".to_string(),
        escrow_view_key: "escrow-vk".to_string(),
    }
}

fn session_store(order_id: &str) -> OrderStore {
    let mut store = OrderStore::new();
    let req = session_request(order_id, "2000000000");
    store
        .create_order(&req, &"merchant-addr".to_string(), &"merchant-vk".to_string())
        .unwrap();
    store
}

fn paid_store(order_id: &str) -> OrderStore {
    let mut store = session_store(order_id);
    store
        .record_payment_transaction(&order_id.to_string(), &"ab".repeat(32))
        .unwrap();
    store
}

#[test]
fn payment_proof_happy_path() {
    let mut store = session_store("order-1");
    let payment = PaymentProof {
        order_id: "order-1".to_string(),
        transaction_id: "ab".repeat(32),
    };
    assert_eq!(payment_proof_begin(&store, &payment), Ok(()));

    // The fetched payment transaction pays the order amount to the multisig
    // address in output 0.
    let outputs = vec![TxOut { address: "multisig-addr".to_string(), value: 2_000_000_000 }];
    let resp = payment_proof_finish(&mut store, &payment, &outputs, &"multisig-addr".to_string())
        .expect("valid proof");
    assert_eq!(resp.order_id, "order-1");
    let order = store.get_order(&"order-1".to_string()).unwrap();
    assert_eq!(order.payment_transaction_id, "ab".repeat(32));
    assert_eq!(order.status, OrderStatus::PendingPayment);

    // A second submission conflicts.
    assert_eq!(
        payment_proof_finish(&mut store, &payment, &outputs, &"multisig-addr".to_string())
            .unwrap_err(),
        EscrowError::Conflict
    );
}

#[test]
fn payment_proof_rejects_bad_submissions() {
    let mut store = session_store("order-1");
    let multisig = "multisig-addr".to_string();
    let good_outputs = vec![TxOut { address: multisig.clone(), value: 2_000_000_000 }];

    let malformed = PaymentProof { order_id: "order-1".to_string(), transaction_id: "xy".to_string() };
    assert_eq!(payment_proof_begin(&store, &malformed), Err(EscrowError::InvalidInput));

    let unknown = PaymentProof { order_id: "nope".to_string(), transaction_id: "ab".repeat(32) };
    assert_eq!(payment_proof_begin(&store, &unknown), Err(EscrowError::NotFound));

    let payment = PaymentProof { order_id: "order-1".to_string(), transaction_id: "ab".repeat(32) };

    // No outputs.
    assert_eq!(
        payment_proof_finish(&mut store, &payment, &vec![], &multisig).unwrap_err(),
        EscrowError::InvalidInput
    );
    // Wrong address in output 0.
    let wrong_addr = vec![TxOut { address: "elsewhere".to_string(), value: 2_000_000_000 }];
    assert_eq!(
        payment_proof_finish(&mut store, &payment, &wrong_addr, &multisig).unwrap_err(),
        EscrowError::InvalidInput
    );
    // Wrong amount in output 0.
    let wrong_amount = vec![TxOut { address: multisig.clone(), value: 1 }];
    assert_eq!(
        payment_proof_finish(&mut store, &payment, &wrong_amount, &multisig).unwrap_err(),
        EscrowError::InvalidInput
    );
    // Nothing was recorded.
    assert_eq!(store.get_order(&"order-1".to_string()).unwrap().payment_transaction_id, "");

    // Once delivering, further proofs are InvalidState.
    store
        .record_payment_transaction(&"order-1".to_string(), &"ab".repeat(32))
        .unwrap();
    store
        .transition_status(&"order-1".to_string(), OrderStatus::Delivering)
        .unwrap();
    assert_eq!(payment_proof_begin(&store, &payment), Err(EscrowError::InvalidState));
    assert_eq!(
        payment_proof_finish(&mut store, &payment, &good_outputs, &multisig).unwrap_err(),
        EscrowError::InvalidState
    );
}

#[test]
fn mark_advances_and_previews_settlement() {
    let mut store = paid_store("order-1");
    let id = "order-1".to_string();

    let tx = mark_delivering(&mut store, &id, NETWORK_ID).expect("markable");
    assert_eq!(store.get_order(&id).unwrap().status, OrderStatus::Delivering);
    assert_eq!(tx.outputs.len(), 2);
    assert_eq!(tx.outputs[0].value, 1_000_000_000);
    assert_eq!(tx.inputs[0].id, vec![0xabu8; 32]);

    // Marking again is InvalidState.
    assert_eq!(mark_refunding(&mut store, &id, NETWORK_ID).unwrap_err(), EscrowError::InvalidState);
    assert_eq!(store.get_order(&id).unwrap().status, OrderStatus::Delivering);
}

#[test]
fn mark_rejections() {
    let mut store = paid_store("order-1");
    let id = "order-1".to_string();

    assert_eq!(
        mark(&mut store, &"missing".to_string(), OrderStatus::Delivering, NETWORK_ID).unwrap_err(),
        EscrowError::NotFound
    );
    assert_eq!(
        mark(&mut store, &id, OrderStatus::Completed, NETWORK_ID).unwrap_err(),
        EscrowError::InvalidState
    );

    // Marking an unpaid order fails before the status is touched.
    let mut unpaid = session_store("order-2");
    assert_eq!(
        mark_delivering(&mut unpaid, &"order-2".to_string(), NETWORK_ID).unwrap_err(),
        EscrowError::InvalidInput
    );
    assert_eq!(
        unpaid.get_order(&"order-2".to_string()).unwrap().status,
        OrderStatus::PendingPayment
    );
}

#[test]
fn round_one_requires_a_marked_order() {
    let store = paid_store("order-1");
    let commitment = "11".repeat(32);
    // Still awaiting the merchant's decision: InvalidState, and nothing is
    // written — the session id stays unset.
    let r = round_one_begin(&store, &ExchangeCommitmentRequest { order_id: "order-1".to_string().clone(), commitment: commitment.clone() }, NETWORK_ID);
    assert_eq!(r.unwrap_err(), EscrowError::InvalidState);
    assert_eq!(store.get_order(&"order-1".to_string()).unwrap().session_id, "");
}

#[test]
fn round_one_rejects_bad_input_and_unknown_orders() {
    let mut store = paid_store("order-1");
    let id = "order-1".to_string();
    mark_delivering(&mut store, &id, NETWORK_ID).unwrap();

    assert_eq!(
        round_one_begin(&store, &ExchangeCommitmentRequest { order_id: id.clone(), commitment: "xx".to_string().clone() }, NETWORK_ID).unwrap_err(),
        EscrowError::InvalidInput
    );
    assert_eq!(
        round_one_begin(&store, &ExchangeCommitmentRequest { order_id: "missing".to_string().clone(), commitment: "11".repeat(32).clone() }, NETWORK_ID).unwrap_err(),
        EscrowError::NotFound
    );
}

#[test]
fn round_one_conflicts_once_session_exists() {
    let mut store = paid_store("order-1");
    let id = "order-1".to_string();
    mark_delivering(&mut store, &id, NETWORK_ID).unwrap();

    let plan = round_one_begin(&store, &ExchangeCommitmentRequest { order_id: id.clone(), commitment: "11".repeat(32).clone() }, NETWORK_ID).expect("round 1 opens");
    assert_eq!(plan.buyer_commitment, vec![0x11u8; 32]);
    assert_eq!(plan.buyer_public_key, "buyer-pk");

    // Exactly one of two racing round-1 persists succeeds.
    let first = round_one_finish(
        &mut store,
        &id,
        &vec![1u8; 32],
        &vec![2u8; 32],
        &vec![3u8; 32],
        &"merchant-nonce".to_string(),
        plan.transaction,
    )
    .expect("first persist");
    assert_eq!(first.order_id, "order-1");
    assert_eq!(first.commitment, "03".repeat(32));
    assert_eq!(first.nonce, "merchant-nonce");
    assert_eq!(first.transaction_id, "02".repeat(32));

    let plan2 = round_one_begin(&store, &ExchangeCommitmentRequest { order_id: id.clone(), commitment: "11".repeat(32).clone() }, NETWORK_ID);
    assert_eq!(plan2.unwrap_err(), EscrowError::Conflict);

    let other_transaction = escrow_core::builder::Transaction {
        inputs: vec![],
        outputs: vec![],
        attributes: escrow_core::builder::TxAttributes {
            chain_hex_id: NETWORK_ID,
            allowed_view: vec![],
        },
    };
    let again = round_one_finish(
        &mut store,
        &id,
        &vec![7u8; 32],
        &vec![8u8; 32],
        &vec![9u8; 32],
        &"other-nonce".to_string(),
        other_transaction,
    );
    assert_eq!(again.unwrap_err(), EscrowError::Conflict);
    // The first write's values stand.
    let order = store.get_order(&id).unwrap();
    assert_eq!(order.session_id, "01".repeat(32));
    assert_eq!(order.settlement_transaction_id, "02".repeat(32));
}

#[test]
fn confirm_delivery_rejected_while_refunding() {
    let mut store = paid_store("order-1");
    let id = "order-1".to_string();
    mark_refunding(&mut store, &id, NETWORK_ID).unwrap();
    let plan = round_one_begin(&store, &ExchangeCommitmentRequest { order_id: id.clone(), commitment: "11".repeat(32).clone() }, NETWORK_ID).unwrap();
    round_one_finish(
        &mut store,
        &id,
        &vec![1u8; 32],
        &vec![2u8; 32],
        &vec![3u8; 32],
        &"n".to_string(),
        plan.transaction,
    )
    .unwrap();

    // A "confirm delivery" on a refunding order: InvalidState, status kept.
    let r = round_two_begin(&store, &ConfirmRequest { order_id: id.clone(), nonce: "buyer-nonce".to_string(), partial_signature: "22".repeat(32).clone() }, Outcome::Delivery, NETWORK_ID);
    assert_eq!(r.unwrap_err(), EscrowError::InvalidState);
    assert_eq!(
        round_two_finish(&mut store, &id, Outcome::Delivery).unwrap_err(),
        EscrowError::InvalidState
    );
    assert_eq!(store.get_order(&id).unwrap().status, OrderStatus::Refunding);
}

#[test]
fn round_two_requires_a_session() {
    let mut store = paid_store("order-1");
    let id = "order-1".to_string();
    mark_delivering(&mut store, &id, NETWORK_ID).unwrap();
    let r = round_two_begin(&store, &ConfirmRequest { order_id: id.clone(), nonce: "buyer-nonce".to_string(), partial_signature: "22".repeat(32).clone() }, Outcome::Delivery, NETWORK_ID);
    assert_eq!(r.unwrap_err(), EscrowError::InvalidState);
}

#[test]
fn full_delivery_flow_rebuilds_the_round_one_transaction() {
    let mut store = session_store("order-1");
    let id = "order-1".to_string();

    // Payment proof.
    let payment = PaymentProof { order_id: id.clone(), transaction_id: "ab".repeat(32) };
    payment_proof_begin(&store, &payment).unwrap();
    let outputs = vec![TxOut { address: "multisig-addr".to_string(), value: 2_000_000_000 }];
    payment_proof_finish(&mut store, &payment, &outputs, &"multisig-addr".to_string()).unwrap();

    // The merchant marks the order as delivering.
    let preview = mark_delivering(&mut store, &id, NETWORK_ID).unwrap();

    // Round 1.
    let plan1 = round_one_begin(&store, &ExchangeCommitmentRequest { order_id: id.clone(), commitment: "11".repeat(32).clone() }, NETWORK_ID).unwrap();
    assert_eq!(plan1.transaction, preview);
    let settlement_id = vec![0xcdu8; 32];
    let resp1 = round_one_finish(
        &mut store,
        &id,
        &vec![0x0fu8; 32],
        &settlement_id,
        &vec![0x33u8; 32],
        &"merchant-nonce".to_string(),
        plan1.transaction,
    )
    .unwrap();
    assert_eq!(resp1.transaction_id, "cd".repeat(32));

    // Round 2 rebuilds exactly the transaction round 1 built.
    let plan2 = round_two_begin(&store, &ConfirmRequest { order_id: id.clone(), nonce: "buyer-nonce".to_string(), partial_signature: "22".repeat(32).clone() }, Outcome::Delivery, NETWORK_ID)
        .unwrap();
    assert_eq!(plan2.transaction, preview);
    assert_eq!(plan2.session_id, vec![0x0fu8; 32]);
    assert_eq!(plan2.buyer_partial_signature, vec![0x22u8; 32]);

    // Confirm: the order completes and the answer carries the settlement
    // transaction id recorded at round 1.
    let resp2 = round_two_finish(&mut store, &id, Outcome::Delivery).unwrap();
    assert_eq!(resp2.order_id, "order-1");
    assert_eq!(resp2.transaction_id, "cd".repeat(32));
    assert_eq!(store.get_order(&id).unwrap().status, OrderStatus::Completed);

    // A terminal order accepts no further confirm.
    assert_eq!(
        round_two_finish(&mut store, &id, Outcome::Delivery).unwrap_err(),
        EscrowError::InvalidState
    );
}

#[test]
fn full_refund_flow() {
    let mut store = paid_store("order-1");
    let id = "order-1".to_string();
    mark_refunding(&mut store, &id, NETWORK_ID).unwrap();

    let plan1 = round_one_begin(&store, &ExchangeCommitmentRequest { order_id: id.clone(), commitment: "11".repeat(32).clone() }, NETWORK_ID).unwrap();
    assert_eq!(plan1.transaction.outputs.len(), 1);
    assert_eq!(plan1.transaction.outputs[0].address, "buyer-addr");
    assert_eq!(plan1.transaction.outputs[0].value, 2_000_000_000);
    round_one_finish(
        &mut store,
        &id,
        &vec![1u8; 32],
        &vec![2u8; 32],
        &vec![3u8; 32],
        &"n".to_string(),
        plan1.transaction,
    )
    .unwrap();

    let plan2 = round_two_begin(&store, &ConfirmRequest { order_id: id.clone(), nonce: "buyer-nonce".to_string(), partial_signature: "22".repeat(32).clone() }, Outcome::Refund, NETWORK_ID)
        .unwrap();
    assert_eq!(plan2.transaction.outputs[0].value, 2_000_000_000);
    round_two_finish(&mut store, &id, Outcome::Refund).unwrap();
    assert_eq!(store.get_order(&id).unwrap().status, OrderStatus::Refunded);
}
