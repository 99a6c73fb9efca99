use escrow_core::builder::{build, CUSTOMER_DEPOSIT, FIXED_FEE};
use escrow_core::errors::EscrowError;
use escrow_core::order::Order;
use escrow_core::status::{OrderStatus, Outcome};

fn builder_order(amount: u64, payment_txn: &str) -> Order {
    Order {
        order_id: "order-1".to_string(),
        status: OrderStatus::Delivering,
        amount,
        merchant_address: "merchant-addr".to_string(),
        merchant_view_key: "merchant-vk".to_string(),
        buyer_public_key: "buyer-pk".to_string(),
        buyer_view_key: "buyer-vk".to_string(),
        buyer_address: "buyer-addr".to_string(),
        escrow_public_key: "escrow-pk".to_string(),
        escrow_view_key: "escrow-vk".to_string(),
        session_id: "".to_string(),
        payment_transaction_id: payment_txn.to_string(),
        settlement_transaction_id: "".to_string(),
    }
}

#[test]
fn delivery_splits_amount_and_deposit() {
    // amount = 20 * 10^8 base units, deposit = 10 * 10^8, fee = 1:
    // the merchant receives 10 * 10^8, the buyer 10 * 10^8 - 1.
    assert_eq!(CUSTOMER_DEPOSIT, 1_000_000_000);
    assert_eq!(FIXED_FEE, 1);
    let order = builder_order(2_000_000_000, &"ab".repeat(32));
    let tx = build(&order, Outcome::Delivery, 0x42).expect("buildable");

    assert_eq!(tx.outputs.len(), 2);
    assert_eq!(tx.outputs[0].address, "merchant-addr");
    assert_eq!(tx.outputs[0].value, 1_000_000_000);
    assert_eq!(tx.outputs[1].address, "buyer-addr");
    assert_eq!(tx.outputs[1].value, 999_999_999);
}

#[test]
fn refund_returns_the_whole_amount() {
    let order = builder_order(2_000_000_000, &"ab".repeat(32));
    let tx = build(&order, Outcome::Refund, 0x42).expect("buildable");
    assert_eq!(tx.outputs.len(), 1);
    assert_eq!(tx.outputs[0].address, "buyer-addr");
    assert_eq!(tx.outputs[0].value, 2_000_000_000);
}

#[test]
fn transaction_spends_payment_output_zero() {
    let order = builder_order(2_000_000_000, &"ab".repeat(32));
    let tx = build(&order, Outcome::Delivery, 0x42).unwrap();
    assert_eq!(tx.inputs.len(), 1);
    assert_eq!(tx.inputs[0].id, vec![0xabu8; 32]);
    assert_eq!(tx.inputs[0].index, 0);
}

#[test]
fn attributes_grant_all_three_view_keys() {
    let order = builder_order(2_000_000_000, &"ab".repeat(32));
    let tx = build(&order, Outcome::Delivery, 0x2a).unwrap();
    assert_eq!(tx.attributes.chain_hex_id, 0x2a);
    let keys: Vec<&str> = tx
        .attributes
        .allowed_view
        .iter()
        .map(|p| p.view_key.as_str())
        .collect();
    assert_eq!(keys, vec!["merchant-vk", "buyer-vk", "escrow-vk"]);
}

#[test]
fn building_twice_gives_identical_transactions() {
    let order = builder_order(2_000_000_000, &"ab".repeat(32));
    let tx1 = build(&order, Outcome::Delivery, 0x42).unwrap();
    let tx2 = build(&order, Outcome::Delivery, 0x42).unwrap();
    assert_eq!(tx1, tx2);

    let r1 = build(&order, Outcome::Refund, 0x42).unwrap();
    let r2 = build(&order, Outcome::Refund, 0x42).unwrap();
    assert_eq!(r1, r2);
}

#[test]
fn build_rejects_underfunded_delivery() {
    let order = builder_order(999_999_999, &"ab".repeat(32));
    assert_eq!(build(&order, Outcome::Delivery, 0x42).unwrap_err(), EscrowError::InvalidInput);
    // The same amount still funds a refund.
    assert!(build(&order, Outcome::Refund, 0x42).is_ok());
    // The boundary amount funds a delivery, leaving the merchant zero.
    let boundary = builder_order(1_000_000_000, &"ab".repeat(32));
    let tx = build(&boundary, Outcome::Delivery, 0x42).unwrap();
    assert_eq!(tx.outputs[0].value, 0);
}

#[test]
fn build_rejects_missing_payment_transaction() {
    let order = builder_order(2_000_000_000, "");
    assert_eq!(build(&order, Outcome::Delivery, 0x42).unwrap_err(), EscrowError::InvalidInput);
    let bad = builder_order(2_000_000_000, &"zz".repeat(32));
    assert_eq!(build(&bad, Outcome::Refund, 0x42).unwrap_err(), EscrowError::InvalidInput);
}
