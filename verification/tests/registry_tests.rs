use escrow_core::registry::{
    return_dummy_address, MultiSigUtxo, PartiallySignedTxn, SettlementRegistry,
};

#[test]
fn registry_starts_empty() {
    let registry = SettlementRegistry::new();
    assert!(registry.get_partially_signed_transactions().is_empty());
    assert!(registry.get_multi_sig_utxos().is_empty());
}

#[test]
fn partially_signed_transactions_append_in_order() {
    let mut registry = SettlementRegistry::new();
    registry.register_partially_signed_transaction(PartiallySignedTxn {
        order_id: "order-1".to_string(),
        tx_id: "aa".repeat(32),
        output_id: 0,
        hash: "h1".to_string(),
        date: "2020-01-01".to_string(),
    });
    registry.register_partially_signed_transaction(PartiallySignedTxn {
        order_id: "order-2".to_string(),
        tx_id: "bb".repeat(32),
        output_id: 1,
        hash: "h2".to_string(),
        date: "2020-01-02".to_string(),
    });

    let rows = registry.get_partially_signed_transactions();
    assert_eq!(rows.len(), 2);
    assert_eq!(rows[0].order_id, "order-1");
    assert_eq!(rows[0].output_id, 0);
    assert_eq!(rows[1].order_id, "order-2");
    assert_eq!(rows[1].hash, "h2");
    // The other table is untouched.
    assert!(registry.get_multi_sig_utxos().is_empty());
}

#[test]
fn multi_sig_utxos_append_in_order() {
    let mut registry = SettlementRegistry::new();
    registry.register_multi_sig_utxo(MultiSigUtxo {
        order_id: "order-1".to_string(),
        tx_id: "cc".repeat(32),
        output_id: 3,
        date: "2020-02-01".to_string(),
    });
    let rows = registry.get_multi_sig_utxos();
    assert_eq!(rows.len(), 1);
    assert_eq!(rows[0].order_id, "order-1");
    assert_eq!(rows[0].output_id, 3);
    assert!(registry.get_partially_signed_transactions().is_empty());
}

#[test]
fn dummy_address_value() {
    assert_eq!(return_dummy_address().address, "0xaddress");
}
