//! A side registry kept next to the order store: partially signed settlement
//! transactions awaiting cosignatures, and the multisig outputs they spend.
//! Both tables are append-only logs read back in insertion order.

use vstd::prelude::*;

verus! {

/// A settlement transaction that carries some but not all required
/// signatures.
#[derive(Debug)]
pub struct PartiallySignedTxn {
    pub order_id: String,
    pub tx_id: String,
    pub output_id: i32,
    pub hash: String,
    pub date: String,
}

pub ghost struct PartiallySignedTxnView {
    pub order_id: Seq<char>,
    pub tx_id: Seq<char>,
    pub output_id: i32,
    pub hash: Seq<char>,
    pub date: Seq<char>,
}

impl View for PartiallySignedTxn {
    type V = PartiallySignedTxnView;

    open spec fn view(&self) -> PartiallySignedTxnView {
        PartiallySignedTxnView {
            order_id: self.order_id@,
            tx_id: self.tx_id@,
            output_id: self.output_id,
            hash: self.hash@,
            date: self.date@,
        }
    }
}

impl DeepView for PartiallySignedTxn {
    type V = PartiallySignedTxnView;

    open spec fn deep_view(&self) -> PartiallySignedTxnView {
        self.view()
    }
}

/// An unspent output of the shared multisig address.
#[derive(Debug)]
pub struct MultiSigUtxo {
    pub order_id: String,
    pub tx_id: String,
    pub output_id: i32,
    pub date: String,
}

pub ghost struct MultiSigUtxoView {
    pub order_id: Seq<char>,
    pub tx_id: Seq<char>,
    pub output_id: i32,
    pub date: Seq<char>,
}

impl View for MultiSigUtxo {
    type V = MultiSigUtxoView;

    open spec fn view(&self) -> MultiSigUtxoView {
        MultiSigUtxoView {
            order_id: self.order_id@,
            tx_id: self.tx_id@,
            output_id: self.output_id,
            date: self.date@,
        }
    }
}

impl DeepView for MultiSigUtxo {
    type V = MultiSigUtxoView;

    open spec fn deep_view(&self) -> MultiSigUtxoView {
        self.view()
    }
}

/// A payout address.
#[derive(Debug)]
pub struct Address {
    pub address: String,
}

/// The registry's two append-only tables.
pub struct SettlementRegistry {
    partially_signed: Vec<PartiallySignedTxn>,
    multi_sig_utxos: Vec<MultiSigUtxo>,
}

impl SettlementRegistry {
    /// The recorded partially signed transactions, oldest first.
    pub closed spec fn partially_signed_view(self) -> Seq<PartiallySignedTxnView> {
        self.partially_signed.deep_view()
    }

    /// The recorded multisig outputs, oldest first.
    pub closed spec fn multi_sig_utxos_view(self) -> Seq<MultiSigUtxoView> {
        self.multi_sig_utxos.deep_view()
    }

    /// An empty registry.
    pub fn new() -> (r: SettlementRegistry)
        ensures
            r.partially_signed_view() == Seq::<PartiallySignedTxnView>::empty(),
            r.multi_sig_utxos_view() == Seq::<MultiSigUtxoView>::empty(),
    {
        let r = SettlementRegistry { partially_signed: Vec::new(), multi_sig_utxos: Vec::new() };
        proof {
            assert(r.partially_signed_view() =~= Seq::<PartiallySignedTxnView>::empty());
            assert(r.multi_sig_utxos_view() =~= Seq::<MultiSigUtxoView>::empty());
        }
        r
    }

    /// Appends one partially signed transaction.
    pub fn register_partially_signed_transaction(&mut self, txn: PartiallySignedTxn)
        ensures
            final(self).partially_signed_view() == old(self).partially_signed_view().push(txn@),
            final(self).multi_sig_utxos_view() == old(self).multi_sig_utxos_view(),
    {
        let ghost t = txn@;
        self.partially_signed.push(txn);
        proof {
            assert(self.partially_signed_view() =~= old(self).partially_signed_view().push(t));
        }
    }

    /// All recorded partially signed transactions, in insertion order.
    pub fn get_partially_signed_transactions(&self) -> (r: &Vec<PartiallySignedTxn>)
        ensures
            r.deep_view() == self.partially_signed_view(),
    {
        &self.partially_signed
    }

    /// Appends one multisig output.
    pub fn register_multi_sig_utxo(&mut self, utxo: MultiSigUtxo)
        ensures
            final(self).multi_sig_utxos_view() == old(self).multi_sig_utxos_view().push(utxo@),
            final(self).partially_signed_view() == old(self).partially_signed_view(),
    {
        let ghost u = utxo@;
        self.multi_sig_utxos.push(utxo);
        proof {
            assert(self.multi_sig_utxos_view() =~= old(self).multi_sig_utxos_view().push(u));
        }
    }

    /// All recorded multisig outputs, in insertion order.
    pub fn get_multi_sig_utxos(&self) -> (r: &Vec<MultiSigUtxo>)
        ensures
            r.deep_view() == self.multi_sig_utxos_view(),
    {
        &self.multi_sig_utxos
    }
}

/// The placeholder payout address the address lookup answers with until a
/// real derivation backs it.
pub fn return_dummy_address() -> (r: Address)
    ensures
        r.address@ == "0xaddress"@,
{
    Address { address: "0xaddress".to_owned() }
}

} // verus!
