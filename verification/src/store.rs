//! The order lifecycle manager: a keyed store of orders whose mutations
//! enforce the state machine and the write-once fields. Its mathematical
//! value is a map from order id to order snapshot.

use vstd::prelude::*;

use crate::codec::amount_parseable;
use crate::codec::dec_value;
use crate::codec::decode_fixed32;
use crate::codec::hex_encode_bytes;
use crate::codec::hex_encoded;
use crate::codec::is_hex_string;
use crate::codec::lemma_hex_encoded_is_hex_string;
use crate::codec::lemma_hex_encoded_len;
use crate::codec::parse_amount;
use crate::dto::NewOrderRequest;
use crate::dto::NewOrderRequestView;
use crate::errors::EscrowError;
use crate::order::order_wf;
use crate::order::Order;
use crate::order::OrderView;
use crate::status::OrderStatus;

verus! {

/// No two orders share an id.
pub open spec fn ids_unique(s: Seq<OrderView>) -> bool {
    forall|i: int, j: int|
        0 <= i < j < s.len() ==> (#[trigger] s[i]).order_id != (#[trigger] s[j]).order_id
}

/// The map a sequence of orders denotes; later entries would shadow earlier
/// ones, but the store keeps ids unique.
pub open spec fn map_of(s: Seq<OrderView>) -> Map<Seq<char>, OrderView>
    decreases s.len(),
{
    if s.len() == 0 {
        Map::empty()
    } else {
        map_of(s.drop_last()).insert(s.last().order_id, s.last())
    }
}

proof fn lemma_map_of_contains(s: Seq<OrderView>, k: Seq<char>)
    ensures
        map_of(s).contains_key(k) <==> exists|i: int|
            0 <= i < s.len() && (#[trigger] s[i]).order_id == k,
    decreases s.len(),
{
    if s.len() > 0 {
        lemma_map_of_contains(s.drop_last(), k);
        if map_of(s).contains_key(k) {
            if s.last().order_id == k {
                assert(s[s.len() - 1].order_id == k);
            } else {
                let i = choose|i: int|
                    0 <= i < s.drop_last().len() && (#[trigger] s.drop_last()[i]).order_id == k;
                assert(s[i].order_id == k);
            }
        } else {
            assert forall|i: int| 0 <= i < s.len() implies (#[trigger] s[i]).order_id != k by {
                if i < s.len() - 1 {
                    assert(s.drop_last()[i] == s[i]);
                }
            }
        }
    }
}

proof fn lemma_map_of_index(s: Seq<OrderView>, i: int)
    requires
        ids_unique(s),
        0 <= i < s.len(),
    ensures
        map_of(s).contains_key(s[i].order_id),
        map_of(s)[s[i].order_id] == s[i],
    decreases s.len(),
{
    if i < s.len() - 1 {
        assert(ids_unique(s.drop_last())) by {
            assert forall|x: int, y: int|
                0 <= x < y < s.drop_last().len() implies (#[trigger] s.drop_last()[x]).order_id != (
            #[trigger] s.drop_last()[y]).order_id by {
                assert(s[x].order_id != s[y].order_id);
            }
        }
        lemma_map_of_index(s.drop_last(), i);
        assert(s.drop_last()[i] == s[i]);
        assert(s[i].order_id != s[s.len() - 1].order_id);
    }
}

proof fn lemma_map_of_push(s: Seq<OrderView>, o: OrderView)
    ensures
        map_of(s.push(o)) == map_of(s).insert(o.order_id, o),
{
    assert(s.push(o).drop_last() =~= s);
    assert(s.push(o).last() == o);
}

proof fn lemma_map_of_update(s: Seq<OrderView>, i: int, o: OrderView)
    requires
        ids_unique(s),
        0 <= i < s.len(),
        o.order_id == s[i].order_id,
    ensures
        map_of(s.update(i, o)) == map_of(s).insert(o.order_id, o),
    decreases s.len(),
{
    let t = s.update(i, o);
    if i == s.len() - 1 {
        assert(t.drop_last() =~= s.drop_last());
        assert(t.last() == o);
        assert(map_of(t) == map_of(s.drop_last()).insert(o.order_id, o));
        assert(map_of(s.drop_last()).insert(s.last().order_id, s.last()).insert(o.order_id, o)
            =~= map_of(s.drop_last()).insert(o.order_id, o));
    } else {
        assert(ids_unique(s.drop_last())) by {
            assert forall|x: int, y: int|
                0 <= x < y < s.drop_last().len() implies (#[trigger] s.drop_last()[x]).order_id != (
            #[trigger] s.drop_last()[y]).order_id by {
                assert(s[x].order_id != s[y].order_id);
            }
        }
        lemma_map_of_update(s.drop_last(), i, o);
        assert(t.drop_last() =~= s.drop_last().update(i, o));
        assert(t.last() == s.last());
        assert(s[i].order_id != s[s.len() - 1].order_id);
        assert(map_of(t) == map_of(s.drop_last()).insert(o.order_id, o).insert(
            s.last().order_id,
            s.last(),
        ));
        assert(map_of(s.drop_last()).insert(o.order_id, o).insert(s.last().order_id, s.last())
            =~= map_of(s.drop_last()).insert(s.last().order_id, s.last()).insert(o.order_id, o));
    }
}

/// The record a creation request gives rise to: status `PendingPayment`,
/// write-once fields empty, the amount parsed into base units.
pub open spec fn spec_created_order(
    req: NewOrderRequestView,
    merchant_address: Seq<char>,
    merchant_view_key: Seq<char>,
) -> OrderView {
    OrderView {
        order_id: req.order_id,
        status: OrderStatus::PendingPayment,
        amount: dec_value(req.amount) as u64,
        merchant_address: merchant_address,
        merchant_view_key: merchant_view_key,
        buyer_public_key: req.buyer_public_key,
        buyer_view_key: req.buyer_view_key,
        buyer_address: req.buyer_address,
        escrow_public_key: req.escrow_public_key,
        escrow_view_key: req.escrow_view_key,
        session_id: Seq::empty(),
        payment_transaction_id: Seq::empty(),
        settlement_transaction_id: Seq::empty(),
    }
}

/// What creating an order does to the store: `Conflict` on a known id,
/// `InvalidInput` on an unparsable amount, otherwise the new record is added.
pub open spec fn spec_create_order(
    m: Map<Seq<char>, OrderView>,
    req: NewOrderRequestView,
    merchant_address: Seq<char>,
    merchant_view_key: Seq<char>,
) -> (Map<Seq<char>, OrderView>, Result<(), EscrowError>) {
    if m.contains_key(req.order_id) {
        (m, Err(EscrowError::Conflict))
    } else if !amount_parseable(req.amount) {
        (m, Err(EscrowError::InvalidInput))
    } else {
        (
            m.insert(req.order_id, spec_created_order(req, merchant_address, merchant_view_key)),
            Ok(()),
        )
    }
}

/// What a status transition does to the store: `NotFound` on an unknown id,
/// `InvalidState` on a move the machine forbids (the record is untouched),
/// otherwise only the status changes.
pub open spec fn spec_transition_status(
    m: Map<Seq<char>, OrderView>,
    id: Seq<char>,
    new_status: OrderStatus,
) -> (Map<Seq<char>, OrderView>, Result<(), EscrowError>) {
    if !m.contains_key(id) {
        (m, Err(EscrowError::NotFound))
    } else if !m[id].status.spec_can_transition_to(new_status) {
        (m, Err(EscrowError::InvalidState))
    } else {
        (m.insert(id, (OrderView { status: new_status, ..m[id] })), Ok(()))
    }
}

/// What recording the payment transaction id does: `NotFound` on an unknown
/// id, `Conflict` if a payment id was recorded before (write-once),
/// `InvalidInput` unless the id is 64 hex digits, otherwise only that field
/// is set.
pub open spec fn spec_record_payment_transaction(
    m: Map<Seq<char>, OrderView>,
    id: Seq<char>,
    txn: Seq<char>,
) -> (Map<Seq<char>, OrderView>, Result<(), EscrowError>) {
    if !m.contains_key(id) {
        (m, Err(EscrowError::NotFound))
    } else if m[id].payment_transaction_id.len() != 0 {
        (m, Err(EscrowError::Conflict))
    } else if !(txn.len() == 64 && is_hex_string(txn)) {
        (m, Err(EscrowError::InvalidInput))
    } else {
        (m.insert(id, (OrderView { payment_transaction_id: txn, ..m[id] })), Ok(()))
    }
}

/// What round 1's persist does: the session id and the settlement transaction
/// id are set together, hex-encoded, exactly once. `NotFound` on an unknown
/// id; `Conflict` if a session was established before — the store is then
/// left untouched, which makes the write a first-set-wins conditional write;
/// `InvalidInput` unless both values are 32 bytes.
pub open spec fn spec_record_session_and_settlement(
    m: Map<Seq<char>, OrderView>,
    id: Seq<char>,
    session: Seq<u8>,
    settlement: Seq<u8>,
) -> (Map<Seq<char>, OrderView>, Result<(), EscrowError>) {
    if !m.contains_key(id) {
        (m, Err(EscrowError::NotFound))
    } else if m[id].session_id.len() != 0 {
        (m, Err(EscrowError::Conflict))
    } else if !(session.len() == 32 && settlement.len() == 32) {
        (m, Err(EscrowError::InvalidInput))
    } else {
        (
            m.insert(
                id,
                (OrderView {
                    session_id: hex_encoded(session),
                    settlement_transaction_id: hex_encoded(settlement),
                    ..m[id]
                }),
            ),
            Ok(()),
        )
    }
}

/// A status of an order some party still has to act on.
pub open spec fn is_pending_status(s: OrderStatus) -> bool {
    s == OrderStatus::PendingPayment || s == OrderStatus::Delivering || s
        == OrderStatus::Refunding
}

/// A terminal status.
pub open spec fn is_settled_status(s: OrderStatus) -> bool {
    s == OrderStatus::Completed || s == OrderStatus::Refunded
}

/// An order whose payment is recorded but which the merchant has not yet
/// marked as delivering or refunding.
pub open spec fn is_awaiting_response(o: OrderView) -> bool {
    o.status == OrderStatus::PendingPayment && o.payment_transaction_id.len() != 0
}

/// Law: the store enforces the state machine
/// `PendingPayment -> {Delivering, Refunding} -> {Completed, Refunded}`. A
/// status change is accepted exactly along a machine edge; a rejected change
/// returns `InvalidState` (or `NotFound` for an unknown id) and leaves the
/// store as it was; an accepted one touches only that order's status.
pub proof fn lemma_status_machine_enforced(
    m: Map<Seq<char>, OrderView>,
    id: Seq<char>,
    new_status: OrderStatus,
)
    ensures
        spec_transition_status(m, id, new_status).1 is Ok <==> m.contains_key(id)
            && m[id].status.spec_can_transition_to(new_status),
        spec_transition_status(m, id, new_status).1 is Err ==> spec_transition_status(
            m,
            id,
            new_status,
        ).0 == m,
        spec_transition_status(m, id, new_status).1 is Ok ==> spec_transition_status(
            m,
            id,
            new_status,
        ).0 == m.insert(id, (OrderView { status: new_status, ..m[id] })),
        m.contains_key(id) && !m[id].status.spec_can_transition_to(new_status)
            ==> spec_transition_status(m, id, new_status).1 == Err::<(), EscrowError>(
            EscrowError::InvalidState,
        ),
{
}

/// Law: orders are archival and their write-once fields hold. No store
/// operation deletes an order: creation only adds a fresh record, and the
/// three mutations keep every present key. A status transition changes only
/// the status; the payment write succeeds only while the payment field is
/// empty; the session write succeeds only while the session field is empty.
pub proof fn lemma_orders_are_archival(
    m: Map<Seq<char>, OrderView>,
    req: NewOrderRequestView,
    merchant_address: Seq<char>,
    merchant_view_key: Seq<char>,
    id: Seq<char>,
    new_status: OrderStatus,
    txn: Seq<char>,
    session: Seq<u8>,
    settlement: Seq<u8>,
)
    ensures
        forall|k: Seq<char>| #[trigger]
            m.contains_key(k) ==> spec_create_order(
                m,
                req,
                merchant_address,
                merchant_view_key,
            ).0.contains_key(k) && spec_create_order(
                m,
                req,
                merchant_address,
                merchant_view_key,
            ).0[k] == m[k],
        forall|k: Seq<char>| #[trigger]
            m.contains_key(k) ==> spec_transition_status(m, id, new_status).0.contains_key(k),
        forall|k: Seq<char>| #[trigger]
            m.contains_key(k) ==> spec_record_payment_transaction(m, id, txn).0.contains_key(k),
        forall|k: Seq<char>| #[trigger]
            m.contains_key(k) ==> spec_record_session_and_settlement(
                m,
                id,
                session,
                settlement,
            ).0.contains_key(k),
        spec_transition_status(m, id, new_status).1 is Ok ==> spec_transition_status(
            m,
            id,
            new_status,
        ).0[id] == (OrderView { status: new_status, ..m[id] }),
        spec_record_payment_transaction(m, id, txn).1 is Ok ==> m[id].payment_transaction_id.len()
            == 0,
        spec_record_session_and_settlement(m, id, session, settlement).1 is Ok
            ==> m[id].session_id.len() == 0,
{
    if spec_create_order(m, req, merchant_address, merchant_view_key).1 is Ok {
        assert(!m.contains_key(req.order_id));
    }
}

/// Every element of a filtered sequence occurs in the sequence.
proof fn lemma_filter_element_of(s: Seq<OrderView>, pred: spec_fn(OrderView) -> bool, i: int)
    requires
        0 <= i < s.filter(pred).len(),
    ensures
        s.contains(s.filter(pred)[i]),
    decreases s.len(),
{
    reveal(Seq::filter);
    let f = s.filter(pred);
    let fsub = s.drop_last().filter(pred);
    if pred(s.last()) && i == f.len() - 1 {
        assert(s[s.len() - 1] == f[i]);
    } else {
        assert(f[i] == fsub[i]);
        lemma_filter_element_of(s.drop_last(), pred, i);
        let t = choose|t: int| 0 <= t < s.drop_last().len() && s.drop_last()[t] == fsub[i];
        assert(s[t] == fsub[i]);
    }
}

/// Is this status one of the listed ones?
fn status_in(statuses: &Vec<OrderStatus>, status: OrderStatus) -> (r: bool)
    ensures
        r == statuses@.contains(status),
{
    let n = statuses.len();
    let mut j: usize = 0;
    while j < n
        invariant
            n == statuses.len(),
            0 <= j <= n,
            forall|i: int| 0 <= i < j ==> statuses@[i] != status,
        decreases n - j,
    {
        if statuses[j] == status {
            return true;
        }
        j = j + 1;
    }
    false
}

/// Law: the session write is first-set-wins. Once one round-1 persist has
/// succeeded on an order, any later persist for the same order returns
/// `Conflict` and leaves the store as it was; with the store access of each
/// request serialized per order id, of two racing round-1 calls exactly one
/// establishes the session.
pub proof fn lemma_session_write_once(
    m: Map<Seq<char>, OrderView>,
    id: Seq<char>,
    session1: Seq<u8>,
    settlement1: Seq<u8>,
    session2: Seq<u8>,
    settlement2: Seq<u8>,
)
    requires
        spec_record_session_and_settlement(m, id, session1, settlement1).1 is Ok,
    ensures
        ({
            let m1 = spec_record_session_and_settlement(m, id, session1, settlement1).0;
            &&& spec_record_session_and_settlement(m1, id, session2, settlement2).1 == Err::<
                (),
                EscrowError,
            >(EscrowError::Conflict)
            &&& spec_record_session_and_settlement(m1, id, session2, settlement2).0 == m1
        }),
{
    lemma_hex_encoded_len(session1);
}

/// The durable keyed store of orders.
pub struct OrderStore {
    orders: Vec<Order>,
}

impl View for OrderStore {
    type V = Map<Seq<char>, OrderView>;

    closed spec fn view(&self) -> Map<Seq<char>, OrderView> {
        map_of(self.orders.deep_view())
    }
}

impl OrderStore {
    /// The stored orders in insertion order.
    pub closed spec fn seq_view(self) -> Seq<OrderView> {
        self.orders.deep_view()
    }

    /// Invariant: ids are unique and every record is well-formed.
    pub closed spec fn wf(self) -> bool {
        &&& ids_unique(self.seq_view())
        &&& forall|i: int|
            0 <= i < self.seq_view().len() ==> order_wf(#[trigger] self.seq_view()[i])
    }

    /// The map value lists exactly the stored orders, each under its own id.
    pub proof fn lemma_view_facts(self)
        requires
            self.wf(),
        ensures
            forall|k: Seq<char>| #[trigger]
                self@.contains_key(k) ==> self@[k].order_id == k && order_wf(self@[k]),
    {
        let s = self.seq_view();
        assert forall|k: Seq<char>| #[trigger] self@.contains_key(k) implies self@[k].order_id == k
            && order_wf(self@[k]) by {
            lemma_map_of_contains(s, k);
            let i = choose|i: int| 0 <= i < s.len() && (#[trigger] s[i]).order_id == k;
            lemma_map_of_index(s, i);
        }
    }

    /// An empty store.
    pub fn new() -> (r: OrderStore)
        ensures
            r.wf(),
            r@ == Map::<Seq<char>, OrderView>::empty(),
            r.seq_view() == Seq::<OrderView>::empty(),
    {
        let r = OrderStore { orders: Vec::new() };
        proof {
            assert(r.seq_view() =~= Seq::<OrderView>::empty());
        }
        r
    }

    fn find_index(&self, order_id: &String) -> (r: Option<usize>)
        ensures
            match r {
                Some(i) => i < self.seq_view().len() && self.seq_view()[i as int].order_id
                    == order_id@,
                None => forall|i: int|
                    0 <= i < self.seq_view().len() ==> (#[trigger] self.seq_view()[i]).order_id
                        != order_id@,
            },
    {
        let n = self.orders.len();
        let mut j: usize = 0;
        while j < n
            invariant
                n == self.orders.len(),
                0 <= j <= n,
                self.seq_view().len() == n,
                forall|i: int|
                    0 <= i < j ==> (#[trigger] self.seq_view()[i]).order_id != order_id@,
            decreases n - j,
        {
            if self.orders[j].order_id.eq(order_id) {
                return Some(j);
            }
            j = j + 1;
        }
        None
    }

    /// Does an order with this id exist?
    pub fn is_order_exist(&self, order_id: &String) -> (r: bool)
        requires
            self.wf(),
        ensures
            r == self@.contains_key(order_id@),
    {
        proof {
            lemma_map_of_contains(self.seq_view(), order_id@);
        }
        match self.find_index(order_id) {
            Some(_) => true,
            None => false,
        }
    }

    /// Looks an order up by id; `NotFound` exactly when the id is unknown.
    pub fn get_order(&self, order_id: &String) -> (r: Result<&Order, EscrowError>)
        requires
            self.wf(),
        ensures
            r is Ok <==> self@.contains_key(order_id@),
            r is Ok ==> r->Ok_0@ == self@[order_id@],
            r is Err ==> r->Err_0 == EscrowError::NotFound,
    {
        proof {
            lemma_map_of_contains(self.seq_view(), order_id@);
        }
        match self.find_index(order_id) {
            Some(i) => {
                proof {
                    lemma_map_of_index(self.seq_view(), i as int);
                }
                Ok(&self.orders[i])
            },
            None => Err(EscrowError::NotFound),
        }
    }

    /// Creates an order from a request and the merchant key material the
    /// external wallet service derived for it. Fails `Conflict` when the id
    /// is taken and `InvalidInput` when the amount string does not parse;
    /// errors leave the store untouched.
    pub fn create_order(
        &mut self,
        req: &NewOrderRequest,
        merchant_address: &String,
        merchant_view_key: &String,
    ) -> (r: Result<(), EscrowError>)
        requires
            old(self).wf(),
        ensures
            final(self).wf(),
            final(self)@ == spec_create_order(
                old(self)@,
                req@,
                merchant_address@,
                merchant_view_key@,
            ).0,
            r == spec_create_order(old(self)@, req@, merchant_address@, merchant_view_key@).1,
    {
        proof {
            lemma_map_of_contains(self.seq_view(), req.order_id@);
        }
        if let Some(_) = self.find_index(&req.order_id) {
            return Err(EscrowError::Conflict);
        }
        let amount = match parse_amount(req.amount.as_str()) {
            Ok(v) => v,
            Err(_) => {
                return Err(EscrowError::InvalidInput);
            },
        };
        let order = Order {
            order_id: req.order_id.clone(),
            status: OrderStatus::PendingPayment,
            amount,
            merchant_address: merchant_address.clone(),
            merchant_view_key: merchant_view_key.clone(),
            buyer_public_key: req.buyer_public_key.clone(),
            buyer_view_key: req.buyer_view_key.clone(),
            buyer_address: req.buyer_address.clone(),
            escrow_public_key: req.escrow_public_key.clone(),
            escrow_view_key: req.escrow_view_key.clone(),
            session_id: String::new(),
            payment_transaction_id: String::new(),
            settlement_transaction_id: String::new(),
        };
        proof {
            assert(order@ == spec_created_order(req@, merchant_address@, merchant_view_key@));
        }
        let ghost s_old = self.seq_view();
        self.orders.push(order);
        proof {
            assert(self.seq_view() =~= s_old.push(
                spec_created_order(req@, merchant_address@, merchant_view_key@),
            ));
            lemma_map_of_push(
                s_old,
                spec_created_order(req@, merchant_address@, merchant_view_key@),
            );
            assert forall|i: int|
                0 <= i < self.seq_view().len() implies order_wf(#[trigger] self.seq_view()[i]) by {
                if i < s_old.len() {
                    assert(self.seq_view()[i] == s_old[i]);
                }
            }
        }
        Ok(())
    }

    /// Moves an order's status along the state machine. `NotFound` on an
    /// unknown id; a move the machine forbids returns `InvalidState` and
    /// leaves the status untouched.
    pub fn transition_status(&mut self, order_id: &String, new_status: OrderStatus) -> (r: Result<
        (),
        EscrowError,
    >)
        requires
            old(self).wf(),
        ensures
            final(self).wf(),
            final(self)@ == spec_transition_status(old(self)@, order_id@, new_status).0,
            r == spec_transition_status(old(self)@, order_id@, new_status).1,
    {
        proof {
            lemma_map_of_contains(self.seq_view(), order_id@);
        }
        let i = match self.find_index(order_id) {
            Some(i) => i,
            None => {
                return Err(EscrowError::NotFound);
            },
        };
        proof {
            lemma_map_of_index(self.seq_view(), i as int);
        }
        if !self.orders[i].status.can_transition_to(new_status) {
            return Err(EscrowError::InvalidState);
        }
        let ghost s_old = self.seq_view();
        let ghost updated = OrderView { status: new_status, ..s_old[i as int] };
        self.orders[i].status = new_status;
        proof {
            assert(self.seq_view() =~= s_old.update(i as int, updated));
            self.lemma_update_preserves_wf(s_old, i as int, updated);
            lemma_map_of_update(s_old, i as int, updated);
        }
        Ok(())
    }

    /// Records the buyer's payment transaction id, write-once: a second call
    /// returns `Conflict` and changes nothing. The id must be 64 hex digits.
    pub fn record_payment_transaction(
        &mut self,
        order_id: &String,
        transaction_id: &String,
    ) -> (r: Result<(), EscrowError>)
        requires
            old(self).wf(),
        ensures
            final(self).wf(),
            final(self)@ == spec_record_payment_transaction(
                old(self)@,
                order_id@,
                transaction_id@,
            ).0,
            r == spec_record_payment_transaction(old(self)@, order_id@, transaction_id@).1,
    {
        proof {
            lemma_map_of_contains(self.seq_view(), order_id@);
        }
        let i = match self.find_index(order_id) {
            Some(i) => i,
            None => {
                return Err(EscrowError::NotFound);
            },
        };
        proof {
            lemma_map_of_index(self.seq_view(), i as int);
        }
        if !self.orders[i].payment_transaction_id.as_str().is_empty() {
            return Err(EscrowError::Conflict);
        }
        if decode_fixed32(transaction_id.as_str()).is_err() {
            return Err(EscrowError::InvalidInput);
        }
        let ghost s_old = self.seq_view();
        let ghost updated = OrderView {
            payment_transaction_id: transaction_id@,
            ..s_old[i as int]
        };
        self.orders[i].payment_transaction_id = transaction_id.clone();
        proof {
            assert(self.seq_view() =~= s_old.update(i as int, updated));
            self.lemma_update_preserves_wf(s_old, i as int, updated);
            lemma_map_of_update(s_old, i as int, updated);
        }
        Ok(())
    }

    /// Persists round 1's results atomically and write-once: the session id
    /// and the settlement transaction id (both 32-byte values, stored
    /// hex-encoded) are set together. A second call returns `Conflict` and
    /// changes nothing, so of two racing round-1 persists for one order
    /// exactly the first succeeds.
    pub fn record_session_and_settlement(
        &mut self,
        order_id: &String,
        session_id: &Vec<u8>,
        settlement_transaction_id: &Vec<u8>,
    ) -> (r: Result<(), EscrowError>)
        requires
            old(self).wf(),
        ensures
            final(self).wf(),
            final(self)@ == spec_record_session_and_settlement(
                old(self)@,
                order_id@,
                session_id@,
                settlement_transaction_id@,
            ).0,
            r == spec_record_session_and_settlement(
                old(self)@,
                order_id@,
                session_id@,
                settlement_transaction_id@,
            ).1,
    {
        proof {
            lemma_map_of_contains(self.seq_view(), order_id@);
        }
        let i = match self.find_index(order_id) {
            Some(i) => i,
            None => {
                return Err(EscrowError::NotFound);
            },
        };
        proof {
            lemma_map_of_index(self.seq_view(), i as int);
        }
        if !self.orders[i].session_id.as_str().is_empty() {
            return Err(EscrowError::Conflict);
        }
        if session_id.len() != 32 || settlement_transaction_id.len() != 32 {
            return Err(EscrowError::InvalidInput);
        }
        let session_hex = hex_encode_bytes(session_id);
        let settlement_hex = hex_encode_bytes(settlement_transaction_id);
        proof {
            lemma_hex_encoded_len(session_id@);
            lemma_hex_encoded_is_hex_string(session_id@);
            lemma_hex_encoded_len(settlement_transaction_id@);
            lemma_hex_encoded_is_hex_string(settlement_transaction_id@);
        }
        let ghost s_old = self.seq_view();
        let ghost updated = OrderView {
            session_id: hex_encoded(session_id@),
            settlement_transaction_id: hex_encoded(settlement_transaction_id@),
            ..s_old[i as int]
        };
        self.orders[i].session_id = session_hex;
        self.orders[i].settlement_transaction_id = settlement_hex;
        proof {
            assert(self.seq_view() =~= s_old.update(i as int, updated));
            self.lemma_update_preserves_wf(s_old, i as int, updated);
            lemma_map_of_update(s_old, i as int, updated);
        }
        Ok(())
    }

    /// Lists the orders whose status lies in `statuses`. Every returned
    /// record is a stored one with a status in the set, and every stored
    /// order with a status in the set is returned.
    pub fn list_orders_by_status(&self, statuses: &Vec<OrderStatus>) -> (r: Vec<Order>)
        requires
            self.wf(),
        ensures
            forall|i: int|
                0 <= i < r.deep_view().len() ==> {
                    let o = #[trigger] r.deep_view()[i];
                    &&& self@.contains_key(o.order_id)
                    &&& self@[o.order_id] == o
                    &&& statuses@.contains(o.status)
                },
            forall|k: Seq<char>|
                (#[trigger] self@.contains_key(k)) && statuses@.contains(self@[k].status)
                    ==> exists|i: int|
                    0 <= i < r.deep_view().len() && (#[trigger] r.deep_view()[i]).order_id == k,
    {
        let ghost pred = |o: OrderView| statuses@.contains(o.status);
        let ghost s = self.seq_view();
        let n = self.orders.len();
        let mut r: Vec<Order> = Vec::new();
        let mut j: usize = 0;
        while j < n
            invariant
                n == self.orders.len(),
                0 <= j <= n,
                s == self.seq_view(),
                s.len() == n,
                pred == (|o: OrderView| statuses@.contains(o.status)),
                r.deep_view() =~= s.take(j as int).filter(pred),
            decreases n - j,
        {
            proof {
                reveal(Seq::filter);
                assert(s.take(j as int + 1).drop_last() =~= s.take(j as int));
                assert(s.take(j as int + 1).last() == s[j as int]);
            }
            let ghost r_old = r.deep_view();
            if status_in(statuses, self.orders[j].status) {
                r.push(self.orders[j].clone());
                proof {
                    assert(r.deep_view() =~= r_old.push(s[j as int]));
                }
            }
            j = j + 1;
        }
        proof {
            assert(s.take(n as int) =~= s);
            let f = s.filter(pred);
            assert forall|i: int|
                0 <= i < f.len() implies {
                let o = #[trigger] f[i];
                &&& self@.contains_key(o.order_id)
                &&& self@[o.order_id] == o
                &&& statuses@.contains(o.status)
            } by {
                s.lemma_filter_pred(pred, i);
                lemma_filter_element_of(s, pred, i);
                assert(s.contains(f[i]));
                let t = choose|t: int| 0 <= t < s.len() && s[t] == f[i];
                lemma_map_of_index(s, t);
            }
            assert forall|k: Seq<char>|
                (#[trigger] self@.contains_key(k)) && statuses@.contains(
                    self@[k].status,
                ) implies exists|i: int|
                0 <= i < f.len() && (#[trigger] f[i]).order_id == k by {
                lemma_map_of_contains(s, k);
                let t = choose|t: int| 0 <= t < s.len() && (#[trigger] s[t]).order_id == k;
                lemma_map_of_index(s, t);
                s.lemma_filter_contains(pred, t);
                assert(f.contains(s[t]));
                let i = choose|i: int| 0 <= i < f.len() && f[i] == s[t];
                assert(f[i].order_id == k);
            }
        }
        r
    }

    /// Lists the orders some party still has to act on: awaiting payment,
    /// delivering, or refunding.
    pub fn get_pending_orders(&self) -> (r: Vec<Order>)
        requires
            self.wf(),
        ensures
            forall|i: int|
                0 <= i < r.deep_view().len() ==> {
                    let o = #[trigger] r.deep_view()[i];
                    &&& self@.contains_key(o.order_id)
                    &&& self@[o.order_id] == o
                    &&& is_pending_status(o.status)
                },
            forall|k: Seq<char>|
                (#[trigger] self@.contains_key(k)) && is_pending_status(self@[k].status)
                    ==> exists|i: int|
                    0 <= i < r.deep_view().len() && (#[trigger] r.deep_view()[i]).order_id == k,
    {
        let mut statuses: Vec<OrderStatus> = Vec::new();
        statuses.push(OrderStatus::PendingPayment);
        statuses.push(OrderStatus::Delivering);
        statuses.push(OrderStatus::Refunding);
        proof {
            assert forall|s: OrderStatus| statuses@.contains(s) == is_pending_status(s) by {
                if is_pending_status(s) {
                    if s == OrderStatus::PendingPayment {
                        assert(statuses@[0] == s);
                    } else if s == OrderStatus::Delivering {
                        assert(statuses@[1] == s);
                    } else {
                        assert(statuses@[2] == s);
                    }
                    assert(statuses@.contains(s));
                }
            }
        }
        self.list_orders_by_status(&statuses)
    }

    /// Lists the settled (completed or refunded) orders.
    pub fn get_settled_orders(&self) -> (r: Vec<Order>)
        requires
            self.wf(),
        ensures
            forall|i: int|
                0 <= i < r.deep_view().len() ==> {
                    let o = #[trigger] r.deep_view()[i];
                    &&& self@.contains_key(o.order_id)
                    &&& self@[o.order_id] == o
                    &&& is_settled_status(o.status)
                },
            forall|k: Seq<char>|
                (#[trigger] self@.contains_key(k)) && is_settled_status(self@[k].status)
                    ==> exists|i: int|
                    0 <= i < r.deep_view().len() && (#[trigger] r.deep_view()[i]).order_id == k,
    {
        let mut statuses: Vec<OrderStatus> = Vec::new();
        statuses.push(OrderStatus::Completed);
        statuses.push(OrderStatus::Refunded);
        proof {
            assert forall|s: OrderStatus| statuses@.contains(s) == is_settled_status(s) by {
                if is_settled_status(s) {
                    if s == OrderStatus::Completed {
                        assert(statuses@[0] == s);
                    } else {
                        assert(statuses@[1] == s);
                    }
                    assert(statuses@.contains(s));
                }
            }
        }
        self.list_orders_by_status(&statuses)
    }

    /// Lists the orders awaiting the merchant's response: paid, but not yet
    /// marked as delivering or refunding.
    pub fn get_pending_response_orders(&self) -> (r: Vec<Order>)
        requires
            self.wf(),
        ensures
            forall|i: int|
                0 <= i < r.deep_view().len() ==> {
                    let o = #[trigger] r.deep_view()[i];
                    &&& self@.contains_key(o.order_id)
                    &&& self@[o.order_id] == o
                    &&& is_awaiting_response(o)
                },
            forall|k: Seq<char>|
                (#[trigger] self@.contains_key(k)) && is_awaiting_response(self@[k])
                    ==> exists|i: int|
                    0 <= i < r.deep_view().len() && (#[trigger] r.deep_view()[i]).order_id == k,
    {
        let ghost pred = |o: OrderView| is_awaiting_response(o);
        let ghost s = self.seq_view();
        let n = self.orders.len();
        let mut r: Vec<Order> = Vec::new();
        let mut j: usize = 0;
        while j < n
            invariant
                n == self.orders.len(),
                0 <= j <= n,
                s == self.seq_view(),
                s.len() == n,
                pred == (|o: OrderView| is_awaiting_response(o)),
                r.deep_view() =~= s.take(j as int).filter(pred),
            decreases n - j,
        {
            proof {
                reveal(Seq::filter);
                assert(s.take(j as int + 1).drop_last() =~= s.take(j as int));
                assert(s.take(j as int + 1).last() == s[j as int]);
            }
            let ghost r_old = r.deep_view();
            let is_match = matches!(self.orders[j].status, OrderStatus::PendingPayment)
                && !self.orders[j].payment_transaction_id.as_str().is_empty();
            if is_match {
                r.push(self.orders[j].clone());
                proof {
                    assert(r.deep_view() =~= r_old.push(s[j as int]));
                }
            }
            j = j + 1;
        }
        proof {
            assert(s.take(n as int) =~= s);
            let f = s.filter(pred);
            assert forall|i: int|
                0 <= i < f.len() implies {
                let o = #[trigger] f[i];
                &&& self@.contains_key(o.order_id)
                &&& self@[o.order_id] == o
                &&& is_awaiting_response(o)
            } by {
                s.lemma_filter_pred(pred, i);
                lemma_filter_element_of(s, pred, i);
                assert(s.contains(f[i]));
                let t = choose|t: int| 0 <= t < s.len() && s[t] == f[i];
                lemma_map_of_index(s, t);
            }
            assert forall|k: Seq<char>|
                (#[trigger] self@.contains_key(k)) && is_awaiting_response(self@[k]) implies exists|
                i: int,
            |
                0 <= i < f.len() && (#[trigger] f[i]).order_id == k by {
                lemma_map_of_contains(s, k);
                let t = choose|t: int| 0 <= t < s.len() && (#[trigger] s[t]).order_id == k;
                lemma_map_of_index(s, t);
                s.lemma_filter_contains(pred, t);
                assert(f.contains(s[t]));
                let i = choose|i: int| 0 <= i < f.len() && f[i] == s[t];
                assert(f[i].order_id == k);
            }
        }
        r
    }

    /// Replacing one record by a well-formed record with the same id keeps
    /// the store well-formed.
    proof fn lemma_update_preserves_wf(self, s_old: Seq<OrderView>, i: int, updated: OrderView)
        requires
            ids_unique(s_old),
            forall|j: int| 0 <= j < s_old.len() ==> order_wf(#[trigger] s_old[j]),
            0 <= i < s_old.len(),
            updated.order_id == s_old[i].order_id,
            order_wf(updated),
            self.seq_view() == s_old.update(i, updated),
        ensures
            self.wf(),
    {
        let s = self.seq_view();
        assert forall|x: int, y: int|
            0 <= x < y < s.len() implies (#[trigger] s[x]).order_id != (
        #[trigger] s[y]).order_id by {
            assert(s_old[x].order_id != s_old[y].order_id);
        }
        assert forall|j: int| 0 <= j < s.len() implies order_wf(#[trigger] s[j]) by {
            if j != i {
                assert(s[j] == s_old[j]);
            }
        }
    }
}

} // verus!
