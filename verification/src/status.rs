//! Order status values and the transition rules of the order state machine:
//! `PendingPayment -> {Delivering, Refunding} -> {Completed, Refunded}`.

use vstd::prelude::*;

verus! {

/// The lifecycle states of an escrow order. `Completed` and `Refunded` are
/// terminal: no transition leaves them.
#[derive(Clone, Copy, PartialEq, Eq, Structural, Debug)]
pub enum OrderStatus {
    PendingPayment,
    Delivering,
    Refunding,
    Completed,
    Refunded,
}

/// The requested terminal outcome of a signing session: a "confirm delivery"
/// action asks for `Delivery`, a "confirm refund" action for `Refund`.
#[derive(Clone, Copy, PartialEq, Eq, Structural, Debug)]
pub enum Outcome {
    Delivery,
    Refund,
}

impl OrderStatus {
    /// The edges of the state machine. Every status move of an order must
    /// follow one of them.
    pub open spec fn spec_can_transition_to(self, to: OrderStatus) -> bool {
        ||| (self == OrderStatus::PendingPayment && (to == OrderStatus::Delivering
                || to == OrderStatus::Refunding))
        ||| (self == OrderStatus::Delivering && to == OrderStatus::Completed)
        ||| (self == OrderStatus::Refunding && to == OrderStatus::Refunded)
    }

    pub fn can_transition_to(self, to: OrderStatus) -> (r: bool)
        ensures
            r == self.spec_can_transition_to(to),
    {
        match (self, to) {
            (OrderStatus::PendingPayment, OrderStatus::Delivering) => true,
            (OrderStatus::PendingPayment, OrderStatus::Refunding) => true,
            (OrderStatus::Delivering, OrderStatus::Completed) => true,
            (OrderStatus::Refunding, OrderStatus::Refunded) => true,
            _ => false,
        }
    }

    /// The name a status is persisted and transported under.
    pub open spec fn spec_name(self) -> Seq<char> {
        match self {
            OrderStatus::PendingPayment => "PendingPayment"@,
            OrderStatus::Delivering => "Delivering"@,
            OrderStatus::Refunding => "Refunding"@,
            OrderStatus::Completed => "Completed"@,
            OrderStatus::Refunded => "Refunded"@,
        }
    }

    pub fn name(self) -> (r: String)
        ensures
            r@ == self.spec_name(),
    {
        match self {
            OrderStatus::PendingPayment => "PendingPayment".to_owned(),
            OrderStatus::Delivering => "Delivering".to_owned(),
            OrderStatus::Refunding => "Refunding".to_owned(),
            OrderStatus::Completed => "Completed".to_owned(),
            OrderStatus::Refunded => "Refunded".to_owned(),
        }
    }

    /// Reads a status back from its persisted name; `None` on any other
    /// string.
    pub fn from_name(s: &String) -> (r: Option<OrderStatus>)
        ensures
            r is Some <==> exists|st: OrderStatus| (#[trigger] st.spec_name()) == s@,
            r is Some ==> r->0.spec_name() == s@,
    {
        let candidates: [OrderStatus; 5] = [
            OrderStatus::PendingPayment,
            OrderStatus::Delivering,
            OrderStatus::Refunding,
            OrderStatus::Completed,
            OrderStatus::Refunded,
        ];
        let mut k: usize = 0;
        while k < 5
            invariant
                0 <= k <= 5,
                candidates@ =~= seq![
                    OrderStatus::PendingPayment,
                    OrderStatus::Delivering,
                    OrderStatus::Refunding,
                    OrderStatus::Completed,
                    OrderStatus::Refunded,
                ],
                forall|i: int| 0 <= i < k ==> (#[trigger] candidates@[i]).spec_name() != s@,
            decreases 5 - k,
        {
            let st = candidates[k];
            if st.name().eq(s) {
                return Some(st);
            }
            k = k + 1;
        }
        proof {
            assert forall|st: OrderStatus| (#[trigger] st.spec_name()) != s@ by {
                match st {
                    OrderStatus::PendingPayment => assert(candidates@[0] == st),
                    OrderStatus::Delivering => assert(candidates@[1] == st),
                    OrderStatus::Refunding => assert(candidates@[2] == st),
                    OrderStatus::Completed => assert(candidates@[3] == st),
                    OrderStatus::Refunded => assert(candidates@[4] == st),
                }
            }
        }
        None
    }

    pub open spec fn spec_is_terminal(self) -> bool {
        self == OrderStatus::Completed || self == OrderStatus::Refunded
    }

    pub fn is_terminal(self) -> (r: bool)
        ensures
            r == self.spec_is_terminal(),
    {
        match self {
            OrderStatus::Completed => true,
            OrderStatus::Refunded => true,
            _ => false,
        }
    }
}

impl Outcome {
    /// The terminal status a session with this outcome drives the order to.
    pub open spec fn spec_terminal_status(self) -> OrderStatus {
        match self {
            Outcome::Delivery => OrderStatus::Completed,
            Outcome::Refund => OrderStatus::Refunded,
        }
    }

    pub fn terminal_status(self) -> (r: OrderStatus)
        ensures
            r == self.spec_terminal_status(),
    {
        match self {
            Outcome::Delivery => OrderStatus::Completed,
            Outcome::Refund => OrderStatus::Refunded,
        }
    }

    /// The statuses from which this outcome may be confirmed: delivery only
    /// from `Delivering`, refund only from `Refunding`.
    pub open spec fn spec_compatible_with(self, status: OrderStatus) -> bool {
        match self {
            Outcome::Delivery => status == OrderStatus::Delivering,
            Outcome::Refund => status == OrderStatus::Refunding,
        }
    }

    pub fn compatible_with(self, status: OrderStatus) -> (r: bool)
        ensures
            r == self.spec_compatible_with(status),
    {
        match self {
            Outcome::Delivery => matches!(status, OrderStatus::Delivering),
            Outcome::Refund => matches!(status, OrderStatus::Refunding),
        }
    }
}

/// Law: terminal states admit no further transition.
pub proof fn lemma_terminal_states_are_final(from: OrderStatus, to: OrderStatus)
    requires
        from.spec_is_terminal(),
    ensures
        !from.spec_can_transition_to(to),
{
}

/// Law: every transition follows the machine
/// `PendingPayment -> {Delivering, Refunding} -> {Completed, Refunded}`:
/// `Completed` is reachable only from `Delivering`, `Refunded` only from
/// `Refunding`, and `Delivering`/`Refunding` only from `PendingPayment`.
pub proof fn lemma_machine_shape(from: OrderStatus, to: OrderStatus)
    requires
        from.spec_can_transition_to(to),
    ensures
        to == OrderStatus::Completed ==> from == OrderStatus::Delivering,
        to == OrderStatus::Refunded ==> from == OrderStatus::Refunding,
        (to == OrderStatus::Delivering || to == OrderStatus::Refunding)
            ==> from == OrderStatus::PendingPayment,
        to != OrderStatus::PendingPayment,
{
}

} // verus!
