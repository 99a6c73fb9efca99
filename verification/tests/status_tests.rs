use escrow_core::status::{OrderStatus, Outcome};

const ALL_STATUSES: [OrderStatus; 5] = [
    OrderStatus::PendingPayment,
    OrderStatus::Delivering,
    OrderStatus::Refunding,
    OrderStatus::Completed,
    OrderStatus::Refunded,
];

#[test]
fn state_machine_edges() {
    // The whole transition matrix: exactly the four machine edges are allowed.
    for from in ALL_STATUSES {
        for to in ALL_STATUSES {
            let expected = matches!(
                (from, to),
                (OrderStatus::PendingPayment, OrderStatus::Delivering)
                    | (OrderStatus::PendingPayment, OrderStatus::Refunding)
                    | (OrderStatus::Delivering, OrderStatus::Completed)
                    | (OrderStatus::Refunding, OrderStatus::Refunded)
            );
            assert_eq!(from.can_transition_to(to), expected);
        }
    }
}

#[test]
fn terminal_statuses() {
    assert!(!OrderStatus::PendingPayment.is_terminal());
    assert!(!OrderStatus::Delivering.is_terminal());
    assert!(!OrderStatus::Refunding.is_terminal());
    assert!(OrderStatus::Completed.is_terminal());
    assert!(OrderStatus::Refunded.is_terminal());
}

#[test]
fn outcome_terminal_statuses() {
    assert_eq!(Outcome::Delivery.terminal_status(), OrderStatus::Completed);
    assert_eq!(Outcome::Refund.terminal_status(), OrderStatus::Refunded);
}

#[test]
fn outcome_compatibility() {
    assert!(Outcome::Delivery.compatible_with(OrderStatus::Delivering));
    assert!(!Outcome::Delivery.compatible_with(OrderStatus::Refunding));
    assert!(!Outcome::Delivery.compatible_with(OrderStatus::PendingPayment));
    assert!(Outcome::Refund.compatible_with(OrderStatus::Refunding));
    assert!(!Outcome::Refund.compatible_with(OrderStatus::Delivering));
}

#[test]
fn status_names_round_trip() {
    for st in ALL_STATUSES {
        let name = st.name();
        assert_eq!(OrderStatus::from_name(&name), Some(st));
    }
    assert_eq!(OrderStatus::from_name(&"PendingPayment".to_string()), Some(OrderStatus::PendingPayment));
    assert_eq!(OrderStatus::from_name(&"PendingResponse".to_string()), None);
    assert_eq!(OrderStatus::from_name(&"bogus".to_string()), None);
    assert_eq!(OrderStatus::from_name(&"".to_string()), None);
}
