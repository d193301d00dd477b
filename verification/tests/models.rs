use order_bridge::models::{
    CreateOrderRequest, CreateOrderResponse, Location, Order, OrderItem, OrderItemRequest,
    OrderQuery, OrderStatus, UpdateOrderStatusResponse, UpdateOutcome,
};

#[test]
fn status_names_parse_in_any_case() {
    assert_eq!(OrderStatus::from_str("pending"), Ok(OrderStatus::Pending));
    assert_eq!(OrderStatus::from_str("PREPARING"), Ok(OrderStatus::Preparing));
    assert_eq!(OrderStatus::from_str("Delivering"), Ok(OrderStatus::Delivering));
    assert_eq!(OrderStatus::from_str("cOMPLETEd"), Ok(OrderStatus::Completed));
    assert_eq!(OrderStatus::from_str("cancelled"), Ok(OrderStatus::Cancelled));
}

#[test]
fn unknown_status_is_rejected_with_its_text() {
    assert_eq!(OrderStatus::from_str("shipped"), Err("Invalid status: shipped".to_string()));
    assert_eq!(OrderStatus::from_str(""), Err("Invalid status: ".to_string()));
    assert_eq!(OrderStatus::from_str("Pending "), Err("Invalid status: Pending ".to_string()));
    assert_eq!(OrderStatus::from_str("canceled"), Err("Invalid status: canceled".to_string()));
    assert_eq!(OrderStatus::from_str("pendingx"), Err("Invalid status: pendingx".to_string()));
    assert_eq!(OrderStatus::from_str("pendin"), Err("Invalid status: pendin".to_string()));
    assert_eq!(OrderStatus::from_str("pénding"), Err("Invalid status: pénding".to_string()));
}

#[test]
fn status_parsing_agrees_with_unicode_lowercasing() {
    let names = ["pending", "preparing", "delivering", "completed", "cancelled"];
    for text in [
        "PENDING",
        "pend\u{130}ng",
        "PEND\u{130}NG",
        "\u{212a}",
        "prepar\u{131}ng",
        "Completed",
        "CANCELLED",
        "ﬁ",
        "delivering\u{307}",
    ] {
        let lowered = text.to_lowercase();
        let expected = names.iter().any(|n| *n == lowered);
        assert_eq!(OrderStatus::from_str(text).is_ok(), expected, "{text:?}");
    }
}

#[test]
fn status_name_round_trips() {
    for status in [
        OrderStatus::Pending,
        OrderStatus::Preparing,
        OrderStatus::Delivering,
        OrderStatus::Completed,
        OrderStatus::Cancelled,
    ] {
        assert_eq!(OrderStatus::from_str(status.as_str()), Ok(status));
        assert_eq!(OrderStatus::from_str(&status.to_string()), Ok(status));
        assert_eq!(OrderStatus::from_str(&status.as_str().to_uppercase()), Ok(status));
    }
}

#[test]
fn status_names_are_lower_case() {
    assert_eq!(OrderStatus::Pending.as_str(), "pending");
    assert_eq!(OrderStatus::Preparing.as_str(), "preparing");
    assert_eq!(OrderStatus::Delivering.as_str(), "delivering");
    assert_eq!(OrderStatus::Completed.as_str(), "completed");
    assert_eq!(OrderStatus::Cancelled.to_string(), "cancelled".to_string());
}

#[test]
fn stored_status_defaults_to_pending() {
    assert_eq!(OrderStatus::from_stored("delivering"), OrderStatus::Delivering);
    assert_eq!(OrderStatus::from_stored("COMPLETED"), OrderStatus::Completed);
    assert_eq!(OrderStatus::from_stored("unknown"), OrderStatus::Pending);
    assert_eq!(OrderStatus::from_stored(""), OrderStatus::Pending);
}

#[test]
fn query_filter_is_the_canonical_status_name() {
    assert_eq!(OrderQuery { status: None }.status_filter(), None);
    assert_eq!(
        OrderQuery { status: Some("Preparing".to_string()) }.status_filter(),
        Some("preparing".to_string())
    );
    assert_eq!(
        OrderQuery { status: Some("CANCELLED".to_string()) }.status_filter(),
        Some("cancelled".to_string())
    );
    assert_eq!(OrderQuery { status: Some("nope".to_string()) }.status_filter(), None);
}

#[test]
fn item_is_made_from_its_request() {
    let request = OrderItemRequest { name: "Latte".to_string(), quantity: 2, price_bits: 4.5f64.to_bits() };
    let item = OrderItem::from(request);
    assert_eq!(item, OrderItem { name: "Latte".to_string(), quantity: 2, price_bits: 4.5f64.to_bits() });
    assert_eq!(f64::from_bits(item.price_bits), 4.5);
}

#[test]
fn order_is_built_pending_from_a_request() {
    let request = CreateOrderRequest {
        customer_name: "Ada".to_string(),
        phone_number: "555-0100".to_string(),
        delivery_address: "1 Main St".to_string(),
        location: Location { lat_bits: 48.85f64.to_bits(), lng_bits: 2.35f64.to_bits() },
        notes: Some("ring twice".to_string()),
        total_amount_bits: 11.0f64.to_bits(),
        items: vec![
            OrderItemRequest { name: "Latte".to_string(), quantity: 2, price_bits: 4.5f64.to_bits() },
            OrderItemRequest { name: "Tea".to_string(), quantity: 1, price_bits: 2.0f64.to_bits() },
        ],
    };
    let order = Order::from_request(request, "abc-123".to_string(), "2024-01-01 10:00:00".to_string());
    assert_eq!(
        order,
        Order {
            id: 0,
            order_number: "abc-123".to_string(),
            customer_name: "Ada".to_string(),
            phone_number: "555-0100".to_string(),
            delivery_address: "1 Main St".to_string(),
            latitude_bits: 48.85f64.to_bits(),
            longitude_bits: 2.35f64.to_bits(),
            notes: Some("ring twice".to_string()),
            created_at: "2024-01-01 10:00:00".to_string(),
            total_amount_bits: 11.0f64.to_bits(),
            status: OrderStatus::Pending,
            items: vec![
                OrderItem { name: "Latte".to_string(), quantity: 2, price_bits: 4.5f64.to_bits() },
                OrderItem { name: "Tea".to_string(), quantity: 1, price_bits: 2.0f64.to_bits() },
            ],
        }
    );
}

#[test]
fn order_from_a_request_without_notes_or_items() {
    let request = CreateOrderRequest {
        customer_name: String::new(),
        phone_number: String::new(),
        delivery_address: String::new(),
        location: Location { lat_bits: 0, lng_bits: 0 },
        notes: None,
        total_amount_bits: 0,
        items: vec![],
    };
    let order = Order::from_request(request, "n".to_string(), "t".to_string());
    assert_eq!(order.notes, None);
    assert_eq!(order.items, vec![]);
    assert_eq!(order.status, OrderStatus::Pending);
    assert_eq!(order.id, 0);
}

#[test]
fn update_answers() {
    assert_eq!(
        UpdateOrderStatusResponse::for_outcome(UpdateOutcome::Updated),
        (200, UpdateOrderStatusResponse { success: true, message: None })
    );
    assert_eq!(
        UpdateOrderStatusResponse::for_outcome(UpdateOutcome::NotFound),
        (404, UpdateOrderStatusResponse { success: false, message: Some("Order not found".to_string()) })
    );
    assert_eq!(
        UpdateOrderStatusResponse::for_outcome(UpdateOutcome::Failed("database is locked".to_string())),
        (
            500,
            UpdateOrderStatusResponse {
                success: false,
                message: Some("Failed to update order status: database is locked".to_string()),
            }
        )
    );
}

#[test]
fn create_answers() {
    let order = Order {
        id: 3,
        order_number: "abc-123".to_string(),
        customer_name: String::new(),
        phone_number: String::new(),
        delivery_address: String::new(),
        latitude_bits: 0,
        longitude_bits: 0,
        notes: None,
        created_at: String::new(),
        total_amount_bits: 0,
        status: OrderStatus::Pending,
        items: vec![],
    };
    assert_eq!(
        CreateOrderResponse::for_outcome(Some(&order)),
        (200, CreateOrderResponse { success: true, order_number: "abc-123".to_string() })
    );
    assert_eq!(
        CreateOrderResponse::for_outcome(None),
        (500, CreateOrderResponse { success: false, order_number: String::new() })
    );
}
