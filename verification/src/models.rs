//! The order data model shared by the intake service and the device bridge.
//!
//! Amounts and coordinates are carried as IEEE-754 binary64 bit patterns.
//! Nothing in this crate interprets them; they are stored and handed on
//! unchanged.

use vstd::prelude::*;
use vstd::string::*;
use vstd::std_specs::convert::FromSpecImpl;
use crate::text::{ascii_lower, eq_ignore_case, is_lower_word, lowercase};

verus! {

/// The closed set of states an order moves through.
#[derive(Debug, Clone, Copy, PartialEq, Eq, Structural)]
pub enum OrderStatus {
    Pending,
    Preparing,
    Delivering,
    Completed,
    Cancelled,
}

/// The canonical lower-case name of a status.
pub open spec fn status_name(status: OrderStatus) -> Seq<char> {
    match status {
        OrderStatus::Pending => "pending"@,
        OrderStatus::Preparing => "preparing"@,
        OrderStatus::Delivering => "delivering"@,
        OrderStatus::Completed => "completed"@,
        OrderStatus::Cancelled => "cancelled"@,
    }
}

/// The status that a text names, ignoring ASCII case; `None` for a text
/// that names no status.
pub open spec fn parse_status(s: Seq<char>) -> Option<OrderStatus> {
    let folded = lowercase(s);
    if folded == status_name(OrderStatus::Pending) {
        Some(OrderStatus::Pending)
    } else if folded == status_name(OrderStatus::Preparing) {
        Some(OrderStatus::Preparing)
    } else if folded == status_name(OrderStatus::Delivering) {
        Some(OrderStatus::Delivering)
    } else if folded == status_name(OrderStatus::Completed) {
        Some(OrderStatus::Completed)
    } else if folded == status_name(OrderStatus::Cancelled) {
        Some(OrderStatus::Cancelled)
    } else {
        None
    }
}

/// The text of the error that rejects `s` as a status.
pub open spec fn invalid_status_message(s: Seq<char>) -> Seq<char> {
    "Invalid status: "@ + s
}

/// Every status name is a word of ASCII lower-case letters, and no two
/// statuses share a name.
pub proof fn lemma_status_names()
    ensures
        forall|st: OrderStatus| is_lower_word(#[trigger] status_name(st)),
        forall|a: OrderStatus, b: OrderStatus|
            status_name(a) == status_name(b) ==> a == b,
{
    reveal_strlit("pending");
    reveal_strlit("preparing");
    reveal_strlit("delivering");
    reveal_strlit("completed");
    reveal_strlit("cancelled");
    assert forall|a: OrderStatus, b: OrderStatus| status_name(a) == status_name(b) implies a
        == b by {
        if a != b {
            // Names of different statuses differ in length or in their second letter.
            assert(status_name(a).len() != status_name(b).len() || status_name(a)[1]
                != status_name(b)[1]);
        }
    }
}

/// Reading back the name of a status gives that status.
pub proof fn lemma_name_parses_back(status: OrderStatus)
    ensures
        parse_status(status_name(status)) == Some(status),
{
    lemma_status_names();
    let name = status_name(status);
    assert(is_lower_word(name));
    assert(lowercase(name) =~= name);
}

/// Parsing ignores ASCII case: a text and its lower-case form name the
/// same status.
pub proof fn lemma_parse_ignores_case(s: Seq<char>)
    ensures
        parse_status(lowercase(s)) == parse_status(s),
{
    assert(lowercase(lowercase(s)) =~= lowercase(s)) by {
        assert forall|i: int| 0 <= i < s.len() implies ascii_lower(ascii_lower(s[i]))
            == ascii_lower(s[i]) by {}
    }
}

impl OrderStatus {
    /// Parses a status name, ignoring ASCII case.
    pub fn from_str(s: &str) -> (r: Result<OrderStatus, String>)
        ensures
            match r {
                Ok(status) => parse_status(s@) == Some(status),
                Err(msg) => parse_status(s@) is None && msg@ == invalid_status_message(s@),
            },
    {
        proof {
            lemma_status_names();
            assert forall|st: OrderStatus| lowercase(#[trigger] status_name(st)) == status_name(
                st,
            ) by {
                assert(is_lower_word(status_name(st)));
                assert(lowercase(status_name(st)) =~= status_name(st));
            }
        }
        if eq_ignore_case(s, OrderStatus::Pending.as_str()) {
            Ok(OrderStatus::Pending)
        } else if eq_ignore_case(s, OrderStatus::Preparing.as_str()) {
            Ok(OrderStatus::Preparing)
        } else if eq_ignore_case(s, OrderStatus::Delivering.as_str()) {
            Ok(OrderStatus::Delivering)
        } else if eq_ignore_case(s, OrderStatus::Completed.as_str()) {
            Ok(OrderStatus::Completed)
        } else if eq_ignore_case(s, OrderStatus::Cancelled.as_str()) {
            Ok(OrderStatus::Cancelled)
        } else {
            Err(String::from_str("Invalid status: ").concat(s))
        }
    }

    /// The canonical lower-case name of the status.
    pub fn as_str(&self) -> (r: &'static str)
        ensures
            r@ == status_name(*self),
    {
        match self {
            OrderStatus::Pending => "pending",
            OrderStatus::Preparing => "preparing",
            OrderStatus::Delivering => "delivering",
            OrderStatus::Completed => "completed",
            OrderStatus::Cancelled => "cancelled",
        }
    }

    /// The canonical lower-case name of the status, as an owned text.
    pub fn to_string(&self) -> (r: String)
        ensures
            r@ == status_name(*self),
    {
        String::from_str(self.as_str())
    }

    /// The status that a stored text names; a text that names none counts
    /// as `Pending`.
    pub fn from_stored(s: &str) -> (r: OrderStatus)
        ensures
            r == match parse_status(s@) {
                Some(status) => status,
                None => OrderStatus::Pending,
            },
    {
        match OrderStatus::from_str(s) {
            Ok(status) => status,
            Err(_) => OrderStatus::Pending,
        }
    }
}

/// One line of an order.
#[derive(Debug, Clone, PartialEq, Eq)]
pub struct OrderItem {
    pub name: String,
    pub quantity: i32,
    /// Unit price as a binary64 bit pattern.
    pub price_bits: u64,
}

/// One line of an order as a client submits it.
#[derive(Debug, Clone, PartialEq, Eq)]
pub struct OrderItemRequest {
    pub name: String,
    pub quantity: i32,
    /// Unit price as a binary64 bit pattern.
    pub price_bits: u64,
}

/// The mathematical value of an [`OrderItem`] or an [`OrderItemRequest`].
pub ghost struct OrderItemView {
    pub name: Seq<char>,
    pub quantity: i32,
    pub price_bits: u64,
}

impl View for OrderItem {
    type V = OrderItemView;

    open spec fn view(&self) -> OrderItemView {
        OrderItemView { name: self.name@, quantity: self.quantity, price_bits: self.price_bits }
    }
}

impl View for OrderItemRequest {
    type V = OrderItemView;

    open spec fn view(&self) -> OrderItemView {
        OrderItemView { name: self.name@, quantity: self.quantity, price_bits: self.price_bits }
    }
}

impl From<OrderItemRequest> for OrderItem {
    fn from(item: OrderItemRequest) -> (r: OrderItem) {
        OrderItem { name: item.name, quantity: item.quantity, price_bits: item.price_bits }
    }
}

impl FromSpecImpl<OrderItemRequest> for OrderItem {
    open spec fn obeys_from_spec() -> bool {
        true
    }

    open spec fn from_spec(item: OrderItemRequest) -> OrderItem {
        OrderItem { name: item.name, quantity: item.quantity, price_bits: item.price_bits }
    }
}

/// The view of an optional text.
pub open spec fn text_view(s: Option<String>) -> Option<Seq<char>> {
    match s {
        Some(t) => Some(t@),
        None => None,
    }
}

/// The views of a list of order lines, in order.
pub open spec fn items_view(items: Seq<OrderItem>) -> Seq<OrderItemView> {
    Seq::new(items.len(), |i: int| items[i]@)
}

/// The views of a list of submitted order lines, in order.
pub open spec fn requested_items_view(items: Seq<OrderItemRequest>) -> Seq<OrderItemView> {
    Seq::new(items.len(), |i: int| items[i]@)
}

/// The filter of an order listing.
#[derive(Debug, Clone, PartialEq, Eq)]
pub struct OrderQuery {
    pub status: Option<String>,
}

/// A delivery position, each coordinate a binary64 bit pattern.
#[derive(Debug, Clone, Copy, PartialEq, Eq)]
pub struct Location {
    pub lat_bits: u64,
    pub lng_bits: u64,
}

/// What a client submits to create an order.
#[derive(Debug, Clone, PartialEq, Eq)]
pub struct CreateOrderRequest {
    pub customer_name: String,
    pub phone_number: String,
    pub delivery_address: String,
    pub location: Location,
    pub notes: Option<String>,
    /// Order total as a binary64 bit pattern.
    pub total_amount_bits: u64,
    pub items: Vec<OrderItemRequest>,
}

/// The answer to an order creation.
#[derive(Debug, Clone, PartialEq, Eq)]
pub struct CreateOrderResponse {
    pub success: bool,
    pub order_number: String,
}

/// An order as the store holds it and as the bridge consumes it.
#[derive(Debug, Clone, PartialEq, Eq)]
pub struct Order {
    pub id: i64,
    pub order_number: String,
    pub customer_name: String,
    pub phone_number: String,
    pub delivery_address: String,
    /// Delivery latitude as a binary64 bit pattern.
    pub latitude_bits: u64,
    /// Delivery longitude as a binary64 bit pattern.
    pub longitude_bits: u64,
    pub notes: Option<String>,
    pub created_at: String,
    /// Order total as a binary64 bit pattern.
    pub total_amount_bits: u64,
    pub status: OrderStatus,
    pub items: Vec<OrderItem>,
}

/// The mathematical value of an [`Order`].
pub ghost struct OrderView {
    pub id: i64,
    pub order_number: Seq<char>,
    pub customer_name: Seq<char>,
    pub phone_number: Seq<char>,
    pub delivery_address: Seq<char>,
    pub latitude_bits: u64,
    pub longitude_bits: u64,
    pub notes: Option<Seq<char>>,
    pub created_at: Seq<char>,
    pub total_amount_bits: u64,
    pub status: OrderStatus,
    pub items: Seq<OrderItemView>,
}

impl View for Order {
    type V = OrderView;

    open spec fn view(&self) -> OrderView {
        OrderView {
            id: self.id,
            order_number: self.order_number@,
            customer_name: self.customer_name@,
            phone_number: self.phone_number@,
            delivery_address: self.delivery_address@,
            latitude_bits: self.latitude_bits,
            longitude_bits: self.longitude_bits,
            notes: text_view(self.notes),
            created_at: self.created_at@,
            total_amount_bits: self.total_amount_bits,
            status: self.status,
            items: items_view(self.items@),
        }
    }
}

/// A listing of orders.
#[derive(Debug, Clone, PartialEq, Eq)]
pub struct OrderList {
    pub orders: Vec<Order>,
}

/// What a client submits to change the status of an order.
#[derive(Debug, Clone, Copy, PartialEq, Eq)]
pub struct UpdateOrderStatusRequest {
    pub status: OrderStatus,
}

/// The answer to a status change.
#[derive(Debug, Clone, PartialEq, Eq)]
pub struct UpdateOrderStatusResponse {
    pub success: bool,
    pub message: Option<String>,
}

/// The order that a submission creates: not yet stored (`id` 0), `Pending`,
/// carrying the submitted fields and lines unchanged.
pub open spec fn submitted_order(
    request: CreateOrderRequest,
    order_number: Seq<char>,
    created_at: Seq<char>,
) -> OrderView {
    OrderView {
        id: 0,
        order_number,
        customer_name: request.customer_name@,
        phone_number: request.phone_number@,
        delivery_address: request.delivery_address@,
        latitude_bits: request.location.lat_bits,
        longitude_bits: request.location.lng_bits,
        notes: text_view(request.notes),
        created_at,
        total_amount_bits: request.total_amount_bits,
        status: OrderStatus::Pending,
        items: requested_items_view(request.items@),
    }
}

impl Order {
    /// Builds the order that a submission creates, under the given order
    /// number and creation time.
    pub fn from_request(request: CreateOrderRequest, order_number: String, created_at: String) -> (r:
        Order)
        ensures
            r@ == submitted_order(request, order_number@, created_at@),
    {
        let mut items: Vec<OrderItem> = Vec::new();
        let mut i: usize = 0;
        while i < request.items.len()
            invariant
                0 <= i <= request.items.len(),
                items.len() == i,
                forall|j: int| 0 <= j < i ==> (#[trigger] items[j])@ == request.items[j]@,
            decreases request.items.len() - i,
        {
            let line = &request.items[i];
            let copy = OrderItemRequest {
                name: line.name.clone(),
                quantity: line.quantity,
                price_bits: line.price_bits,
            };
            items.push(OrderItem::from(copy));
            i = i + 1;
        }
        let notes = match &request.notes {
            Some(text) => Some(text.clone()),
            None => None,
        };
        let order = Order {
            id: 0,
            order_number,
            customer_name: request.customer_name.clone(),
            phone_number: request.phone_number.clone(),
            delivery_address: request.delivery_address.clone(),
            latitude_bits: request.location.lat_bits,
            longitude_bits: request.location.lng_bits,
            notes,
            created_at,
            total_amount_bits: request.total_amount_bits,
            status: OrderStatus::Pending,
            items,
        };
        assert(order@.items =~= requested_items_view(request.items@));
        order
    }
}

impl OrderQuery {
    /// The status name to filter a listing by: the canonical name of the
    /// status that the query names, or none where it names no status.
    pub fn status_filter(&self) -> (r: Option<String>)
        ensures
            text_view(r) == match self.status {
                Some(s) => match parse_status(s@) {
                    Some(status) => Some(status_name(status)),
                    None => None,
                },
                None => None,
            },
    {
        match &self.status {
            Some(s) => match OrderStatus::from_str(s.as_str()) {
                Ok(status) => Some(status.to_string()),
                Err(_) => None,
            },
            None => None,
        }
    }
}

/// What became of a request to change the status of an order.
#[derive(Debug, Clone, PartialEq, Eq)]
pub enum UpdateOutcome {
    /// The order was found and changed.
    Updated,
    /// No order has the given identity.
    NotFound,
    /// The store failed, with the text of its error.
    Failed(String),
}

/// The HTTP status code and the text of the answer to a status change.
pub open spec fn update_answer(outcome: UpdateOutcome) -> (u16, bool, Option<Seq<char>>) {
    match outcome {
        UpdateOutcome::Updated => (200, true, None),
        UpdateOutcome::NotFound => (404, false, Some("Order not found"@)),
        UpdateOutcome::Failed(error) => (
            500,
            false,
            Some("Failed to update order status: "@ + error@),
        ),
    }
}

impl UpdateOrderStatusResponse {
    /// The HTTP status code and body that answer a status change.
    pub fn for_outcome(outcome: UpdateOutcome) -> (r: (u16, UpdateOrderStatusResponse))
        ensures
            (r.0, r.1.success, text_view(r.1.message)) == update_answer(outcome),
    {
        match outcome {
            UpdateOutcome::Updated => (200, UpdateOrderStatusResponse { success: true, message: None }),
            UpdateOutcome::NotFound => (
                404,
                UpdateOrderStatusResponse {
                    success: false,
                    message: Some(String::from_str("Order not found")),
                },
            ),
            UpdateOutcome::Failed(error) => (
                500,
                UpdateOrderStatusResponse {
                    success: false,
                    message: Some(
                        String::from_str("Failed to update order status: ").concat(error.as_str()),
                    ),
                },
            ),
        }
    }
}

impl CreateOrderResponse {
    /// The HTTP status code and body that answer an order creation: success
    /// with the number of the stored order, or a server error with an empty
    /// number where the store failed.
    pub fn for_outcome(stored: Option<&Order>) -> (r: (u16, CreateOrderResponse))
        ensures
            match stored {
                Some(order) => r.0 == 200 && r.1.success && r.1.order_number@
                    == order.order_number@,
                None => r.0 == 500 && !r.1.success && r.1.order_number@ == Seq::<char>::empty(),
            },
    {
        match stored {
            Some(order) => (
                200,
                CreateOrderResponse { success: true, order_number: order.order_number.clone() },
            ),
            None => (500, CreateOrderResponse { success: false, order_number: String::new() }),
        }
    }
}

} // verus!
