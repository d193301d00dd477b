//! The wire codec: the two message shapes exchanged with the device and
//! their JSON text.
//!
//! Outbound, a message is written as one JSON object with the members
//! `message_type`, `order_number`, `status` and `items`, in that order and
//! without white space. Inbound, a text is read as one JSON object; the
//! members `message_type`, `order_number` and `status` are taken from it and
//! every other member is left unread.

use vstd::prelude::*;
use vstd::string::*;
use vstd::utf8::{decode_utf8, valid_utf8};
use crate::json::{json_members, json_object_members, json_string, json_string_text, utf8_text};
use crate::models::{
    parse_status, text_view, Order, OrderItemView, OrderStatus, OrderView,
};
use crate::text::{
    decimal, lemma_decimal_newline_free, lemma_newline_free_concat, newline_free, push_decimal,
};

verus! {

/// What can go wrong with one frame.
#[derive(Debug, Clone, Copy, PartialEq, Eq, Structural)]
pub enum BridgeError {
    /// A message could not be written as JSON.
    FrameEncode,
    /// A received line is not UTF-8, not a JSON object, or lacks a member
    /// that every message has.
    FrameDecode,
    /// A status update names no known status.
    UnknownStatus,
}

/// One order line as the device sees it: no price.
#[derive(Debug, Clone, PartialEq, Eq)]
pub struct SerialOrderItem {
    pub name: String,
    pub quantity: i32,
}

/// A message of the wire protocol, outbound or inbound.
#[derive(Debug, Clone, PartialEq, Eq)]
pub struct SerialMessage {
    pub message_type: String,
    pub order_number: String,
    pub status: Option<String>,
    pub items: Option<Vec<SerialOrderItem>>,
}

/// A status change that the device reports.
#[derive(Debug, Clone, PartialEq, Eq)]
pub struct StatusUpdate {
    pub order_number: String,
    pub status: OrderStatus,
}

/// The mathematical value of a [`SerialOrderItem`].
pub ghost struct SerialOrderItemView {
    pub name: Seq<char>,
    pub quantity: i32,
}

/// The mathematical value of a [`SerialMessage`].
pub ghost struct SerialMessageView {
    pub message_type: Seq<char>,
    pub order_number: Seq<char>,
    pub status: Option<Seq<char>>,
    pub items: Option<Seq<SerialOrderItemView>>,
}

/// The mathematical value of a [`StatusUpdate`].
pub ghost struct StatusUpdateView {
    pub order_number: Seq<char>,
    pub status: OrderStatus,
}

impl View for SerialOrderItem {
    type V = SerialOrderItemView;

    open spec fn view(&self) -> SerialOrderItemView {
        SerialOrderItemView { name: self.name@, quantity: self.quantity }
    }
}

/// The views of a list of wire items, in order.
pub open spec fn wire_items_view(items: Seq<SerialOrderItem>) -> Seq<SerialOrderItemView> {
    Seq::new(items.len(), |i: int| items[i]@)
}

impl View for SerialMessage {
    type V = SerialMessageView;

    open spec fn view(&self) -> SerialMessageView {
        SerialMessageView {
            message_type: self.message_type@,
            order_number: self.order_number@,
            status: text_view(self.status),
            items: match self.items {
                Some(items) => Some(wire_items_view(items@)),
                None => None,
            },
        }
    }
}

impl View for StatusUpdate {
    type V = StatusUpdateView;

    open spec fn view(&self) -> StatusUpdateView {
        StatusUpdateView { order_number: self.order_number@, status: self.status }
    }
}

/// The wire form of an order line: its name and quantity.
pub open spec fn wire_item(item: OrderItemView) -> SerialOrderItemView {
    SerialOrderItemView { name: item.name, quantity: item.quantity }
}

/// The message that announces an order to the device: its number and, line
/// by line, the name and quantity of its items.
pub open spec fn new_order_message(order: OrderView) -> SerialMessageView {
    SerialMessageView {
        message_type: "new_order"@,
        order_number: order.order_number,
        status: None,
        items: Some(Seq::new(order.items.len(), |i: int| wire_item(order.items[i]))),
    }
}

/// The JSON text of one item, given the string literal of its name.
pub open spec fn item_json(name_literal: Seq<char>, quantity: i32) -> Seq<char> {
    "{\"name\":"@ + name_literal + ",\"quantity\":"@ + decimal(quantity as int) + "}"@
}

/// The JSON texts of a list of items, separated by commas, given the string
/// literal of each name.
pub open spec fn items_json(items: Seq<(Seq<char>, i32)>) -> Seq<char>
    decreases items.len(),
{
    if items.len() == 0 {
        Seq::empty()
    } else if items.len() == 1 {
        item_json(items[0].0, items[0].1)
    } else {
        items_json(items.drop_last()) + ","@ + item_json(items.last().0, items.last().1)
    }
}

/// The JSON text of a message, given the string literals of its texts: one
/// object with the members `message_type`, `order_number`, `status` and
/// `items` in this order and without white space; an absent status or item
/// list is written as `null`.
pub open spec fn message_json(
    type_literal: Seq<char>,
    number_literal: Seq<char>,
    status_literal: Option<Seq<char>>,
    items: Option<Seq<(Seq<char>, i32)>>,
) -> Seq<char> {
    "{\"message_type\":"@ + type_literal + ",\"order_number\":"@ + number_literal + ",\"status\":"@
        + (match status_literal {
        Some(literal) => literal,
        None => "null"@,
    }) + ",\"items\":"@ + (match items {
        Some(list) => "["@ + items_json(list) + "]"@,
        None => "null"@,
    }) + "}"@
}

/// The JSON string literal of a text, for a text that has one.
pub open spec fn quoted(s: Seq<char>) -> Seq<char> {
    json_string_text(s)->Some_0
}

/// The items of a message, each name as its JSON string literal.
pub open spec fn quoted_items(items: Seq<SerialOrderItemView>) -> Seq<(Seq<char>, i32)> {
    Seq::new(items.len(), |i: int| (quoted(items[i].name), items[i].quantity))
}

/// Whether every text of a message has a JSON string literal.
pub open spec fn encodable(m: SerialMessageView) -> bool {
    &&& json_string_text(m.message_type) is Some
    &&& json_string_text(m.order_number) is Some
    &&& m.status matches Some(s) ==> json_string_text(s) is Some
    &&& m.items matches Some(items) ==> forall|i: int|
        0 <= i < items.len() ==> json_string_text(#[trigger] items[i].name) is Some
}

/// The JSON text of a message whose texts all have a string literal.
pub open spec fn message_layout(m: SerialMessageView) -> Seq<char> {
    message_json(
        quoted(m.message_type),
        quoted(m.order_number),
        match m.status {
            Some(s) => Some(quoted(s)),
            None => None,
        },
        match m.items {
            Some(items) => Some(quoted_items(items)),
            None => None,
        },
    )
}

/// The JSON text of a message; `None` where one of its texts has no JSON
/// string literal.
pub open spec fn message_text(m: SerialMessageView) -> Option<Seq<char>> {
    if encodable(m) {
        Some(message_layout(m))
    } else {
        None
    }
}

/// The view of an optional borrowed text.
pub open spec fn str_view(s: Option<&str>) -> Option<Seq<char>> {
    match s {
        Some(t) => Some(t@),
        None => None,
    }
}

/// The view of an optional list of items with the literals of their names.
pub open spec fn literal_items_view(items: Option<&Vec<(String, i32)>>) -> Option<
    Seq<(Seq<char>, i32)>,
> {
    match items {
        Some(list) => Some(list.deep_view()),
        None => None,
    }
}

/// Whether no name literal in a list holds a line feed.
pub open spec fn items_newline_free(items: Seq<(Seq<char>, i32)>) -> bool {
    forall|i: int| 0 <= i < items.len() ==> newline_free(#[trigger] items[i].0)
}

/// The text of the member `key` among the members of a JSON object: that of
/// the first member under that key, `None` where there is none or where its
/// value is no JSON string.
pub open spec fn member_text(members: Seq<(Seq<char>, Option<Seq<char>>)>, key: Seq<char>) -> Option<
    Seq<char>,
>
    decreases members.len(),
{
    if members.len() == 0 {
        None
    } else if members[0].0 == key {
        members[0].1
    } else {
        member_text(members.drop_first(), key)
    }
}

/// The message that the members of a JSON object make up: `message_type` and
/// `order_number` must be strings; `status` is taken where it is a string.
pub open spec fn message_of_members(members: Seq<(Seq<char>, Option<Seq<char>>)>) -> Option<
    SerialMessageView,
> {
    match (member_text(members, "message_type"@), member_text(members, "order_number"@)) {
        (Some(message_type), Some(order_number)) => Some(
            SerialMessageView {
                message_type,
                order_number,
                status: member_text(members, "status"@),
                items: None,
            },
        ),
        _ => None,
    }
}

/// The message that a JSON text holds.
pub open spec fn decode_text(text: Seq<char>) -> Option<SerialMessageView> {
    match json_object_members(text) {
        Some(members) => message_of_members(members),
        None => None,
    }
}

/// The message that a received line holds.
pub open spec fn decode_line(line: Seq<u8>) -> Option<SerialMessageView> {
    if valid_utf8(line) {
        decode_text(decode_utf8(line))
    } else {
        None
    }
}

/// What a message asks the bridge to do: report a status change
/// (`Ok(Some)`), nothing (`Ok(None)`: another kind of message, or a status
/// update without a status), or drop it for naming no known status.
pub open spec fn message_event(m: SerialMessageView) -> Result<
    Option<StatusUpdateView>,
    BridgeError,
> {
    if m.message_type != "status_update"@ {
        Ok(None)
    } else {
        match m.status {
            None => Ok(None),
            Some(s) => match parse_status(s) {
                Some(status) => Ok(
                    Some(StatusUpdateView { order_number: m.order_number, status }),
                ),
                None => Err(BridgeError::UnknownStatus),
            },
        }
    }
}

/// What a received line asks the bridge to do.
pub open spec fn line_event(line: Seq<u8>) -> Result<Option<StatusUpdateView>, BridgeError> {
    match decode_line(line) {
        Some(m) => message_event(m),
        None => Err(BridgeError::FrameDecode),
    }
}

/// The mathematical value of what a line or a message asks for.
pub open spec fn event_view(r: Result<Option<StatusUpdate>, BridgeError>) -> Result<
    Option<StatusUpdateView>,
    BridgeError,
> {
    match r {
        Ok(Some(update)) => Ok(Some(update@)),
        Ok(None) => Ok(None),
        Err(e) => Err(e),
    }
}

/// The status change that a received line reports, if it reports one.
pub open spec fn line_update(line: Seq<u8>) -> Option<StatusUpdateView> {
    match line_event(line) {
        Ok(Some(update)) => Some(update),
        _ => None,
    }
}

/// The JSON texts of items hold no line feed where the literals of their
/// names hold none.
pub proof fn lemma_items_json_newline_free(items: Seq<(Seq<char>, i32)>)
    requires
        items_newline_free(items),
    ensures
        newline_free(items_json(items)),
    decreases items.len(),
{
    reveal_strlit(",");
    reveal_strlit("{\"name\":");
    reveal_strlit(",\"quantity\":");
    reveal_strlit("}");
    if items.len() > 0 {
        let last = items.last();
        assert(newline_free(last.0));
        lemma_decimal_newline_free(last.1 as int);
        lemma_newline_free_concat("{\"name\":"@, last.0);
        lemma_newline_free_concat("{\"name\":"@ + last.0, ",\"quantity\":"@);
        lemma_newline_free_concat(
            "{\"name\":"@ + last.0 + ",\"quantity\":"@,
            decimal(last.1 as int),
        );
        lemma_newline_free_concat(
            "{\"name\":"@ + last.0 + ",\"quantity\":"@ + decimal(last.1 as int),
            "}"@,
        );
        if items.len() > 1 {
            let head = items.drop_last();
            assert forall|i: int| 0 <= i < head.len() implies newline_free(#[trigger] head[i].0) by {
                assert(head[i] == items[i]);
            }
            lemma_items_json_newline_free(head);
            lemma_newline_free_concat(items_json(head), ","@);
            lemma_newline_free_concat(items_json(head) + ","@, item_json(last.0, last.1));
        }
    }
}

/// The JSON text of a message holds no line feed where the literals of its
/// texts hold none.
pub proof fn lemma_message_json_newline_free(
    type_literal: Seq<char>,
    number_literal: Seq<char>,
    status_literal: Option<Seq<char>>,
    items: Option<Seq<(Seq<char>, i32)>>,
)
    requires
        newline_free(type_literal),
        newline_free(number_literal),
        status_literal matches Some(literal) ==> newline_free(literal),
        items matches Some(list) ==> items_newline_free(list),
    ensures
        newline_free(message_json(type_literal, number_literal, status_literal, items)),
{
    reveal_strlit("{\"message_type\":");
    reveal_strlit(",\"order_number\":");
    reveal_strlit(",\"status\":");
    reveal_strlit(",\"items\":");
    reveal_strlit("null");
    reveal_strlit("[");
    reveal_strlit("]");
    reveal_strlit("}");
    let status_part = match status_literal {
        Some(literal) => literal,
        None => "null"@,
    };
    let items_part = match items {
        Some(list) => "["@ + items_json(list) + "]"@,
        None => "null"@,
    };
    match items {
        Some(list) => {
            lemma_items_json_newline_free(list);
            lemma_newline_free_concat("["@, items_json(list));
            lemma_newline_free_concat("["@ + items_json(list), "]"@);
        },
        None => {},
    }
    let p1 = "{\"message_type\":"@ + type_literal;
    lemma_newline_free_concat("{\"message_type\":"@, type_literal);
    let p2 = p1 + ",\"order_number\":"@;
    lemma_newline_free_concat(p1, ",\"order_number\":"@);
    let p3 = p2 + number_literal;
    lemma_newline_free_concat(p2, number_literal);
    let p4 = p3 + ",\"status\":"@;
    lemma_newline_free_concat(p3, ",\"status\":"@);
    let p5 = p4 + status_part;
    lemma_newline_free_concat(p4, status_part);
    let p6 = p5 + ",\"items\":"@;
    lemma_newline_free_concat(p5, ",\"items\":"@);
    let p7 = p6 + items_part;
    lemma_newline_free_concat(p6, items_part);
    lemma_newline_free_concat(p7, "}"@);
}

fn push_items(out: &mut String, items: &Vec<(String, i32)>)
    ensures
        final(out)@ == old(out)@ + items_json(items.deep_view()),
{
    let ghost start = out@;
    let ghost all = items.deep_view();
    let mut i: usize = 0;
    assert(start + items_json(all.take(0)) =~= start);
    while i < items.len()
        invariant
            0 <= i <= items.len(),
            all == items.deep_view(),
            out@ == start + items_json(all.take(i as int)),
        decreases items.len() - i,
    {
        if i > 0 {
            out.append(",");
        }
        out.append("{\"name\":");
        out.append(items[i].0.as_str());
        out.append(",\"quantity\":");
        push_decimal(out, items[i].1);
        out.append("}");
        proof {
            let done = all.take(i as int);
            let next = all.take(i as int + 1);
            assert(next.drop_last() =~= done);
            assert(next.last() == all[i as int]);
            assert(all[i as int] == (items[i as int].0@, items[i as int].1));
            if i == 0 {
                assert(items_json(done) =~= Seq::<char>::empty());
                assert(next[0] == all[0]);
            }
            assert(out@ =~= start + items_json(next));
        }
        i = i + 1;
    }
    proof {
        assert(all.take(i as int) =~= all);
    }
}

impl SerialOrderItem {
    /// The wire form of an order line.
    pub fn from_item(name: &str, quantity: i32) -> (r: SerialOrderItem)
        ensures
            r@ == (SerialOrderItemView { name: name@, quantity }),
    {
        SerialOrderItem { name: String::from_str(name), quantity }
    }
}

impl SerialMessage {
    /// Builds the message that announces an order to the device.
    pub fn new_order(order: &Order) -> (r: SerialMessage)
        ensures
            r@ == new_order_message(order@),
    {
        let mut items: Vec<SerialOrderItem> = Vec::new();
        let mut i: usize = 0;
        while i < order.items.len()
            invariant
                0 <= i <= order.items.len(),
                items.len() == i,
                forall|j: int| 0 <= j < i ==> (#[trigger] items[j])@ == wire_item(order.items[j]@),
            decreases order.items.len() - i,
        {
            let line = &order.items[i];
            items.push(SerialOrderItem::from_item(line.name.as_str(), line.quantity));
            i = i + 1;
        }
        let message = SerialMessage {
            message_type: String::from_str("new_order"),
            order_number: order.order_number.clone(),
            status: None,
            items: Some(items),
        };
        assert(message@.items->Some_0 =~= new_order_message(order@).items->Some_0);
        message
    }

    /// Lays out the JSON text of a message from the string literals of its
    /// texts; each item comes with the literal of its name and its quantity.
    pub fn assemble(
        type_literal: &str,
        number_literal: &str,
        status_literal: Option<&str>,
        items: Option<&Vec<(String, i32)>>,
    ) -> (r: String)
        ensures
            r@ == message_json(
                type_literal@,
                number_literal@,
                str_view(status_literal),
                literal_items_view(items),
            ),
    {
        let mut out = String::new();
        out.append("{\"message_type\":");
        out.append(type_literal);
        out.append(",\"order_number\":");
        out.append(number_literal);
        out.append(",\"status\":");
        match status_literal {
            Some(literal) => {
                out.append(literal);
            },
            None => {
                out.append("null");
            },
        }
        out.append(",\"items\":");
        match items {
            Some(list) => {
                out.append("[");
                push_items(&mut out, list);
                out.append("]");
            },
            None => {
                out.append("null");
            },
        }
        out.append("}");
        assert(out@ =~= message_json(
            type_literal@,
            number_literal@,
            str_view(status_literal),
            literal_items_view(items),
        ));
        out
    }

    /// Writes the message as JSON text, every text as the string literal
    /// that `serde_json` gives it. Fails where it gives none for one of them.
    /// The text holds no line feed.
    pub fn encode(&self) -> (r: Result<String, BridgeError>)
        ensures
            match r {
                Ok(text) => message_text(self@) == Some(text@) && newline_free(text@),
                Err(e) => e == BridgeError::FrameEncode && message_text(self@) is None,
            },
    {
        let type_literal = match quote(self.message_type.as_str()) {
            Some(literal) => literal,
            None => {
                return Err(BridgeError::FrameEncode);
            },
        };
        let number_literal = match quote(self.order_number.as_str()) {
            Some(literal) => literal,
            None => {
                return Err(BridgeError::FrameEncode);
            },
        };
        let status_literal = match &self.status {
            Some(status) => match quote(status.as_str()) {
                Some(literal) => Some(literal),
                None => {
                    return Err(BridgeError::FrameEncode);
                },
            },
            None => None,
        };
        let items = match &self.items {
            Some(list) => {
                let ghost views = wire_items_view(list@);
                let mut literals: Vec<(String, i32)> = Vec::new();
                let mut i: usize = 0;
                while i < list.len()
                    invariant
                        0 <= i <= list.len(),
                        views == wire_items_view(list@),
                        self.items == Some(*list),
                        literals.len() == i,
                        forall|j: int|
                            0 <= j < i ==> json_string_text(#[trigger] views[j].name) is Some,
                        forall|j: int|
                            0 <= j < i ==> (#[trigger] literals[j]).0@ == quoted(views[j].name)
                                && literals[j].1 == views[j].quantity && newline_free(
                                literals[j].0@,
                            ),
                    decreases list.len() - i,
                {
                    assert(views[i as int] == list[i as int]@);
                    match quote(list[i].name.as_str()) {
                        Some(literal) => {
                            literals.push((literal, list[i].quantity));
                        },
                        None => {
                            assert(self@.items == Some(views));
                            assert(json_string_text(views[i as int].name) is None);
                            return Err(BridgeError::FrameEncode);
                        },
                    }
                    i = i + 1;
                }
                assert(literals.deep_view() =~= quoted_items(views));
                Some(literals)
            },
            None => None,
        };
        let status_ref = match &status_literal {
            Some(literal) => Some(literal.as_str()),
            None => None,
        };
        let items_ref = match &items {
            Some(literals) => Some(literals),
            None => None,
        };
        proof {
            lemma_message_json_newline_free(
                type_literal@,
                number_literal@,
                str_view(status_ref),
                literal_items_view(items_ref),
            );
        }
        Ok(
            SerialMessage::assemble(
                type_literal.as_str(),
                number_literal.as_str(),
                status_ref,
                items_ref,
            ),
        )
    }
}

/// The JSON string literal of a text, which holds no line feed; `None` where
/// `serde_json` gives none.
fn quote(s: &str) -> (r: Option<String>)
    ensures
        match r {
            Some(literal) => json_string_text(s@) == Some(literal@) && newline_free(literal@),
            None => json_string_text(s@) is None,
        },
{
    match json_string(s) {
        Ok(literal) => Some(literal),
        Err(_) => None,
    }
}

/// Looks up the text of the member `key`.
fn find_member(members: &Vec<(String, Option<String>)>, key: &str) -> (r: Option<String>)
    ensures
        text_view(r) == member_text(members.deep_view(), key@),
{
    let wanted = String::from_str(key);
    let ghost all = members.deep_view();
    let mut i: usize = 0;
    assert(all.skip(0) =~= all);
    while i < members.len()
        invariant
            0 <= i <= members.len(),
            all == members.deep_view(),
            wanted@ == key@,
            member_text(all, key@) == member_text(all.skip(i as int), key@),
        decreases members.len() - i,
    {
        proof {
            let rest = all.skip(i as int);
            assert(rest[0] == all[i as int]);
            assert(all[i as int] == members[i as int].deep_view());
            assert(rest.drop_first() =~= all.skip(i as int + 1));
        }
        if members[i].0 == wanted {
            return match &members[i].1 {
                Some(text) => Some(text.clone()),
                None => None,
            };
        }
        i = i + 1;
    }
    None
}

impl SerialMessage {
    /// Makes up a message from the members of a JSON object: `None` unless
    /// `message_type` and `order_number` are both strings.
    pub fn from_members(members: &Vec<(String, Option<String>)>) -> (r: Option<SerialMessage>)
        ensures
            match r {
                Some(message) => message_of_members(members.deep_view()) == Some(message@),
                None => message_of_members(members.deep_view()) is None,
            },
    {
        let message_type = match find_member(members, "message_type") {
            Some(text) => text,
            None => {
                return None;
            },
        };
        let order_number = match find_member(members, "order_number") {
            Some(text) => text,
            None => {
                return None;
            },
        };
        let status = find_member(members, "status");
        Some(SerialMessage { message_type, order_number, status, items: None })
    }

    /// Reads a message from JSON text.
    pub fn decode(text: &str) -> (r: Result<SerialMessage, BridgeError>)
        ensures
            match r {
                Ok(message) => decode_text(text@) == Some(message@),
                Err(e) => e == BridgeError::FrameDecode && decode_text(text@) is None,
            },
    {
        match json_members(text) {
            Ok(members) => match SerialMessage::from_members(&members) {
                Some(message) => Ok(message),
                None => Err(BridgeError::FrameDecode),
            },
            Err(_) => Err(BridgeError::FrameDecode),
        }
    }

    /// Reads a message from a received line: the line must be UTF-8 and hold
    /// one JSON object that makes up a message.
    pub fn from_line(line: &[u8]) -> (r: Result<SerialMessage, BridgeError>)
        ensures
            match r {
                Ok(message) => decode_line(line@) == Some(message@),
                Err(e) => e == BridgeError::FrameDecode && decode_line(line@) is None,
            },
    {
        match utf8_text(line) {
            Some(text) => SerialMessage::decode(text),
            None => Err(BridgeError::FrameDecode),
        }
    }

    /// What the message asks the bridge to do: to report a status change, to
    /// do nothing, or to drop it for naming no known status.
    pub fn event(&self) -> (r: Result<Option<StatusUpdate>, BridgeError>)
        ensures
            event_view(r) == message_event(self@),
    {
        if self.message_type != String::from_str("status_update") {
            return Ok(None);
        }
        match &self.status {
            None => Ok(None),
            Some(text) => match OrderStatus::from_str(text.as_str()) {
                Ok(status) => Ok(
                    Some(StatusUpdate { order_number: self.order_number.clone(), status }),
                ),
                Err(_) => Err(BridgeError::UnknownStatus),
            },
        }
    }
}

impl StatusUpdate {
    /// What a received line asks the bridge to do.
    pub fn from_line(line: &[u8]) -> (r: Result<Option<StatusUpdate>, BridgeError>)
        ensures
            event_view(r) == line_event(line@),
    {
        match SerialMessage::from_line(line) {
            Ok(message) => message.event(),
            Err(e) => Err(e),
        }
    }
}

} // verus!
