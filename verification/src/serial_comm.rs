//! The decisions of the device bridge: which ports are candidates, what to
//! write for an order, and what to do with the outcome of each read and
//! write. The transport itself, the threads and the queue between them are
//! the caller's.

use vstd::prelude::*;
use vstd::string::*;
use vstd::utf8::{
    decode_utf8, encode_utf8, encode_utf8_decode_utf8, encode_utf8_valid_utf8, valid_utf8,
};
use crate::framing::{
    feed, lemma_feed_concat, lemma_feed_frame, lemma_utf8_newline_free, newline_free_bytes,
    LineBuffer, Split, FRAME_END,
};
use crate::json::json_object_members;
use crate::models::{parse_status, text_view, Order, OrderStatus, OrderView};
use crate::text::newline_free;
use crate::wire::{
    decode_line, decode_text, line_update, message_text, new_order_message, BridgeError,
    SerialMessage, StatusUpdate, StatusUpdateView,
};

verus! {

/// The line speed of the device, in bits per second.
pub const BAUD_RATE: u32 = 9600;

/// How long one read waits for data, in milliseconds.
pub const SERIAL_TIMEOUT_MS: u64 = 1000;

/// The most bytes that one read takes.
pub const READ_BUFFER_SIZE: usize = 1024;

/// How long the reader rests after a failed read, in milliseconds.
pub const READ_RETRY_PAUSE_MS: u64 = 1000;

/// How a serial port is attached to the host.
#[derive(Debug, Clone, Copy, PartialEq, Eq, Structural)]
pub enum PortKind {
    /// Directly attached over USB.
    Usb,
    /// A permanent port on the PCI bus.
    Pci,
    /// A Bluetooth link.
    Bluetooth,
    /// The host cannot tell.
    Unknown,
}

/// One port that the host enumerated.
#[derive(Debug, Clone, PartialEq, Eq)]
pub struct PortEntry {
    pub name: String,
    pub kind: PortKind,
}

/// Whether a port is directly attached.
pub open spec fn is_candidate(port: PortEntry) -> bool {
    port.kind == PortKind::Usb
}

/// The names of the directly attached ports among `ports`, in the order of
/// enumeration.
pub open spec fn candidate_names(ports: Seq<PortEntry>) -> Seq<Seq<char>> {
    ports.filter(|port: PortEntry| is_candidate(port)).map_values(|port: PortEntry| port.name@)
}

/// The candidate ports for an enumeration that may have failed (`None`):
/// a failed enumeration has no candidates.
pub open spec fn candidates(enumerated: Option<Vec<PortEntry>>) -> Seq<Seq<char>> {
    match enumerated {
        Some(ports) => candidate_names(ports@),
        None => Seq::empty(),
    }
}

/// The port to open: the configured one, else the first candidate.
pub open spec fn selected_port(configured: Option<Seq<char>>, candidates: Seq<Seq<char>>) -> Option<
    Seq<char>,
> {
    match configured {
        Some(name) => Some(name),
        None => if candidates.len() > 0 {
            Some(candidates[0])
        } else {
            None
        },
    }
}

/// What one read of the transport gave.
#[derive(Debug, Clone, PartialEq, Eq)]
pub enum ReadOutcome {
    /// The bytes that were read.
    Data(Vec<u8>),
    /// Nothing arrived within the read timeout.
    TimedOut,
    /// The read failed, with the text of the error.
    Failed(String),
}

/// What the reader does after one read.
#[derive(Debug, Clone, PartialEq, Eq)]
pub struct ReaderAction {
    /// The status changes to hand to the notifier, one call each, in order.
    pub updates: Vec<StatusUpdate>,
    /// The line to log, if any.
    pub log: Option<String>,
    /// How long to rest before the next read, in milliseconds.
    pub pause_ms: u64,
}

/// The mathematical value of a [`ReaderAction`].
pub ghost struct ReaderActionView {
    pub updates: Seq<StatusUpdateView>,
    pub log: Option<Seq<char>>,
    pub pause_ms: u64,
}

/// The views of a list of status changes, in order.
pub open spec fn updates_view(updates: Seq<StatusUpdate>) -> Seq<StatusUpdateView> {
    Seq::new(updates.len(), |i: int| updates[i]@)
}

impl View for ReaderAction {
    type V = ReaderActionView;

    open spec fn view(&self) -> ReaderActionView {
        ReaderActionView {
            updates: updates_view(self.updates@),
            log: text_view(self.log),
            pause_ms: self.pause_ms,
        }
    }
}

/// The status changes that a list of received lines reports: one for each
/// line that reports one, in the order of the lines.
pub open spec fn reported(lines: Seq<Seq<u8>>) -> Seq<StatusUpdateView> {
    lines.filter_map(|line: Seq<u8>| line_update(line))
}

/// The action that does nothing and reads again at once.
pub open spec fn idle() -> ReaderActionView {
    ReaderActionView { updates: Seq::empty(), log: None, pause_ms: 0 }
}

/// The reader's step: from the bytes that wait and the outcome of a read to
/// the bytes that wait afterwards and the action to take.
///
/// Data completes lines, and each line that reports a status change yields
/// one update. A timeout changes nothing and asks for nothing. A failure
/// changes nothing, is logged once, and is followed by the retry pause.
pub open spec fn read_step(pending: Seq<u8>, outcome: ReadOutcome) -> (Seq<u8>, ReaderActionView) {
    match outcome {
        ReadOutcome::Data(chunk) => (
            feed(pending, chunk@).rest,
            ReaderActionView {
                updates: reported(feed(pending, chunk@).lines),
                log: None,
                pause_ms: 0,
            },
        ),
        ReadOutcome::TimedOut => (pending, idle()),
        ReadOutcome::Failed(error) => (
            pending,
            ReaderActionView {
                updates: Seq::empty(),
                log: Some("Error reading from serial port: "@ + error@),
                pause_ms: READ_RETRY_PAUSE_MS,
            },
        ),
    }
}

/// The frame that announces an order: the UTF-8 bytes of its JSON text and
/// the line feed. `None` where the order has no JSON text.
pub open spec fn order_frame(order: OrderView) -> Option<Seq<u8>> {
    match message_text(new_order_message(order)) {
        Some(text) => Some(encode_utf8(text).push(FRAME_END)),
        None => None,
    }
}

/// What the writer is woken by.
#[derive(Debug, Clone, PartialEq, Eq)]
pub enum DispatchEvent {
    /// An order was taken from the queue.
    Submitted(Order),
    /// Every sender of the queue is gone.
    Closed,
}

/// What the writer does next.
#[derive(Debug, Clone, PartialEq, Eq)]
pub enum DispatchAction {
    /// Write these bytes in one piece, then wait for the next order.
    Write(Vec<u8>),
    /// Write nothing for this order, and wait for the next.
    Skip,
    /// Leave the loop.
    Stop,
}

/// The mathematical value of a [`DispatchAction`].
pub ghost enum DispatchActionView {
    Write(Seq<u8>),
    Skip,
    Stop,
}

impl View for DispatchAction {
    type V = DispatchActionView;

    open spec fn view(&self) -> DispatchActionView {
        match self {
            DispatchAction::Write(bytes) => DispatchActionView::Write(bytes@),
            DispatchAction::Skip => DispatchActionView::Skip,
            DispatchAction::Stop => DispatchActionView::Stop,
        }
    }
}

/// The writer's step: an order with a frame is written, an order without
/// one is skipped, and the loop ends only when the queue is closed.
pub open spec fn dispatch_step(event: DispatchEvent) -> DispatchActionView {
    match event {
        DispatchEvent::Submitted(order) => match order_frame(order@) {
            Some(frame) => DispatchActionView::Write(frame),
            None => DispatchActionView::Skip,
        },
        DispatchEvent::Closed => DispatchActionView::Stop,
    }
}

/// The line to log after a write: none for a write that succeeded, one that
/// carries the text of the error for a write that failed.
pub open spec fn write_log(outcome: Result<(), String>) -> Option<Seq<char>> {
    match outcome {
        Ok(_) => None,
        Err(error) => Some("Error writing to serial port: "@ + error@),
    }
}

/// Whether `name` is the name of an enumerated port of kind `Usb`.
pub open spec fn names_usb_port(ports: Seq<PortEntry>, name: Seq<char>) -> bool {
    exists|i: int|
        0 <= i < ports.len() && (#[trigger] ports[i]).kind == PortKind::Usb && ports[i].name@
            == name
}

/// Only directly attached ports are candidates, and each of them is one:
/// the candidates are exactly the names of the enumerated ports of kind
/// `Usb`. Ports of any other kind are left out.
pub proof fn lemma_candidates_are_usb(ports: Seq<PortEntry>)
    ensures
        candidate_names(ports).len() <= ports.len(),
        forall|name: Seq<char>| #[trigger]
            candidate_names(ports).contains(name) <==> names_usb_port(ports, name),
{
    let pred = |port: PortEntry| is_candidate(port);
    let kept = ports.filter(pred);
    let names = candidate_names(ports);
    ports.lemma_filter_len(pred);
    assert forall|name: Seq<char>| #[trigger] names.contains(name) implies names_usb_port(
        ports,
        name,
    ) by {
        let k = choose|k: int| 0 <= k < names.len() && names[k] == name;
        ports.lemma_filter_pred(pred, k);
        assert(kept.contains(kept[k]));
        ports.lemma_filter_contains_rev(pred, kept[k]);
        let i = choose|i: int| 0 <= i < ports.len() && ports[i] == kept[k];
        assert(ports[i].kind == PortKind::Usb && ports[i].name@ == name);
    }
    assert forall|name: Seq<char>| names_usb_port(ports, name) implies #[trigger] names.contains(
        name,
    ) by {
        let i = choose|i: int|
            0 <= i < ports.len() && (#[trigger] ports[i]).kind == PortKind::Usb && ports[i].name@
                == name;
        ports.lemma_filter_contains(pred, i);
        let k = choose|k: int| 0 <= k < kept.len() && kept[k] == ports[i];
        assert(names[k] == name);
    }
}

/// An order is announced by its number and by the name and quantity of each
/// of its lines, and by nothing else: two orders that agree on these have
/// the same frame, whatever their prices, amounts and customer data.
pub proof fn lemma_frame_reads_number_and_lines(a: OrderView, b: OrderView)
    requires
        a.order_number == b.order_number,
        a.items.len() == b.items.len(),
        forall|i: int|
            0 <= i < a.items.len() ==> a.items[i].name == b.items[i].name && a.items[i].quantity
                == b.items[i].quantity,
    ensures
        new_order_message(a) == new_order_message(b),
        order_frame(a) == order_frame(b),
{
    assert(new_order_message(a).items->Some_0 =~= new_order_message(b).items->Some_0);
}

/// The message that announces an order is of type `new_order`, carries the
/// order's number and no status, and has one item for each line of the
/// order, in order, with the line's name and quantity.
pub proof fn lemma_new_order_shape(order: OrderView)
    ensures
        new_order_message(order).message_type == "new_order"@,
        new_order_message(order).order_number == order.order_number,
        new_order_message(order).status is None,
        new_order_message(order).items is Some,
        new_order_message(order).items->Some_0.len() == order.items.len(),
        forall|i: int|
            0 <= i < order.items.len() ==> {
                &&& (#[trigger] new_order_message(order).items->Some_0[i]).name
                    == order.items[i].name
                &&& new_order_message(order).items->Some_0[i].quantity == order.items[i].quantity
            },
{
}

/// What is written as one frame is received as one line: the UTF-8 bytes of
/// a text without a line feed, followed by the line feed, complete exactly
/// one line, leave nothing waiting, and that line decodes as the text does.
pub proof fn lemma_frame_round_trip(text: Seq<char>)
    requires
        newline_free(text),
    ensures
        feed(Seq::empty(), encode_utf8(text).push(FRAME_END)) == (Split {
            lines: seq![encode_utf8(text)],
            rest: Seq::empty(),
        }),
        decode_line(encode_utf8(text)) == decode_text(text),
{
    let body = encode_utf8(text);
    lemma_utf8_newline_free(text);
    lemma_feed_frame(Seq::empty(), body);
    assert(Seq::<u8>::empty() + body =~= body);
    encode_utf8_valid_utf8(text);
    encode_utf8_decode_utf8(text);
}

/// The lines of two stretches of input report, in order, what the lines of
/// each stretch report.
pub proof fn lemma_reported_concat(a: Seq<Seq<u8>>, b: Seq<Seq<u8>>)
    ensures
        reported(a + b) == reported(a) + reported(b),
    decreases b.len(),
{
    if b.len() == 0 {
        assert(a + b =~= a);
        assert(reported(a) + reported(b) =~= reported(a));
    } else {
        lemma_reported_concat(a, b.drop_last());
        assert((a + b).drop_last() =~= a + b.drop_last());
        assert((a + b).last() == b.last());
        match line_update(b.last()) {
            Some(update) => {
                assert((reported(a) + reported(b.drop_last())) + seq![update] =~= reported(a) + (
                reported(b.drop_last()) + seq![update]));
            },
            None => {},
        }
    }
}

/// However the device's bytes are cut into reads, the same status changes
/// are reported in the same order: two reads of `a` and of `b` report what
/// one read of `a + b` reports, and leave the same bytes waiting.
pub proof fn lemma_reads_may_split(pending: Seq<u8>, a: Vec<u8>, b: Vec<u8>, whole: Vec<u8>)
    requires
        whole@ == a@ + b@,
    ensures
        ({
            let first = read_step(pending, ReadOutcome::Data(a));
            let second = read_step(first.0, ReadOutcome::Data(b));
            let once = read_step(pending, ReadOutcome::Data(whole));
            &&& once.0 == second.0
            &&& once.1.updates == first.1.updates + second.1.updates
        }),
{
    lemma_feed_concat(pending, a@, b@);
    lemma_reported_concat(feed(pending, a@).lines, feed(feed(pending, a@).rest, b@).lines);
}

/// The status change that a well-formed status update reports: a line that
/// holds a `status_update` message whose status names `status`, ignoring
/// case, reports that status for the message's order number.
pub proof fn lemma_status_line_update(line: Seq<u8>, status: OrderStatus)
    requires
        decode_line(line) matches Some(m) && m.message_type == "status_update"@ && (
        m.status matches Some(s) && parse_status(s) == Some(status)),
    ensures
        line_update(line) == Some(
            StatusUpdateView { order_number: decode_line(line)->Some_0.order_number, status },
        ),
{
}

/// A well-formed status update is reported exactly once: when the bytes that
/// wait and the bytes that arrive make up one such line and its line feed,
/// the read yields the one update of that line and leaves nothing waiting.
pub proof fn lemma_status_line_reported_once(
    pending: Seq<u8>,
    chunk: Vec<u8>,
    tail: Seq<u8>,
    status: OrderStatus,
)
    requires
        chunk@ == tail.push(FRAME_END),
        newline_free_bytes(tail),
        decode_line(pending + tail) matches Some(m) && m.message_type == "status_update"@ && (
        m.status matches Some(s) && parse_status(s) == Some(status)),
    ensures
        read_step(pending, ReadOutcome::Data(chunk)) == (
            Seq::<u8>::empty(),
            ReaderActionView {
                updates: seq![
                    StatusUpdateView {
                        order_number: decode_line(pending + tail)->Some_0.order_number,
                        status,
                    },
                ],
                log: None,
                pause_ms: 0,
            },
        ),
{
    let line = pending + tail;
    lemma_feed_frame(pending, tail);
    lemma_status_line_update(line, status);
    Seq::lemma_filter_map_singleton(line, |line: Seq<u8>| line_update(line));
}

/// A line that is not UTF-8, that holds no JSON object making up a message,
/// or whose message names no known status reports nothing: in a read that
/// completes just this line, no update is handed out.
pub proof fn lemma_bad_line_reports_nothing(pending: Seq<u8>, chunk: Vec<u8>, tail: Seq<u8>)
    requires
        chunk@ == tail.push(FRAME_END),
        newline_free_bytes(tail),
        ({
            let line = pending + tail;
            ||| !valid_utf8(line)
            ||| json_object_members(decode_utf8(line)) is None
            ||| decode_line(line) is None
            ||| decode_line(line) matches Some(m) && m.status matches Some(s) && parse_status(s)
                is None
        }),
    ensures
        line_update(pending + tail) is None,
        read_step(pending, ReadOutcome::Data(chunk)) == (Seq::<u8>::empty(), idle()),
{
    let line = pending + tail;
    lemma_feed_frame(pending, tail);
    Seq::lemma_filter_map_singleton(line, |line: Seq<u8>| line_update(line));
}

/// A read timeout is not logged, delays nothing, reports nothing, and keeps
/// the waiting bytes.
pub proof fn lemma_timeout_is_idle(pending: Seq<u8>)
    ensures
        read_step(pending, ReadOutcome::TimedOut).0 == pending,
        read_step(pending, ReadOutcome::TimedOut).1.log is None,
        read_step(pending, ReadOutcome::TimedOut).1.pause_ms == 0,
        read_step(pending, ReadOutcome::TimedOut).1.updates.len() == 0,
{
}

/// A failed read is logged with one line that carries the error's text, is
/// followed by a pause of at least one second, reports nothing, and keeps
/// the waiting bytes.
pub proof fn lemma_failure_is_logged_and_paused(pending: Seq<u8>, error: String)
    ensures
        read_step(pending, ReadOutcome::Failed(error)).0 == pending,
        read_step(pending, ReadOutcome::Failed(error)).1.log == Some(
            "Error reading from serial port: "@ + error@,
        ),
        read_step(pending, ReadOutcome::Failed(error)).1.pause_ms >= 1000,
        read_step(pending, ReadOutcome::Failed(error)).1.updates.len() == 0,
{
}

/// The bridge's protocol state: the received bytes that wait for the end of
/// their line.
pub struct SerialComm {
    buffer: LineBuffer,
}

impl View for SerialComm {
    type V = Seq<u8>;

    closed spec fn view(&self) -> Seq<u8> {
        self.buffer@
    }
}

impl SerialComm {
    /// A bridge that has received nothing yet.
    pub fn new() -> (r: SerialComm)
        ensures
            r@ == Seq::<u8>::empty(),
    {
        SerialComm { buffer: LineBuffer::new() }
    }

    /// The candidate ports: the names of the directly attached ports that
    /// the host enumerated, in its order; none where the enumeration failed
    /// (`None`).
    pub fn list_ports(enumerated: Option<Vec<PortEntry>>) -> (r: Vec<String>)
        ensures
            r.deep_view() == candidates(enumerated),
    {
        let mut names: Vec<String> = Vec::new();
        match &enumerated {
            None => {
                assert(names.deep_view() =~= Seq::<Seq<char>>::empty());
            },
            Some(ports) => {
                let mut i: usize = 0;
                assert(ports@.take(0) =~= Seq::<PortEntry>::empty());
                assert(names.deep_view() =~= candidate_names(ports@.take(0)));
                while i < ports.len()
                    invariant
                        0 <= i <= ports.len(),
                        names.deep_view() == candidate_names(ports@.take(i as int)),
                    decreases ports.len() - i,
                {
                    proof {
                        let done = ports@.take(i as int);
                        assert(ports@.take(i as int + 1) =~= done.push(ports[i as int]));
                        done.lemma_filter_push(ports[i as int], |port: PortEntry| is_candidate(port));
                    }
                    let ghost before = names.deep_view();
                    if ports[i].kind == PortKind::Usb {
                        names.push(ports[i].name.clone());
                        assert(names.deep_view() =~= before.push(ports[i as int].name@));
                        assert(names.deep_view() =~= candidate_names(ports@.take(i as int + 1)));
                    } else {
                        assert(names.deep_view() =~= candidate_names(ports@.take(i as int + 1)));
                    }
                    i = i + 1;
                }
                assert(ports@.take(i as int) =~= ports@);
            },
        }
        names
    }

    /// The port to open: the configured one, else the first candidate, else
    /// none.
    pub fn select_port(configured: Option<String>, candidates: &Vec<String>) -> (r: Option<String>)
        ensures
            text_view(r) == selected_port(text_view(configured), candidates.deep_view()),
    {
        match configured {
            Some(name) => Some(name),
            None => if candidates.len() > 0 {
                Some(candidates[0].clone())
            } else {
                None
            },
        }
    }

    /// The frame to write for an order, in one piece. It ends with the line
    /// feed and holds no other, so that it is received as one line.
    pub fn frame(order: &Order) -> (r: Result<Vec<u8>, BridgeError>)
        ensures
            match r {
                Ok(bytes) => {
                    &&& order_frame(order@) == Some(bytes@)
                    &&& bytes@.len() > 0
                    &&& bytes@.last() == FRAME_END
                    &&& newline_free_bytes(bytes@.drop_last())
                },
                Err(e) => e == BridgeError::FrameEncode && order_frame(order@) is None,
            },
    {
        match SerialMessage::new_order(order).encode() {
            Ok(text) => {
                let mut bytes = text.as_str().as_bytes_vec();
                proof {
                    lemma_utf8_newline_free(text@);
                }
                let ghost body = bytes@;
                bytes.push(FRAME_END);
                assert(bytes@.drop_last() =~= body);
                Ok(bytes)
            },
            Err(e) => Err(e),
        }
    }

    /// The writer's step.
    pub fn on_dispatch(event: &DispatchEvent) -> (r: DispatchAction)
        ensures
            r@ == dispatch_step(*event),
    {
        match event {
            DispatchEvent::Submitted(order) => match SerialComm::frame(order) {
                Ok(bytes) => DispatchAction::Write(bytes),
                Err(_) => DispatchAction::Skip,
            },
            DispatchEvent::Closed => DispatchAction::Stop,
        }
    }

    /// The line to log after a write. Whatever the outcome, the writer goes
    /// on to the next order and never writes this one again.
    pub fn on_written(outcome: &Result<(), String>) -> (r: Option<String>)
        ensures
            text_view(r) == write_log(*outcome),
    {
        match outcome {
            Ok(_) => None,
            Err(error) => Some(
                String::from_str("Error writing to serial port: ").concat(error.as_str()),
            ),
        }
    }

    /// The reader's step: takes in the outcome of one read and says which
    /// status changes to report, what to log and how long to rest.
    pub fn on_read(&mut self, outcome: &ReadOutcome) -> (r: ReaderAction)
        ensures
            (final(self)@, r@) == read_step(old(self)@, *outcome),
    {
        match outcome {
            ReadOutcome::Data(chunk) => {
                let lines = self.buffer.push(chunk.as_slice());
                let mut updates: Vec<StatusUpdate> = Vec::new();
                let mut i: usize = 0;
                let ghost all = lines.deep_view();
                assert(all.take(0) =~= Seq::<Seq<u8>>::empty());
                assert(updates_view(updates@) =~= Seq::<StatusUpdateView>::empty());
                while i < lines.len()
                    invariant
                        0 <= i <= lines.len(),
                        all == lines.deep_view(),
                        updates_view(updates@) == reported(all.take(i as int)),
                    decreases lines.len() - i,
                {
                    proof {
                        all.lemma_filter_map_take_succ(|line: Seq<u8>| line_update(line), i as int);
                        assert(all[i as int] =~= lines[i as int]@);
                    }
                    let ghost before = updates_view(updates@);
                    match StatusUpdate::from_line(lines[i].as_slice()) {
                        Ok(Some(update)) => {
                            updates.push(update);
                            assert(updates_view(updates@) =~= before + seq![update@]);
                        },
                        _ => {},
                    }
                    i = i + 1;
                }
                assert(all.take(i as int) =~= all);
                ReaderAction { updates, log: None, pause_ms: 0 }
            },
            ReadOutcome::TimedOut => {
                let updates: Vec<StatusUpdate> = Vec::new();
                assert(updates_view(updates@) =~= Seq::<StatusUpdateView>::empty());
                ReaderAction { updates, log: None, pause_ms: 0 }
            },
            ReadOutcome::Failed(error) => {
                let updates: Vec<StatusUpdate> = Vec::new();
                assert(updates_view(updates@) =~= Seq::<StatusUpdateView>::empty());
                ReaderAction {
                    updates,
                    log: Some(
                        String::from_str("Error reading from serial port: ").concat(error.as_str()),
                    ),
                    pause_ms: READ_RETRY_PAUSE_MS,
                }
            },
        }
    }
}

} // verus!
