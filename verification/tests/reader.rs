use order_bridge::framing::LineBuffer;
use order_bridge::models::{Order, OrderItem, OrderStatus};
use order_bridge::serial_comm::{
    ReadOutcome, ReaderAction, SerialComm, BAUD_RATE, READ_BUFFER_SIZE, READ_RETRY_PAUSE_MS,
    SERIAL_TIMEOUT_MS,
};
use order_bridge::wire::StatusUpdate;

fn update(number: &str, status: OrderStatus) -> StatusUpdate {
    StatusUpdate { order_number: number.to_string(), status }
}

fn data(text: &str) -> ReadOutcome {
    ReadOutcome::Data(text.as_bytes().to_vec())
}

fn quiet(updates: Vec<StatusUpdate>) -> ReaderAction {
    ReaderAction { updates, log: None, pause_ms: 0 }
}

#[test]
fn status_update_line_notifies_once() {
    let mut comm = SerialComm::new();
    let action = comm.on_read(&data(
        "{\"message_type\":\"status_update\",\"order_number\":\"abc-123\",\"status\":\"Preparing\"}\n",
    ));
    assert_eq!(action, quiet(vec![update("abc-123", OrderStatus::Preparing)]));
    assert_eq!(comm.on_read(&data("")), quiet(vec![]));
}

#[test]
fn status_is_matched_ignoring_case() {
    let mut comm = SerialComm::new();
    for (text, status) in [
        ("PENDING", OrderStatus::Pending),
        ("preparing", OrderStatus::Preparing),
        ("Delivering", OrderStatus::Delivering),
        ("compLETed", OrderStatus::Completed),
        ("CANCELLED", OrderStatus::Cancelled),
    ] {
        let line = format!(
            "{{\"message_type\":\"status_update\",\"order_number\":\"o-1\",\"status\":\"{}\",\"items\":null}}\n",
            text
        );
        assert_eq!(comm.on_read(&data(&line)), quiet(vec![update("o-1", status)]));
    }
}

#[test]
fn bad_lines_notify_nobody() {
    let mut comm = SerialComm::new();
    for line in [
        "{\"message_type\":\"status_update\",\"order_number\":\"abc-123\",\"status\":\"shipped\"}\n",
        "{\"message_type\":\"status_update\",\"order_number\":\"abc-123\",\"status\":\"\"}\n",
        "{\"message_type\":\"status_update\",\"order_number\":\"abc-123\"\n",
        "this is not json\n",
        "\n",
        "{\"message_type\":\"status_update\",\"status\":\"pending\"}\n",
        "{\"message_type\":\"new_order\",\"order_number\":\"abc-123\",\"status\":\"pending\"}\n",
        "{\"message_type\":\"status_update\",\"order_number\":\"abc-123\",\"status\":null}\n",
    ] {
        assert_eq!(comm.on_read(&data(line)), quiet(vec![]), "{line:?}");
    }
    let mut bytes = b"{\"message_type\":\"status_update\",\"order_number\":\"".to_vec();
    bytes.extend_from_slice(&[0xc3, 0x28]);
    bytes.extend_from_slice(b"\",\"status\":\"pending\"}\n");
    assert_eq!(comm.on_read(&ReadOutcome::Data(bytes)), quiet(vec![]));
    assert_eq!(
        comm.on_read(&data(
            "{\"message_type\":\"status_update\",\"order_number\":\"ok\",\"status\":\"pending\"}\n"
        )),
        quiet(vec![update("ok", OrderStatus::Pending)])
    );
}

#[test]
fn timeout_is_silent_and_immediate() {
    let mut comm = SerialComm::new();
    assert_eq!(comm.on_read(&ReadOutcome::TimedOut), quiet(vec![]));
    assert_eq!(comm.on_read(&data("{\"message_type\":\"status_update\",")), quiet(vec![]));
    assert_eq!(comm.on_read(&ReadOutcome::TimedOut), quiet(vec![]));
    assert_eq!(
        comm.on_read(&data("\"order_number\":\"t\",\"status\":\"completed\"}\n")),
        quiet(vec![update("t", OrderStatus::Completed)])
    );
}

#[test]
fn read_failure_is_logged_once_and_pauses_a_second() {
    let mut comm = SerialComm::new();
    let action = comm.on_read(&ReadOutcome::Failed("device unplugged".to_string()));
    assert_eq!(
        action,
        ReaderAction {
            updates: vec![],
            log: Some("Error reading from serial port: device unplugged".to_string()),
            pause_ms: 1000,
        }
    );
    assert!(action.pause_ms >= 1000);
    assert_eq!(READ_RETRY_PAUSE_MS, 1000);
}

#[test]
fn read_failure_keeps_the_partial_line() {
    let mut comm = SerialComm::new();
    assert_eq!(
        comm.on_read(&data("{\"message_type\":\"status_update\",\"order_number\":\"p\",")),
        quiet(vec![])
    );
    let failed = comm.on_read(&ReadOutcome::Failed("io".to_string()));
    assert_eq!(failed.updates, vec![]);
    assert_eq!(failed.log, Some("Error reading from serial port: io".to_string()));
    assert_eq!(
        comm.on_read(&data("\"status\":\"delivering\"}\n")),
        quiet(vec![update("p", OrderStatus::Delivering)])
    );
}

#[test]
fn frames_may_be_split_across_reads() {
    let line = "{\"message_type\":\"status_update\",\"order_number\":\"abc-123\",\"status\":\"Preparing\"}\n";
    for cut in 0..=line.len() {
        let mut comm = SerialComm::new();
        let first = comm.on_read(&ReadOutcome::Data(line.as_bytes()[..cut].to_vec()));
        let second = comm.on_read(&ReadOutcome::Data(line.as_bytes()[cut..].to_vec()));
        let mut updates = first.updates;
        updates.extend(second.updates);
        assert_eq!(updates, vec![update("abc-123", OrderStatus::Preparing)], "cut at {cut}");
    }
}

#[test]
fn frames_may_be_coalesced_in_one_read() {
    let mut comm = SerialComm::new();
    let chunk = concat_lines(&[
        "{\"message_type\":\"status_update\",\"order_number\":\"a\",\"status\":\"preparing\"}",
        "garbage",
        "{\"message_type\":\"status_update\",\"order_number\":\"b\",\"status\":\"delivering\"}",
        "{\"message_type\":\"status_update\",\"order_number\":\"a\",\"status\":\"completed\"}",
    ]) + "{\"message_type\":\"status_update\",\"order_number\":\"c\",";
    assert_eq!(
        comm.on_read(&data(&chunk)),
        quiet(vec![
            update("a", OrderStatus::Preparing),
            update("b", OrderStatus::Delivering),
            update("a", OrderStatus::Completed),
        ])
    );
    assert_eq!(
        comm.on_read(&data("\"status\":\"cancelled\"}\n")),
        quiet(vec![update("c", OrderStatus::Cancelled)])
    );
}

fn concat_lines(lines: &[&str]) -> String {
    let mut out = String::new();
    for line in lines {
        out.push_str(line);
        out.push('\n');
    }
    out
}

#[test]
fn carriage_return_before_the_line_feed_is_tolerated() {
    let mut comm = SerialComm::new();
    assert_eq!(
        comm.on_read(&data(
            "{\"message_type\":\"status_update\",\"order_number\":\"r\",\"status\":\"pending\"}\r\n"
        )),
        quiet(vec![update("r", OrderStatus::Pending)])
    );
}

#[test]
fn written_frame_is_read_back_as_one_line() {
    let order = Order {
        id: 1,
        order_number: "loop".to_string(),
        customer_name: String::new(),
        phone_number: String::new(),
        delivery_address: String::new(),
        latitude_bits: 0,
        longitude_bits: 0,
        notes: None,
        created_at: String::new(),
        total_amount_bits: 0,
        status: OrderStatus::Pending,
        items: vec![OrderItem { name: "a\nb".to_string(), quantity: 1, price_bits: 0 }],
    };
    let frame = SerialComm::frame(&order).unwrap();
    let mut buffer = LineBuffer::new();
    let lines = buffer.push(&frame);
    assert_eq!(lines, vec![frame[..frame.len() - 1].to_vec()]);
    assert_eq!(buffer.push(&[]), Vec::<Vec<u8>>::new());
}

#[test]
fn line_buffer_splits_on_line_feeds() {
    let mut buffer = LineBuffer::new();
    assert_eq!(buffer.push(b"ab"), Vec::<Vec<u8>>::new());
    assert_eq!(buffer.push(b"c\nde\n\nf"), vec![b"abc".to_vec(), b"de".to_vec(), b"".to_vec()]);
    assert_eq!(buffer.push(b""), Vec::<Vec<u8>>::new());
    assert_eq!(buffer.push(b"\n"), vec![b"f".to_vec()]);
    assert_eq!(buffer.push(b"\n\n"), vec![b"".to_vec(), b"".to_vec()]);
}

#[test]
fn line_buffer_gives_the_same_lines_however_input_is_cut() {
    let input = b"one\ntwo\n\nthree\nrest";
    let mut whole = LineBuffer::new();
    let expected = whole.push(input);
    assert_eq!(expected, vec![b"one".to_vec(), b"two".to_vec(), b"".to_vec(), b"three".to_vec()]);
    for cut in 0..=input.len() {
        let mut buffer = LineBuffer::new();
        let mut lines = buffer.push(&input[..cut]);
        lines.extend(buffer.push(&input[cut..]));
        assert_eq!(lines, expected, "cut at {cut}");
        assert_eq!(buffer.push(b"\n"), vec![b"rest".to_vec()]);
    }
}

#[test]
fn transport_settings() {
    assert_eq!(BAUD_RATE, 9600);
    assert_eq!(SERIAL_TIMEOUT_MS, 1000);
    assert_eq!(READ_BUFFER_SIZE, 1024);
}
