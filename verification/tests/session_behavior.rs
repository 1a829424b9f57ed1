use greet_server::messages::{disconnect_message, request_log_message, response_message};
use greet_server::session::{ReadOutcome, Session, Step, WriteOutcome};

const RESPONSE: &[u8] = b"Hello from the Server!";

fn expect_exchange(step: Step) -> (Vec<u8>, Vec<u8>) {
    match step {
        Step::Exchange { log_line, response } => (log_line, response),
        _ => panic!("expected an exchange step"),
    }
}

fn expect_log_only(step: Step) -> Vec<u8> {
    match step {
        Step::LogOnly { log_line } => log_line,
        _ => panic!("expected a log-only step"),
    }
}

#[test]
fn response_text_is_fixed() {
    assert_eq!(response_message(), RESPONSE.to_vec());
}

#[test]
fn disconnect_text_is_fixed() {
    assert_eq!(disconnect_message(), b"Client disconnected".to_vec());
}

#[test]
fn request_log_line_is_prefixed() {
    assert_eq!(request_log_message(b"ping"), b"Received request: ping".to_vec());
}

#[test]
fn ping_exchange() {
    let mut session = Session::new();
    assert!(session.awaiting_read());
    let step = session.on_read(ReadOutcome::Data(b"ping".to_vec()));
    let (log_line, response) = expect_exchange(step);
    assert_eq!(log_line, b"Received request: ping".to_vec());
    assert_eq!(response, RESPONSE.to_vec());
    assert!(session.responding());
    let step = session.on_write(WriteOutcome::Sent);
    assert!(matches!(step, Step::Quiet));
    assert!(session.awaiting_read());
    assert!(!session.closed());
}

#[test]
fn binary_request_gets_same_response() {
    let mut session = Session::new();
    let step = session.on_read(ReadOutcome::Data(vec![0xFF, 0x00, 0x80]));
    let (log_line, response) = expect_exchange(step);
    assert_eq!(response, RESPONSE.to_vec());
    let mut expected_log = b"Received request: ".to_vec();
    expected_log.extend_from_slice(&[0xEF, 0xBF, 0xBD, 0x00, 0xEF, 0xBF, 0xBD]);
    assert_eq!(log_line, expected_log);
}

#[test]
fn empty_payload_gets_same_response() {
    let mut session = Session::new();
    let step = session.on_read(ReadOutcome::Data(Vec::new()));
    let (log_line, response) = expect_exchange(step);
    assert_eq!(response, RESPONSE.to_vec());
    assert_eq!(log_line, b"Received request: ".to_vec());
}

#[test]
fn immediate_disconnect_logs_and_closes() {
    let mut session = Session::new();
    let step = session.on_read(ReadOutcome::Disconnect);
    let log_line = expect_log_only(step);
    assert_eq!(log_line, b"Client disconnected".to_vec());
    assert!(session.closed());
    assert!(!session.awaiting_read());
    assert!(!session.responding());
}

#[test]
fn disconnect_after_exchanges_closes_without_response() {
    let mut session = Session::new();
    for _ in 0..3 {
        assert!(session.awaiting_read());
        let step = session.on_read(ReadOutcome::Data(b"ping".to_vec()));
        let (_, response) = expect_exchange(step);
        assert_eq!(response, RESPONSE.to_vec());
        session.on_write(WriteOutcome::Sent);
    }
    assert!(session.awaiting_read());
    let step = session.on_read(ReadOutcome::Disconnect);
    let log_line = expect_log_only(step);
    assert_eq!(log_line, b"Client disconnected".to_vec());
    assert!(session.closed());
}

#[test]
fn read_failure_closes_quietly() {
    let mut session = Session::new();
    let step = session.on_read(ReadOutcome::Failed);
    assert!(matches!(step, Step::Quiet));
    assert!(session.closed());
}

#[test]
fn write_failure_closes_quietly() {
    let mut session = Session::new();
    session.on_read(ReadOutcome::Data(b"hi".to_vec()));
    let step = session.on_write(WriteOutcome::Failed);
    assert!(matches!(step, Step::Quiet));
    assert!(session.closed());
}

#[test]
fn two_clients_interleaved_stay_independent() {
    let mut first = Session::new();
    let mut second = Session::new();
    let step = first.on_read(ReadOutcome::Data(b"first request".to_vec()));
    let (first_log, first_response) = expect_exchange(step);
    let step = second.on_read(ReadOutcome::Data(vec![0x80, 0x81]));
    let (second_log, second_response) = expect_exchange(step);
    assert_eq!(first_response, RESPONSE.to_vec());
    assert_eq!(second_response, RESPONSE.to_vec());
    assert_eq!(first_log, b"Received request: first request".to_vec());
    let mut expected = b"Received request: ".to_vec();
    expected.extend_from_slice(&[0xEF, 0xBF, 0xBD, 0xEF, 0xBF, 0xBD]);
    assert_eq!(second_log, expected);
    second.on_write(WriteOutcome::Sent);
    assert!(first.responding());
    assert!(second.awaiting_read());
    first.on_write(WriteOutcome::Sent);
    let step = second.on_read(ReadOutcome::Disconnect);
    expect_log_only(step);
    assert!(second.closed());
    assert!(first.awaiting_read());
}
