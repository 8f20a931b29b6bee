use bytes::Bytes;
use interledger::errors::ParseError;
use interledger::ildcp::{
    ConfigAction, ConfigEvent, ConfigState, IldcpRequest, IldcpResponse, PEER_PROTOCOL_CONDITION,
    PEER_PROTOCOL_FULFILLMENT,
};
use interledger::packet::{Address, Fulfill, Packet, Prepare, Reject, Timestamp};

fn fulfill(data: Vec<u8>) -> Fulfill {
    Fulfill { fulfillment: Bytes::copy_from_slice(&PEER_PROTOCOL_FULFILLMENT), data: Bytes::from(data) }
}

fn reject() -> Reject {
    Reject {
        code: "F00".to_string(),
        triggered_by: Some(Address { text: "g.peer".to_string() }),
        message: "no".to_string(),
        data: Bytes::new(),
    }
}

fn spelled(address: &str, scale: u8, code: &str) -> Vec<u8> {
    let mut data: Vec<u8> = vec![address.len() as u8];
    data.extend_from_slice(address.as_bytes());
    data.push(scale);
    data.push(code.len() as u8);
    data.extend_from_slice(code.as_bytes());
    data
}

fn assert_is_request(prepare: &Prepare) {
    assert_eq!(prepare.destination.text, "peer.config");
    assert_eq!(prepare.amount(), 0);
    assert_eq!(
        &prepare.execution_condition[..],
        &[
            0x66u8, 0x68, 0x7a, 0xad, 0xf8, 0x62, 0xbd, 0x77, 0x6c, 0x8f, 0xc1, 0x8b, 0x8e, 0x9f,
            0x8e, 0x20, 0x08, 0x97, 0x14, 0x85, 0x6e, 0xe2, 0x33, 0xb3, 0x90, 0x2a, 0x59, 0x1d,
            0x0d, 0x5f, 0x29, 0x25,
        ][..]
    );
    assert!(prepare.data.is_empty());
}

#[test]
fn request_at_an_instant_expires_a_minute_later() {
    let now = Timestamp { secs: 1_540_000_000, nanos: 123_456_789 };
    let prepare = IldcpRequest::new().to_prepare_at(now);
    assert_is_request(&prepare);
    assert_eq!(&prepare.execution_condition[..], &PEER_PROTOCOL_CONDITION[..]);
    assert_eq!(PEER_PROTOCOL_FULFILLMENT, [0u8; 32]);
    assert_eq!(prepare.expires_at, Timestamp { secs: 1_540_000_060, nanos: 123_456_789 });
}

#[test]
fn request_expires_a_minute_from_now() {
    let before = chrono::Utc::now();
    let prepare = IldcpRequest::new().to_prepare();
    let after = chrono::Utc::now();
    assert_is_request(&prepare);
    let expiry =
        chrono::DateTime::from_timestamp(prepare.expires_at.secs, prepare.expires_at.nanos).unwrap();
    assert!(before + chrono::Duration::minutes(1) <= expiry);
    assert!(expiry <= after + chrono::Duration::minutes(1));
}

#[test]
fn response_is_read_from_the_data_of_a_fulfill() {
    let response = IldcpResponse::from_fulfill(fulfill(spelled("example.client", 13, "XRP"))).unwrap();
    assert_eq!(response.client_address, "example.client");
    assert_eq!(response.asset_scale, 13);
    assert_eq!(response.asset_code, "XRP");
}

#[test]
fn response_ignores_what_follows_it() {
    let mut data = spelled("g.a", 9, "\u{20ac}");
    data.extend_from_slice(&[1, 2, 3]);
    let response = IldcpResponse::from_fulfill(fulfill(data)).unwrap();
    assert_eq!(response.client_address, "g.a");
    assert_eq!(response.asset_scale, 9);
    assert_eq!(response.asset_code, "\u{20ac}");
}

#[test]
fn response_with_empty_texts_is_read() {
    let response = IldcpResponse::from_fulfill(fulfill(vec![0, 255, 0])).unwrap();
    assert_eq!(response.client_address, "");
    assert_eq!(response.asset_scale, 255);
    assert_eq!(response.asset_code, "");
}

#[test]
fn response_with_a_long_address_is_read() {
    let address = "a".repeat(300);
    let mut data: Vec<u8> = vec![0x82, 1, 44];
    data.extend_from_slice(address.as_bytes());
    data.extend_from_slice(&[2, 3, b'U', b'S', b'D']);
    let response = IldcpResponse::from_fulfill(fulfill(data)).unwrap();
    assert_eq!(response.client_address, address);
    assert_eq!(response.asset_scale, 2);
    assert_eq!(response.asset_code, "USD");
}

#[test]
fn response_that_ends_early_is_rejected() {
    let data = spelled("g.a", 9, "XRP");
    for end in 0..data.len() {
        let error = IldcpResponse::from_fulfill(fulfill(data[..end].to_vec())).unwrap_err();
        assert_eq!(error, ParseError::UnexpectedEnd);
    }
}

#[test]
fn response_that_is_not_text_is_rejected() {
    let address = IldcpResponse::from_fulfill(fulfill(vec![1, 0xff, 9, 1, b'X'])).unwrap_err();
    assert_eq!(address, ParseError::InvalidUtf8);
    let code = IldcpResponse::from_fulfill(fulfill(vec![1, b'g', 9, 2, 0xc3, 0x28])).unwrap_err();
    assert_eq!(code, ParseError::InvalidUtf8);
}

#[test]
fn response_with_a_bad_length_is_rejected() {
    let error = IldcpResponse::from_fulfill(fulfill(vec![0x80, 9, 0])).unwrap_err();
    assert_eq!(error, ParseError::InvalidLength);
}

#[test]
fn exchange_begins_with_the_request() {
    let (state, action) = ConfigState::begin();
    assert!(matches!(state, ConfigState::Sending));
    match action {
        ConfigAction::Send { request_id: 0, packet: Packet::Prepare(prepare) } => {
            assert_is_request(&prepare)
        }
        _ => panic!("the request must be sent"),
    }
}

#[test]
fn exchange_succeeds_with_a_readable_fulfill_under_any_number() {
    for request_id in [0u32, 5] {
        let (state, _) = ConfigState::begin();
        let (state, action) = state.step(ConfigEvent::Sent);
        assert!(matches!(state, ConfigState::Receiving));
        assert!(matches!(action, ConfigAction::Receive));
        let packet = Packet::Fulfill(fulfill(spelled("g.a", 9, "XRP")));
        let (state, action) = state.step(ConfigEvent::Received(Some((request_id, packet))));
        assert!(matches!(state, ConfigState::Finished));
        match action {
            ConfigAction::Succeed(response) => assert_eq!(response.client_address, "g.a"),
            _ => panic!("the exchange must succeed"),
        }
    }
}

#[test]
fn failure_to_send_loses_the_plugin() {
    let (state, action) = ConfigState::Sending.step(ConfigEvent::SendFailed);
    assert!(matches!(state, ConfigState::Finished));
    assert!(matches!(action, ConfigAction::Fail { plugin_usable: false }));
}

#[test]
fn failure_after_sending_returns_the_plugin() {
    let events = vec![
        ConfigEvent::ReceiveFailed,
        ConfigEvent::Received(None),
        ConfigEvent::Received(Some((0, Packet::Reject(reject())))),
        ConfigEvent::Received(Some((0, Packet::Prepare(IldcpRequest::new().to_prepare())))),
        ConfigEvent::Received(Some((0, Packet::Fulfill(fulfill(vec![])))))
    ];
    for event in events {
        let (state, action) = ConfigState::Receiving.step(event);
        assert!(matches!(state, ConfigState::Finished));
        assert!(matches!(action, ConfigAction::Fail { plugin_usable: true }));
    }
}
