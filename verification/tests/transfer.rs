use lan_share::text::decimal_string;
use lan_share::transfer::{
    conclude_delivery, file_stored, ping, receive_file, receive_text, url_for, Delivery,
    HttpStatus, TransferError, TransferService, DEVICE_ROUTE, FILE_RECEIVED_EVENT, PING_ROUTE,
    RECEIVE_FILE_ROUTE, RECEIVE_TEXT_ROUTE, TEXT_RECEIVED_EVENT,
};
use lan_share::discovery::{BroadcastStep, DiscoveryService, ListenerEvent};
use lan_share::types::{
    Device, DiscoveryMessage, DiscoveryMessageType, TransferData, TransferMessage, TransferStatus,
};

fn sender() -> Device {
    Device {
        id: "sender-id".to_string(),
        name: "sender".to_string(),
        ip: "192.168.1.2".to_string(),
        port: 8080,
        device_type: "desktop".to_string(),
        os: "linux".to_string(),
        last_seen: 1,
    }
}

fn target() -> Device {
    Device {
        id: "target-id".to_string(),
        name: "target".to_string(),
        ip: "192.168.1.77".to_string(),
        port: 8080,
        device_type: "desktop".to_string(),
        os: "windows".to_string(),
        last_seen: 2,
    }
}

fn text_envelope(content: &str) -> TransferMessage {
    TransferMessage {
        message_type: "text".to_string(),
        sender: sender(),
        data: TransferData::Text { content: content.to_string() },
        timestamp: 42,
    }
}

fn file_envelope(name: &str, data: Vec<u8>) -> TransferMessage {
    TransferMessage {
        message_type: "file".to_string(),
        sender: sender(),
        data: TransferData::File {
            name: name.to_string(),
            size: data.len() as u64,
            mime_type: "image/png".to_string(),
            data,
        },
        timestamp: 43,
    }
}

#[test]
fn routes_and_event_names_are_the_documented_ones() {
    assert_eq!(RECEIVE_FILE_ROUTE, "/api/receive/file");
    assert_eq!(RECEIVE_TEXT_ROUTE, "/api/receive/text");
    assert_eq!(PING_ROUTE, "/api/ping");
    assert_eq!(DEVICE_ROUTE, "/api/device");
    assert_eq!(FILE_RECEIVED_EVENT, "file-received");
    assert_eq!(TEXT_RECEIVED_EVENT, "text-received");
}

#[test]
fn decimal_text_of_numbers() {
    assert_eq!(decimal_string(0), "0");
    assert_eq!(decimal_string(7), "7");
    assert_eq!(decimal_string(10), "10");
    assert_eq!(decimal_string(8080), "8080");
    assert_eq!(decimal_string(65535), "65535");
    assert_eq!(decimal_string(1234567890), "1234567890");
    assert_eq!(decimal_string(u64::MAX), "18446744073709551615");
}

#[test]
fn url_is_built_from_the_advertised_address() {
    assert_eq!(url_for(&target(), RECEIVE_FILE_ROUTE), "http://192.168.1.77:8080/api/receive/file");
    let mut other = target();
    other.ip = "10.0.0.1".to_string();
    other.port = 9;
    assert_eq!(url_for(&other, RECEIVE_TEXT_ROUTE), "http://10.0.0.1:9/api/receive/text");
    other.port = 65535;
    other.ip = "::1".to_string();
    assert_eq!(url_for(&other, PING_ROUTE), "http://::1:65535/api/ping");
}

#[test]
fn send_text_builds_one_request_to_the_text_route() {
    let service = TransferService::new(sender());
    let request = service.send_text("hello", &target(), 99).unwrap();
    assert_eq!(request.url, "http://192.168.1.77:8080/api/receive/text");
    assert_eq!(request.message.message_type, "text");
    assert_eq!(request.message.sender.id, "sender-id");
    assert_eq!(request.message.timestamp, 99);
    match request.message.data {
        TransferData::Text { content } => assert_eq!(content, "hello"),
        _ => panic!("a text is sent as a text"),
    }
}

#[test]
fn sent_text_is_observed_by_the_receiver() {
    let service = TransferService::new(sender());
    let request = service.send_text("hello", &target(), 99).unwrap();
    let (notice, body) = receive_text(request.message).unwrap();
    assert_eq!(notice.content, "hello");
    assert_eq!(notice.sender.id, "sender-id");
    assert_eq!(notice.timestamp, 99);
    assert_eq!(body.status, "success");
    assert_eq!(body.message, "Text received successfully");
}

#[test]
fn send_file_builds_one_request_to_the_file_route() {
    let service = TransferService::new(sender());
    let bytes = vec![0x89, b'P', b'N', b'G', 0, 255];
    let request = service.send_file("/tmp/a.png", Ok(bytes.clone()), &target(), 7).unwrap();
    assert_eq!(request.url, "http://192.168.1.77:8080/api/receive/file");
    assert_eq!(request.message.message_type, "file");
    assert_eq!(request.message.sender.id, "sender-id");
    assert_eq!(request.message.timestamp, 7);
    match request.message.data {
        TransferData::File { name, size, mime_type, data } => {
            assert_eq!(name, "a.png");
            assert_eq!(size, 6);
            assert_eq!(mime_type, "image/png");
            assert_eq!(data, bytes);
        }
        _ => panic!("a file is sent as a file"),
    }
}

#[test]
fn sent_file_arrives_under_its_name_with_the_same_bytes() {
    let service = TransferService::new(sender());
    let bytes: Vec<u8> = (0..=255).collect();
    let request = service.send_file("/tmp/a.png", Ok(bytes.clone()), &target(), 7).unwrap();
    let file = receive_file(request.message).unwrap();
    assert_eq!(file.name, "a.png");
    assert_eq!(file.data, bytes);
    assert_eq!(file.size, 256);
    assert_eq!(file.mime_type, "image/png");
    assert_eq!(file.sender.id, "sender-id");
    assert_eq!(file.timestamp, 7);
    let (notice, body) = file_stored(file, Ok("/home/u/Downloads/a.png".to_string())).unwrap();
    assert_eq!(notice.file_name, "a.png");
    assert_eq!(notice.file_path, "/home/u/Downloads/a.png");
    assert_eq!(notice.file_size, 256);
    assert_eq!(notice.mime_type, "image/png");
    assert_eq!(notice.sender.id, "sender-id");
    assert_eq!(notice.timestamp, 7);
    assert_eq!(body.status, "success");
    assert_eq!(body.message, "File received successfully");
}

#[test]
fn send_file_guesses_the_media_type_from_the_extension() {
    let service = TransferService::new(sender());
    let request = service.send_file("notes.txt", Ok(vec![b'x']), &target(), 7).unwrap();
    match request.message.data {
        TransferData::File { name, mime_type, .. } => {
            assert_eq!(name, "notes.txt");
            assert_eq!(mime_type, "text/plain");
        }
        _ => panic!("a file is sent as a file"),
    }
    let request = service.send_file("/srv/blob", Ok(vec![]), &target(), 7).unwrap();
    match request.message.data {
        TransferData::File { name, size, mime_type, data } => {
            assert_eq!(name, "blob");
            assert_eq!(size, 0);
            assert_eq!(mime_type, "application/octet-stream");
            assert!(data.is_empty());
        }
        _ => panic!("a file is sent as a file"),
    }
}

#[test]
fn send_file_without_a_file_name_uses_unknown() {
    let service = TransferService::new(sender());
    let request = service.send_file("/", Ok(vec![1, 2, 3]), &target(), 7).unwrap();
    match request.message.data {
        TransferData::File { name, size, .. } => {
            assert_eq!(name, "unknown");
            assert_eq!(size, 3);
        }
        _ => panic!("a file is sent as a file"),
    }
    let message = service.file_transfer(None, "text/plain".to_string(), vec![9], 1);
    match message.data {
        TransferData::File { name, mime_type, .. } => {
            assert_eq!(name, "unknown");
            assert_eq!(mime_type, "text/plain");
        }
        _ => panic!("a file is sent as a file"),
    }
}

#[test]
fn send_file_that_cannot_be_read_fails_with_a_read_error_and_no_request() {
    let service = TransferService::new(sender());
    let outcome = service.send_file(
        "/no/such/file.bin",
        Err("No such file or directory (os error 2)".to_string()),
        &target(),
        7,
    );
    match outcome {
        Err(TransferError::Read { detail }) => {
            assert_eq!(detail, "No such file or directory (os error 2)");
        }
        _ => panic!("a failed read is a read error"),
    }
}

#[test]
fn file_request_cannot_be_sent() {
    let service = TransferService::new(sender());
    let message = TransferMessage {
        message_type: "file".to_string(),
        sender: sender(),
        data: TransferData::FileRequest { name: "a.png".to_string(), size: 3 },
        timestamp: 1,
    };
    let outcome = service.send_to_device(message, &target());
    assert!(matches!(outcome, Err(TransferError::Unsupported)));
}

#[test]
fn send_to_device_routes_by_payload() {
    let service = TransferService::new(sender());
    let file = service.send_to_device(file_envelope("a.png", vec![1]), &target()).unwrap();
    assert_eq!(file.url, "http://192.168.1.77:8080/api/receive/file");
    assert_eq!(file.message.timestamp, 43);
    let text = service.send_to_device(text_envelope("hi"), &target()).unwrap();
    assert_eq!(text.url, "http://192.168.1.77:8080/api/receive/text");
    assert_eq!(text.message.timestamp, 42);
}

#[test]
fn errors_in_words() {
    assert_eq!(TransferError::Unsupported.message(), "Unsupported transfer data type");
    assert_eq!(TransferError::Read { detail: "denied".to_string() }.message(), "denied");
    assert_eq!(TransferError::Network { detail: "refused".to_string() }.message(), "refused");
}

#[test]
fn delivery_is_accepted_on_success_statuses_only() {
    assert_eq!(conclude_delivery(Ok(200)).unwrap(), Delivery::Accepted { status: 200 });
    assert_eq!(conclude_delivery(Ok(299)).unwrap(), Delivery::Accepted { status: 299 });
    assert_eq!(conclude_delivery(Ok(199)).unwrap(), Delivery::Rejected { status: 199 });
    assert_eq!(conclude_delivery(Ok(300)).unwrap(), Delivery::Rejected { status: 300 });
    assert_eq!(conclude_delivery(Ok(400)).unwrap(), Delivery::Rejected { status: 400 });
    assert_eq!(conclude_delivery(Ok(500)).unwrap(), Delivery::Rejected { status: 500 });
}

#[test]
fn network_failure_is_an_error() {
    match conclude_delivery(Err("connection refused".to_string())) {
        Err(TransferError::Network { detail }) => assert_eq!(detail, "connection refused"),
        _ => panic!("a failed request is a network error"),
    }
}

#[test]
fn text_posted_to_the_file_route_is_a_client_error() {
    let outcome = receive_file(text_envelope("hello"));
    match outcome {
        Err(status) => {
            assert_eq!(status, HttpStatus::BadRequest);
            assert_eq!(status.code(), 400);
        }
        Ok(_) => panic!("a text is no file"),
    }
    let request = TransferMessage {
        message_type: "file".to_string(),
        sender: sender(),
        data: TransferData::FileRequest { name: "a".to_string(), size: 1 },
        timestamp: 1,
    };
    assert!(matches!(receive_file(request), Err(HttpStatus::BadRequest)));
}

#[test]
fn file_posted_to_the_text_route_is_a_client_error() {
    assert!(matches!(receive_text(file_envelope("a.png", vec![1])), Err(HttpStatus::BadRequest)));
    let request = TransferMessage {
        message_type: "text".to_string(),
        sender: sender(),
        data: TransferData::FileRequest { name: "a".to_string(), size: 1 },
        timestamp: 1,
    };
    assert!(matches!(receive_text(request), Err(HttpStatus::BadRequest)));
}

#[test]
fn failed_write_is_a_server_error_without_notice() {
    let file = receive_file(file_envelope("a.png", vec![1, 2])).unwrap();
    match file_stored(file, Err("disk full".to_string())) {
        Err(status) => {
            assert_eq!(status, HttpStatus::InternalServerError);
            assert_eq!(status.code(), 500);
        }
        Ok(_) => panic!("a failed write is not acknowledged"),
    }
}

#[test]
fn status_codes() {
    assert_eq!(HttpStatus::Success.code(), 200);
    assert_eq!(HttpStatus::BadRequest.code(), 400);
    assert_eq!(HttpStatus::InternalServerError.code(), 500);
}

#[test]
fn ping_answers_ok_with_the_time() {
    let reply = ping(1_700_000_000);
    assert_eq!(reply.status, "ok");
    assert_eq!(reply.timestamp, 1_700_000_000);
}

#[test]
fn device_info_is_the_own_identity() {
    let service = TransferService::new(sender());
    let info = service.get_device_info();
    assert_eq!(info.id, "sender-id");
    assert_eq!(info.name, "sender");
    assert_eq!(info.ip, "192.168.1.2");
}

#[test]
fn envelopes_can_be_copied() {
    let envelope = file_envelope("a.png", vec![1, 2, 3]);
    let copy = envelope.clone();
    assert_eq!(copy.message_type, "file");
    assert_eq!(copy.timestamp, 43);
    match copy.data {
        TransferData::File { name, size, data, .. } => {
            assert_eq!(name, "a.png");
            assert_eq!(size, 3);
            assert_eq!(data, vec![1, 2, 3]);
        }
        _ => panic!("a copy keeps the payload"),
    }
    let request = TransferData::FileRequest { name: "b".to_string(), size: 8 }.clone();
    assert!(matches!(request, TransferData::FileRequest { size: 8, .. }));
}

#[test]
fn transfer_status_holds_its_shape() {
    let status = TransferStatus {
        transfer_id: "t-1".to_string(),
        status: "failed".to_string(),
        error: Some("timeout".to_string()),
    };
    assert_eq!(status.transfer_id, "t-1");
    assert_eq!(status.status, "failed");
    assert_eq!(status.error.unwrap(), "timeout");
}

#[test]
fn one_identity_serves_discovery_and_transfer() {
    let me = Device::current("host".to_string(), "192.168.1.2".to_string(), "linux".to_string(), 50);
    let id = me.id.clone();
    let mut discovery = DiscoveryService::new(me.clone());
    let transfer = TransferService::new(me);
    discovery.start();
    match discovery.discovery_broadcaster(60) {
        BroadcastStep::Announce { message, .. } => assert_eq!(message.device.id, id),
        BroadcastStep::Farewell { .. } => panic!("a running service announces"),
    }
    let ping = DiscoveryMessage { device: target(), message_type: DiscoveryMessageType::Ping };
    let action = discovery
        .discovery_listener(ListenerEvent::Datagram { decoded: Some(ping), source: 1u8 }, 61);
    assert_eq!(action.reply.unwrap().message.device.id, id);
    assert_eq!(transfer.send_text("hi", &target(), 62).unwrap().message.sender.id, id);
    assert_eq!(transfer.get_device_info().id, id);
    assert_eq!(discovery.device().id, id);
    discovery.stop();
    match discovery.discovery_broadcaster(63) {
        BroadcastStep::Farewell { message } => assert_eq!(message.device.id, id),
        BroadcastStep::Announce { .. } => panic!("a stopped service bids farewell"),
    }
}

#[test]
fn send_file_takes_name_and_type_from_the_path_not_from_the_bytes() {
    let service = TransferService::new(sender());
    let bytes = vec![1u8, 2, 3];
    let as_pdf = service.send_file("/docs/report.pdf", Ok(bytes.clone()), &target(), 7).unwrap();
    let as_json = service.send_file("data/report.json", Ok(bytes.clone()), &target(), 7).unwrap();
    match (as_pdf.message.data, as_json.message.data) {
        (
            TransferData::File { name: n1, mime_type: m1, data: d1, .. },
            TransferData::File { name: n2, mime_type: m2, data: d2, .. },
        ) => {
            assert_eq!(n1, "report.pdf");
            assert_eq!(m1, "application/pdf");
            assert_eq!(n2, "report.json");
            assert_eq!(m2, "application/json");
            assert_eq!(d1, bytes);
            assert_eq!(d2, bytes);
        }
        _ => panic!("a file is sent as a file"),
    }
}
