//! Frame and document codec tests: round trips and the extension-free
//! serialization path.

use epp_client::domain::check::DomainCheck;
use epp_client::frame_bytes;
use epp_client::parse_document;
use epp_client::read_frame;
use epp_client::render_document;
use epp_client::serialize_command;
use epp_client::serialize_command_plain;
use epp_client::write_frame;
use epp_client::EppError;
use epp_client::FramingError;
use epp_client::Logout;
use epp_client::MemStream;
use epp_client::NoExtension;
use epp_client::Transaction;

const CLTRID: &str = "cltrid:1626454866";

fn loopback(payload: &[u8]) -> Vec<u8> {
    let mut sender = MemStream::new(Vec::new());
    write_frame(&mut sender, &payload.to_vec()).unwrap();
    let mut receiver = MemStream::new(sender.output);
    read_frame(&mut receiver).unwrap()
}

#[test]
fn frame_round_trip_empty() {
    assert_eq!(loopback(b""), Vec::<u8>::new());
}

#[test]
fn frame_round_trip_short() {
    assert_eq!(loopback(b"<hello/>"), b"<hello/>".to_vec());
}

#[test]
fn frame_round_trip_64kib() {
    let payload: Vec<u8> = (0..65536u32 + 17).map(|i| (i % 251) as u8).collect();
    assert_eq!(loopback(&payload), payload);
}

#[test]
fn frame_header_counts_itself() {
    let f = frame_bytes(&b"abcd".to_vec()).unwrap();
    assert_eq!(f[0..4], [0, 0, 0, 8]);
    assert_eq!(&f[4..], b"abcd");
}

#[test]
fn frame_too_small_is_rejected() {
    let mut s = MemStream::new(vec![0, 0, 0, 3]);
    let r = read_frame(&mut s);
    assert!(matches!(
        r,
        Err(EppError::Framing { error: FramingError::TooSmall { length: 3 } })
    ));
}

#[test]
fn frame_truncated_payload_is_an_io_error() {
    let mut s = MemStream::new(vec![0, 0, 0, 10, b'a', b'b']);
    let r = read_frame(&mut s);
    assert!(matches!(r, Err(EppError::Io { .. })));
}

#[test]
fn document_round_trip() {
    let object = DomainCheck::new(vec!["eppdev.com", "eppdev.net"]);
    let serialized =
        <DomainCheck as Transaction<NoExtension>>::serialize_request(object, None, CLTRID)
            .unwrap();
    let tree = parse_document(serialized.as_str()).unwrap();
    let rendered = render_document(&tree);
    assert_eq!(rendered, serialized);
}

#[test]
fn no_extension_matches_plain_path() {
    let with_sentinel = serialize_command::<DomainCheck, NoExtension>(
        &DomainCheck::new(vec!["eppdev.com", "eppdev.net"]),
        None,
        CLTRID,
    )
    .unwrap();
    let plain = serialize_command_plain(
        &DomainCheck::new(vec!["eppdev.com", "eppdev.net"]),
        CLTRID,
    )
    .unwrap();
    assert_eq!(with_sentinel, plain);

    let logout_with_sentinel =
        serialize_command::<Logout, NoExtension>(&Logout, None, CLTRID).unwrap();
    let logout_plain = serialize_command_plain(&Logout, CLTRID).unwrap();
    assert_eq!(logout_with_sentinel, logout_plain);
}

#[test]
fn empty_client_tr_id_is_rejected() {
    let r = serialize_command::<Logout, NoExtension>(&Logout, None, "");
    assert!(matches!(r, Err(EppError::Encode { .. })));
}

#[test]
fn markup_in_values_is_escaped() {
    let object = DomainCheck::new(vec!["epp<dev>&co.com"]);
    let serialized =
        <DomainCheck as Transaction<NoExtension>>::serialize_request(object, None, CLTRID)
            .unwrap();
    assert!(serialized.contains("<domain:name>epp&lt;dev&gt;&amp;co.com</domain:name>"));

    let tree = parse_document(serialized.as_str()).unwrap();
    let body = tree.child("command").unwrap().child("check").unwrap();
    let decoded = DomainCheck::from_command_node(body).unwrap();
    assert_eq!(decoded, DomainCheck::new(vec!["epp<dev>&co.com"]));
}

#[test]
fn quotes_in_attribute_values_are_escaped() {
    let object = DomainCheck::new(vec!["a\"b'c.com"]);
    let serialized =
        <DomainCheck as Transaction<NoExtension>>::serialize_request(object, None, CLTRID)
            .unwrap();
    assert!(serialized.contains("<domain:name>a&quot;b&apos;c.com</domain:name>"));
    let tree = parse_document(serialized.as_str()).unwrap();
    let rendered = render_document(&tree);
    assert_eq!(rendered, serialized);
}

#[test]
fn check_command_value_round_trip() {
    let object = DomainCheck::new(vec!["eppdev.com", "eppdev.net"]);
    let serialized =
        serialize_command::<DomainCheck, NoExtension>(&object, None, CLTRID).unwrap();
    let tree = parse_document(serialized.as_str()).unwrap();
    let command = tree.child("command").unwrap();
    let body = command.child("check").unwrap();
    let decoded = DomainCheck::from_command_node(body).unwrap();
    assert_eq!(decoded, DomainCheck::new(vec!["eppdev.com", "eppdev.net"]));
}
