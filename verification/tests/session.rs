//! Session tests: the handshake order, transaction correlation, and a
//! scripted end-to-end exchange.

use epp_client::domain::check::DomainCheck;
use epp_client::EppClient;
use epp_client::EppError;
use epp_client::Login;
use epp_client::MemStream;
use epp_client::NoExtension;
use epp_client::SessionState;

const CLTRID: &str = "cltrid:1626454866";
const SVTRID: &str = "RO-6879-1627224678242975";
const HEADER: &str = "<?xml version=\"1.0\" encoding=\"UTF-8\" standalone=\"no\"?>";

fn frame(payload: &str) -> Vec<u8> {
    let mut f = ((payload.len() as u32) + 4).to_be_bytes().to_vec();
    f.extend_from_slice(payload.as_bytes());
    f
}

fn greeting_xml() -> String {
    format!(
        "{}\r\n<epp xmlns=\"urn:ietf:params:xml:ns:epp-1.0\"><greeting>\
         <svID>Test EPP Server</svID><svDate>2021-07-25T14:51:17.0Z</svDate>\
         </greeting></epp>",
        HEADER
    )
}

fn success_response(cltrid: &str) -> String {
    format!(
        "{}\r\n<epp xmlns=\"urn:ietf:params:xml:ns:epp-1.0\"><response>\
         <result code=\"1000\"><msg>Command completed successfully</msg></result>\
         <trID><clTRID>{}</clTRID><svTRID>{}</svTRID></trID></response></epp>",
        HEADER, cltrid, SVTRID
    )
}

fn check_response() -> String {
    format!(
        "{}\r\n<epp xmlns=\"urn:ietf:params:xml:ns:epp-1.0\"><response>\
         <result code=\"1000\"><msg>Command completed successfully</msg></result>\
         <resData><domain:chkData xmlns:domain=\"urn:ietf:params:xml:ns:domain-1.0\">\
         <domain:cd><domain:name avail=\"0\">example.com</domain:name></domain:cd>\
         <domain:cd><domain:name avail=\"1\">example.net</domain:name></domain:cd>\
         </domain:chkData></resData>\
         <trID><clTRID>{}</clTRID><svTRID>{}</svTRID></trID></response></epp>",
        HEADER, CLTRID, SVTRID
    )
}

fn login() -> Login {
    Login::new("username", "password", None)
}

#[test]
fn scripted_session_end_to_end() {
    let mut input = frame(&greeting_xml());
    input.extend_from_slice(&frame(&success_response(CLTRID)));
    input.extend_from_slice(&frame(&check_response()));

    let mut client = EppClient::new("test".to_string(), MemStream::new(input)).unwrap();
    assert_eq!(client.xml_greeting(), greeting_xml());
    assert_eq!(client.state, SessionState::Greeted);

    client.login(&login(), CLTRID).unwrap();
    assert_eq!(client.state, SessionState::LoggedIn);

    let rsp = client
        .transact::<DomainCheck, NoExtension>(
            &DomainCheck::new(vec!["example.com", "example.net"]),
            None,
            CLTRID,
        )
        .unwrap();
    assert_eq!(rsp.result.code, 1000);

    let result = rsp.res_data().unwrap();
    assert_eq!(result.check_data.domain_list[0].domain.name, "example.com".into());
    assert!(!result.check_data.domain_list[0].domain.available);
    assert_eq!(result.check_data.domain_list[1].domain.name, "example.net".into());
    assert!(result.check_data.domain_list[1].domain.available);

    // Strict write-then-read alternation: the output holds exactly the
    // login frame then the check frame, in order.
    let login_doc = epp_client::serialize_command::<Login, NoExtension>(&login(), None, CLTRID)
        .unwrap();
    let check_doc = epp_client::serialize_command::<DomainCheck, NoExtension>(
        &DomainCheck::new(vec!["example.com", "example.net"]),
        None,
        CLTRID,
    )
    .unwrap();
    let mut expected = frame(&login_doc);
    expected.extend_from_slice(&frame(&check_doc));
    assert_eq!(client.stream.output, expected);
}

#[test]
fn mismatched_transaction_id_is_a_correlation_error() {
    let mut input = frame(&greeting_xml());
    input.extend_from_slice(&frame(&success_response(CLTRID)));
    input.extend_from_slice(&frame(&success_response("cltrid:some-other-id")));

    let mut client = EppClient::new("test".to_string(), MemStream::new(input)).unwrap();
    client.login(&login(), CLTRID).unwrap();

    let r = client.transact::<DomainCheck, NoExtension>(
        &DomainCheck::new(vec!["example.com"]),
        None,
        CLTRID,
    );
    match r {
        Err(EppError::Correlation { sent, received }) => {
            assert_eq!(sent, CLTRID.to_string());
            assert_eq!(received, Some("cltrid:some-other-id".to_string()));
        }
        other => panic!("expected a correlation error, got {:?}", other),
    }
    // The session is desynchronized and must close.
    assert_eq!(client.state, SessionState::Closed);
}

#[test]
fn command_before_greeting_is_a_protocol_state_error() {
    let input = frame(&greeting_xml());
    let mut client = EppClient::connect("test".to_string(), MemStream::new(input));
    let r = client.transact::<DomainCheck, NoExtension>(
        &DomainCheck::new(vec!["example.com"]),
        None,
        CLTRID,
    );
    assert!(matches!(r, Err(EppError::ProtocolState { .. })));
    assert_eq!(client.state, SessionState::AwaitingGreeting);
}

#[test]
fn command_before_login_is_a_protocol_state_error() {
    let input = frame(&greeting_xml());
    let mut client = EppClient::new("test".to_string(), MemStream::new(input)).unwrap();
    let r = client.transact::<DomainCheck, NoExtension>(
        &DomainCheck::new(vec!["example.com"]),
        None,
        CLTRID,
    );
    assert!(matches!(r, Err(EppError::ProtocolState { .. })));
}

#[test]
fn command_after_logout_is_a_protocol_state_error() {
    let mut input = frame(&greeting_xml());
    input.extend_from_slice(&frame(&success_response(CLTRID)));
    input.extend_from_slice(&frame(&success_response(CLTRID)));

    let mut client = EppClient::new("test".to_string(), MemStream::new(input)).unwrap();
    client.login(&login(), CLTRID).unwrap();
    client.logout(CLTRID).unwrap();
    assert_eq!(client.state, SessionState::Closed);

    let r = client.transact::<DomainCheck, NoExtension>(
        &DomainCheck::new(vec!["example.com"]),
        None,
        CLTRID,
    );
    assert!(matches!(r, Err(EppError::ProtocolState { .. })));
}

#[test]
fn greeting_is_read_exactly_once() {
    let input = frame(&greeting_xml());
    let mut client = EppClient::connect("test".to_string(), MemStream::new(input));
    client.read_greeting().unwrap();
    let r = client.read_greeting();
    assert!(matches!(r, Err(EppError::ProtocolState { .. })));
}

#[test]
fn failed_login_leaves_the_session_greeted() {
    let mut input = frame(&greeting_xml());
    let error_response = format!(
        "{}\r\n<epp xmlns=\"urn:ietf:params:xml:ns:epp-1.0\"><response>\
         <result code=\"2200\"><msg>Authentication error</msg></result>\
         <trID><clTRID>{}</clTRID><svTRID>{}</svTRID></trID></response></epp>",
        HEADER, CLTRID, SVTRID
    );
    input.extend_from_slice(&frame(&error_response));

    let mut client = EppClient::new("test".to_string(), MemStream::new(input)).unwrap();
    let rsp = client.login(&login(), CLTRID).unwrap();
    assert_eq!(client.state, SessionState::Greeted);
    let err = rsp.registry_error().unwrap();
    assert_eq!(err.code, 2200);
    assert_eq!(err.message, "Authentication error".to_string());
}

#[test]
fn generated_ids_are_distinct() {
    let mut client = EppClient::connect("test".to_string(), MemStream::new(Vec::new()));
    let a = client.generate_client_tr_id();
    let b = client.generate_client_tr_id();
    assert_eq!(a, "test:0".to_string());
    assert_eq!(b, "test:1".to_string());
    assert_ne!(a, b);
}

#[test]
fn handle_response_distinguishes_decode_from_correlation() {
    // An unreadable payload is a decode error.
    let r = epp_client::handle_response::<(), NoExtension>(b"not a document".to_vec(), CLTRID);
    assert!(matches!(r, Err(EppError::Decode { .. })));

    // A readable payload with another echoed id is a correlation error.
    let payload = success_response("cltrid:someone-else").into_bytes();
    let r = epp_client::handle_response::<(), NoExtension>(payload, CLTRID);
    assert!(matches!(r, Err(EppError::Correlation { .. })));

    // A readable payload echoing the sent id succeeds.
    let payload = success_response(CLTRID).into_bytes();
    let r = epp_client::handle_response::<(), NoExtension>(payload, CLTRID);
    assert_eq!(r.unwrap().result.code, 1000);
}
