//! Response decoding tests: documents read back into typed values.

use epp_client::domain::check::DomainCheck;
use epp_client::domain::renew::DomainRenew;
use epp_client::message::ack::MessageAck;
use epp_client::Date;
use epp_client::NoExtension;
use epp_client::Transaction;

const CLTRID: &str = "cltrid:1626454866";
const SVTRID: &str = "RO-6879-1627224678242975";
const SUCCESS_MSG: &str = "Command completed successfully";
const HEADER: &str = "<?xml version=\"1.0\" encoding=\"UTF-8\" standalone=\"no\"?>";

fn response_doc(body: &str) -> String {
    format!(
        "{}\r\n<epp xmlns=\"urn:ietf:params:xml:ns:epp-1.0\"><response>{}</response></epp>",
        HEADER, body
    )
}

fn success_with(extra: &str) -> String {
    response_doc(&format!(
        "<result code=\"1000\"><msg>{}</msg></result>{}\
         <trID><clTRID>{}</clTRID><svTRID>{}</svTRID></trID>",
        SUCCESS_MSG, extra, CLTRID, SVTRID
    ))
}

fn success_with_extension(res_data: &str, extension: &str) -> String {
    response_doc(&format!(
        "<result code=\"1000\"><msg>{}</msg></result>{}<extension>{}</extension>\
         <trID><clTRID>{}</clTRID><svTRID>{}</svTRID></trID>",
        SUCCESS_MSG, res_data, extension, CLTRID, SVTRID
    ))
}

#[test]
fn ack_message_ack() {
    let xml = response_doc(&format!(
        "<result code=\"1000\"><msg>{}</msg></result>\
         <msgQ count=\"4\" id=\"12345\"/>\
         <trID><svTRID>{}</svTRID></trID>",
        SUCCESS_MSG, SVTRID
    ));
    let object = MessageAck::deserialize_response(xml.as_str()).unwrap();

    let msg = object.message_queue().unwrap();

    assert_eq!(object.result.code, 1000);
    assert_eq!(object.result.message, SUCCESS_MSG.into());
    assert_eq!(msg.count, 4);
    assert_eq!(msg.id, "12345".to_string());
    assert_eq!(object.tr_ids.server_tr_id, SVTRID.into());
}

#[test]
fn check_command() {
    let xml = format!(
        "{}\r\n<epp xmlns=\"urn:ietf:params:xml:ns:epp-1.0\"><command>\
         <check><domain:check xmlns:domain=\"urn:ietf:params:xml:ns:domain-1.0\">\
         <domain:name>eppdev.com</domain:name><domain:name>eppdev.net</domain:name>\
         </domain:check></check><clTRID>{}</clTRID></command></epp>",
        HEADER, CLTRID
    );

    let object = DomainCheck::new(vec!["eppdev.com", "eppdev.net"]);

    let serialized =
        <DomainCheck as Transaction<NoExtension>>::serialize_request(object, None, CLTRID)
            .unwrap();

    assert_eq!(xml, serialized);
}

#[test]
fn check_response() {
    let xml = success_with(
        "<resData><domain:chkData xmlns:domain=\"urn:ietf:params:xml:ns:domain-1.0\">\
         <domain:cd><domain:name avail=\"1\">eppdev.com</domain:name></domain:cd>\
         <domain:cd><domain:name avail=\"0\">eppdev.net</domain:name></domain:cd>\
         </domain:chkData></resData>",
    );
    let object =
        <DomainCheck as Transaction<NoExtension>>::deserialize_response(xml.as_str()).unwrap();

    let result = object.res_data().unwrap();

    assert_eq!(object.result.code, 1000);
    assert_eq!(object.result.message, SUCCESS_MSG.into());
    assert_eq!(
        result.check_data.domain_list[0].domain.name,
        "eppdev.com".into()
    );
    assert!(result.check_data.domain_list[0].domain.available);
    assert_eq!(
        result.check_data.domain_list[1].domain.name,
        "eppdev.net".into()
    );
    assert!(!result.check_data.domain_list[1].domain.available);
    assert_eq!(object.tr_ids.client_tr_id.unwrap(), CLTRID.into());
    assert_eq!(object.tr_ids.server_tr_id, SVTRID.into());
}

#[test]
fn renew_command() {
    let xml = format!(
        "{}\r\n<epp xmlns=\"urn:ietf:params:xml:ns:epp-1.0\"><command>\
         <renew><domain:renew xmlns:domain=\"urn:ietf:params:xml:ns:domain-1.0\">\
         <domain:name>eppdev.com</domain:name><domain:curExpDate>2022-07-23</domain:curExpDate>\
         <domain:period unit=\"y\">1</domain:period></domain:renew></renew>\
         <clTRID>{}</clTRID></command></epp>",
        HEADER, CLTRID
    );

    let exp_date = Date::from_ymd(2022, 7, 23);
    let object = DomainRenew::new("eppdev.com", exp_date, 1);

    let serialized =
        <DomainRenew as Transaction<NoExtension>>::serialize_request(object, None, CLTRID)
            .unwrap();

    assert_eq!(xml, serialized);
}

#[test]
fn renew_response() {
    let xml = success_with(
        "<resData><domain:renData xmlns:domain=\"urn:ietf:params:xml:ns:domain-1.0\">\
         <domain:name>eppdev-1.com</domain:name>\
         <domain:exDate>2024-07-23T15:31:20.0Z</domain:exDate>\
         </domain:renData></resData>",
    );
    let object =
        <DomainRenew as Transaction<NoExtension>>::deserialize_response(xml.as_str()).unwrap();

    let result = object.res_data().unwrap();

    assert_eq!(object.result.code, 1000);
    assert_eq!(object.result.message, SUCCESS_MSG.into());
    assert_eq!(result.renew_data.name, "eppdev-1.com".into());
    assert_eq!(
        *result.renew_data.expiring_at.as_ref().unwrap(),
        "2024-07-23T15:31:20.0Z".into()
    );
    assert_eq!(object.tr_ids.client_tr_id.unwrap(), CLTRID.into());
    assert_eq!(object.tr_ids.server_tr_id, SVTRID.into());
}

#[test]
fn registry_error_on_error_band() {
    let xml = response_doc(&format!(
        "<result code=\"2303\"><msg>Object does not exist</msg></result>\
         <trID><clTRID>{}</clTRID><svTRID>{}</svTRID></trID>",
        CLTRID, SVTRID
    ));
    let object = MessageAck::deserialize_response(xml.as_str()).unwrap();

    let err = object.registry_error().unwrap();
    assert_eq!(err.code, 2303);
    assert_eq!(err.message, "Object does not exist".to_string());
}

#[test]
fn registry_error_none_on_success_band() {
    let xml = success_with("");
    let object = MessageAck::deserialize_response(xml.as_str()).unwrap();

    assert!(object.registry_error().is_none());
    assert_eq!(object.result.code, 1000);
}

#[test]
fn decode_rejects_missing_result() {
    let xml = response_doc(&format!(
        "<trID><clTRID>{}</clTRID><svTRID>{}</svTRID></trID>",
        CLTRID, SVTRID
    ));
    let r = MessageAck::deserialize_response(xml.as_str());
    assert!(matches!(r, Err(epp_client::EppError::Decode { .. })));
}

#[test]
fn decode_rejects_malformed_document() {
    let r = MessageAck::deserialize_response("this is not xml at all");
    assert!(matches!(r, Err(epp_client::EppError::Decode { .. })));
}

#[test]
fn namestore_response() {
    let xml = success_with_extension(
        "",
        "<namestoreExt:namestoreExt xmlns:namestoreExt=\"http://www.verisign-grs.com/epp/namestoreExt-1.1\">\
         <namestoreExt:subProduct>com</namestoreExt:subProduct></namestoreExt:namestoreExt>",
    );
    let object = <DomainCheck as epp_client::Transaction<
        epp_client::extensions::namestore::NameStore,
    >>::deserialize_response(xml.as_str())
    .unwrap();

    let ext = object.extension.unwrap();
    assert_eq!(ext.subproduct, "com".into());
    assert_eq!(object.result.code, 1000);
}

#[test]
fn rgp_restore_response() {
    let xml = success_with_extension(
        "",
        "<rgp:upData xmlns:rgp=\"urn:ietf:params:xml:ns:rgp-1.0\">\
         <rgp:rgpStatus s=\"pendingRestore\"/></rgp:upData>",
    );
    let object = <epp_client::domain::update::DomainUpdate as epp_client::Transaction<
        epp_client::extensions::rgp::request::RgpRestoreRequest,
    >>::deserialize_response(xml.as_str())
    .unwrap();

    let ext = object.extension.unwrap();
    assert_eq!(ext.rgp_status.len(), 1);
    assert_eq!(ext.rgp_status[0].status, "pendingRestore".to_string());
}

#[test]
fn escaped_text_decodes_to_its_characters() {
    let xml = response_doc(&format!(
        "<result code=\"2302\"><msg>AT&amp;T &lt;already&gt; holds &quot;this&quot;</msg></result>\
         <trID><clTRID>{}</clTRID><svTRID>{}</svTRID></trID>",
        CLTRID, SVTRID
    ));
    let object = MessageAck::deserialize_response(xml.as_str()).unwrap();
    assert_eq!(
        object.result.message,
        "AT&T <already> holds \"this\"".into()
    );
}
