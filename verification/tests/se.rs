//! Request serialization tests: each command's document, byte for byte.

use epp_client::contact::check::ContactCheck;
use epp_client::contact::create::ContactCreate;
use epp_client::contact::delete::ContactDelete;
use epp_client::contact::info::ContactInfo;
use epp_client::contact::update::ContactUpdate;
use epp_client::domain::check::DomainCheck;
use epp_client::domain::create::DomainCreate;
use epp_client::domain::delete::DomainDelete;
use epp_client::domain::info::DomainInfo;
use epp_client::domain::renew::DomainRenew;
use epp_client::domain::transfer::DomainTransferRequest;
use epp_client::domain::transfer::DomainTransferUpdate;
use epp_client::domain::update::DomainAddRemove;
use epp_client::domain::update::DomainChangeInfo;
use epp_client::domain::update::DomainUpdate;
use epp_client::extensions::consolidate;
use epp_client::extensions::consolidate::GMonthDay;
use epp_client::extensions::namestore::NameStore;
use epp_client::extensions::rgp::request::RgpRestoreRequest;
use epp_client::host::check::HostCheck;
use epp_client::host::create::HostCreate;
use epp_client::host::delete::HostDelete;
use epp_client::host::info::HostInfo;
use epp_client::host::update::HostAddRemove;
use epp_client::host::update::HostChangeInfo;
use epp_client::host::update::HostUpdate;
use epp_client::message::ack::MessageAck;
use epp_client::message::poll::MessagePoll;
use epp_client::Address;
use epp_client::ContactStatus;
use epp_client::Country;
use epp_client::Date;
use epp_client::DomainAuthInfo;
use epp_client::DomainContact;
use epp_client::DomainStatus;
use epp_client::EppObject;
use epp_client::Hello;
use epp_client::HostAddr;
use epp_client::HostAttr;
use epp_client::HostAttrList;
use epp_client::HostList;
use epp_client::HostObjList;
use epp_client::HostStatus;
use epp_client::Login;
use epp_client::Logout;
use epp_client::Phone;
use epp_client::PostalInfo;
use epp_client::Transaction;
use epp_client::NoExtension;

const CLTRID: &str = "cltrid:1626454866";
const HEADER: &str = "<?xml version=\"1.0\" encoding=\"UTF-8\" standalone=\"no\"?>";

fn doc(body: &str) -> String {
    format!("{}\r\n<epp xmlns=\"urn:ietf:params:xml:ns:epp-1.0\">{}</epp>", HEADER, body)
}

fn command(body: &str) -> String {
    doc(&format!("<command>{}<clTRID>{}</clTRID></command>", body, CLTRID))
}

fn command_with_extension(body: &str, extension: &str) -> String {
    doc(&format!(
        "<command>{}<extension>{}</extension><clTRID>{}</clTRID></command>",
        body, extension, CLTRID
    ))
}

#[test]
fn hello() {
    let xml = doc("<hello/>");
    let serialized = EppObject::<Hello>::build(Hello).serialize().unwrap();

    assert_eq!(xml, serialized);
}

#[test]
fn login() {
    let ext_uris = Some(vec![
        "http://schema.ispapi.net/epp/xml/keyvalue-1.0".to_string()
    ]);

    let xml = command(
        "<login><clID>username</clID><pw>password</pw>\
         <options><version>1.0</version><lang>en</lang></options>\
         <svcs><objURI>urn:ietf:params:xml:ns:host-1.0</objURI>\
         <objURI>urn:ietf:params:xml:ns:contact-1.0</objURI>\
         <objURI>urn:ietf:params:xml:ns:domain-1.0</objURI>\
         <svcExtension><extURI>http://schema.ispapi.net/epp/xml/keyvalue-1.0</extURI></svcExtension>\
         </svcs></login>",
    );
    let object = Login::new("username", "password", ext_uris);
    let serialized = object.serialize_request(None, CLTRID).unwrap();

    assert_eq!(xml, serialized);
}

#[test]
fn logout() {
    let xml = command("<logout/>");
    let object = Logout;
    let serialized = object.serialize_request(None, CLTRID).unwrap();

    assert_eq!(xml, serialized);
}

#[test]
fn contact_check() {
    let xml = command(
        "<check><contact:check xmlns:contact=\"urn:ietf:params:xml:ns:contact-1.0\">\
         <contact:id>eppdev-contact-1</contact:id>\
         <contact:id>eppdev-contact-2</contact:id>\
         </contact:check></check>",
    );
    let object = ContactCheck::new(&["eppdev-contact-1", "eppdev-contact-2"]);
    let serialized =
        <ContactCheck as Transaction<NoExtension>>::serialize_request(object, None, CLTRID)
            .unwrap();

    assert_eq!(xml, serialized);
}

#[test]
fn contact_create() {
    let xml = command(
        "<create><contact:create xmlns:contact=\"urn:ietf:params:xml:ns:contact-1.0\">\
         <contact:id>eppdev-contact-3</contact:id>\
         <contact:postalInfo type=\"int\"><contact:name>John Doe</contact:name>\
         <contact:org>Acme Widgets</contact:org>\
         <contact:addr><contact:street>58</contact:street><contact:street>Orchid Road</contact:street>\
         <contact:city>Paris</contact:city><contact:sp>Paris</contact:sp><contact:pc>392374</contact:pc>\
         <contact:cc>FR</contact:cc></contact:addr></contact:postalInfo>\
         <contact:voice x=\"123\">+33.47237942</contact:voice>\
         <contact:fax x=\"677\">+33.86698799</contact:fax>\
         <contact:email>contact@eppdev.net</contact:email>\
         <contact:authInfo><contact:pw>eppdev-387323</contact:pw></contact:authInfo>\
         </contact:create></create>",
    );

    let street = &["58", "Orchid Road"];
    let address = Address::new(street, "Paris", "Paris", "392374", "FR".parse().unwrap());
    let postal_info = PostalInfo::new("int", "John Doe", "Acme Widgets", address);
    let mut voice = Phone::new("+33.47237942");
    voice.set_extension("123");
    let mut fax = Phone::new("+33.86698799");
    fax.set_extension("677");

    let mut object = ContactCreate::new(
        "eppdev-contact-3",
        "contact@eppdev.net",
        postal_info,
        voice,
        "eppdev-387323",
    );
    object.set_fax(fax);

    let serialized =
        <ContactCreate as Transaction<NoExtension>>::serialize_request(object, None, CLTRID)
            .unwrap();

    assert_eq!(xml, serialized);
}

#[test]
fn contact_info() {
    let xml = command(
        "<info><contact:info xmlns:contact=\"urn:ietf:params:xml:ns:contact-1.0\">\
         <contact:id>eppdev-contact-3</contact:id>\
         <contact:authInfo><contact:pw>eppdev-387323</contact:pw></contact:authInfo>\
         </contact:info></info>",
    );

    let object = ContactInfo::new("eppdev-contact-3", "eppdev-387323");

    let serialized =
        <ContactInfo as Transaction<NoExtension>>::serialize_request(object, None, CLTRID)
            .unwrap();

    assert_eq!(xml, serialized);
}

#[test]
fn contact_update() {
    let xml = command(
        "<update><contact:update xmlns:contact=\"urn:ietf:params:xml:ns:contact-1.0\">\
         <contact:id>eppdev-contact-3</contact:id>\
         <contact:add><contact:status s=\"clientTransferProhibited\"/></contact:add>\
         <contact:rem><contact:status s=\"clientDeleteProhibited\"/></contact:rem>\
         <contact:chg><contact:postalInfo type=\"loc\"><contact:name>John Doe</contact:name>\
         <contact:org>Acme Widgets</contact:org>\
         <contact:addr><contact:street>58</contact:street><contact:street>Orchid Road</contact:street>\
         <contact:city>Paris</contact:city><contact:sp>Paris</contact:sp><contact:pc>392374</contact:pc>\
         <contact:cc>FR</contact:cc></contact:addr></contact:postalInfo>\
         <contact:voice>+33.47237942</contact:voice>\
         <contact:email>newemail@eppdev.net</contact:email>\
         <contact:authInfo><contact:pw>eppdev-387323</contact:pw></contact:authInfo>\
         </contact:chg></contact:update></update>",
    );

    let mut object = ContactUpdate::new("eppdev-contact-3");

    let street = &["58", "Orchid Road"];
    let address = Address::new(street, "Paris", "Paris", "392374", "FR".parse().unwrap());
    let postal_info = PostalInfo::new("loc", "John Doe", "Acme Widgets", address);
    let voice = Phone::new("+33.47237942");

    object.set_info("newemail@eppdev.net", postal_info, voice, "eppdev-387323");
    let add_statuses = vec![ContactStatus {
        status: "clientTransferProhibited".to_string(),
    }];
    object.add(add_statuses);
    let remove_statuses = vec![ContactStatus {
        status: "clientDeleteProhibited".to_string(),
    }];
    object.remove(remove_statuses);

    let serialized =
        <ContactUpdate as Transaction<NoExtension>>::serialize_request(object, None, CLTRID)
            .unwrap();

    assert_eq!(xml, serialized);
}

#[test]
fn contact_delete() {
    let xml = command(
        "<delete><contact:delete xmlns:contact=\"urn:ietf:params:xml:ns:contact-1.0\">\
         <contact:id>eppdev-contact-3</contact:id></contact:delete></delete>",
    );

    let object = ContactDelete::new("eppdev-contact-3");

    let serialized =
        <ContactDelete as Transaction<NoExtension>>::serialize_request(object, None, CLTRID)
            .unwrap();

    assert_eq!(xml, serialized);
}

#[test]
fn domain_check() {
    let xml = command(
        "<check><domain:check xmlns:domain=\"urn:ietf:params:xml:ns:domain-1.0\">\
         <domain:name>eppdev.com</domain:name><domain:name>eppdev.net</domain:name>\
         </domain:check></check>",
    );

    let object = DomainCheck::new(vec!["eppdev.com", "eppdev.net"]);

    let serialized =
        <DomainCheck as Transaction<NoExtension>>::serialize_request(object, None, CLTRID)
            .unwrap();

    assert_eq!(xml, serialized);
}

#[test]
fn domain_create() {
    let xml = command(
        "<create><domain:create xmlns:domain=\"urn:ietf:params:xml:ns:domain-1.0\">\
         <domain:name>eppdev-1.com</domain:name><domain:period unit=\"y\">1</domain:period>\
         <domain:registrant>eppdev-contact-3</domain:registrant>\
         <domain:contact type=\"admin\">eppdev-contact-3</domain:contact>\
         <domain:contact type=\"tech\">eppdev-contact-3</domain:contact>\
         <domain:contact type=\"billing\">eppdev-contact-3</domain:contact>\
         <domain:authInfo><domain:pw>epP4uthd#v</domain:pw></domain:authInfo>\
         </domain:create></create>",
    );

    let contacts = vec![
        DomainContact {
            contact_type: "admin".to_string(),
            id: "eppdev-contact-3".to_string(),
        },
        DomainContact {
            contact_type: "tech".to_string(),
            id: "eppdev-contact-3".to_string(),
        },
        DomainContact {
            contact_type: "billing".to_string(),
            id: "eppdev-contact-3".to_string(),
        },
    ];

    let object = DomainCreate::new(
        "eppdev-1.com",
        1,
        None,
        Some("eppdev-contact-3"),
        "epP4uthd#v",
        Some(contacts),
    );

    let serialized =
        <DomainCreate as Transaction<NoExtension>>::serialize_request(object, None, CLTRID)
            .unwrap();

    assert_eq!(xml, serialized);
}

#[test]
fn domain_create_with_host_obj() {
    let xml = command(
        "<create><domain:create xmlns:domain=\"urn:ietf:params:xml:ns:domain-1.0\">\
         <domain:name>eppdev-1.com</domain:name><domain:period unit=\"y\">1</domain:period>\
         <domain:ns><domain:hostObj>ns1.test.com</domain:hostObj>\
         <domain:hostObj>ns2.test.com</domain:hostObj></domain:ns>\
         <domain:registrant>eppdev-contact-3</domain:registrant>\
         <domain:contact type=\"admin\">eppdev-contact-3</domain:contact>\
         <domain:contact type=\"tech\">eppdev-contact-3</domain:contact>\
         <domain:contact type=\"billing\">eppdev-contact-3</domain:contact>\
         <domain:authInfo><domain:pw>epP4uthd#v</domain:pw></domain:authInfo>\
         </domain:create></create>",
    );

    let contacts = vec![
        DomainContact {
            contact_type: "admin".to_string(),
            id: "eppdev-contact-3".to_string(),
        },
        DomainContact {
            contact_type: "tech".to_string(),
            id: "eppdev-contact-3".to_string(),
        },
        DomainContact {
            contact_type: "billing".to_string(),
            id: "eppdev-contact-3".to_string(),
        },
    ];

    let ns = Some(HostList::HostObjList(HostObjList {
        hosts: vec!["ns1.test.com".into(), "ns2.test.com".into()],
    }));

    let object = DomainCreate::new(
        "eppdev-1.com",
        1,
        ns,
        Some("eppdev-contact-3"),
        "epP4uthd#v",
        Some(contacts),
    );

    let serialized =
        <DomainCreate as Transaction<NoExtension>>::serialize_request(object, None, CLTRID)
            .unwrap();

    assert_eq!(xml, serialized);
}

#[test]
fn domain_create_with_host_attr() {
    let xml = command(
        "<create><domain:create xmlns:domain=\"urn:ietf:params:xml:ns:domain-1.0\">\
         <domain:name>eppdev-2.com</domain:name><domain:period unit=\"y\">1</domain:period>\
         <domain:ns><domain:hostAttr><domain:hostName>ns1.eppdev-1.com</domain:hostName></domain:hostAttr>\
         <domain:hostAttr><domain:hostName>ns2.eppdev-1.com</domain:hostName>\
         <domain:hostAddr ip=\"v4\">177.232.12.58</domain:hostAddr>\
         <domain:hostAddr ip=\"v6\">2404:6800:4001:801::200e</domain:hostAddr>\
         </domain:hostAttr></domain:ns>\
         <domain:registrant>eppdev-contact-3</domain:registrant>\
         <domain:contact type=\"admin\">eppdev-contact-3</domain:contact>\
         <domain:contact type=\"tech\">eppdev-contact-3</domain:contact>\
         <domain:contact type=\"billing\">eppdev-contact-3</domain:contact>\
         <domain:authInfo><domain:pw>epP4uthd#v</domain:pw></domain:authInfo>\
         </domain:create></create>",
    );

    let contacts = vec![
        DomainContact {
            contact_type: "admin".to_string(),
            id: "eppdev-contact-3".to_string(),
        },
        DomainContact {
            contact_type: "tech".to_string(),
            id: "eppdev-contact-3".to_string(),
        },
        DomainContact {
            contact_type: "billing".to_string(),
            id: "eppdev-contact-3".to_string(),
        },
    ];

    let host_attr = HostList::HostAttrList(HostAttrList {
        hosts: vec![
            HostAttr {
                name: "ns1.eppdev-1.com".into(),
                addresses: None,
            },
            HostAttr {
                name: "ns2.eppdev-1.com".into(),
                addresses: Some(vec![
                    HostAddr::new_v4("177.232.12.58"),
                    HostAddr::new_v6("2404:6800:4001:801::200e"),
                ]),
            },
        ],
    });

    let object = DomainCreate::new(
        "eppdev-2.com",
        1,
        Some(host_attr),
        Some("eppdev-contact-3"),
        "epP4uthd#v",
        Some(contacts),
    );

    let serialized =
        <DomainCreate as Transaction<NoExtension>>::serialize_request(object, None, CLTRID)
            .unwrap();

    assert_eq!(xml, serialized);
}

#[test]
fn domain_info() {
    let xml = command(
        "<info><domain:info xmlns:domain=\"urn:ietf:params:xml:ns:domain-1.0\">\
         <domain:name hosts=\"all\">eppdev.com</domain:name>\
         <domain:authInfo><domain:pw>2fooBAR</domain:pw></domain:authInfo>\
         </domain:info></info>",
    );

    let object = DomainInfo::new("eppdev.com", Some("2fooBAR"));

    let serialized =
        <DomainInfo as Transaction<NoExtension>>::serialize_request(object, None, CLTRID)
            .unwrap();

    assert_eq!(xml, serialized);
}

#[test]
fn domain_update() {
    let xml = command(
        "<update><domain:update xmlns:domain=\"urn:ietf:params:xml:ns:domain-1.0\">\
         <domain:name>eppdev.com</domain:name>\
         <domain:add><domain:status s=\"clientDeleteProhibited\"/></domain:add>\
         <domain:rem><domain:contact type=\"billing\">eppdev-contact-2</domain:contact></domain:rem>\
         <domain:chg><domain:authInfo><domain:pw>epP5uthd#v</domain:pw></domain:authInfo></domain:chg>\
         </domain:update></update>",
    );

    let mut object = DomainUpdate::new("eppdev.com");

    let add = DomainAddRemove {
        ns: None,
        contacts: None,
        statuses: Some(vec![DomainStatus {
            status: "clientDeleteProhibited".to_string(),
        }]),
    };

    let remove = DomainAddRemove {
        ns: None,
        contacts: Some(vec![DomainContact {
            contact_type: "billing".to_string(),
            id: "eppdev-contact-2".to_string(),
        }]),
        statuses: None,
    };

    let change_info = DomainChangeInfo {
        registrant: None,
        auth_info: Some(DomainAuthInfo::new("epP5uthd#v")),
    };

    object.add(add);
    object.remove(remove);
    object.info(change_info);

    let serialized =
        <DomainUpdate as Transaction<NoExtension>>::serialize_request(object, None, CLTRID)
            .unwrap();

    assert_eq!(xml, serialized);
}

#[test]
fn domain_delete() {
    let xml = command(
        "<delete><domain:delete xmlns:domain=\"urn:ietf:params:xml:ns:domain-1.0\">\
         <domain:name>eppdev.com</domain:name></domain:delete></delete>",
    );

    let object = DomainDelete::new("eppdev.com");

    let serialized =
        <DomainDelete as Transaction<NoExtension>>::serialize_request(object, None, CLTRID)
            .unwrap();

    assert_eq!(xml, serialized);
}

#[test]
fn domain_renew() {
    let xml = command(
        "<renew><domain:renew xmlns:domain=\"urn:ietf:params:xml:ns:domain-1.0\">\
         <domain:name>eppdev.com</domain:name><domain:curExpDate>2022-07-23</domain:curExpDate>\
         <domain:period unit=\"y\">1</domain:period></domain:renew></renew>",
    );

    let exp_date = Date::from_ymd(2022, 7, 23);
    let object = DomainRenew::new("eppdev.com", exp_date, 1);

    let serialized =
        <DomainRenew as Transaction<NoExtension>>::serialize_request(object, None, CLTRID)
            .unwrap();

    assert_eq!(xml, serialized);
}

#[test]
fn domain_transfer_request() {
    let xml = command(
        "<transfer op=\"request\"><domain:transfer xmlns:domain=\"urn:ietf:params:xml:ns:domain-1.0\">\
         <domain:name>testing.com</domain:name><domain:period unit=\"y\">1</domain:period>\
         <domain:authInfo><domain:pw>epP4uthd#v</domain:pw></domain:authInfo>\
         </domain:transfer></transfer>",
    );

    let object = DomainTransferRequest::new("testing.com", Some(1), "epP4uthd#v");

    let serialized = <DomainTransferRequest as Transaction<NoExtension>>::serialize_request(
        object, None, CLTRID,
    )
    .unwrap();

    assert_eq!(xml, serialized);
}

#[test]
fn domain_transfer_approve() {
    let xml = command(
        "<transfer op=\"approve\"><domain:transfer xmlns:domain=\"urn:ietf:params:xml:ns:domain-1.0\">\
         <domain:name>testing.com</domain:name></domain:transfer></transfer>",
    );

    let object = DomainTransferUpdate::approve("testing.com");

    let serialized = <DomainTransferUpdate as Transaction<NoExtension>>::serialize_request(
        object, None, CLTRID,
    )
    .unwrap();

    assert_eq!(xml, serialized);
}

#[test]
fn domain_transfer_reject() {
    let xml = command(
        "<transfer op=\"reject\"><domain:transfer xmlns:domain=\"urn:ietf:params:xml:ns:domain-1.0\">\
         <domain:name>testing.com</domain:name></domain:transfer></transfer>",
    );

    let object = DomainTransferUpdate::reject("testing.com");

    let serialized = <DomainTransferUpdate as Transaction<NoExtension>>::serialize_request(
        object, None, CLTRID,
    )
    .unwrap();

    assert_eq!(xml, serialized);
}

#[test]
fn domain_transfer_cancel() {
    let xml = command(
        "<transfer op=\"cancel\"><domain:transfer xmlns:domain=\"urn:ietf:params:xml:ns:domain-1.0\">\
         <domain:name>testing.com</domain:name></domain:transfer></transfer>",
    );

    let object = DomainTransferUpdate::cancel("testing.com");

    let serialized = <DomainTransferUpdate as Transaction<NoExtension>>::serialize_request(
        object, None, CLTRID,
    )
    .unwrap();

    assert_eq!(xml, serialized);
}

#[test]
fn domain_transfer_query() {
    let xml = command(
        "<transfer op=\"query\"><domain:transfer xmlns:domain=\"urn:ietf:params:xml:ns:domain-1.0\">\
         <domain:name>testing.com</domain:name>\
         <domain:authInfo><domain:pw>epP4uthd#v</domain:pw></domain:authInfo>\
         </domain:transfer></transfer>",
    );

    let object = DomainTransferRequest::query("testing.com", "epP4uthd#v");

    let serialized = <DomainTransferRequest as Transaction<NoExtension>>::serialize_request(
        object, None, CLTRID,
    )
    .unwrap();

    assert_eq!(xml, serialized);
}

#[test]
fn host_check() {
    let xml = command(
        "<check><host:check xmlns:host=\"urn:ietf:params:xml:ns:host-1.0\">\
         <host:name>ns1.eppdev-1.com</host:name><host:name>host1.eppdev-1.com</host:name>\
         </host:check></check>",
    );

    let object = HostCheck::new(&["ns1.eppdev-1.com", "host1.eppdev-1.com"]);

    let serialized =
        <HostCheck as Transaction<NoExtension>>::serialize_request(object, None, CLTRID)
            .unwrap();

    assert_eq!(xml, serialized);
}

#[test]
fn host_create() {
    let xml = command(
        "<create><host:create xmlns:host=\"urn:ietf:params:xml:ns:host-1.0\">\
         <host:name>host1.eppdev-1.com</host:name>\
         <host:addr ip=\"v4\">29.245.122.14</host:addr>\
         <host:addr ip=\"v6\">2404:6800:4001:801::200e</host:addr>\
         </host:create></create>",
    );

    let addresses = vec![
        HostAddr::new("v4", "29.245.122.14"),
        HostAddr::new("v6", "2404:6800:4001:801::200e"),
    ];

    let object = HostCreate::new("host1.eppdev-1.com", addresses);

    let serialized =
        <HostCreate as Transaction<NoExtension>>::serialize_request(object, None, CLTRID)
            .unwrap();

    assert_eq!(xml, serialized);
}

#[test]
fn host_info() {
    let xml = command(
        "<info><host:info xmlns:host=\"urn:ietf:params:xml:ns:host-1.0\">\
         <host:name>ns1.eppdev-1.com</host:name></host:info></info>",
    );

    let object = HostInfo::new("ns1.eppdev-1.com");

    let serialized =
        <HostInfo as Transaction<NoExtension>>::serialize_request(object, None, CLTRID)
            .unwrap();

    assert_eq!(xml, serialized);
}

#[test]
fn host_update() {
    let xml = command(
        "<update><host:update xmlns:host=\"urn:ietf:params:xml:ns:host-1.0\">\
         <host:name>host1.eppdev-1.com</host:name>\
         <host:add><host:addr ip=\"v6\">2404:6800:4001:801::200e</host:addr></host:add>\
         <host:rem><host:status s=\"clientDeleteProhibited\"/></host:rem>\
         <host:chg><host:name>host2.eppdev-1.com</host:name></host:chg>\
         </host:update></update>",
    );

    let addr = vec![HostAddr::new("v6", "2404:6800:4001:801::200e")];

    let add = HostAddRemove {
        addresses: Some(addr),
        statuses: None,
    };

    let remove = HostAddRemove {
        addresses: None,
        statuses: Some(vec![HostStatus {
            status: "clientDeleteProhibited".to_string(),
        }]),
    };

    let mut object = HostUpdate::new("host1.eppdev-1.com");

    object.add(add);
    object.remove(remove);
    object.info(HostChangeInfo {
        name: "host2.eppdev-1.com".into(),
    });

    let serialized =
        <HostUpdate as Transaction<NoExtension>>::serialize_request(object, None, CLTRID)
            .unwrap();

    assert_eq!(xml, serialized);
}

#[test]
fn host_delete() {
    let xml = command(
        "<delete><host:delete xmlns:host=\"urn:ietf:params:xml:ns:host-1.0\">\
         <host:name>ns1.eppdev-1.com</host:name></host:delete></delete>",
    );

    let object = HostDelete::new("ns1.eppdev-1.com");

    let serialized =
        <HostDelete as Transaction<NoExtension>>::serialize_request(object, None, CLTRID)
            .unwrap();

    assert_eq!(xml, serialized);
}

#[test]
fn message_poll() {
    let xml = command("<poll op=\"req\"/>");

    let object = MessagePoll::default();

    let serialized = object.serialize_request(None, CLTRID).unwrap();

    assert_eq!(xml, serialized);
}

#[test]
fn se_message_ack() {
    let xml = command("<poll op=\"ack\" msgID=\"12345\"/>");

    let object = MessageAck::new(12345);

    let serialized = object.serialize_request(None, CLTRID).unwrap();

    assert_eq!(xml, serialized);
}

#[test]
fn rgp_restore_request() {
    let xml = command_with_extension(
        "<update><domain:update xmlns:domain=\"urn:ietf:params:xml:ns:domain-1.0\">\
         <domain:name>eppdev.com</domain:name><domain:chg/></domain:update></update>",
        "<rgp:update xmlns:rgp=\"urn:ietf:params:xml:ns:rgp-1.0\"><rgp:restore op=\"request\"/></rgp:update>",
    );

    let domain_restore_request = RgpRestoreRequest::new();

    let mut object = DomainUpdate::new("eppdev.com");

    let change_info = DomainChangeInfo {
        registrant: None,
        auth_info: None,
    };

    object.info(change_info);

    let serialized = <DomainUpdate as Transaction<RgpRestoreRequest>>::serialize_request(
        object,
        Some(&domain_restore_request),
        CLTRID,
    )
    .unwrap();

    assert_eq!(xml, serialized);
}

#[test]
fn namestore() {
    let xml = command_with_extension(
        "<check><domain:check xmlns:domain=\"urn:ietf:params:xml:ns:domain-1.0\">\
         <domain:name>example1.com</domain:name><domain:name>example2.com</domain:name>\
         <domain:name>example3.com</domain:name></domain:check></check>",
        "<namestoreExt:namestoreExt xmlns:namestoreExt=\"http://www.verisign-grs.com/epp/namestoreExt-1.1\">\
         <namestoreExt:subProduct>com</namestoreExt:subProduct></namestoreExt:namestoreExt>",
    );

    let namestore_ext = NameStore::new("com");

    let object = DomainCheck::new(vec!["example1.com", "example2.com", "example3.com"]);

    let serialized = <DomainCheck as Transaction<NameStore>>::serialize_request(
        object,
        Some(&namestore_ext),
        CLTRID,
    )
    .unwrap();

    assert_eq!(xml, serialized);
}

#[test]
fn consolidate() {
    let xml = command_with_extension(
        "<update><domain:update xmlns:domain=\"urn:ietf:params:xml:ns:domain-1.0\">\
         <domain:name>eppdev.com</domain:name><domain:chg/></domain:update></update>",
        "<sync:update xmlns:sync=\"http://www.verisign.com/epp/sync-1.0\">\
         <sync:expMonthDay>--05-31</sync:expMonthDay></sync:update>",
    );

    let exp = GMonthDay::new(5, 31, None).unwrap();

    let consolidate_ext = consolidate::Sync::new(exp);

    let mut object = DomainUpdate::new("eppdev.com");

    object.info(DomainChangeInfo {
        registrant: None,
        auth_info: None,
    });

    let serialized = <DomainUpdate as Transaction<consolidate::Sync>>::serialize_request(
        object,
        Some(&consolidate_ext),
        CLTRID,
    )
    .unwrap();

    assert_eq!(xml, serialized);
}

#[test]
fn gmonthday_renders_its_timezone() {
    let eastern = GMonthDay::new(5, 31, Some(120)).unwrap();
    assert_eq!(eastern.text(), "--05-31+02:00".to_string());
    let western = GMonthDay::new(12, 3, Some(-330)).unwrap();
    assert_eq!(western.text(), "--12-03-05:30".to_string());
    let zoneless = GMonthDay::new(5, 31, None).unwrap();
    assert_eq!(zoneless.text(), "--05-31".to_string());
}

#[test]
fn consolidate_with_timezone() {
    let exp = GMonthDay::new(5, 31, Some(120)).unwrap();
    let consolidate_ext = consolidate::Sync::new(exp);

    let mut object = DomainUpdate::new("eppdev.com");
    object.info(DomainChangeInfo {
        registrant: None,
        auth_info: None,
    });

    let serialized = <DomainUpdate as Transaction<consolidate::Sync>>::serialize_request(
        object,
        Some(&consolidate_ext),
        CLTRID,
    )
    .unwrap();

    assert!(serialized.contains("<sync:expMonthDay>--05-31+02:00</sync:expMonthDay>"));
}
