//! Types for the namestore extension, routing a command to one of the
//! registry's subproducts.

use vstd::prelude::*;

use crate::common::NoExtension;
use crate::common::StringValue;
use crate::contact::check::ContactCheck;
use crate::contact::create::ContactCreate;
use crate::contact::delete::ContactDelete;
use crate::contact::info::ContactInfo;
use crate::contact::update::ContactUpdate;
use crate::domain::check::DomainCheck;
use crate::domain::create::DomainCreate;
use crate::domain::delete::DomainDelete;
use crate::domain::info::DomainInfo;
use crate::domain::renew::DomainRenew;
use crate::domain::transfer::DomainTransferRequest;
use crate::domain::transfer::DomainTransferUpdate;
use crate::domain::update::DomainUpdate;
use crate::err::EppError;
use crate::host::check::HostCheck;
use crate::host::create::HostCreate;
use crate::host::delete::HostDelete;
use crate::host::info::HostInfo;
use crate::host::update::HostUpdate;
use crate::request::EppExtension;
use crate::request::FromXml;
use crate::request::Transaction;
use crate::xml::attr;
use crate::xml::attrs_view;
use crate::xml::children_view;
use crate::xml::elem_with_attrs;
use crate::xml::spec_node_child;
use crate::xml::spec_text_node;
use crate::xml::spec_text_of;
use crate::xml::text_node;
use crate::xml::SpecAttr;
use crate::xml::SpecNode;
use crate::xml::XmlAttr;
use crate::xml::XmlNode;

verus! {

/// The XML namespace for the namestore extension.
pub const XMLNS: &'static str = "http://www.verisign-grs.com/epp/namestoreExt-1.1";

/// The `<namestoreExt:namestoreExt>` extension body.
#[derive(Debug, PartialEq, Eq)]
pub struct NameStore {
    /// The XML namespace for the namestore extension.
    pub xmlns: String,
    /// The subproduct the command is routed to.
    pub subproduct: StringValue,
}

impl NameStore {
    pub fn new(subproduct: &str) -> (r: NameStore)
        ensures
            r.xmlns@ == XMLNS@,
            r.subproduct@ == subproduct@,
    {
        NameStore {
            xmlns: String::from_str(XMLNS),
            subproduct: StringValue::new(subproduct),
        }
    }
}

impl EppExtension for NameStore {
    /// `<namestoreExt:namestoreExt xmlns:namestoreExt="..">` holding the
    /// subproduct.
    open spec fn spec_ext_node(&self) -> SpecNode {
        SpecNode::Elem {
            name: "namestoreExt:namestoreExt"@,
            attrs: seq![SpecAttr { name: "xmlns:namestoreExt"@, value: self.xmlns@ }],
            children: seq![spec_text_node("namestoreExt:subProduct"@, self.subproduct@)],
        }
    }

    fn ext_node(&self) -> (r: XmlNode) {
        let mut attrs: Vec<XmlAttr> = Vec::new();
        attrs.push(attr("xmlns:namestoreExt", String::from_str(self.xmlns.as_str())));
        let mut children: Vec<XmlNode> = Vec::new();
        children.push(
            text_node("namestoreExt:subProduct", String::from_str(self.subproduct.as_str())),
        );
        proof {
            assert(attrs_view(attrs) =~= self.spec_ext_node()->Elem_attrs);
            assert(children_view(children) =~= self.spec_ext_node()->Elem_children);
        }
        elem_with_attrs("namestoreExt:namestoreExt", attrs, children)
    }
}

impl FromXml for NameStore {
    /// Whether `v` reads the response's `<extension>` element `n`.
    open spec fn spec_decodes(n: SpecNode, v: NameStore) -> bool {
        spec_node_child(n, "namestoreExt:namestoreExt"@) matches Some(ns) && spec_node_child(
            ns,
            "namestoreExt:subProduct"@,
        ) matches Some(sp) && spec_text_of(sp) == Some(v.subproduct@)
    }

    fn from_node(n: &XmlNode) -> (r: Result<NameStore, EppError>) {
        let ns = match n.child("namestoreExt:namestoreExt") {
            Some(x) => x,
            None => {
                return Err(
                    EppError::Decode {
                        message: String::from_str("namestore extension is missing"),
                    },
                );
            },
        };
        let sp = match ns.child("namestoreExt:subProduct") {
            Some(x) => x,
            None => {
                return Err(
                    EppError::Decode { message: String::from_str("subproduct is missing") },
                );
            },
        };
        match sp.text_content() {
            Some(t) => Ok(
                NameStore { xmlns: String::from_str(XMLNS), subproduct: StringValue(t) },
            ),
            None => Err(
                EppError::Decode {
                    message: String::from_str("subproduct is not character data"),
                },
            ),
        }
    }
}

impl Transaction<NameStore> for ContactCheck {
    type Response = <ContactCheck as Transaction<NoExtension>>::Response;

    type ExtensionResponse = NameStore;
}

impl Transaction<NameStore> for ContactCreate {
    type Response = <ContactCreate as Transaction<NoExtension>>::Response;

    type ExtensionResponse = NameStore;
}

impl Transaction<NameStore> for ContactDelete {
    type Response = <ContactDelete as Transaction<NoExtension>>::Response;

    type ExtensionResponse = NameStore;
}

impl Transaction<NameStore> for ContactInfo {
    type Response = <ContactInfo as Transaction<NoExtension>>::Response;

    type ExtensionResponse = NameStore;
}

impl Transaction<NameStore> for ContactUpdate {
    type Response = <ContactUpdate as Transaction<NoExtension>>::Response;

    type ExtensionResponse = NameStore;
}

impl Transaction<NameStore> for DomainCheck {
    type Response = <DomainCheck as Transaction<NoExtension>>::Response;

    type ExtensionResponse = NameStore;
}

impl Transaction<NameStore> for DomainCreate {
    type Response = <DomainCreate as Transaction<NoExtension>>::Response;

    type ExtensionResponse = NameStore;
}

impl Transaction<NameStore> for DomainDelete {
    type Response = <DomainDelete as Transaction<NoExtension>>::Response;

    type ExtensionResponse = NameStore;
}

impl Transaction<NameStore> for DomainInfo {
    type Response = <DomainInfo as Transaction<NoExtension>>::Response;

    type ExtensionResponse = NameStore;
}

impl Transaction<NameStore> for DomainRenew {
    type Response = <DomainRenew as Transaction<NoExtension>>::Response;

    type ExtensionResponse = NameStore;
}

impl Transaction<NameStore> for DomainTransferRequest {
    type Response = <DomainTransferRequest as Transaction<NoExtension>>::Response;

    type ExtensionResponse = NameStore;
}

impl Transaction<NameStore> for DomainTransferUpdate {
    type Response = <DomainTransferUpdate as Transaction<NoExtension>>::Response;

    type ExtensionResponse = NameStore;
}

impl Transaction<NameStore> for DomainUpdate {
    type Response = <DomainUpdate as Transaction<NoExtension>>::Response;

    type ExtensionResponse = NameStore;
}

impl Transaction<NameStore> for HostCheck {
    type Response = <HostCheck as Transaction<NoExtension>>::Response;

    type ExtensionResponse = NameStore;
}

impl Transaction<NameStore> for HostCreate {
    type Response = <HostCreate as Transaction<NoExtension>>::Response;

    type ExtensionResponse = NameStore;
}

impl Transaction<NameStore> for HostDelete {
    type Response = <HostDelete as Transaction<NoExtension>>::Response;

    type ExtensionResponse = NameStore;
}

impl Transaction<NameStore> for HostInfo {
    type Response = <HostInfo as Transaction<NoExtension>>::Response;

    type ExtensionResponse = NameStore;
}

impl Transaction<NameStore> for HostUpdate {
    type Response = <HostUpdate as Transaction<NoExtension>>::Response;

    type ExtensionResponse = NameStore;
}

} // verus!
