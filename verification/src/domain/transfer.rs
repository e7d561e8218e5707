//! Types for the domain transfer requests.

use vstd::prelude::*;

use super::XMLNS;
use crate::common::DomainAuthInfo;
use crate::common::NoExtension;
use crate::common::Period;
use crate::common::StringValue;
use crate::request::EppCommand;
use crate::request::Transaction;
use crate::xml::attr;
use crate::xml::attrs_view;
use crate::xml::children_view;
use crate::xml::elem_with_attrs;
use crate::xml::spec_text_node;
use crate::xml::text_node;
use crate::xml::SpecAttr;
use crate::xml::SpecNode;
use crate::xml::XmlAttr;
use crate::xml::XmlNode;

verus! {

/// The data under the domain `<transfer>` tag.
#[derive(Debug, PartialEq, Eq)]
pub struct DomainTransferRequestData {
    /// The XML namespace for domain commands.
    pub xmlns: String,
    /// The domain under transfer.
    pub name: StringValue,
    /// How long to renew for alongside the transfer, when requested.
    pub period: Option<Period>,
    /// The authorization password.
    pub auth_info: Option<DomainAuthInfo>,
}

/// The `<transfer>` command that opens or queries a transfer; the `op`
/// attribute carries which.
#[derive(Debug, PartialEq, Eq)]
pub struct DomainTransferRequest {
    /// The value of the `op` attribute: "request" or "query".
    pub operation: String,
    /// The data under the `<transfer>` tag.
    pub domain: DomainTransferRequestData,
}

impl DomainTransferRequest {
    /// Open a transfer.
    pub fn new(name: &str, years: Option<u16>, auth_password: &str) -> (r: DomainTransferRequest)
        ensures
            r.operation@ == "request"@,
            r.domain.xmlns@ == XMLNS@,
            r.domain.name@ == name@,
            match years {
                Some(y) => r.domain.period matches Some(p) && p.length == y && p.unit@ == "y"@,
                None => r.domain.period is None,
            },
            r.domain.auth_info matches Some(a) && a.password@ == auth_password@,
    {
        let period = match years {
            Some(y) => Some(Period::new(y)),
            None => None,
        };
        DomainTransferRequest {
            operation: String::from_str("request"),
            domain: DomainTransferRequestData {
                xmlns: String::from_str(XMLNS),
                name: StringValue::new(name),
                period,
                auth_info: Some(DomainAuthInfo::new(auth_password)),
            },
        }
    }

    /// Query a transfer already under way.
    pub fn query(name: &str, auth_password: &str) -> (r: DomainTransferRequest)
        ensures
            r.operation@ == "query"@,
            r.domain.xmlns@ == XMLNS@,
            r.domain.name@ == name@,
            r.domain.period is None,
            r.domain.auth_info matches Some(a) && a.password@ == auth_password@,
    {
        DomainTransferRequest {
            operation: String::from_str("query"),
            domain: DomainTransferRequestData {
                xmlns: String::from_str(XMLNS),
                name: StringValue::new(name),
                period: None,
                auth_info: Some(DomainAuthInfo::new(auth_password)),
            },
        }
    }
}

impl EppCommand for DomainTransferRequest {
    /// `<transfer op=".."><domain:transfer xmlns:domain="..">` with the
    /// name, the optional period and the authorization data.
    open spec fn spec_node(&self) -> SpecNode {
        SpecNode::Elem {
            name: "transfer"@,
            attrs: seq![SpecAttr { name: "op"@, value: self.operation@ }],
            children: seq![
                SpecNode::Elem {
                    name: "domain:transfer"@,
                    attrs: seq![SpecAttr { name: "xmlns:domain"@, value: self.domain.xmlns@ }],
                    children: seq![spec_text_node("domain:name"@, self.domain.name@)] + (
                    match self.domain.period {
                        Some(p) => seq![p.spec_node()],
                        None => Seq::empty(),
                    }) + (match self.domain.auth_info {
                        Some(a) => seq![a.spec_node()],
                        None => Seq::empty(),
                    }),
                },
            ],
        }
    }

    fn command_node(&self) -> (r: XmlNode) {
        let mut inner_children: Vec<XmlNode> = Vec::new();
        inner_children.push(text_node("domain:name", String::from_str(self.domain.name.as_str())));
        match &self.domain.period {
            Some(p) => {
                inner_children.push(p.node());
            },
            None => {},
        }
        match &self.domain.auth_info {
            Some(a) => {
                inner_children.push(a.node());
            },
            None => {},
        }
        let mut inner_attrs: Vec<XmlAttr> = Vec::new();
        inner_attrs.push(attr("xmlns:domain", String::from_str(self.domain.xmlns.as_str())));
        proof {
            assert(attrs_view(inner_attrs) =~= seq![SpecAttr {
                name: "xmlns:domain"@,
                value: self.domain.xmlns@,
            }]);
            assert(children_view(inner_children) =~= self.spec_node()
                ->Elem_children[0]->Elem_children);
        }
        let inner = elem_with_attrs("domain:transfer", inner_attrs, inner_children);
        let mut attrs: Vec<XmlAttr> = Vec::new();
        attrs.push(attr("op", String::from_str(self.operation.as_str())));
        let mut children: Vec<XmlNode> = Vec::new();
        children.push(inner);
        proof {
            assert(attrs_view(attrs) =~= seq![SpecAttr { name: "op"@, value: self.operation@ }]);
            assert(children_view(children) =~= self.spec_node()->Elem_children);
        }
        elem_with_attrs("transfer", attrs, children)
    }
}

impl Transaction<NoExtension> for DomainTransferRequest {
    type Response = ();

    type ExtensionResponse = NoExtension;
}

/// The data under the domain `<transfer>` tag of an approve, reject or
/// cancel command.
#[derive(Debug, PartialEq, Eq)]
pub struct DomainTransferUpdateData {
    /// The XML namespace for domain commands.
    pub xmlns: String,
    /// The domain under transfer.
    pub name: StringValue,
}

/// The `<transfer>` command that settles a pending transfer; the `op`
/// attribute carries the decision.
#[derive(Debug, PartialEq, Eq)]
pub struct DomainTransferUpdate {
    /// The value of the `op` attribute: "approve", "reject" or "cancel".
    pub operation: String,
    /// The data under the `<transfer>` tag.
    pub domain: DomainTransferUpdateData,
}

impl DomainTransferUpdate {
    fn with_operation(operation: &str, name: &str) -> (r: DomainTransferUpdate)
        ensures
            r.operation@ == operation@,
            r.domain.xmlns@ == XMLNS@,
            r.domain.name@ == name@,
    {
        DomainTransferUpdate {
            operation: String::from_str(operation),
            domain: DomainTransferUpdateData {
                xmlns: String::from_str(XMLNS),
                name: StringValue::new(name),
            },
        }
    }

    /// Approve a transfer of a domain held here.
    pub fn approve(name: &str) -> (r: DomainTransferUpdate)
        ensures
            r.operation@ == "approve"@,
            r.domain.xmlns@ == XMLNS@,
            r.domain.name@ == name@,
    {
        DomainTransferUpdate::with_operation("approve", name)
    }

    /// Reject a transfer of a domain held here.
    pub fn reject(name: &str) -> (r: DomainTransferUpdate)
        ensures
            r.operation@ == "reject"@,
            r.domain.xmlns@ == XMLNS@,
            r.domain.name@ == name@,
    {
        DomainTransferUpdate::with_operation("reject", name)
    }

    /// Cancel a transfer opened from here.
    pub fn cancel(name: &str) -> (r: DomainTransferUpdate)
        ensures
            r.operation@ == "cancel"@,
            r.domain.xmlns@ == XMLNS@,
            r.domain.name@ == name@,
    {
        DomainTransferUpdate::with_operation("cancel", name)
    }
}

impl EppCommand for DomainTransferUpdate {
    /// `<transfer op=".."><domain:transfer xmlns:domain="..">` with only
    /// the domain name.
    open spec fn spec_node(&self) -> SpecNode {
        SpecNode::Elem {
            name: "transfer"@,
            attrs: seq![SpecAttr { name: "op"@, value: self.operation@ }],
            children: seq![
                SpecNode::Elem {
                    name: "domain:transfer"@,
                    attrs: seq![SpecAttr { name: "xmlns:domain"@, value: self.domain.xmlns@ }],
                    children: seq![spec_text_node("domain:name"@, self.domain.name@)],
                },
            ],
        }
    }

    fn command_node(&self) -> (r: XmlNode) {
        let mut inner_children: Vec<XmlNode> = Vec::new();
        inner_children.push(text_node("domain:name", String::from_str(self.domain.name.as_str())));
        let mut inner_attrs: Vec<XmlAttr> = Vec::new();
        inner_attrs.push(attr("xmlns:domain", String::from_str(self.domain.xmlns.as_str())));
        proof {
            assert(attrs_view(inner_attrs) =~= seq![SpecAttr {
                name: "xmlns:domain"@,
                value: self.domain.xmlns@,
            }]);
            assert(children_view(inner_children) =~= self.spec_node()
                ->Elem_children[0]->Elem_children);
        }
        let inner = elem_with_attrs("domain:transfer", inner_attrs, inner_children);
        let mut attrs: Vec<XmlAttr> = Vec::new();
        attrs.push(attr("op", String::from_str(self.operation.as_str())));
        let mut children: Vec<XmlNode> = Vec::new();
        children.push(inner);
        proof {
            assert(attrs_view(attrs) =~= seq![SpecAttr { name: "op"@, value: self.operation@ }]);
            assert(children_view(children) =~= self.spec_node()->Elem_children);
        }
        elem_with_attrs("transfer", attrs, children)
    }
}

impl Transaction<NoExtension> for DomainTransferUpdate {
    type Response = ();

    type ExtensionResponse = NoExtension;
}

} // verus!
