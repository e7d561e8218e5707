//! Types for the domain info request.

use vstd::prelude::*;

use super::XMLNS;
use crate::common::DomainAuthInfo;
use crate::common::NoExtension;
use crate::common::StringValue;
use crate::request::EppCommand;
use crate::request::Transaction;
use crate::xml::attr;
use crate::xml::attr_text_node;
use crate::xml::attrs_view;
use crate::xml::children_view;
use crate::xml::elem;
use crate::xml::elem_with_attrs;
use crate::xml::spec_attr_text_node;
use crate::xml::SpecAttr;
use crate::xml::SpecNode;
use crate::xml::XmlAttr;
use crate::xml::XmlNode;

verus! {

/// The data under the domain `<info>` tag.
#[derive(Debug, PartialEq, Eq)]
pub struct DomainInfoRequestData {
    /// The XML namespace for domain commands.
    pub xmlns: String,
    /// The domain to be queried, with the `hosts` selector.
    pub name: StringValue,
    /// The authorization password, when known.
    pub auth_info: Option<DomainAuthInfo>,
}

/// The `<info>` command for domains.
#[derive(Debug, PartialEq, Eq)]
pub struct DomainInfo {
    /// The data under the `<info>` tag.
    pub info: DomainInfoRequestData,
}

impl DomainInfo {
    pub fn new(name: &str, auth_password: Option<&str>) -> (r: DomainInfo)
        ensures
            r.info.xmlns@ == XMLNS@,
            r.info.name@ == name@,
            match auth_password {
                Some(pw) => r.info.auth_info matches Some(a) && a.password@ == pw@,
                None => r.info.auth_info is None,
            },
    {
        let auth_info = match auth_password {
            Some(pw) => Some(DomainAuthInfo::new(pw)),
            None => None,
        };
        DomainInfo {
            info: DomainInfoRequestData {
                xmlns: String::from_str(XMLNS),
                name: StringValue::new(name),
                auth_info,
            },
        }
    }
}

impl EppCommand for DomainInfo {
    /// `<info><domain:info xmlns:domain=".."><domain:name hosts="all">`
    /// with the authorization data when known.
    open spec fn spec_node(&self) -> SpecNode {
        SpecNode::Elem {
            name: "info"@,
            attrs: Seq::empty(),
            children: seq![
                SpecNode::Elem {
                    name: "domain:info"@,
                    attrs: seq![SpecAttr { name: "xmlns:domain"@, value: self.info.xmlns@ }],
                    children: seq![
                        spec_attr_text_node(
                            "domain:name"@,
                            seq![SpecAttr { name: "hosts"@, value: "all"@ }],
                            self.info.name@,
                        ),
                    ] + (match self.info.auth_info {
                        Some(a) => seq![a.spec_node()],
                        None => Seq::empty(),
                    }),
                },
            ],
        }
    }

    fn command_node(&self) -> (r: XmlNode) {
        let mut name_attrs: Vec<XmlAttr> = Vec::new();
        name_attrs.push(attr("hosts", String::from_str("all")));
        proof {
            assert(attrs_view(name_attrs) =~= seq![SpecAttr { name: "hosts"@, value: "all"@ }]);
        }
        let name_el = attr_text_node(
            "domain:name",
            name_attrs,
            String::from_str(self.info.name.as_str()),
        );
        let mut inner_children: Vec<XmlNode> = Vec::new();
        inner_children.push(name_el);
        match &self.info.auth_info {
            Some(a) => {
                inner_children.push(a.node());
            },
            None => {},
        }
        let mut attrs: Vec<XmlAttr> = Vec::new();
        attrs.push(attr("xmlns:domain", String::from_str(self.info.xmlns.as_str())));
        proof {
            assert(attrs_view(attrs) =~= seq![SpecAttr {
                name: "xmlns:domain"@,
                value: self.info.xmlns@,
            }]);
            assert(children_view(inner_children) =~= self.spec_node()
                ->Elem_children[0]->Elem_children);
        }
        let inner = elem_with_attrs("domain:info", attrs, inner_children);
        let mut children: Vec<XmlNode> = Vec::new();
        children.push(inner);
        proof {
            assert(children_view(children) =~= self.spec_node()->Elem_children);
        }
        elem("info", children)
    }
}

impl Transaction<NoExtension> for DomainInfo {
    type Response = ();

    type ExtensionResponse = NoExtension;
}

} // verus!
