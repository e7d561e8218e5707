//! Types for the domain create request.

use vstd::prelude::*;

use super::XMLNS;
use crate::common::DomainAuthInfo;
use crate::common::DomainContact;
use crate::common::HostList;
use crate::common::NoExtension;
use crate::common::Period;
use crate::common::StringValue;
use crate::domain::update::domain_contact_nodes;
use crate::request::EppCommand;
use crate::request::Transaction;
use crate::xml::append_nodes;
use crate::xml::attr;
use crate::xml::attrs_view;
use crate::xml::children_view;
use crate::xml::elem;
use crate::xml::elem_with_attrs;
use crate::xml::spec_text_node;
use crate::xml::text_node;
use crate::xml::SpecAttr;
use crate::xml::SpecNode;
use crate::xml::XmlAttr;
use crate::xml::XmlNode;

verus! {

/// The data under the domain `<create>` tag.
#[derive(Debug, PartialEq, Eq)]
pub struct DomainCreateRequestData {
    /// The XML namespace for domain commands.
    pub xmlns: String,
    /// The domain to be registered.
    pub name: StringValue,
    /// How long to register for.
    pub period: Period,
    /// The domain's name servers.
    pub ns: Option<HostList>,
    /// The registrant contact id.
    pub registrant: Option<StringValue>,
    /// The admin, tech and billing contacts.
    pub contacts: Option<Vec<DomainContact>>,
    /// The authorization password.
    pub auth_info: DomainAuthInfo,
}

/// The `<create>` command for domains.
#[derive(Debug, PartialEq, Eq)]
pub struct DomainCreate {
    /// The data under the `<create>` tag.
    pub domain: DomainCreateRequestData,
}

impl DomainCreate {
    pub fn new(
        name: &str,
        period: u16,
        ns: Option<HostList>,
        registrant_id: Option<&str>,
        auth_password: &str,
        contacts: Option<Vec<DomainContact>>,
    ) -> (r: DomainCreate)
        ensures
            r.domain.xmlns@ == XMLNS@,
            r.domain.name@ == name@,
            r.domain.period.unit@ == "y"@,
            r.domain.period.length == period,
            r.domain.ns == ns,
            match registrant_id {
                Some(id) => r.domain.registrant matches Some(reg) && reg@ == id@,
                None => r.domain.registrant is None,
            },
            r.domain.contacts == contacts,
            r.domain.auth_info.password@ == auth_password@,
    {
        let registrant = match registrant_id {
            Some(id) => Some(StringValue::new(id)),
            None => None,
        };
        DomainCreate {
            domain: DomainCreateRequestData {
                xmlns: String::from_str(XMLNS),
                name: StringValue::new(name),
                period: Period::new(period),
                ns,
                registrant,
                contacts,
                auth_info: DomainAuthInfo::new(auth_password),
            },
        }
    }
}

impl EppCommand for DomainCreate {
    /// `<create><domain:create xmlns:domain="..">` with the name, the
    /// period, then name servers, registrant and contacts when present,
    /// and the authorization data.
    open spec fn spec_node(&self) -> SpecNode {
        SpecNode::Elem {
            name: "create"@,
            attrs: Seq::empty(),
            children: seq![
                SpecNode::Elem {
                    name: "domain:create"@,
                    attrs: seq![SpecAttr { name: "xmlns:domain"@, value: self.domain.xmlns@ }],
                    children: seq![
                        spec_text_node("domain:name"@, self.domain.name@),
                        self.domain.period.spec_node(),
                    ] + (match self.domain.ns {
                        Some(l) => seq![l.spec_node()],
                        None => Seq::empty(),
                    }) + (match self.domain.registrant {
                        Some(reg) => seq![spec_text_node("domain:registrant"@, reg@)],
                        None => Seq::empty(),
                    }) + (match self.domain.contacts {
                        Some(cs) => cs@.map_values(|c: DomainContact| c.spec_node()),
                        None => Seq::empty(),
                    }) + seq![self.domain.auth_info.spec_node()],
                },
            ],
        }
    }

    fn command_node(&self) -> (r: XmlNode) {
        let ghost head = seq![
            spec_text_node("domain:name"@, self.domain.name@),
            self.domain.period.spec_node(),
        ];
        let ghost ns_part = (match &self.domain.ns {
            Some(l) => seq![l.spec_node()],
            None => Seq::<SpecNode>::empty(),
        });
        let ghost reg_part = (match &self.domain.registrant {
            Some(reg) => seq![spec_text_node("domain:registrant"@, reg@)],
            None => Seq::<SpecNode>::empty(),
        });
        let ghost contact_part = (match &self.domain.contacts {
            Some(cs) => cs@.map_values(|c: DomainContact| c.spec_node()),
            None => Seq::<SpecNode>::empty(),
        });
        let mut inner_children: Vec<XmlNode> = Vec::new();
        inner_children.push(text_node("domain:name", String::from_str(self.domain.name.as_str())));
        inner_children.push(self.domain.period.node());
        proof {
            assert(children_view(inner_children) =~= head);
        }
        match &self.domain.ns {
            Some(l) => {
                inner_children.push(l.node());
            },
            None => {},
        }
        proof {
            assert(children_view(inner_children) =~= head + ns_part);
        }
        match &self.domain.registrant {
            Some(reg) => {
                inner_children.push(
                    text_node("domain:registrant", String::from_str(reg.as_str())),
                );
            },
            None => {},
        }
        proof {
            assert(children_view(inner_children) =~= head + ns_part + reg_part);
        }
        match &self.domain.contacts {
            Some(cs) => {
                append_nodes(&mut inner_children, domain_contact_nodes(cs));
            },
            None => {},
        }
        proof {
            assert(children_view(inner_children) =~= head + ns_part + reg_part + contact_part);
        }
        inner_children.push(self.domain.auth_info.node());
        let mut attrs: Vec<XmlAttr> = Vec::new();
        attrs.push(attr("xmlns:domain", String::from_str(self.domain.xmlns.as_str())));
        proof {
            assert(attrs_view(attrs) =~= seq![SpecAttr {
                name: "xmlns:domain"@,
                value: self.domain.xmlns@,
            }]);
            assert(children_view(inner_children) =~= self.spec_node()
                ->Elem_children[0]->Elem_children);
        }
        let inner = elem_with_attrs("domain:create", attrs, inner_children);
        let mut children: Vec<XmlNode> = Vec::new();
        children.push(inner);
        proof {
            assert(children_view(children) =~= self.spec_node()->Elem_children);
        }
        elem("create", children)
    }
}

impl Transaction<NoExtension> for DomainCreate {
    type Response = ();

    type ExtensionResponse = NoExtension;
}

} // verus!
