//! Types for the domain delete request.

use vstd::prelude::*;

use super::XMLNS;
use crate::common::NoExtension;
use crate::common::StringValue;
use crate::request::EppCommand;
use crate::request::Transaction;
use crate::xml::attr;
use crate::xml::attrs_view;
use crate::xml::children_view;
use crate::xml::elem;
use crate::xml::elem_with_attrs;
use crate::xml::spec_text_node;
use crate::xml::text_node;
use crate::xml::SpecAttr;
use crate::xml::SpecNode;
use crate::xml::XmlAttr;
use crate::xml::XmlNode;

verus! {

/// The data under the domain `<delete>` tag.
#[derive(Debug, PartialEq, Eq)]
pub struct DomainDeleteRequestData {
    /// The XML namespace for domain commands.
    pub xmlns: String,
    /// The domain to be deleted.
    pub name: StringValue,
}

/// The `<delete>` command for domains.
#[derive(Debug, PartialEq, Eq)]
pub struct DomainDelete {
    /// The data under the `<delete>` tag.
    pub domain: DomainDeleteRequestData,
}

impl DomainDelete {
    pub fn new(name: &str) -> (r: DomainDelete)
        ensures
            r.domain.xmlns@ == XMLNS@,
            r.domain.name@ == name@,
    {
        DomainDelete {
            domain: DomainDeleteRequestData {
                xmlns: String::from_str(XMLNS),
                name: StringValue::new(name),
            },
        }
    }
}

impl EppCommand for DomainDelete {
    /// `<delete><domain:delete xmlns:domain=".."><domain:name>..`
    open spec fn spec_node(&self) -> SpecNode {
        SpecNode::Elem {
            name: "delete"@,
            attrs: Seq::empty(),
            children: seq![
                SpecNode::Elem {
                    name: "domain:delete"@,
                    attrs: seq![SpecAttr { name: "xmlns:domain"@, value: self.domain.xmlns@ }],
                    children: seq![spec_text_node("domain:name"@, self.domain.name@)],
                },
            ],
        }
    }

    fn command_node(&self) -> (r: XmlNode) {
        let mut inner_children: Vec<XmlNode> = Vec::new();
        inner_children.push(text_node("domain:name", String::from_str(self.domain.name.as_str())));
        let mut attrs: Vec<XmlAttr> = Vec::new();
        attrs.push(attr("xmlns:domain", String::from_str(self.domain.xmlns.as_str())));
        proof {
            assert(attrs_view(attrs) =~= seq![SpecAttr {
                name: "xmlns:domain"@,
                value: self.domain.xmlns@,
            }]);
            assert(children_view(inner_children) =~= seq![spec_text_node(
                "domain:name"@,
                self.domain.name@,
            )]);
        }
        let inner = elem_with_attrs("domain:delete", attrs, inner_children);
        let mut children: Vec<XmlNode> = Vec::new();
        children.push(inner);
        proof {
            assert(children_view(children) =~= self.spec_node()->Elem_children);
        }
        elem("delete", children)
    }
}

impl Transaction<NoExtension> for DomainDelete {
    type Response = ();

    type ExtensionResponse = NoExtension;
}

} // verus!
