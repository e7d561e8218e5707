//! Types for the host delete request.

use vstd::prelude::*;

use super::XMLNS;
use crate::common::NoExtension;
use crate::common::StringValue;
use crate::request::EppCommand;
use crate::request::Transaction;
use crate::xml::attr;
use crate::xml::attrs_view;
use crate::xml::children_view;
use crate::xml::elem;
use crate::xml::elem_with_attrs;
use crate::xml::spec_text_node;
use crate::xml::text_node;
use crate::xml::SpecAttr;
use crate::xml::SpecNode;
use crate::xml::XmlAttr;
use crate::xml::XmlNode;

verus! {

/// The data under the host `<delete>` tag.
#[derive(Debug, PartialEq, Eq)]
pub struct HostDeleteRequestData {
    /// The XML namespace for host commands.
    pub xmlns: String,
    /// The host to be deleted.
    pub name: StringValue,
}

/// The `<delete>` command for hosts.
#[derive(Debug, PartialEq, Eq)]
pub struct HostDelete {
    /// The data under the `<delete>` tag.
    pub host: HostDeleteRequestData,
}

impl HostDelete {
    pub fn new(name: &str) -> (r: HostDelete)
        ensures
            r.host.xmlns@ == XMLNS@,
            r.host.name@ == name@,
    {
        HostDelete {
            host: HostDeleteRequestData {
                xmlns: String::from_str(XMLNS),
                name: StringValue::new(name),
            },
        }
    }
}

impl EppCommand for HostDelete {
    /// `<delete><host:delete xmlns:host=".."><host:name>..`
    open spec fn spec_node(&self) -> SpecNode {
        SpecNode::Elem {
            name: "delete"@,
            attrs: Seq::empty(),
            children: seq![
                SpecNode::Elem {
                    name: "host:delete"@,
                    attrs: seq![SpecAttr { name: "xmlns:host"@, value: self.host.xmlns@ }],
                    children: seq![spec_text_node("host:name"@, self.host.name@)],
                },
            ],
        }
    }

    fn command_node(&self) -> (r: XmlNode) {
        let mut inner_children: Vec<XmlNode> = Vec::new();
        inner_children.push(text_node("host:name", String::from_str(self.host.name.as_str())));
        let mut attrs: Vec<XmlAttr> = Vec::new();
        attrs.push(attr("xmlns:host", String::from_str(self.host.xmlns.as_str())));
        proof {
            assert(attrs_view(attrs) =~= seq![SpecAttr {
                name: "xmlns:host"@,
                value: self.host.xmlns@,
            }]);
            assert(children_view(inner_children) =~= seq![spec_text_node(
                "host:name"@,
                self.host.name@,
            )]);
        }
        let inner = elem_with_attrs("host:delete", attrs, inner_children);
        let mut children: Vec<XmlNode> = Vec::new();
        children.push(inner);
        proof {
            assert(children_view(children) =~= self.spec_node()->Elem_children);
        }
        elem("delete", children)
    }
}

impl Transaction<NoExtension> for HostDelete {
    type Response = ();

    type ExtensionResponse = NoExtension;
}

} // verus!
