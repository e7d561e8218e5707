//! Types for the host create request.

use vstd::prelude::*;

use super::XMLNS;
use crate::common::host_addr_nodes;
use crate::common::HostAddr;
use crate::common::NoExtension;
use crate::common::StringValue;
use crate::request::EppCommand;
use crate::request::Transaction;
use crate::xml::append_nodes;
use crate::xml::attr;
use crate::xml::attrs_view;
use crate::xml::children_view;
use crate::xml::elem;
use crate::xml::elem_with_attrs;
use crate::xml::spec_text_node;
use crate::xml::text_node;
use crate::xml::SpecAttr;
use crate::xml::SpecNode;
use crate::xml::XmlAttr;
use crate::xml::XmlNode;

verus! {

/// The data under the host `<create>` tag.
#[derive(Debug, PartialEq, Eq)]
pub struct HostCreateRequestData {
    /// The XML namespace for host commands.
    pub xmlns: String,
    /// The new host's name.
    pub name: StringValue,
    /// The new host's addresses.
    pub addresses: Option<Vec<HostAddr>>,
}

/// The `<create>` command for hosts.
#[derive(Debug, PartialEq, Eq)]
pub struct HostCreate {
    /// The data under the `<create>` tag.
    pub host: HostCreateRequestData,
}

impl HostCreate {
    pub fn new(host: &str, addresses: Vec<HostAddr>) -> (r: HostCreate)
        ensures
            r.host.xmlns@ == XMLNS@,
            r.host.name@ == host@,
            r.host.addresses matches Some(a) && a == addresses,
    {
        HostCreate {
            host: HostCreateRequestData {
                xmlns: String::from_str(XMLNS),
                name: StringValue::new(host),
                addresses: Some(addresses),
            },
        }
    }
}

impl EppCommand for HostCreate {
    /// `<create><host:create xmlns:host="..">` with the name and the
    /// addresses.
    open spec fn spec_node(&self) -> SpecNode {
        SpecNode::Elem {
            name: "create"@,
            attrs: Seq::empty(),
            children: seq![
                SpecNode::Elem {
                    name: "host:create"@,
                    attrs: seq![SpecAttr { name: "xmlns:host"@, value: self.host.xmlns@ }],
                    children: seq![spec_text_node("host:name"@, self.host.name@)] + (
                    match self.host.addresses {
                        Some(addrs) => addrs@.map_values(
                            |a: HostAddr| a.spec_node("host:addr"@),
                        ),
                        None => Seq::empty(),
                    }),
                },
            ],
        }
    }

    fn command_node(&self) -> (r: XmlNode) {
        let mut inner_children: Vec<XmlNode> = Vec::new();
        inner_children.push(text_node("host:name", String::from_str(self.host.name.as_str())));
        match &self.host.addresses {
            Some(addrs) => {
                append_nodes(&mut inner_children, host_addr_nodes("host:addr", addrs));
            },
            None => {},
        }
        let mut attrs: Vec<XmlAttr> = Vec::new();
        attrs.push(attr("xmlns:host", String::from_str(self.host.xmlns.as_str())));
        proof {
            assert(attrs_view(attrs) =~= seq![SpecAttr {
                name: "xmlns:host"@,
                value: self.host.xmlns@,
            }]);
            assert(children_view(inner_children) =~= self.spec_node()
                ->Elem_children[0]->Elem_children);
        }
        let inner = elem_with_attrs("host:create", attrs, inner_children);
        let mut children: Vec<XmlNode> = Vec::new();
        children.push(inner);
        proof {
            assert(children_view(children) =~= self.spec_node()->Elem_children);
        }
        elem("create", children)
    }
}

impl Transaction<NoExtension> for HostCreate {
    type Response = ();

    type ExtensionResponse = NoExtension;
}

} // verus!
