//! Types for the host info request.

use vstd::prelude::*;

use super::XMLNS;
use crate::common::NoExtension;
use crate::common::StringValue;
use crate::request::EppCommand;
use crate::request::Transaction;
use crate::xml::attr;
use crate::xml::attrs_view;
use crate::xml::children_view;
use crate::xml::elem;
use crate::xml::elem_with_attrs;
use crate::xml::spec_text_node;
use crate::xml::text_node;
use crate::xml::SpecAttr;
use crate::xml::SpecNode;
use crate::xml::XmlAttr;
use crate::xml::XmlNode;

verus! {

/// The data under the host `<info>` tag.
#[derive(Debug, PartialEq, Eq)]
pub struct HostInfoRequestData {
    /// The XML namespace for host commands.
    pub xmlns: String,
    /// The host to be queried.
    pub name: StringValue,
}

/// The `<info>` command for hosts.
#[derive(Debug, PartialEq, Eq)]
pub struct HostInfo {
    /// The data under the `<info>` tag.
    pub info: HostInfoRequestData,
}

impl HostInfo {
    pub fn new(name: &str) -> (r: HostInfo)
        ensures
            r.info.xmlns@ == XMLNS@,
            r.info.name@ == name@,
    {
        HostInfo {
            info: HostInfoRequestData {
                xmlns: String::from_str(XMLNS),
                name: StringValue::new(name),
            },
        }
    }
}

impl EppCommand for HostInfo {
    /// `<info><host:info xmlns:host=".."><host:name>..`
    open spec fn spec_node(&self) -> SpecNode {
        SpecNode::Elem {
            name: "info"@,
            attrs: Seq::empty(),
            children: seq![
                SpecNode::Elem {
                    name: "host:info"@,
                    attrs: seq![SpecAttr { name: "xmlns:host"@, value: self.info.xmlns@ }],
                    children: seq![spec_text_node("host:name"@, self.info.name@)],
                },
            ],
        }
    }

    fn command_node(&self) -> (r: XmlNode) {
        let mut inner_children: Vec<XmlNode> = Vec::new();
        inner_children.push(text_node("host:name", String::from_str(self.info.name.as_str())));
        let mut attrs: Vec<XmlAttr> = Vec::new();
        attrs.push(attr("xmlns:host", String::from_str(self.info.xmlns.as_str())));
        proof {
            assert(attrs_view(attrs) =~= seq![SpecAttr {
                name: "xmlns:host"@,
                value: self.info.xmlns@,
            }]);
            assert(children_view(inner_children) =~= seq![spec_text_node(
                "host:name"@,
                self.info.name@,
            )]);
        }
        let inner = elem_with_attrs("host:info", attrs, inner_children);
        let mut children: Vec<XmlNode> = Vec::new();
        children.push(inner);
        proof {
            assert(children_view(children) =~= self.spec_node()->Elem_children);
        }
        elem("info", children)
    }
}

impl Transaction<NoExtension> for HostInfo {
    type Response = ();

    type ExtensionResponse = NoExtension;
}

} // verus!
