//! Types for the contact delete request.

use vstd::prelude::*;

use super::XMLNS;
use crate::common::NoExtension;
use crate::common::StringValue;
use crate::request::EppCommand;
use crate::request::Transaction;
use crate::xml::attr;
use crate::xml::attrs_view;
use crate::xml::children_view;
use crate::xml::elem;
use crate::xml::elem_with_attrs;
use crate::xml::spec_text_node;
use crate::xml::text_node;
use crate::xml::SpecAttr;
use crate::xml::SpecNode;
use crate::xml::XmlAttr;
use crate::xml::XmlNode;

verus! {

/// The data under the contact `<delete>` tag.
#[derive(Debug, PartialEq, Eq)]
pub struct ContactDeleteRequestData {
    /// The XML namespace for contact commands.
    pub xmlns: String,
    /// The contact to be deleted.
    pub id: StringValue,
}

/// The `<delete>` command for contacts.
#[derive(Debug, PartialEq, Eq)]
pub struct ContactDelete {
    /// The data under the `<delete>` tag.
    pub contact: ContactDeleteRequestData,
}

impl ContactDelete {
    pub fn new(id: &str) -> (r: ContactDelete)
        ensures
            r.contact.xmlns@ == XMLNS@,
            r.contact.id@ == id@,
    {
        ContactDelete {
            contact: ContactDeleteRequestData {
                xmlns: String::from_str(XMLNS),
                id: StringValue::new(id),
            },
        }
    }
}

impl EppCommand for ContactDelete {
    /// `<delete><contact:delete xmlns:contact=".."><contact:id>..`
    open spec fn spec_node(&self) -> SpecNode {
        SpecNode::Elem {
            name: "delete"@,
            attrs: Seq::empty(),
            children: seq![
                SpecNode::Elem {
                    name: "contact:delete"@,
                    attrs: seq![SpecAttr { name: "xmlns:contact"@, value: self.contact.xmlns@ }],
                    children: seq![spec_text_node("contact:id"@, self.contact.id@)],
                },
            ],
        }
    }

    fn command_node(&self) -> (r: XmlNode) {
        let mut inner_children: Vec<XmlNode> = Vec::new();
        inner_children.push(text_node("contact:id", String::from_str(self.contact.id.as_str())));
        let mut attrs: Vec<XmlAttr> = Vec::new();
        attrs.push(attr("xmlns:contact", String::from_str(self.contact.xmlns.as_str())));
        proof {
            assert(attrs_view(attrs) =~= seq![SpecAttr {
                name: "xmlns:contact"@,
                value: self.contact.xmlns@,
            }]);
            assert(children_view(inner_children) =~= seq![spec_text_node(
                "contact:id"@,
                self.contact.id@,
            )]);
        }
        let inner = elem_with_attrs("contact:delete", attrs, inner_children);
        let mut children: Vec<XmlNode> = Vec::new();
        children.push(inner);
        proof {
            assert(children_view(children) =~= self.spec_node()->Elem_children);
        }
        elem("delete", children)
    }
}

impl Transaction<NoExtension> for ContactDelete {
    type Response = ();

    type ExtensionResponse = NoExtension;
}

} // verus!
