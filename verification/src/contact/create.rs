//! Types for the contact create request.

use vstd::prelude::*;

use super::XMLNS;
use crate::common::ContactAuthInfo;
use crate::common::NoExtension;
use crate::common::Phone;
use crate::common::PostalInfo;
use crate::common::StringValue;
use crate::request::EppCommand;
use crate::request::Transaction;
use crate::xml::attr;
use crate::xml::attrs_view;
use crate::xml::children_view;
use crate::xml::elem;
use crate::xml::elem_with_attrs;
use crate::xml::spec_text_node;
use crate::xml::text_node;
use crate::xml::SpecAttr;
use crate::xml::SpecNode;
use crate::xml::XmlAttr;
use crate::xml::XmlNode;

verus! {

/// The data under the contact `<create>` tag.
#[derive(Debug, PartialEq, Eq)]
pub struct ContactCreateRequestData {
    /// The XML namespace for contact commands.
    pub xmlns: String,
    /// The new contact's id.
    pub id: StringValue,
    /// The new contact's postal info.
    pub postal_info: PostalInfo,
    /// The new contact's voice number.
    pub voice: Phone,
    /// The new contact's fax number, when set.
    pub fax: Option<Phone>,
    /// The new contact's email address.
    pub email: StringValue,
    /// The authorization password.
    pub auth_info: ContactAuthInfo,
}

/// The `<create>` command for contacts.
#[derive(Debug, PartialEq, Eq)]
pub struct ContactCreate {
    /// The data under the `<create>` tag.
    pub contact: ContactCreateRequestData,
}

impl ContactCreate {
    pub fn new(
        id: &str,
        email: &str,
        postal_info: PostalInfo,
        voice: Phone,
        auth_password: &str,
    ) -> (r: ContactCreate)
        ensures
            r.contact.xmlns@ == XMLNS@,
            r.contact.id@ == id@,
            r.contact.postal_info == postal_info,
            r.contact.voice == voice,
            r.contact.fax is None,
            r.contact.email@ == email@,
            r.contact.auth_info.password@ == auth_password@,
    {
        ContactCreate {
            contact: ContactCreateRequestData {
                xmlns: String::from_str(XMLNS),
                id: StringValue::new(id),
                postal_info,
                voice,
                fax: None,
                email: StringValue::new(email),
                auth_info: ContactAuthInfo::new(auth_password),
            },
        }
    }

    /// Set the new contact's fax number.
    pub fn set_fax(&mut self, fax: Phone)
        ensures
            final(self).contact.fax matches Some(f) && f == fax,
            final(self).contact.xmlns == old(self).contact.xmlns,
            final(self).contact.id == old(self).contact.id,
            final(self).contact.postal_info == old(self).contact.postal_info,
            final(self).contact.voice == old(self).contact.voice,
            final(self).contact.email == old(self).contact.email,
            final(self).contact.auth_info == old(self).contact.auth_info,
    {
        self.contact.fax = Some(fax);
    }
}

impl EppCommand for ContactCreate {
    /// `<create><contact:create xmlns:contact="..">` with the id, the
    /// postal info, the phone numbers, the email and the authorization
    /// data.
    open spec fn spec_node(&self) -> SpecNode {
        SpecNode::Elem {
            name: "create"@,
            attrs: Seq::empty(),
            children: seq![
                SpecNode::Elem {
                    name: "contact:create"@,
                    attrs: seq![SpecAttr { name: "xmlns:contact"@, value: self.contact.xmlns@ }],
                    children: seq![
                        spec_text_node("contact:id"@, self.contact.id@),
                        self.contact.postal_info.spec_node(),
                        self.contact.voice.spec_node("contact:voice"@),
                    ] + (match self.contact.fax {
                        Some(f) => seq![f.spec_node("contact:fax"@)],
                        None => Seq::empty(),
                    }) + seq![
                        spec_text_node("contact:email"@, self.contact.email@),
                        self.contact.auth_info.spec_node(),
                    ],
                },
            ],
        }
    }

    fn command_node(&self) -> (r: XmlNode) {
        let mut inner_children: Vec<XmlNode> = Vec::new();
        inner_children.push(text_node("contact:id", String::from_str(self.contact.id.as_str())));
        inner_children.push(self.contact.postal_info.node());
        inner_children.push(self.contact.voice.node("contact:voice"));
        match &self.contact.fax {
            Some(f) => {
                inner_children.push(f.node("contact:fax"));
            },
            None => {},
        }
        inner_children.push(
            text_node("contact:email", String::from_str(self.contact.email.as_str())),
        );
        inner_children.push(self.contact.auth_info.node());
        let mut attrs: Vec<XmlAttr> = Vec::new();
        attrs.push(attr("xmlns:contact", String::from_str(self.contact.xmlns.as_str())));
        proof {
            assert(attrs_view(attrs) =~= seq![SpecAttr {
                name: "xmlns:contact"@,
                value: self.contact.xmlns@,
            }]);
            assert(children_view(inner_children) =~= self.spec_node()
                ->Elem_children[0]->Elem_children);
        }
        let inner = elem_with_attrs("contact:create", attrs, inner_children);
        let mut children: Vec<XmlNode> = Vec::new();
        children.push(inner);
        proof {
            assert(children_view(children) =~= self.spec_node()->Elem_children);
        }
        elem("create", children)
    }
}

impl Transaction<NoExtension> for ContactCreate {
    type Response = ();

    type ExtensionResponse = NoExtension;
}

} // verus!
