//! Types for the contact update request.

use vstd::prelude::*;

use super::XMLNS;
use crate::common::ContactAuthInfo;
use crate::common::ContactStatus;
use crate::common::NoExtension;
use crate::common::Phone;
use crate::common::PostalInfo;
use crate::common::StringValue;
use crate::request::EppCommand;
use crate::request::Transaction;
use crate::xml::append_nodes;
use crate::xml::attr;
use crate::xml::attrs_view;
use crate::xml::children_view;
use crate::xml::elem;
use crate::xml::elem_with_attrs;
use crate::xml::spec_text_node;
use crate::xml::text_node;
use crate::xml::SpecAttr;
use crate::xml::SpecNode;
use crate::xml::XmlAttr;
use crate::xml::XmlNode;

verus! {

broadcast use
    vstd::std_specs::vec::group_vec_axioms,
    vstd::seq::group_seq_axioms,
;

/// What an update changes on a contact.
#[derive(Debug, PartialEq, Eq)]
pub struct ContactChangeInfo {
    /// The new email address.
    pub email: Option<StringValue>,
    /// The new postal info.
    pub postal_info: Option<PostalInfo>,
    /// The new voice number.
    pub voice: Option<Phone>,
    /// The new authorization password.
    pub auth_info: Option<ContactAuthInfo>,
}

/// The data under the contact `<update>` tag.
#[derive(Debug, PartialEq, Eq)]
pub struct ContactUpdateRequestData {
    /// The XML namespace for contact commands.
    pub xmlns: String,
    /// The contact to be updated.
    pub id: StringValue,
    /// Statuses to add.
    pub add_statuses: Option<Vec<ContactStatus>>,
    /// Statuses to remove.
    pub remove_statuses: Option<Vec<ContactStatus>>,
    /// Data to change.
    pub change_info: Option<ContactChangeInfo>,
}

/// The `<update>` command for contacts.
#[derive(Debug, PartialEq, Eq)]
pub struct ContactUpdate {
    /// The data under the `<update>` tag.
    pub contact: ContactUpdateRequestData,
}

/// The children of a `<contact:chg>` element: postal info, voice, email
/// and authorization data, in the protocol's order.
pub open spec fn spec_contact_change_children(chg: ContactChangeInfo) -> Seq<SpecNode> {
    (match chg.postal_info {
        Some(p) => seq![p.spec_node()],
        None => Seq::empty(),
    }) + (match chg.voice {
        Some(v) => seq![v.spec_node("contact:voice"@)],
        None => Seq::empty(),
    }) + (match chg.email {
        Some(e) => seq![spec_text_node("contact:email"@, e@)],
        None => Seq::empty(),
    }) + (match chg.auth_info {
        Some(a) => seq![a.spec_node()],
        None => Seq::empty(),
    })
}

/// A status element for each contact status, in order.
#[verifier::loop_isolation(false)]
pub fn contact_status_nodes(statuses: &Vec<ContactStatus>) -> (r: Vec<XmlNode>)
    ensures
        children_view(r) == statuses@.map_values(|s: ContactStatus| s.spec_node()),
{
    let ghost goal = statuses@.map_values(|s: ContactStatus| s.spec_node());
    let mut r: Vec<XmlNode> = Vec::new();
    let mut i: usize = 0;
    while i < statuses.len()
        invariant
            0 <= i <= statuses.len(),
            children_view(r) =~= goal.take(i as int),
        decreases statuses.len() - i,
    {
        let node = statuses[i].node();
        let ghost prev = r@;
        r.push(node);
        proof {
            crate::xml::lemma_nodes_view_push(prev, node);
            assert(children_view(r) =~= goal.take(i + 1 as int));
        }
        i = i + 1;
    }
    proof {
        assert(goal.take(statuses.len() as int) =~= goal);
    }
    r
}

impl ContactUpdate {
    pub fn new(id: &str) -> (r: ContactUpdate)
        ensures
            r.contact.xmlns@ == XMLNS@,
            r.contact.id@ == id@,
            r.contact.add_statuses is None,
            r.contact.remove_statuses is None,
            r.contact.change_info is None,
    {
        ContactUpdate {
            contact: ContactUpdateRequestData {
                xmlns: String::from_str(XMLNS),
                id: StringValue::new(id),
                add_statuses: None,
                remove_statuses: None,
                change_info: None,
            },
        }
    }

    /// Set the data to be changed on the contact.
    pub fn set_info(&mut self, email: &str, postal_info: PostalInfo, voice: Phone, auth_password: &str)
        ensures
            final(self).contact.change_info matches Some(c) && ({
                &&& c.email matches Some(e) && e@ == email@
                &&& c.postal_info matches Some(p) && p == postal_info
                &&& c.voice matches Some(v) && v == voice
                &&& c.auth_info matches Some(a) && a.password@ == auth_password@
            }),
            final(self).contact.xmlns == old(self).contact.xmlns,
            final(self).contact.id == old(self).contact.id,
            final(self).contact.add_statuses == old(self).contact.add_statuses,
            final(self).contact.remove_statuses == old(self).contact.remove_statuses,
    {
        self.contact.change_info = Some(
            ContactChangeInfo {
                email: Some(StringValue::new(email)),
                postal_info: Some(postal_info),
                voice: Some(voice),
                auth_info: Some(ContactAuthInfo::new(auth_password)),
            },
        );
    }

    /// Set the statuses to be added to the contact.
    pub fn add(&mut self, statuses: Vec<ContactStatus>)
        ensures
            final(self).contact.add_statuses matches Some(s) && s == statuses,
            final(self).contact.xmlns == old(self).contact.xmlns,
            final(self).contact.id == old(self).contact.id,
            final(self).contact.remove_statuses == old(self).contact.remove_statuses,
            final(self).contact.change_info == old(self).contact.change_info,
    {
        self.contact.add_statuses = Some(statuses);
    }

    /// Set the statuses to be removed from the contact.
    pub fn remove(&mut self, statuses: Vec<ContactStatus>)
        ensures
            final(self).contact.remove_statuses matches Some(s) && s == statuses,
            final(self).contact.xmlns == old(self).contact.xmlns,
            final(self).contact.id == old(self).contact.id,
            final(self).contact.add_statuses == old(self).contact.add_statuses,
            final(self).contact.change_info == old(self).contact.change_info,
    {
        self.contact.remove_statuses = Some(statuses);
    }
}

impl EppCommand for ContactUpdate {
    /// `<update><contact:update xmlns:contact="..">` with the id, then
    /// the add, remove and change blocks that are present.
    open spec fn spec_node(&self) -> SpecNode {
        SpecNode::Elem {
            name: "update"@,
            attrs: Seq::empty(),
            children: seq![
                SpecNode::Elem {
                    name: "contact:update"@,
                    attrs: seq![SpecAttr { name: "xmlns:contact"@, value: self.contact.xmlns@ }],
                    children: seq![spec_text_node("contact:id"@, self.contact.id@)] + (
                    match self.contact.add_statuses {
                        Some(ss) => seq![
                            SpecNode::Elem {
                                name: "contact:add"@,
                                attrs: Seq::empty(),
                                children: ss@.map_values(|s: ContactStatus| s.spec_node()),
                            },
                        ],
                        None => Seq::empty(),
                    }) + (match self.contact.remove_statuses {
                        Some(ss) => seq![
                            SpecNode::Elem {
                                name: "contact:rem"@,
                                attrs: Seq::empty(),
                                children: ss@.map_values(|s: ContactStatus| s.spec_node()),
                            },
                        ],
                        None => Seq::empty(),
                    }) + (match self.contact.change_info {
                        Some(c) => seq![
                            SpecNode::Elem {
                                name: "contact:chg"@,
                                attrs: Seq::empty(),
                                children: spec_contact_change_children(c),
                            },
                        ],
                        None => Seq::empty(),
                    }),
                },
            ],
        }
    }

    fn command_node(&self) -> (r: XmlNode) {
        let mut inner_children: Vec<XmlNode> = Vec::new();
        inner_children.push(text_node("contact:id", String::from_str(self.contact.id.as_str())));
        match &self.contact.add_statuses {
            Some(ss) => {
                inner_children.push(elem("contact:add", contact_status_nodes(ss)));
            },
            None => {},
        }
        match &self.contact.remove_statuses {
            Some(ss) => {
                inner_children.push(elem("contact:rem", contact_status_nodes(ss)));
            },
            None => {},
        }
        match &self.contact.change_info {
            Some(c) => {
                let mut chg_children: Vec<XmlNode> = Vec::new();
                match &c.postal_info {
                    Some(p) => {
                        chg_children.push(p.node());
                    },
                    None => {},
                }
                match &c.voice {
                    Some(v) => {
                        chg_children.push(v.node("contact:voice"));
                    },
                    None => {},
                }
                match &c.email {
                    Some(e) => {
                        chg_children.push(text_node("contact:email", String::from_str(e.as_str())));
                    },
                    None => {},
                }
                match &c.auth_info {
                    Some(a) => {
                        chg_children.push(a.node());
                    },
                    None => {},
                }
                proof {
                    assert(children_view(chg_children) =~= spec_contact_change_children(*c));
                }
                inner_children.push(elem("contact:chg", chg_children));
            },
            None => {},
        }
        let mut attrs: Vec<XmlAttr> = Vec::new();
        attrs.push(attr("xmlns:contact", String::from_str(self.contact.xmlns.as_str())));
        proof {
            assert(attrs_view(attrs) =~= seq![SpecAttr {
                name: "xmlns:contact"@,
                value: self.contact.xmlns@,
            }]);
            assert(children_view(inner_children) =~= self.spec_node()
                ->Elem_children[0]->Elem_children);
        }
        let inner = elem_with_attrs("contact:update", attrs, inner_children);
        let mut children: Vec<XmlNode> = Vec::new();
        children.push(inner);
        proof {
            assert(children_view(children) =~= self.spec_node()->Elem_children);
        }
        elem("update", children)
    }
}

impl Transaction<NoExtension> for ContactUpdate {
    type Response = ();

    type ExtensionResponse = NoExtension;
}

} // verus!
