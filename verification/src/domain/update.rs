//! Types for the domain update request.

use vstd::prelude::*;

use super::XMLNS;
use crate::common::DomainAuthInfo;
use crate::common::DomainContact;
use crate::common::DomainStatus;
use crate::common::HostList;
use crate::common::NoExtension;
use crate::common::StringValue;
use crate::request::EppCommand;
use crate::request::Transaction;
use crate::xml::append_nodes;
use crate::xml::attr;
use crate::xml::attrs_view;
use crate::xml::children_view;
use crate::xml::elem;
use crate::xml::elem_with_attrs;
use crate::xml::spec_text_node;
use crate::xml::text_node;
use crate::xml::SpecAttr;
use crate::xml::SpecNode;
use crate::xml::XmlAttr;
use crate::xml::XmlNode;

verus! {

broadcast use
    vstd::std_specs::vec::group_vec_axioms,
    vstd::seq::group_seq_axioms,
;

/// What an update adds to or removes from a domain.
#[derive(Debug, PartialEq, Eq)]
pub struct DomainAddRemove {
    /// Name servers to add or remove.
    pub ns: Option<HostList>,
    /// Contacts to add or remove.
    pub contacts: Option<Vec<DomainContact>>,
    /// Statuses to add or remove.
    pub statuses: Option<Vec<DomainStatus>>,
}

/// What an update changes on a domain.
#[derive(Debug, PartialEq, Eq)]
pub struct DomainChangeInfo {
    /// The new registrant.
    pub registrant: Option<StringValue>,
    /// The new authorization password.
    pub auth_info: Option<DomainAuthInfo>,
}

/// The data under the domain `<update>` tag.
#[derive(Debug, PartialEq, Eq)]
pub struct DomainUpdateRequestData {
    /// The XML namespace for domain commands.
    pub xmlns: String,
    /// The domain to be updated.
    pub name: StringValue,
    /// Data under the `<add>` tag.
    pub add: Option<DomainAddRemove>,
    /// Data under the `<rem>` tag.
    pub remove: Option<DomainAddRemove>,
    /// Data under the `<chg>` tag.
    pub change_info: Option<DomainChangeInfo>,
}

/// The `<update>` command for domains.
#[derive(Debug, PartialEq, Eq)]
pub struct DomainUpdate {
    /// The data under the `<update>` tag.
    pub domain: DomainUpdateRequestData,
}

/// The children of a `<domain:add>` or `<domain:rem>` element.
pub open spec fn spec_add_remove_children(ar: DomainAddRemove) -> Seq<SpecNode> {
    (match ar.ns {
        Some(l) => seq![l.spec_node()],
        None => Seq::empty(),
    }) + (match ar.contacts {
        Some(cs) => cs@.map_values(|c: DomainContact| c.spec_node()),
        None => Seq::empty(),
    }) + (match ar.statuses {
        Some(ss) => ss@.map_values(|s: DomainStatus| s.spec_node()),
        None => Seq::empty(),
    })
}

/// The children of a `<domain:chg>` element.
pub open spec fn spec_change_children(chg: DomainChangeInfo) -> Seq<SpecNode> {
    (match chg.registrant {
        Some(reg) => seq![spec_text_node("domain:registrant"@, reg@)],
        None => Seq::empty(),
    }) + (match chg.auth_info {
        Some(a) => seq![a.spec_node()],
        None => Seq::empty(),
    })
}

/// A contact element for each domain contact, in order.
#[verifier::loop_isolation(false)]
pub fn domain_contact_nodes(contacts: &Vec<DomainContact>) -> (r: Vec<XmlNode>)
    ensures
        children_view(r) == contacts@.map_values(|c: DomainContact| c.spec_node()),
{
    let ghost goal = contacts@.map_values(|c: DomainContact| c.spec_node());
    let mut r: Vec<XmlNode> = Vec::new();
    let mut i: usize = 0;
    while i < contacts.len()
        invariant
            0 <= i <= contacts.len(),
            children_view(r) =~= goal.take(i as int),
        decreases contacts.len() - i,
    {
        let node = contacts[i].node();
        let ghost prev = r@;
        r.push(node);
        proof {
            crate::xml::lemma_nodes_view_push(prev, node);
            assert(children_view(r) =~= goal.take(i + 1 as int));
        }
        i = i + 1;
    }
    proof {
        assert(goal.take(contacts.len() as int) =~= goal);
    }
    r
}

/// A status element for each domain status, in order.
#[verifier::loop_isolation(false)]
pub fn domain_status_nodes(statuses: &Vec<DomainStatus>) -> (r: Vec<XmlNode>)
    ensures
        children_view(r) == statuses@.map_values(|s: DomainStatus| s.spec_node()),
{
    let ghost goal = statuses@.map_values(|s: DomainStatus| s.spec_node());
    let mut r: Vec<XmlNode> = Vec::new();
    let mut i: usize = 0;
    while i < statuses.len()
        invariant
            0 <= i <= statuses.len(),
            children_view(r) =~= goal.take(i as int),
        decreases statuses.len() - i,
    {
        let node = statuses[i].node();
        let ghost prev = r@;
        r.push(node);
        proof {
            crate::xml::lemma_nodes_view_push(prev, node);
            assert(children_view(r) =~= goal.take(i + 1 as int));
        }
        i = i + 1;
    }
    proof {
        assert(goal.take(statuses.len() as int) =~= goal);
    }
    r
}

impl DomainAddRemove {
    /// Build the children of the `<domain:add>` or `<domain:rem>`
    /// element for this data.
    pub fn children(&self) -> (r: Vec<XmlNode>)
        ensures
            children_view(r) == spec_add_remove_children(*self),
    {
        let mut children: Vec<XmlNode> = Vec::new();
        match &self.ns {
            Some(l) => {
                children.push(l.node());
            },
            None => {},
        }
        let ghost after_ns = children_view(children);
        proof {
            assert(after_ns =~= (match self.ns {
                Some(l) => seq![l.spec_node()],
                None => Seq::<SpecNode>::empty(),
            }));
        }
        match &self.contacts {
            Some(cs) => {
                append_nodes(&mut children, domain_contact_nodes(cs));
            },
            None => {},
        }
        let ghost after_contacts = children_view(children);
        proof {
            assert(after_contacts =~= after_ns + (match self.contacts {
                Some(cs) => cs@.map_values(|c: DomainContact| c.spec_node()),
                None => Seq::<SpecNode>::empty(),
            }));
        }
        match &self.statuses {
            Some(ss) => {
                append_nodes(&mut children, domain_status_nodes(ss));
            },
            None => {},
        }
        proof {
            assert(children_view(children) =~= spec_add_remove_children(*self));
        }
        children
    }
}

impl DomainUpdate {
    pub fn new(name: &str) -> (r: DomainUpdate)
        ensures
            r.domain.xmlns@ == XMLNS@,
            r.domain.name@ == name@,
            r.domain.add is None,
            r.domain.remove is None,
            r.domain.change_info is None,
    {
        DomainUpdate {
            domain: DomainUpdateRequestData {
                xmlns: String::from_str(XMLNS),
                name: StringValue::new(name),
                add: None,
                remove: None,
                change_info: None,
            },
        }
    }

    /// Set the data to be added to the domain.
    pub fn add(&mut self, add: DomainAddRemove)
        ensures
            final(self).domain.add matches Some(a) && a == add,
            final(self).domain.xmlns == old(self).domain.xmlns,
            final(self).domain.name == old(self).domain.name,
            final(self).domain.remove == old(self).domain.remove,
            final(self).domain.change_info == old(self).domain.change_info,
    {
        self.domain.add = Some(add);
    }

    /// Set the data to be removed from the domain.
    pub fn remove(&mut self, remove: DomainAddRemove)
        ensures
            final(self).domain.remove matches Some(x) && x == remove,
            final(self).domain.xmlns == old(self).domain.xmlns,
            final(self).domain.name == old(self).domain.name,
            final(self).domain.add == old(self).domain.add,
            final(self).domain.change_info == old(self).domain.change_info,
    {
        self.domain.remove = Some(remove);
    }

    /// Set the data to be changed on the domain.
    pub fn info(&mut self, info: DomainChangeInfo)
        ensures
            final(self).domain.change_info matches Some(c) && c == info,
            final(self).domain.xmlns == old(self).domain.xmlns,
            final(self).domain.name == old(self).domain.name,
            final(self).domain.add == old(self).domain.add,
            final(self).domain.remove == old(self).domain.remove,
    {
        self.domain.change_info = Some(info);
    }
}

impl EppCommand for DomainUpdate {
    /// `<update><domain:update xmlns:domain="..">` with the name, then
    /// the add, remove and change blocks that are present.
    open spec fn spec_node(&self) -> SpecNode {
        SpecNode::Elem {
            name: "update"@,
            attrs: Seq::empty(),
            children: seq![
                SpecNode::Elem {
                    name: "domain:update"@,
                    attrs: seq![SpecAttr { name: "xmlns:domain"@, value: self.domain.xmlns@ }],
                    children: seq![spec_text_node("domain:name"@, self.domain.name@)] + (
                    match self.domain.add {
                        Some(a) => seq![
                            SpecNode::Elem {
                                name: "domain:add"@,
                                attrs: Seq::empty(),
                                children: spec_add_remove_children(a),
                            },
                        ],
                        None => Seq::empty(),
                    }) + (match self.domain.remove {
                        Some(x) => seq![
                            SpecNode::Elem {
                                name: "domain:rem"@,
                                attrs: Seq::empty(),
                                children: spec_add_remove_children(x),
                            },
                        ],
                        None => Seq::empty(),
                    }) + (match self.domain.change_info {
                        Some(c) => seq![
                            SpecNode::Elem {
                                name: "domain:chg"@,
                                attrs: Seq::empty(),
                                children: spec_change_children(c),
                            },
                        ],
                        None => Seq::empty(),
                    }),
                },
            ],
        }
    }

    fn command_node(&self) -> (r: XmlNode) {
        let mut inner_children: Vec<XmlNode> = Vec::new();
        inner_children.push(text_node("domain:name", String::from_str(self.domain.name.as_str())));
        match &self.domain.add {
            Some(a) => {
                inner_children.push(elem("domain:add", a.children()));
            },
            None => {},
        }
        match &self.domain.remove {
            Some(x) => {
                inner_children.push(elem("domain:rem", x.children()));
            },
            None => {},
        }
        match &self.domain.change_info {
            Some(c) => {
                let mut chg_children: Vec<XmlNode> = Vec::new();
                match &c.registrant {
                    Some(reg) => {
                        chg_children.push(
                            text_node("domain:registrant", String::from_str(reg.as_str())),
                        );
                    },
                    None => {},
                }
                match &c.auth_info {
                    Some(a) => {
                        chg_children.push(a.node());
                    },
                    None => {},
                }
                proof {
                    assert(children_view(chg_children) =~= spec_change_children(*c));
                }
                inner_children.push(elem("domain:chg", chg_children));
            },
            None => {},
        }
        let mut attrs: Vec<XmlAttr> = Vec::new();
        attrs.push(attr("xmlns:domain", String::from_str(self.domain.xmlns.as_str())));
        proof {
            assert(attrs_view(attrs) =~= seq![SpecAttr {
                name: "xmlns:domain"@,
                value: self.domain.xmlns@,
            }]);
            assert(children_view(inner_children) =~= self.spec_node()
                ->Elem_children[0]->Elem_children);
        }
        let inner = elem_with_attrs("domain:update", attrs, inner_children);
        let mut children: Vec<XmlNode> = Vec::new();
        children.push(inner);
        proof {
            assert(children_view(children) =~= self.spec_node()->Elem_children);
        }
        elem("update", children)
    }
}

impl Transaction<NoExtension> for DomainUpdate {
    type Response = ();

    type ExtensionResponse = NoExtension;
}

} // verus!
