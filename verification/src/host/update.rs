//! Types for the host update request.

use vstd::prelude::*;

use super::XMLNS;
use crate::common::host_addr_nodes;
use crate::common::HostAddr;
use crate::common::HostStatus;
use crate::common::NoExtension;
use crate::common::StringValue;
use crate::request::EppCommand;
use crate::request::Transaction;
use crate::xml::append_nodes;
use crate::xml::attr;
use crate::xml::attrs_view;
use crate::xml::children_view;
use crate::xml::elem;
use crate::xml::elem_with_attrs;
use crate::xml::spec_text_node;
use crate::xml::text_node;
use crate::xml::SpecAttr;
use crate::xml::SpecNode;
use crate::xml::XmlAttr;
use crate::xml::XmlNode;

verus! {

broadcast use
    vstd::std_specs::vec::group_vec_axioms,
    vstd::seq::group_seq_axioms,
;

/// The new name of a host, under the `<chg>` tag.
#[derive(Debug, PartialEq, Eq)]
pub struct HostChangeInfo {
    /// The new name.
    pub name: StringValue,
}

/// What an update adds to or removes from a host.
#[derive(Debug, PartialEq, Eq)]
pub struct HostAddRemove {
    /// Addresses to add or remove.
    pub addresses: Option<Vec<HostAddr>>,
    /// Statuses to add or remove.
    pub statuses: Option<Vec<HostStatus>>,
}

/// The data under the host `<update>` tag.
#[derive(Debug, PartialEq, Eq)]
pub struct HostUpdateRequestData {
    /// The XML namespace for host commands.
    pub xmlns: String,
    /// The host to be updated.
    pub name: StringValue,
    /// Data under the `<add>` tag.
    pub add: Option<HostAddRemove>,
    /// Data under the `<rem>` tag.
    pub remove: Option<HostAddRemove>,
    /// Data under the `<chg>` tag.
    pub change_info: Option<HostChangeInfo>,
}

/// The `<update>` command for hosts.
#[derive(Debug, PartialEq, Eq)]
pub struct HostUpdate {
    /// The data under the `<update>` tag.
    pub host: HostUpdateRequestData,
}

/// The children of a `<host:add>` or `<host:rem>` element.
pub open spec fn spec_host_add_remove_children(ar: HostAddRemove) -> Seq<SpecNode> {
    (match ar.addresses {
        Some(addrs) => addrs@.map_values(|a: HostAddr| a.spec_node("host:addr"@)),
        None => Seq::empty(),
    }) + (match ar.statuses {
        Some(ss) => ss@.map_values(|s: HostStatus| s.spec_node()),
        None => Seq::empty(),
    })
}

/// A status element for each host status, in order.
#[verifier::loop_isolation(false)]
pub fn host_status_nodes(statuses: &Vec<HostStatus>) -> (r: Vec<XmlNode>)
    ensures
        children_view(r) == statuses@.map_values(|s: HostStatus| s.spec_node()),
{
    let ghost goal = statuses@.map_values(|s: HostStatus| s.spec_node());
    let mut r: Vec<XmlNode> = Vec::new();
    let mut i: usize = 0;
    while i < statuses.len()
        invariant
            0 <= i <= statuses.len(),
            children_view(r) =~= goal.take(i as int),
        decreases statuses.len() - i,
    {
        let node = statuses[i].node();
        let ghost prev = r@;
        r.push(node);
        proof {
            crate::xml::lemma_nodes_view_push(prev, node);
            assert(children_view(r) =~= goal.take(i + 1 as int));
        }
        i = i + 1;
    }
    proof {
        assert(goal.take(statuses.len() as int) =~= goal);
    }
    r
}

impl HostAddRemove {
    /// Build the children of the `<host:add>` or `<host:rem>` element.
    pub fn children(&self) -> (r: Vec<XmlNode>)
        ensures
            children_view(r) == spec_host_add_remove_children(*self),
    {
        let mut children: Vec<XmlNode> = Vec::new();
        match &self.addresses {
            Some(addrs) => {
                append_nodes(&mut children, host_addr_nodes("host:addr", addrs));
            },
            None => {},
        }
        let ghost after_addrs = children_view(children);
        proof {
            assert(after_addrs =~= (match self.addresses {
                Some(addrs) => addrs@.map_values(|a: HostAddr| a.spec_node("host:addr"@)),
                None => Seq::<SpecNode>::empty(),
            }));
        }
        match &self.statuses {
            Some(ss) => {
                append_nodes(&mut children, host_status_nodes(ss));
            },
            None => {},
        }
        proof {
            assert(children_view(children) =~= spec_host_add_remove_children(*self));
        }
        children
    }
}

impl HostUpdate {
    pub fn new(name: &str) -> (r: HostUpdate)
        ensures
            r.host.xmlns@ == XMLNS@,
            r.host.name@ == name@,
            r.host.add is None,
            r.host.remove is None,
            r.host.change_info is None,
    {
        HostUpdate {
            host: HostUpdateRequestData {
                xmlns: String::from_str(XMLNS),
                name: StringValue::new(name),
                add: None,
                remove: None,
                change_info: None,
            },
        }
    }

    /// Set the new name of the host.
    pub fn info(&mut self, info: HostChangeInfo)
        ensures
            final(self).host.change_info matches Some(c) && c == info,
            final(self).host.xmlns == old(self).host.xmlns,
            final(self).host.name == old(self).host.name,
            final(self).host.add == old(self).host.add,
            final(self).host.remove == old(self).host.remove,
    {
        self.host.change_info = Some(info);
    }

    /// Set the data to be added to the host.
    pub fn add(&mut self, add: HostAddRemove)
        ensures
            final(self).host.add matches Some(a) && a == add,
            final(self).host.xmlns == old(self).host.xmlns,
            final(self).host.name == old(self).host.name,
            final(self).host.remove == old(self).host.remove,
            final(self).host.change_info == old(self).host.change_info,
    {
        self.host.add = Some(add);
    }

    /// Set the data to be removed from the host.
    pub fn remove(&mut self, remove: HostAddRemove)
        ensures
            final(self).host.remove matches Some(x) && x == remove,
            final(self).host.xmlns == old(self).host.xmlns,
            final(self).host.name == old(self).host.name,
            final(self).host.add == old(self).host.add,
            final(self).host.change_info == old(self).host.change_info,
    {
        self.host.remove = Some(remove);
    }
}

impl EppCommand for HostUpdate {
    /// `<update><host:update xmlns:host="..">` with the name, then the
    /// add, remove and change blocks that are present.
    open spec fn spec_node(&self) -> SpecNode {
        SpecNode::Elem {
            name: "update"@,
            attrs: Seq::empty(),
            children: seq![
                SpecNode::Elem {
                    name: "host:update"@,
                    attrs: seq![SpecAttr { name: "xmlns:host"@, value: self.host.xmlns@ }],
                    children: seq![spec_text_node("host:name"@, self.host.name@)] + (
                    match self.host.add {
                        Some(a) => seq![
                            SpecNode::Elem {
                                name: "host:add"@,
                                attrs: Seq::empty(),
                                children: spec_host_add_remove_children(a),
                            },
                        ],
                        None => Seq::empty(),
                    }) + (match self.host.remove {
                        Some(x) => seq![
                            SpecNode::Elem {
                                name: "host:rem"@,
                                attrs: Seq::empty(),
                                children: spec_host_add_remove_children(x),
                            },
                        ],
                        None => Seq::empty(),
                    }) + (match self.host.change_info {
                        Some(c) => seq![
                            SpecNode::Elem {
                                name: "host:chg"@,
                                attrs: Seq::empty(),
                                children: seq![spec_text_node("host:name"@, c.name@)],
                            },
                        ],
                        None => Seq::empty(),
                    }),
                },
            ],
        }
    }

    fn command_node(&self) -> (r: XmlNode) {
        let mut inner_children: Vec<XmlNode> = Vec::new();
        inner_children.push(text_node("host:name", String::from_str(self.host.name.as_str())));
        match &self.host.add {
            Some(a) => {
                inner_children.push(elem("host:add", a.children()));
            },
            None => {},
        }
        match &self.host.remove {
            Some(x) => {
                inner_children.push(elem("host:rem", x.children()));
            },
            None => {},
        }
        match &self.host.change_info {
            Some(c) => {
                let mut chg_children: Vec<XmlNode> = Vec::new();
                chg_children.push(text_node("host:name", String::from_str(c.name.as_str())));
                proof {
                    assert(children_view(chg_children) =~= seq![spec_text_node(
                        "host:name"@,
                        c.name@,
                    )]);
                }
                inner_children.push(elem("host:chg", chg_children));
            },
            None => {},
        }
        let mut attrs: Vec<XmlAttr> = Vec::new();
        attrs.push(attr("xmlns:host", String::from_str(self.host.xmlns.as_str())));
        proof {
            assert(attrs_view(attrs) =~= seq![SpecAttr {
                name: "xmlns:host"@,
                value: self.host.xmlns@,
            }]);
            assert(children_view(inner_children) =~= self.spec_node()
                ->Elem_children[0]->Elem_children);
        }
        let inner = elem_with_attrs("host:update", attrs, inner_children);
        let mut children: Vec<XmlNode> = Vec::new();
        children.push(inner);
        proof {
            assert(children_view(children) =~= self.spec_node()->Elem_children);
        }
        elem("update", children)
    }
}

impl Transaction<NoExtension> for HostUpdate {
    type Response = ();

    type ExtensionResponse = NoExtension;
}

} // verus!
