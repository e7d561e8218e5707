//! Types for the host check request and response.

use vstd::prelude::*;

use super::XMLNS;
use crate::common::NoExtension;
use crate::common::StringValue;
use crate::common::value_text_nodes;
use crate::domain::check::spec_avail_value;
use crate::err::EppError;
use crate::request::EppCommand;
use crate::request::FromXml;
use crate::request::Transaction;
use crate::xml::attr;
use crate::xml::attrs_view;
use crate::xml::children_view;
use crate::xml::elem;
use crate::xml::elem_with_attrs;
use crate::xml::spec_children_named;
use crate::xml::spec_node_attr;
use crate::xml::spec_node_child;
use crate::xml::spec_text_node;
use crate::xml::spec_text_of;
use crate::xml::str_eq;
use crate::xml::SpecAttr;
use crate::xml::SpecNode;
use crate::xml::XmlAttr;
use crate::xml::XmlNode;

verus! {

broadcast use
    vstd::std_specs::vec::group_vec_axioms,
    vstd::seq::group_seq_axioms,
;

/// The `<name>` elements under the host `<check>` tag.
#[derive(Debug, PartialEq, Eq)]
pub struct HostList {
    /// The XML namespace for host commands.
    pub xmlns: String,
    /// The hosts to check for availability.
    pub hosts: Vec<StringValue>,
}

/// The `<check>` command for hosts.
#[derive(Debug, PartialEq, Eq)]
pub struct HostCheck {
    /// The list of hosts to be checked.
    pub list: HostList,
}

impl HostCheck {
    pub fn new(hosts: &[&str]) -> (r: HostCheck)
        ensures
            r.list.xmlns@ == XMLNS@,
            r.list.hosts@.map_values(|v: StringValue| v@) == hosts@.map_values(|s: &str| s@),
    {
        let mut names: Vec<StringValue> = Vec::new();
        let mut i: usize = 0;
        while i < hosts.len()
            invariant
                0 <= i <= hosts@.len(),
                names@.len() == i,
                forall|j: int| 0 <= j < i ==> (#[trigger] names@[j])@ == hosts@[j]@,
            decreases hosts@.len() - i,
        {
            names.push(StringValue::new(hosts[i]));
            i = i + 1;
        }
        proof {
            assert(names@.map_values(|v: StringValue| v@) =~~= hosts@.map_values(|s: &str| s@));
        }
        HostCheck { list: HostList { xmlns: String::from_str(XMLNS), hosts: names } }
    }
}

impl EppCommand for HostCheck {
    /// `<check><host:check xmlns:host="..">` with one `<host:name>` per
    /// host.
    open spec fn spec_node(&self) -> SpecNode {
        SpecNode::Elem {
            name: "check"@,
            attrs: Seq::empty(),
            children: seq![
                SpecNode::Elem {
                    name: "host:check"@,
                    attrs: seq![SpecAttr { name: "xmlns:host"@, value: self.list.xmlns@ }],
                    children: self.list.hosts@.map_values(
                        |v: StringValue| spec_text_node("host:name"@, v@),
                    ),
                },
            ],
        }
    }

    fn command_node(&self) -> (r: XmlNode) {
        let names = value_text_nodes("host:name", &self.list.hosts);
        let mut attrs: Vec<XmlAttr> = Vec::new();
        attrs.push(attr("xmlns:host", String::from_str(self.list.xmlns.as_str())));
        proof {
            assert(attrs_view(attrs) =~= seq![SpecAttr {
                name: "xmlns:host"@,
                value: self.list.xmlns@,
            }]);
        }
        let inner = elem_with_attrs("host:check", attrs, names);
        let mut children: Vec<XmlNode> = Vec::new();
        children.push(inner);
        proof {
            assert(children_view(children) =~= self.spec_node()->Elem_children);
        }
        elem("check", children)
    }
}

impl Transaction<NoExtension> for HostCheck {
    type Response = HostCheckResponse;

    type ExtensionResponse = NoExtension;
}

// Response

/// The `<name>` tag of a host check response.
#[derive(Debug, PartialEq, Eq)]
pub struct HostAvailable {
    /// The host name.
    pub name: StringValue,
    /// Whether the host is available.
    pub available: bool,
}

/// The `<cd>` tag of a host check response.
#[derive(Debug, PartialEq, Eq)]
pub struct HostCheckDataItem {
    /// Data under the `<name>` tag.
    pub host: HostAvailable,
    /// The reason for (un)availability.
    pub reason: Option<StringValue>,
}

/// The `<chkData>` tag of a host check response.
#[derive(Debug, PartialEq, Eq)]
pub struct HostCheckData {
    /// Data under the `<cd>` tags.
    pub host_list: Vec<HostCheckDataItem>,
}

/// The `<resData>` payload of a host check response.
#[derive(Debug, PartialEq, Eq)]
pub struct HostCheckResponse {
    /// Data under the `<chkData>` tag.
    pub check_data: HostCheckData,
}

/// Whether `item` reads one `<cd>` element.
pub open spec fn spec_host_item_decodes(cd: SpecNode, item: HostCheckDataItem) -> bool {
    &&& spec_node_child(cd, "host:name"@) matches Some(nm) && ({
        &&& spec_text_of(nm) == Some(item.host.name@)
        &&& spec_node_attr(nm, "avail"@) matches Some(av) && spec_avail_value(av) == Some(
            item.host.available,
        )
    })
    &&& match spec_node_child(cd, "host:reason"@) {
        None => item.reason is None,
        Some(re) => item.reason matches Some(rv) && spec_text_of(re) == Some(rv@),
    }
}

/// When one `<cd>` entry admits no reading, the whole response admits
/// none.
proof fn lemma_no_reading(n: SpecNode, chk: SpecNode, i: int)
    requires
        spec_node_child(n, "host:chkData"@) == Some(chk),
        0 <= i < spec_children_named(chk->Elem_children, "host:cd"@).len(),
        forall|item: HostCheckDataItem|
            !spec_host_item_decodes(
                spec_children_named(chk->Elem_children, "host:cd"@)[i],
                item,
            ),
    ensures
        forall|v: HostCheckResponse| !HostCheckResponse::spec_decodes(n, v),
{
    let cds = spec_children_named(chk->Elem_children, "host:cd"@);
    assert forall|v: HostCheckResponse| !HostCheckResponse::spec_decodes(n, v) by {
        if v.check_data.host_list@.len() == cds.len() {
            assert(!spec_host_item_decodes(cds[i], v.check_data.host_list@[i]));
        }
    }
}

impl FromXml for HostCheckResponse {
    /// Whether `v` reads the `<resData>` element `n`.
    open spec fn spec_decodes(n: SpecNode, v: HostCheckResponse) -> bool {
        spec_node_child(n, "host:chkData"@) matches Some(chk) && {
            let cds = spec_children_named(chk->Elem_children, "host:cd"@);
            &&& v.check_data.host_list@.len() == cds.len()
            &&& forall|i: int|
                0 <= i < cds.len() ==> spec_host_item_decodes(
                    cds[i],
                    #[trigger] v.check_data.host_list@[i],
                )
        }
    }

    #[verifier::loop_isolation(false)]
    fn from_node(n: &XmlNode) -> (r: Result<HostCheckResponse, EppError>) {
        let chk = match n.child("host:chkData") {
            Some(c) => c,
            None => {
                proof {
                    assert(forall|v: HostCheckResponse| !Self::spec_decodes(n@, v));
                }
                return Err(
                    EppError::Decode { message: String::from_str("check data is missing") },
                );
            },
        };
        proof {
            crate::xml::lemma_node_child_named(n@, "host:chkData"@);
        }
        let cds = chk.children_named("host:cd");
        let ghost spec_cds = spec_children_named(chk@->Elem_children, "host:cd"@);
        let mut items: Vec<HostCheckDataItem> = Vec::new();
        let mut i: usize = 0;
        while i < cds.len()
            invariant
                0 <= i <= cds.len(),
                chk@ is Elem,
                cds@.len() == spec_cds.len(),
                forall|j: int| 0 <= j < cds@.len() ==> (#[trigger] cds@[j])@ == spec_cds[j],
                items@.len() == i,
                forall|j: int|
                    0 <= j < i ==> spec_host_item_decodes(spec_cds[j], #[trigger] items@[j]),
            decreases cds.len() - i,
        {
            let cd = cds[i];
            let nm = match cd.child("host:name") {
                Some(x) => x,
                None => {
                    proof {
                        lemma_no_reading(n@, chk@, i as int);
                    }
                    return Err(
                        EppError::Decode { message: String::from_str("check item has no name") },
                    );
                },
            };
            let name = match nm.text_content() {
                Some(t) => StringValue(t),
                None => {
                    proof {
                        lemma_no_reading(n@, chk@, i as int);
                    }
                    return Err(
                        EppError::Decode {
                            message: String::from_str("check item name is not character data"),
                        },
                    );
                },
            };
            let avail_text = match nm.attr_value("avail") {
                Some(a) => a,
                None => {
                    proof {
                        lemma_no_reading(n@, chk@, i as int);
                    }
                    return Err(
                        EppError::Decode {
                            message: String::from_str("check item has no avail flag"),
                        },
                    );
                },
            };
            let available = if str_eq(avail_text.as_str(), "1") {
                true
            } else if str_eq(avail_text.as_str(), "0") {
                false
            } else {
                proof {
                    lemma_no_reading(n@, chk@, i as int);
                }
                return Err(
                    EppError::Decode {
                        message: String::from_str("check item avail flag is not 0 or 1"),
                    },
                );
            };
            let reason = match cd.child("host:reason") {
                None => None,
                Some(re) => match re.text_content() {
                    Some(t) => Some(StringValue(t)),
                    None => {
                        proof {
                            lemma_no_reading(n@, chk@, i as int);
                        }
                        return Err(
                            EppError::Decode {
                                message: String::from_str("check reason is not character data"),
                            },
                        );
                    },
                },
            };
            items.push(HostCheckDataItem { host: HostAvailable { name, available }, reason });
            i = i + 1;
        }
        Ok(HostCheckResponse { check_data: HostCheckData { host_list: items } })
    }
}

} // verus!
