//! Types for the contact check request and response.

use vstd::prelude::*;

use super::XMLNS;
use crate::common::NoExtension;
use crate::common::StringValue;
use crate::common::value_text_nodes;
use crate::domain::check::spec_avail_value;
use crate::err::EppError;
use crate::request::EppCommand;
use crate::request::FromXml;
use crate::request::Transaction;
use crate::xml::attr;
use crate::xml::attrs_view;
use crate::xml::children_view;
use crate::xml::elem;
use crate::xml::elem_with_attrs;
use crate::xml::spec_children_named;
use crate::xml::spec_node_attr;
use crate::xml::spec_node_child;
use crate::xml::spec_text_node;
use crate::xml::spec_text_of;
use crate::xml::str_eq;
use crate::xml::SpecAttr;
use crate::xml::SpecNode;
use crate::xml::XmlAttr;
use crate::xml::XmlNode;

verus! {

broadcast use
    vstd::std_specs::vec::group_vec_axioms,
    vstd::seq::group_seq_axioms,
;

/// The `<id>` elements under the contact `<check>` tag.
#[derive(Debug, PartialEq, Eq)]
pub struct ContactList {
    /// The XML namespace for contact commands.
    pub xmlns: String,
    /// The contact ids to check for availability.
    pub contact_ids: Vec<StringValue>,
}

/// The `<check>` command for contacts.
#[derive(Debug, PartialEq, Eq)]
pub struct ContactCheck {
    /// The list of contact ids to be checked.
    pub list: ContactList,
}

impl ContactCheck {
    pub fn new(contact_ids: &[&str]) -> (r: ContactCheck)
        ensures
            r.list.xmlns@ == XMLNS@,
            r.list.contact_ids@.map_values(|v: StringValue| v@) == contact_ids@.map_values(
                |s: &str| s@,
            ),
    {
        let mut ids: Vec<StringValue> = Vec::new();
        let mut i: usize = 0;
        while i < contact_ids.len()
            invariant
                0 <= i <= contact_ids@.len(),
                ids@.len() == i,
                forall|j: int| 0 <= j < i ==> (#[trigger] ids@[j])@ == contact_ids@[j]@,
            decreases contact_ids@.len() - i,
        {
            ids.push(StringValue::new(contact_ids[i]));
            i = i + 1;
        }
        proof {
            assert(ids@.map_values(|v: StringValue| v@) =~~= contact_ids@.map_values(
                |s: &str| s@,
            ));
        }
        ContactCheck { list: ContactList { xmlns: String::from_str(XMLNS), contact_ids: ids } }
    }
}

impl EppCommand for ContactCheck {
    /// `<check><contact:check xmlns:contact="..">` with one
    /// `<contact:id>` per contact.
    open spec fn spec_node(&self) -> SpecNode {
        SpecNode::Elem {
            name: "check"@,
            attrs: Seq::empty(),
            children: seq![
                SpecNode::Elem {
                    name: "contact:check"@,
                    attrs: seq![SpecAttr { name: "xmlns:contact"@, value: self.list.xmlns@ }],
                    children: self.list.contact_ids@.map_values(
                        |v: StringValue| spec_text_node("contact:id"@, v@),
                    ),
                },
            ],
        }
    }

    fn command_node(&self) -> (r: XmlNode) {
        let ids = value_text_nodes("contact:id", &self.list.contact_ids);
        let mut attrs: Vec<XmlAttr> = Vec::new();
        attrs.push(attr("xmlns:contact", String::from_str(self.list.xmlns.as_str())));
        proof {
            assert(attrs_view(attrs) =~= seq![SpecAttr {
                name: "xmlns:contact"@,
                value: self.list.xmlns@,
            }]);
        }
        let inner = elem_with_attrs("contact:check", attrs, ids);
        let mut children: Vec<XmlNode> = Vec::new();
        children.push(inner);
        proof {
            assert(children_view(children) =~= self.spec_node()->Elem_children);
        }
        elem("check", children)
    }
}

impl Transaction<NoExtension> for ContactCheck {
    type Response = ContactCheckResponse;

    type ExtensionResponse = NoExtension;
}

// Response

/// The `<id>` tag of a contact check response.
#[derive(Debug, PartialEq, Eq)]
pub struct ContactAvailable {
    /// The contact id.
    pub id: StringValue,
    /// Whether the id is available.
    pub available: bool,
}

/// The `<cd>` tag of a contact check response.
#[derive(Debug, PartialEq, Eq)]
pub struct ContactCheckResponseDataItem {
    /// Data under the `<id>` tag.
    pub contact: ContactAvailable,
    /// The reason for (un)availability.
    pub reason: Option<StringValue>,
}

/// The `<chkData>` tag of a contact check response.
#[derive(Debug, PartialEq, Eq)]
pub struct ContactCheckResponseData {
    /// Data under the `<cd>` tags.
    pub contact_list: Vec<ContactCheckResponseDataItem>,
}

/// The `<resData>` payload of a contact check response.
#[derive(Debug, PartialEq, Eq)]
pub struct ContactCheckResponse {
    /// Data under the `<chkData>` tag.
    pub check_data: ContactCheckResponseData,
}

/// Whether `item` reads one `<cd>` element.
pub open spec fn spec_contact_item_decodes(cd: SpecNode, item: ContactCheckResponseDataItem)
    -> bool {
    &&& spec_node_child(cd, "contact:id"@) matches Some(nm) && ({
        &&& spec_text_of(nm) == Some(item.contact.id@)
        &&& spec_node_attr(nm, "avail"@) matches Some(av) && spec_avail_value(av) == Some(
            item.contact.available,
        )
    })
    &&& match spec_node_child(cd, "contact:reason"@) {
        None => item.reason is None,
        Some(re) => item.reason matches Some(rv) && spec_text_of(re) == Some(rv@),
    }
}

/// When one `<cd>` entry admits no reading, the whole response admits
/// none.
proof fn lemma_no_reading(n: SpecNode, chk: SpecNode, i: int)
    requires
        spec_node_child(n, "contact:chkData"@) == Some(chk),
        0 <= i < spec_children_named(chk->Elem_children, "contact:cd"@).len(),
        forall|item: ContactCheckResponseDataItem|
            !spec_contact_item_decodes(
                spec_children_named(chk->Elem_children, "contact:cd"@)[i],
                item,
            ),
    ensures
        forall|v: ContactCheckResponse| !ContactCheckResponse::spec_decodes(n, v),
{
    let cds = spec_children_named(chk->Elem_children, "contact:cd"@);
    assert forall|v: ContactCheckResponse| !ContactCheckResponse::spec_decodes(n, v) by {
        if v.check_data.contact_list@.len() == cds.len() {
            assert(!spec_contact_item_decodes(cds[i], v.check_data.contact_list@[i]));
        }
    }
}

impl FromXml for ContactCheckResponse {
    /// Whether `v` reads the `<resData>` element `n`.
    open spec fn spec_decodes(n: SpecNode, v: ContactCheckResponse) -> bool {
        spec_node_child(n, "contact:chkData"@) matches Some(chk) && {
            let cds = spec_children_named(chk->Elem_children, "contact:cd"@);
            &&& v.check_data.contact_list@.len() == cds.len()
            &&& forall|i: int|
                0 <= i < cds.len() ==> spec_contact_item_decodes(
                    cds[i],
                    #[trigger] v.check_data.contact_list@[i],
                )
        }
    }

    #[verifier::loop_isolation(false)]
    fn from_node(n: &XmlNode) -> (r: Result<ContactCheckResponse, EppError>) {
        let chk = match n.child("contact:chkData") {
            Some(c) => c,
            None => {
                proof {
                    assert(forall|v: ContactCheckResponse| !Self::spec_decodes(n@, v));
                }
                return Err(
                    EppError::Decode { message: String::from_str("check data is missing") },
                );
            },
        };
        proof {
            crate::xml::lemma_node_child_named(n@, "contact:chkData"@);
        }
        let cds = chk.children_named("contact:cd");
        let ghost spec_cds = spec_children_named(chk@->Elem_children, "contact:cd"@);
        let mut items: Vec<ContactCheckResponseDataItem> = Vec::new();
        let mut i: usize = 0;
        while i < cds.len()
            invariant
                0 <= i <= cds.len(),
                chk@ is Elem,
                cds@.len() == spec_cds.len(),
                forall|j: int| 0 <= j < cds@.len() ==> (#[trigger] cds@[j])@ == spec_cds[j],
                items@.len() == i,
                forall|j: int|
                    0 <= j < i ==> spec_contact_item_decodes(spec_cds[j], #[trigger] items@[j]),
            decreases cds.len() - i,
        {
            let cd = cds[i];
            let nm = match cd.child("contact:id") {
                Some(x) => x,
                None => {
proof {
                        lemma_no_reading(n@, chk@, i as int);
                    }
                    return Err(
                        EppError::Decode { message: String::from_str("check item has no id") },
                    );
                },
            };
            let id = match nm.text_content() {
                Some(t) => StringValue(t),
                None => {
proof {
                        lemma_no_reading(n@, chk@, i as int);
                    }
                    return Err(
                        EppError::Decode {
                            message: String::from_str("check item id is not character data"),
                        },
                    );
                },
            };
            let avail_text = match nm.attr_value("avail") {
                Some(a) => a,
                None => {
proof {
                        lemma_no_reading(n@, chk@, i as int);
                    }
                    return Err(
                        EppError::Decode {
                            message: String::from_str("check item has no avail flag"),
                        },
                    );
                },
            };
            let available = if str_eq(avail_text.as_str(), "1") {
                true
            } else if str_eq(avail_text.as_str(), "0") {
                false
            } else {
proof {
                    lemma_no_reading(n@, chk@, i as int);
                }
                return Err(
                    EppError::Decode {
                        message: String::from_str("check item avail flag is not 0 or 1"),
                    },
                );
            };
            let reason = match cd.child("contact:reason") {
                None => None,
                Some(re) => match re.text_content() {
                    Some(t) => Some(StringValue(t)),
                    None => {
proof {
                            lemma_no_reading(n@, chk@, i as int);
                        }
                        return Err(
                            EppError::Decode {
                                message: String::from_str("check reason is not character data"),
                            },
                        );
                    },
                },
            };
            items.push(
                ContactCheckResponseDataItem {
                    contact: ContactAvailable { id, available },
                    reason,
                },
            );
            i = i + 1;
        }
        Ok(ContactCheckResponse { check_data: ContactCheckResponseData { contact_list: items } })
    }
}

} // verus!
