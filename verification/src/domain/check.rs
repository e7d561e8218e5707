//! Types for the domain check request and response.

use vstd::prelude::*;

use super::XMLNS;
use crate::common::NoExtension;
use crate::common::StringValue;
use crate::err::EppError;
use crate::request::EppCommand;
use crate::request::FromXml;
use crate::request::Transaction;
use crate::xml::attr;
use crate::xml::attrs_view;
use crate::xml::children_view;
use crate::xml::elem;
use crate::xml::elem_with_attrs;
use crate::xml::spec_elem_named;
use crate::xml::spec_children_named;
use crate::xml::spec_node_attr;
use crate::xml::spec_node_child;
use crate::xml::spec_text_node;
use crate::xml::spec_text_of;
use crate::xml::str_eq;
use crate::xml::SpecAttr;
use crate::xml::SpecNode;
use crate::xml::XmlAttr;
use crate::xml::XmlNode;

verus! {

broadcast use
    vstd::std_specs::vec::group_vec_axioms,
    vstd::seq::group_seq_axioms,
;

/// The `<name>` elements under the domain `<check>` tag.
#[derive(Debug, PartialEq, Eq)]
pub struct DomainList {
    /// The XML namespace for domain commands.
    pub xmlns: String,
    /// The domains to be checked for availability.
    pub domains: Vec<StringValue>,
}

/// The `<check>` command for domains.
#[derive(Debug, PartialEq, Eq)]
pub struct DomainCheck {
    /// The list of domains to be checked.
    pub list: DomainList,
}

impl DomainCheck {
    pub fn new(domains: Vec<&str>) -> (r: DomainCheck)
        ensures
            r.list.xmlns@ == XMLNS@,
            r.list.domains@.map_values(|v: StringValue| v@) == domains@.map_values(
                |s: &str| s@,
            ),
    {
        let mut list: Vec<StringValue> = Vec::new();
        let mut i: usize = 0;
        while i < domains.len()
            invariant
                0 <= i <= domains@.len(),
                list@.len() == i,
                forall|j: int| 0 <= j < i ==> (#[trigger] list@[j])@ == domains@[j]@,
            decreases domains@.len() - i,
        {
            list.push(StringValue::new(domains[i]));
            i = i + 1;
        }
        proof {
            assert(list@.map_values(|v: StringValue| v@) =~~= domains@.map_values(|s: &str| s@));
        }
        DomainCheck { list: DomainList { xmlns: String::from_str(XMLNS), domains: list } }
    }
}

impl EppCommand for DomainCheck {
    /// `<check><domain:check xmlns:domain="..">` with one
    /// `<domain:name>` per domain.
    open spec fn spec_node(&self) -> SpecNode {
        SpecNode::Elem {
            name: "check"@,
            attrs: Seq::empty(),
            children: seq![
                SpecNode::Elem {
                    name: "domain:check"@,
                    attrs: seq![SpecAttr { name: "xmlns:domain"@, value: self.list.xmlns@ }],
                    children: self.list.domains@.map_values(
                        |v: StringValue| spec_text_node("domain:name"@, v@),
                    ),
                },
            ],
        }
    }

    fn command_node(&self) -> (r: XmlNode) {
        let names = crate::common::value_text_nodes("domain:name", &self.list.domains);
        let mut attrs: Vec<XmlAttr> = Vec::new();
        attrs.push(attr("xmlns:domain", String::from_str(self.list.xmlns.as_str())));
        proof {
            assert(attrs_view(attrs) =~= seq![SpecAttr {
                name: "xmlns:domain"@,
                value: self.list.xmlns@,
            }]);
        }
        let inner = elem_with_attrs("domain:check", attrs, names);
        let mut children: Vec<XmlNode> = Vec::new();
        children.push(inner);
        proof {
            assert(children_view(children) =~= self.spec_node()->Elem_children);
        }
        elem("check", children)
    }
}

impl Transaction<NoExtension> for DomainCheck {
    type Response = DomainCheckResponse;

    type ExtensionResponse = NoExtension;
}

// Response

/// The `<name>` tag of a domain check response.
#[derive(Debug, PartialEq, Eq)]
pub struct DomainAvailable {
    /// The domain name.
    pub name: StringValue,
    /// Whether the domain is available.
    pub available: bool,
}

/// The `<cd>` tag of a domain check response.
#[derive(Debug, PartialEq, Eq)]
pub struct DomainCheckResponseDataItem {
    /// Data under the `<name>` tag.
    pub domain: DomainAvailable,
    /// The reason for (un)availability.
    pub reason: Option<StringValue>,
}

/// The `<chkData>` tag of a domain check response.
#[derive(Debug, PartialEq, Eq)]
pub struct DomainCheckResponseData {
    /// Data under the `<cd>` tags.
    pub domain_list: Vec<DomainCheckResponseDataItem>,
}

/// The `<resData>` payload of a domain check response.
#[derive(Debug, PartialEq, Eq)]
pub struct DomainCheckResponse {
    /// Data under the `<chkData>` tag.
    pub check_data: DomainCheckResponseData,
}

/// The availability flag on the wire: `1` for available, `0` for taken.
pub open spec fn spec_avail_value(s: Seq<char>) -> Option<bool> {
    if s == "1"@ {
        Some(true)
    } else if s == "0"@ {
        Some(false)
    } else {
        None
    }
}

/// Whether `item` reads one `<cd>` element.
pub open spec fn spec_check_item_decodes(cd: SpecNode, item: DomainCheckResponseDataItem) -> bool {
    &&& spec_node_child(cd, "domain:name"@) matches Some(nm) && ({
        &&& spec_text_of(nm) == Some(item.domain.name@)
        &&& spec_node_attr(nm, "avail"@) matches Some(av) && spec_avail_value(av) == Some(
            item.domain.available,
        )
    })
    &&& match spec_node_child(cd, "domain:reason"@) {
        None => item.reason is None,
        Some(re) => item.reason matches Some(rv) && spec_text_of(re) == Some(rv@),
    }
}

/// When one `<cd>` entry admits no reading, the whole response admits
/// none.
proof fn lemma_check_no_reading(n: SpecNode, chk: SpecNode, i: int)
    requires
        spec_node_child(n, "domain:chkData"@) == Some(chk),
        0 <= i < spec_children_named(chk->Elem_children, "domain:cd"@).len(),
        forall|item: DomainCheckResponseDataItem|
            !spec_check_item_decodes(
                spec_children_named(chk->Elem_children, "domain:cd"@)[i],
                item,
            ),
    ensures
        forall|v: DomainCheckResponse| !DomainCheckResponse::spec_decodes(n, v),
{
    let cds = spec_children_named(chk->Elem_children, "domain:cd"@);
    assert forall|v: DomainCheckResponse| !DomainCheckResponse::spec_decodes(n, v) by {
        if v.check_data.domain_list@.len() == cds.len() {
            assert(!spec_check_item_decodes(cds[i], v.check_data.domain_list@[i]));
        }
    }
}

impl FromXml for DomainCheckResponse {
    /// Whether `v` reads the `<resData>` element `n`.
    open spec fn spec_decodes(n: SpecNode, v: DomainCheckResponse) -> bool {
        spec_node_child(n, "domain:chkData"@) matches Some(chk) && {
            let cds = spec_children_named(chk->Elem_children, "domain:cd"@);
            &&& v.check_data.domain_list@.len() == cds.len()
            &&& forall|i: int|
                0 <= i < cds.len() ==> spec_check_item_decodes(
                    cds[i],
                    #[trigger] v.check_data.domain_list@[i],
                )
        }
    }

    #[verifier::loop_isolation(false)]
    fn from_node(n: &XmlNode) -> (r: Result<DomainCheckResponse, EppError>) {
        let chk = match n.child("domain:chkData") {
            Some(c) => c,
            None => {
                proof {
                    assert(forall|v: DomainCheckResponse| !Self::spec_decodes(n@, v));
                }
                return Err(
                    EppError::Decode {
                        message: String::from_str("check data is missing"),
                    },
                );
            },
        };
        proof {
            crate::xml::lemma_node_child_named(n@, "domain:chkData"@);
        }
        let cds = chk.children_named("domain:cd");
        let ghost spec_cds = spec_children_named(chk@->Elem_children, "domain:cd"@);
        let mut items: Vec<DomainCheckResponseDataItem> = Vec::new();
        let mut i: usize = 0;
        while i < cds.len()
            invariant
                0 <= i <= cds.len(),
                chk@ is Elem,
                cds@.len() == spec_cds.len(),
                forall|j: int| 0 <= j < cds@.len() ==> (#[trigger] cds@[j])@ == spec_cds[j],
                items@.len() == i,
                forall|j: int|
                    0 <= j < i ==> spec_check_item_decodes(spec_cds[j], #[trigger] items@[j]),
            decreases cds.len() - i,
        {
            let cd = cds[i];
            let nm = match cd.child("domain:name") {
                Some(x) => x,
                None => {
                    proof {
                        lemma_check_no_reading(n@, chk@, i as int);
                    }
                    return Err(
                        EppError::Decode {
                            message: String::from_str("check item has no name"),
                        },
                    );
                },
            };
            let name = match nm.text_content() {
                Some(t) => StringValue(t),
                None => {
                    proof {
                        lemma_check_no_reading(n@, chk@, i as int);
                    }
                    return Err(
                        EppError::Decode {
                            message: String::from_str("check item name is not character data"),
                        },
                    );
                },
            };
            let avail_text = match nm.attr_value("avail") {
                Some(a) => a,
                None => {
                    proof {
                        lemma_check_no_reading(n@, chk@, i as int);
                    }
                    return Err(
                        EppError::Decode {
                            message: String::from_str("check item has no avail flag"),
                        },
                    );
                },
            };
            let available = if str_eq(avail_text.as_str(), "1") {
                true
            } else if str_eq(avail_text.as_str(), "0") {
                false
            } else {
                proof {
                    lemma_check_no_reading(n@, chk@, i as int);
                }
                return Err(
                    EppError::Decode {
                        message: String::from_str("check item avail flag is not 0 or 1"),
                    },
                );
            };
            let reason = match cd.child("domain:reason") {
                None => None,
                Some(re) => match re.text_content() {
                    Some(t) => Some(StringValue(t)),
                    None => {
                        proof {
                            lemma_check_no_reading(n@, chk@, i as int);
                        }
                        return Err(
                            EppError::Decode {
                                message: String::from_str("check reason is not character data"),
                            },
                        );
                    },
                },
            };
            items.push(
                DomainCheckResponseDataItem {
                    domain: DomainAvailable { name, available },
                    reason,
                },
            );
            i = i + 1;
        }
        Ok(DomainCheckResponse { check_data: DomainCheckResponseData { domain_list: items } })
    }
}

} // verus!

verus! {

impl DomainCheck {
    /// Whether `v` reads the `<check>` command body `n`.
    pub open spec fn spec_command_decodes(n: SpecNode, v: DomainCheck) -> bool {
        spec_node_child(n, "domain:check"@) matches Some(dc) && {
            let names = spec_children_named(dc->Elem_children, "domain:name"@);
            &&& spec_node_attr(dc, "xmlns:domain"@) matches Some(x) && x == v.list.xmlns@
            &&& v.list.domains@.len() == names.len()
            &&& forall|i: int|
                0 <= i < names.len() ==> spec_text_of(names[i]) == Some(
                    (#[trigger] v.list.domains@[i])@,
                )
        }
    }

    /// Read a check command back out of its body element.
    #[verifier::loop_isolation(false)]
    pub fn from_command_node(n: &XmlNode) -> (r: Result<DomainCheck, EppError>)
        ensures
            r matches Ok(v) ==> DomainCheck::spec_command_decodes(n@, v),
    {
        let dc = match n.child("domain:check") {
            Some(c) => c,
            None => {
                return Err(
                    EppError::Decode { message: String::from_str("check body is missing") },
                );
            },
        };
        proof {
            crate::xml::lemma_node_child_named(n@, "domain:check"@);
        }
        let xmlns = match dc.attr_value("xmlns:domain") {
            Some(x) => x,
            None => {
                return Err(
                    EppError::Decode { message: String::from_str("check body has no namespace") },
                );
            },
        };
        let names = dc.children_named("domain:name");
        let ghost spec_names = spec_children_named(dc@->Elem_children, "domain:name"@);
        let mut domains: Vec<StringValue> = Vec::new();
        let mut i: usize = 0;
        while i < names.len()
            invariant
                0 <= i <= names.len(),
                dc@ is Elem,
                names@.len() == spec_names.len(),
                forall|j: int| 0 <= j < names@.len() ==> (#[trigger] names@[j])@ == spec_names[j],
                domains@.len() == i,
                forall|j: int|
                    0 <= j < i ==> spec_text_of(spec_names[j]) == Some(
                        (#[trigger] domains@[j])@,
                    ),
            decreases names.len() - i,
        {
            let name = match names[i].text_content() {
                Some(t) => StringValue(t),
                None => {
                    return Err(
                        EppError::Decode {
                            message: String::from_str("a checked name is not character data"),
                        },
                    );
                },
            };
            domains.push(name);
            i = i + 1;
        }
        Ok(DomainCheck { list: DomainList { xmlns, domains } })
    }
}

/// The check command round trip: any reading of a serialized check
/// command carries exactly the names that were put in.
pub proof fn lemma_domain_check_round_trip(v: DomainCheck, w: DomainCheck)
    requires
        DomainCheck::spec_command_decodes(v.spec_node(), w),
    ensures
        w.list.xmlns@ == v.list.xmlns@,
        w.list.domains@.map_values(|s: StringValue| s@) == v.list.domains@.map_values(
            |s: StringValue| s@,
        ),
{
    let node = v.spec_node();
    let dc = SpecNode::Elem {
        name: "domain:check"@,
        attrs: seq![SpecAttr { name: "xmlns:domain"@, value: v.list.xmlns@ }],
        children: v.list.domains@.map_values(|s: StringValue| spec_text_node("domain:name"@, s@)),
    };
    assert(node->Elem_children[0] == dc);
    assert(spec_node_child(node, "domain:check"@) == Some(dc)) by {
        assert(spec_elem_named(node->Elem_children[0], "domain:check"@));
    }
    assert(spec_node_attr(dc, "xmlns:domain"@) == Some(v.list.xmlns@));
    let kids = dc->Elem_children;
    assert forall|i: int| 0 <= i < kids.len() implies spec_elem_named(
        #[trigger] kids[i],
        "domain:name"@,
    ) by {
        assert(kids[i] == spec_text_node("domain:name"@, v.list.domains@[i]@));
    }
    crate::xml::lemma_children_named_all(kids, "domain:name"@);
    assert forall|i: int| 0 <= i < kids.len() implies spec_text_of(kids[i]) == Some(
        v.list.domains@[i]@,
    ) by {
        assert(kids[i] == spec_text_node("domain:name"@, v.list.domains@[i]@));
    }
    assert(w.list.domains@.map_values(|s: StringValue| s@) =~= v.list.domains@.map_values(
        |s: StringValue| s@,
    ));
}

} // verus!
