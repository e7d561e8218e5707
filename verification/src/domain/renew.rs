//! Types for the domain renew request and response.

use vstd::prelude::*;

use super::XMLNS;
use crate::common::NoExtension;
use crate::common::Period;
use crate::common::StringValue;
use crate::date::spec_date_chars;
use crate::date::Date;
use crate::err::EppError;
use crate::request::EppCommand;
use crate::request::FromXml;
use crate::request::Transaction;
use crate::xml::attr;
use crate::xml::attrs_view;
use crate::xml::children_view;
use crate::xml::elem;
use crate::xml::elem_with_attrs;
use crate::xml::spec_elem_named;
use crate::xml::spec_node_attr;
use crate::xml::spec_node_child;
use crate::xml::spec_text_node;
use crate::xml::spec_text_of;
use crate::xml::text_node;
use crate::xml::SpecAttr;
use crate::xml::SpecNode;
use crate::xml::XmlAttr;
use crate::xml::XmlNode;

verus! {

broadcast use vstd::string::group_string_axioms;

/// The data under the domain `<renew>` tag.
#[derive(Debug, PartialEq, Eq)]
pub struct DomainRenewRequestData {
    /// The XML namespace for domain commands.
    pub xmlns: String,
    /// The domain to be renewed.
    pub name: StringValue,
    /// The current expiry date, in `YYYY-MM-DD` form.
    pub current_expiry_date: StringValue,
    /// How long to renew for.
    pub period: Period,
}

/// The `<renew>` command for domains.
#[derive(Debug, PartialEq, Eq)]
pub struct DomainRenew {
    /// The data under the `<renew>` tag.
    pub domain: DomainRenewRequestData,
}

impl DomainRenew {
    pub fn new(name: &str, current_expiry_date: Date, years: u16) -> (r: DomainRenew)
        ensures
            r.domain.xmlns@ == XMLNS@,
            r.domain.name@ == name@,
            r.domain.current_expiry_date@ == spec_date_chars(current_expiry_date),
            r.domain.period.unit@ == "y"@,
            r.domain.period.length == years,
    {
        DomainRenew {
            domain: DomainRenewRequestData {
                xmlns: String::from_str(XMLNS),
                name: StringValue::new(name),
                current_expiry_date: StringValue(current_expiry_date.text()),
                period: Period::new(years),
            },
        }
    }

    /// Change the renewal period.
    pub fn set_period(&mut self, period: Period)
        ensures
            final(self).domain.period == period,
            final(self).domain.xmlns == old(self).domain.xmlns,
            final(self).domain.name == old(self).domain.name,
            final(self).domain.current_expiry_date == old(self).domain.current_expiry_date,
    {
        self.domain.period = period;
    }
}

impl EppCommand for DomainRenew {
    /// `<renew><domain:renew xmlns:domain="..">` with the name, the
    /// current expiry date and the period.
    open spec fn spec_node(&self) -> SpecNode {
        SpecNode::Elem {
            name: "renew"@,
            attrs: Seq::empty(),
            children: seq![
                SpecNode::Elem {
                    name: "domain:renew"@,
                    attrs: seq![SpecAttr { name: "xmlns:domain"@, value: self.domain.xmlns@ }],
                    children: seq![
                        spec_text_node("domain:name"@, self.domain.name@),
                        spec_text_node("domain:curExpDate"@, self.domain.current_expiry_date@),
                        self.domain.period.spec_node(),
                    ],
                },
            ],
        }
    }

    fn command_node(&self) -> (r: XmlNode) {
        let mut inner_children: Vec<XmlNode> = Vec::new();
        inner_children.push(text_node("domain:name", String::from_str(self.domain.name.as_str())));
        inner_children.push(
            text_node(
                "domain:curExpDate",
                String::from_str(self.domain.current_expiry_date.as_str()),
            ),
        );
        inner_children.push(self.domain.period.node());
        let mut attrs: Vec<XmlAttr> = Vec::new();
        attrs.push(attr("xmlns:domain", String::from_str(self.domain.xmlns.as_str())));
        proof {
            assert(attrs_view(attrs) =~= seq![SpecAttr {
                name: "xmlns:domain"@,
                value: self.domain.xmlns@,
            }]);
            assert(children_view(inner_children) =~= self.spec_node()
                ->Elem_children[0]->Elem_children);
        }
        let inner = elem_with_attrs("domain:renew", attrs, inner_children);
        let mut children: Vec<XmlNode> = Vec::new();
        children.push(inner);
        proof {
            assert(children_view(children) =~= self.spec_node()->Elem_children);
        }
        elem("renew", children)
    }
}

impl Transaction<NoExtension> for DomainRenew {
    type Response = DomainRenewResponse;

    type ExtensionResponse = NoExtension;
}

// Response

/// The `<renData>` tag of a domain renew response.
#[derive(Debug, PartialEq, Eq)]
pub struct DomainRenewResponseData {
    /// The renewed domain.
    pub name: StringValue,
    /// The new expiry date, when the registry reports one.
    pub expiring_at: Option<StringValue>,
}

/// The `<resData>` payload of a domain renew response.
#[derive(Debug, PartialEq, Eq)]
pub struct DomainRenewResponse {
    /// Data under the `<renData>` tag.
    pub renew_data: DomainRenewResponseData,
}

impl FromXml for DomainRenewResponse {
    /// Whether `v` reads the `<resData>` element `n`.
    open spec fn spec_decodes(n: SpecNode, v: DomainRenewResponse) -> bool {
        spec_node_child(n, "domain:renData"@) matches Some(ren) && ({
            &&& spec_node_child(ren, "domain:name"@) matches Some(nm) && spec_text_of(nm)
                == Some(v.renew_data.name@)
            &&& match spec_node_child(ren, "domain:exDate"@) {
                None => v.renew_data.expiring_at is None,
                Some(ex) => v.renew_data.expiring_at matches Some(e) && spec_text_of(ex)
                    == Some(e@),
            }
        })
    }

    fn from_node(n: &XmlNode) -> (r: Result<DomainRenewResponse, EppError>) {
        let ren = match n.child("domain:renData") {
            Some(c) => c,
            None => {
                return Err(
                    EppError::Decode { message: String::from_str("renew data is missing") },
                );
            },
        };
        let name = match ren.child("domain:name") {
            Some(nm) => match nm.text_content() {
                Some(t) => StringValue(t),
                None => {
                    return Err(
                        EppError::Decode {
                            message: String::from_str("renewed name is not character data"),
                        },
                    );
                },
            },
            None => {
                return Err(
                    EppError::Decode { message: String::from_str("renew data has no name") },
                );
            },
        };
        let expiring_at = match ren.child("domain:exDate") {
            None => None,
            Some(ex) => match ex.text_content() {
                Some(t) => Some(StringValue(t)),
                None => {
                    return Err(
                        EppError::Decode {
                            message: String::from_str("expiry date is not character data"),
                        },
                    );
                },
            },
        };
        Ok(DomainRenewResponse { renew_data: DomainRenewResponseData { name, expiring_at } })
    }
}

} // verus!

verus! {

impl DomainRenew {
    /// Whether `v` reads the `<renew>` command body `n`.
    pub open spec fn spec_command_decodes(n: SpecNode, v: DomainRenew) -> bool {
        spec_node_child(n, "domain:renew"@) matches Some(dr) && ({
            &&& spec_node_attr(dr, "xmlns:domain"@) == Some(v.domain.xmlns@)
            &&& spec_node_child(dr, "domain:name"@) matches Some(nm) && spec_text_of(nm)
                == Some(v.domain.name@)
            &&& spec_node_child(dr, "domain:curExpDate"@) matches Some(ex) && spec_text_of(ex)
                == Some(v.domain.current_expiry_date@)
            &&& spec_node_child(dr, "domain:period"@) matches Some(p) && ({
                &&& spec_node_attr(p, "unit"@) == Some(v.domain.period.unit@)
                &&& spec_text_of(p) matches Some(digits) && crate::num::spec_parse_dec(digits)
                    == Some(v.domain.period.length as nat)
            })
        })
    }
}

/// The renew command round trip: any reading of a serialized renew
/// command carries exactly the name, expiry date and period put in.
pub proof fn lemma_domain_renew_round_trip(v: DomainRenew, w: DomainRenew)
    requires
        DomainRenew::spec_command_decodes(v.spec_node(), w),
    ensures
        w.domain.xmlns@ == v.domain.xmlns@,
        w.domain.name@ == v.domain.name@,
        w.domain.current_expiry_date@ == v.domain.current_expiry_date@,
        w.domain.period.unit@ == v.domain.period.unit@,
        w.domain.period.length == v.domain.period.length,
{
    let node = v.spec_node();
    let name_el = spec_text_node("domain:name"@, v.domain.name@);
    let date_el = spec_text_node("domain:curExpDate"@, v.domain.current_expiry_date@);
    let period_el = v.domain.period.spec_node();
    let dr = SpecNode::Elem {
        name: "domain:renew"@,
        attrs: seq![SpecAttr { name: "xmlns:domain"@, value: v.domain.xmlns@ }],
        children: seq![name_el, date_el, period_el],
    };
    assert(node->Elem_children[0] == dr);
    assert(spec_node_child(node, "domain:renew"@) == Some(dr)) by {
        assert(spec_elem_named(node->Elem_children[0], "domain:renew"@));
    }
    assert(spec_node_child(dr, "domain:name"@) == Some(name_el)) by {
        assert(spec_elem_named(dr->Elem_children[0], "domain:name"@));
    }
    assert(spec_node_child(dr, "domain:curExpDate"@) == Some(date_el)) by {
        reveal_with_fuel(crate::xml::spec_child_of, 4);
        reveal_strlit("domain:name");
        reveal_strlit("domain:curExpDate");
        assert("domain:name"@.len() == 11);
        assert("domain:curExpDate"@.len() == 17);
        assert(!spec_elem_named(dr->Elem_children[0], "domain:curExpDate"@));
        assert(dr->Elem_children.drop_first() =~= seq![date_el, period_el]);
        assert(spec_elem_named(date_el, "domain:curExpDate"@));
    }
    assert(spec_node_child(dr, "domain:period"@) == Some(period_el)) by {
        reveal_with_fuel(crate::xml::spec_child_of, 4);
        reveal_strlit("domain:name");
        reveal_strlit("domain:curExpDate");
        reveal_strlit("domain:period");
        assert("domain:name"@.len() == 11);
        assert("domain:curExpDate"@.len() == 17);
        assert("domain:period"@.len() == 13);
        assert(!spec_elem_named(dr->Elem_children[0], "domain:period"@));
        assert(dr->Elem_children.drop_first() =~= seq![date_el, period_el]);
        assert(!spec_elem_named(date_el, "domain:period"@));
        assert(seq![date_el, period_el].drop_first() =~= seq![period_el]);
        assert(spec_elem_named(period_el, "domain:period"@));
    }
    crate::num::lemma_dec_digits(v.domain.period.length as nat);
    assert(spec_text_of(period_el) == Some(crate::num::spec_dec(v.domain.period.length as nat)));
    crate::num::lemma_dec_round_trip(v.domain.period.length as nat);
}

} // verus!
