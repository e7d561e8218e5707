//! Types for the restore request of the redemption grace period
//! extension.

use vstd::prelude::*;

use super::XMLNS;
use crate::domain::info::DomainInfo;
use crate::domain::update::DomainUpdate;
use crate::err::EppError;
use crate::request::EppExtension;
use crate::request::FromXml;
use crate::request::Transaction;
use crate::xml::attr;
use crate::xml::attrs_view;
use crate::xml::children_view;
use crate::xml::elem_with_attrs;
use crate::xml::attr_text_node;
use crate::xml::spec_attr_text_node;
use crate::xml::spec_children_named;
use crate::xml::spec_node_attr;
use crate::xml::spec_node_child;
use crate::xml::SpecAttr;
use crate::xml::SpecNode;
use crate::xml::XmlAttr;
use crate::xml::XmlNode;

verus! {

broadcast use
    vstd::std_specs::vec::group_vec_axioms,
    vstd::seq::group_seq_axioms,
;

/// The `<restore>` tag of a restore request.
#[derive(Debug, PartialEq, Eq)]
pub struct RgpRestoreRequestData {
    /// The value of the `op` attribute, always "request" here.
    pub op: String,
}

/// The `<rgp:update>` extension body asking for a restore.
#[derive(Debug, PartialEq, Eq)]
pub struct RgpRestoreRequest {
    /// The XML namespace for the restore extension.
    pub xmlns: String,
    /// The `<restore>` tag.
    pub restore: RgpRestoreRequestData,
}

impl RgpRestoreRequest {
    pub fn new() -> (r: RgpRestoreRequest)
        ensures
            r.xmlns@ == XMLNS@,
            r.restore.op@ == "request"@,
    {
        RgpRestoreRequest {
            xmlns: String::from_str(XMLNS),
            restore: RgpRestoreRequestData { op: String::from_str("request") },
        }
    }
}

impl Default for RgpRestoreRequest {
    fn default() -> (r: RgpRestoreRequest)
        ensures
            r.xmlns@ == XMLNS@,
            r.restore.op@ == "request"@,
    {
        RgpRestoreRequest::new()
    }
}

impl EppExtension for RgpRestoreRequest {
    /// `<rgp:update xmlns:rgp=".."><rgp:restore op="request"/></rgp:update>`
    open spec fn spec_ext_node(&self) -> SpecNode {
        SpecNode::Elem {
            name: "rgp:update"@,
            attrs: seq![SpecAttr { name: "xmlns:rgp"@, value: self.xmlns@ }],
            children: seq![
                spec_attr_text_node(
                    "rgp:restore"@,
                    seq![SpecAttr { name: "op"@, value: self.restore.op@ }],
                    Seq::empty(),
                ),
            ],
        }
    }

    fn ext_node(&self) -> (r: XmlNode) {
        let mut restore_attrs: Vec<XmlAttr> = Vec::new();
        restore_attrs.push(attr("op", String::from_str(self.restore.op.as_str())));
        proof {
            assert(attrs_view(restore_attrs) =~= seq![SpecAttr {
                name: "op"@,
                value: self.restore.op@,
            }]);
        }
        let restore = attr_text_node("rgp:restore", restore_attrs, String::new());
        let mut attrs: Vec<XmlAttr> = Vec::new();
        attrs.push(attr("xmlns:rgp", String::from_str(self.xmlns.as_str())));
        let mut children: Vec<XmlNode> = Vec::new();
        children.push(restore);
        proof {
            assert(attrs_view(attrs) =~= self.spec_ext_node()->Elem_attrs);
            assert(children_view(children) =~= self.spec_ext_node()->Elem_children);
        }
        elem_with_attrs("rgp:update", attrs, children)
    }
}

// Response

/// The `<rgpStatus>` tag of a restore response.
#[derive(Debug, PartialEq, Eq)]
pub struct RgpStatus {
    /// The domain's grace period status.
    pub status: String,
}

/// The `<upData>` extension payload of a restore response.
#[derive(Debug, PartialEq, Eq)]
pub struct RgpRequestResponse {
    /// Data under the `<rgpStatus>` tags.
    pub rgp_status: Vec<RgpStatus>,
}

impl FromXml for RgpRequestResponse {
    /// Whether `v` reads the response's `<extension>` element `n`.
    open spec fn spec_decodes(n: SpecNode, v: RgpRequestResponse) -> bool {
        spec_node_child(n, "rgp:upData"@) matches Some(up) && {
            let ss = spec_children_named(up->Elem_children, "rgp:rgpStatus"@);
            &&& v.rgp_status@.len() == ss.len()
            &&& forall|i: int|
                0 <= i < ss.len() ==> spec_node_attr(ss[i], "s"@) == Some(
                    (#[trigger] v.rgp_status@[i]).status@,
                )
        }
    }

    #[verifier::loop_isolation(false)]
    fn from_node(n: &XmlNode) -> (r: Result<RgpRequestResponse, EppError>) {
        let up = match n.child("rgp:upData") {
            Some(x) => x,
            None => {
                proof {
                    assert(forall|v: RgpRequestResponse| !Self::spec_decodes(n@, v));
                }
                return Err(
                    EppError::Decode { message: String::from_str("restore data is missing") },
                );
            },
        };
        proof {
            crate::xml::lemma_node_child_named(n@, "rgp:upData"@);
        }
        let ss = up.children_named("rgp:rgpStatus");
        let ghost spec_ss = spec_children_named(up@->Elem_children, "rgp:rgpStatus"@);
        let mut statuses: Vec<RgpStatus> = Vec::new();
        let mut i: usize = 0;
        while i < ss.len()
            invariant
                0 <= i <= ss.len(),
                up@ is Elem,
                ss@.len() == spec_ss.len(),
                forall|j: int| 0 <= j < ss@.len() ==> (#[trigger] ss@[j])@ == spec_ss[j],
                statuses@.len() == i,
                forall|j: int|
                    0 <= j < i ==> spec_node_attr(spec_ss[j], "s"@) == Some(
                        (#[trigger] statuses@[j]).status@,
                    ),
            decreases ss.len() - i,
        {
            let st = match ss[i].attr_value("s") {
                Some(s) => s,
                None => {
                    proof {
                        assert(ss@[i as int]@ == spec_ss[i as int]);
                        assert forall|v: RgpRequestResponse| !Self::spec_decodes(n@, v) by {
                            if v.rgp_status@.len() == spec_ss.len() {
                                assert(spec_node_attr(spec_ss[i as int], "s"@) != Some(
                                    v.rgp_status@[i as int].status@,
                                ));
                            }
                        }
                    }
                    return Err(
                        EppError::Decode {
                            message: String::from_str("grace period status has no name"),
                        },
                    );
                },
            };
            proof {
                assert(ss@[i as int]@ == spec_ss[i as int]);
                assert(spec_node_attr(spec_ss[i as int], "s"@) == Some(st@));
            }
            statuses.push(RgpStatus { status: st });
            proof {
                assert((statuses@[i as int]).status@ == st@);
            }
            i = i + 1;
        }
        Ok(RgpRequestResponse { rgp_status: statuses })
    }
}

impl Transaction<RgpRestoreRequest> for DomainUpdate {
    type Response = ();

    type ExtensionResponse = RgpRequestResponse;
}

impl Transaction<RgpRestoreRequest> for DomainInfo {
    type Response = <DomainInfo as Transaction<crate::common::NoExtension>>::Response;

    type ExtensionResponse = RgpRequestResponse;
}

} // verus!
