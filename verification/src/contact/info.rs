//! Types for the contact info request and response.

use vstd::prelude::*;

use super::XMLNS;
use crate::common::ContactAuthInfo;
use crate::common::NoExtension;
use crate::common::StringValue;
use crate::err::EppError;
use crate::request::EppCommand;
use crate::request::FromXml;
use crate::request::Transaction;
use crate::xml::attr;
use crate::xml::attrs_view;
use crate::xml::children_view;
use crate::xml::elem;
use crate::xml::elem_with_attrs;
use crate::xml::spec_node_child;
use crate::xml::spec_text_node;
use crate::xml::spec_text_of;
use crate::xml::text_node;
use crate::xml::SpecAttr;
use crate::xml::SpecNode;
use crate::xml::XmlAttr;
use crate::xml::XmlNode;

verus! {

/// The data under the contact `<info>` tag.
#[derive(Debug, PartialEq, Eq)]
pub struct ContactInfoRequestData {
    /// The XML namespace for contact commands.
    pub xmlns: String,
    /// The contact to be queried.
    pub id: StringValue,
    /// The authorization password.
    pub auth_info: ContactAuthInfo,
}

/// The `<info>` command for contacts.
#[derive(Debug, PartialEq, Eq)]
pub struct ContactInfo {
    /// The data under the `<info>` tag.
    pub info: ContactInfoRequestData,
}

impl ContactInfo {
    pub fn new(id: &str, auth_password: &str) -> (r: ContactInfo)
        ensures
            r.info.xmlns@ == XMLNS@,
            r.info.id@ == id@,
            r.info.auth_info.password@ == auth_password@,
    {
        ContactInfo {
            info: ContactInfoRequestData {
                xmlns: String::from_str(XMLNS),
                id: StringValue::new(id),
                auth_info: ContactAuthInfo::new(auth_password),
            },
        }
    }
}

impl EppCommand for ContactInfo {
    /// `<info><contact:info xmlns:contact="..">` with the id and the
    /// authorization data.
    open spec fn spec_node(&self) -> SpecNode {
        SpecNode::Elem {
            name: "info"@,
            attrs: Seq::empty(),
            children: seq![
                SpecNode::Elem {
                    name: "contact:info"@,
                    attrs: seq![SpecAttr { name: "xmlns:contact"@, value: self.info.xmlns@ }],
                    children: seq![
                        spec_text_node("contact:id"@, self.info.id@),
                        self.info.auth_info.spec_node(),
                    ],
                },
            ],
        }
    }

    fn command_node(&self) -> (r: XmlNode) {
        let mut inner_children: Vec<XmlNode> = Vec::new();
        inner_children.push(text_node("contact:id", String::from_str(self.info.id.as_str())));
        inner_children.push(self.info.auth_info.node());
        let mut attrs: Vec<XmlAttr> = Vec::new();
        attrs.push(attr("xmlns:contact", String::from_str(self.info.xmlns.as_str())));
        proof {
            assert(attrs_view(attrs) =~= seq![SpecAttr {
                name: "xmlns:contact"@,
                value: self.info.xmlns@,
            }]);
            assert(children_view(inner_children) =~= self.spec_node()
                ->Elem_children[0]->Elem_children);
        }
        let inner = elem_with_attrs("contact:info", attrs, inner_children);
        let mut children: Vec<XmlNode> = Vec::new();
        children.push(inner);
        proof {
            assert(children_view(children) =~= self.spec_node()->Elem_children);
        }
        elem("info", children)
    }
}

impl Transaction<NoExtension> for ContactInfo {
    type Response = ContactInfoResponse;

    type ExtensionResponse = NoExtension;
}

// Response

/// The `<infData>` tag of a contact info response: the fields the
/// transaction layer reads out of it.
#[derive(Debug, PartialEq, Eq)]
pub struct ContactInfoData {
    /// The contact id.
    pub id: StringValue,
    /// The contact's repository object id.
    pub roid: StringValue,
    /// The contact's email address.
    pub email: StringValue,
    /// The user the contact belongs to.
    pub client_id: StringValue,
    /// The user who created the contact.
    pub creator_id: StringValue,
    /// The creation date.
    pub created_at: StringValue,
}

/// The `<resData>` payload of a contact info response.
#[derive(Debug, PartialEq, Eq)]
pub struct ContactInfoResponse {
    /// Data under the `<infData>` tag.
    pub info_data: ContactInfoData,
}

impl FromXml for ContactInfoResponse {
    /// Whether `v` reads the `<resData>` element `n`.
    open spec fn spec_decodes(n: SpecNode, v: ContactInfoResponse) -> bool {
        spec_node_child(n, "contact:infData"@) matches Some(inf) && ({
            &&& spec_node_child(inf, "contact:id"@) matches Some(x) && spec_text_of(x) == Some(
                v.info_data.id@,
            )
            &&& spec_node_child(inf, "contact:roid"@) matches Some(x) && spec_text_of(x) == Some(
                v.info_data.roid@,
            )
            &&& spec_node_child(inf, "contact:email"@) matches Some(x) && spec_text_of(x) == Some(
                v.info_data.email@,
            )
            &&& spec_node_child(inf, "contact:clID"@) matches Some(x) && spec_text_of(x) == Some(
                v.info_data.client_id@,
            )
            &&& spec_node_child(inf, "contact:crID"@) matches Some(x) && spec_text_of(x) == Some(
                v.info_data.creator_id@,
            )
            &&& spec_node_child(inf, "contact:crDate"@) matches Some(x) && spec_text_of(x)
                == Some(v.info_data.created_at@)
        })
    }

    fn from_node(n: &XmlNode) -> (r: Result<ContactInfoResponse, EppError>) {
        let inf = match n.child("contact:infData") {
            Some(c) => c,
            None => {
                proof {
                    assert(forall|v: ContactInfoResponse| !Self::spec_decodes(n@, v));
                }
                return Err(
                    EppError::Decode { message: String::from_str("info data is missing") },
                );
            },
        };
        let id = match read_text(inf, "contact:id") {
            Ok(t) => t,
            Err(e) => {
                proof {
                    assert(forall|v: ContactInfoResponse| !Self::spec_decodes(n@, v));
                }
                return Err(e);
            },
        };
        let roid = match read_text(inf, "contact:roid") {
            Ok(t) => t,
            Err(e) => {
                proof {
                    assert(forall|v: ContactInfoResponse| !Self::spec_decodes(n@, v));
                }
                return Err(e);
            },
        };
        let email = match read_text(inf, "contact:email") {
            Ok(t) => t,
            Err(e) => {
                proof {
                    assert(forall|v: ContactInfoResponse| !Self::spec_decodes(n@, v));
                }
                return Err(e);
            },
        };
        let client_id = match read_text(inf, "contact:clID") {
            Ok(t) => t,
            Err(e) => {
                proof {
                    assert(forall|v: ContactInfoResponse| !Self::spec_decodes(n@, v));
                }
                return Err(e);
            },
        };
        let creator_id = match read_text(inf, "contact:crID") {
            Ok(t) => t,
            Err(e) => {
                proof {
                    assert(forall|v: ContactInfoResponse| !Self::spec_decodes(n@, v));
                }
                return Err(e);
            },
        };
        let created_at = match read_text(inf, "contact:crDate") {
            Ok(t) => t,
            Err(e) => {
                proof {
                    assert(forall|v: ContactInfoResponse| !Self::spec_decodes(n@, v));
                }
                return Err(e);
            },
        };
        Ok(
            ContactInfoResponse {
                info_data: ContactInfoData { id, roid, email, client_id, creator_id, created_at },
            },
        )
    }
}

/// The character data of the named child, or a decode error.
fn read_text(n: &XmlNode, name: &str) -> (r: Result<StringValue, EppError>)
    ensures
        r matches Ok(v) ==> spec_node_child(n@, name@) matches Some(c) && spec_text_of(c) == Some(
            v@,
        ),
        r matches Err(e) ==> e is Decode && (spec_node_child(n@, name@) is None || (
        spec_node_child(n@, name@) matches Some(c) && spec_text_of(c) is None)),
{
    match n.child(name) {
        Some(c) => match c.text_content() {
            Some(t) => Ok(StringValue(t)),
            None => Err(
                EppError::Decode { message: String::from_str("field is not character data") },
            ),
        },
        None => Err(EppError::Decode { message: String::from_str("a field is missing") }),
    }
}

} // verus!
