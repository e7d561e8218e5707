//! The login command, opening an authenticated session.

use vstd::prelude::*;

use crate::common::NoExtension;
use crate::common::StringValue;
use crate::common::value_text_nodes;
use crate::request::EppCommand;
use crate::request::Transaction;
use crate::xml::append_nodes;
use crate::xml::children_view;
use crate::xml::elem;
use crate::xml::spec_text_node;
use crate::xml::text_node;
use crate::xml::SpecNode;
use crate::xml::XmlNode;

verus! {

broadcast use
    vstd::std_specs::vec::group_vec_axioms,
    vstd::seq::group_seq_axioms,
;

/// The protocol version spoken by this client.
pub const EPP_VERSION: &'static str = "1.0";

/// The language asked of the server.
pub const EPP_LANG: &'static str = "en";

/// The `<options>` of a login: protocol version and language.
#[derive(Debug, PartialEq, Eq)]
pub struct Options {
    pub version: StringValue,
    pub lang: StringValue,
}

/// The service extension URIs announced at login.
#[derive(Debug, PartialEq, Eq)]
pub struct ServiceExtension {
    pub ext_uris: Option<Vec<StringValue>>,
}

/// The object and extension URIs announced at login.
#[derive(Debug, PartialEq, Eq)]
pub struct Services {
    pub obj_uris: Vec<StringValue>,
    pub svc_ext: Option<ServiceExtension>,
}

/// The `<login>` command.
#[derive(Debug, PartialEq, Eq)]
pub struct Login {
    /// The registry account name.
    pub username: StringValue,
    /// The registry account password.
    pub password: StringValue,
    /// Protocol version and language.
    pub options: Options,
    /// The object and extension URIs this session will use.
    pub services: Services,
}

impl Login {
    pub fn new(username: &str, password: &str, ext_uris: Option<Vec<String>>) -> (r: Login)
        ensures
            r.username@ == username@,
            r.password@ == password@,
            r.options.version@ == EPP_VERSION@,
            r.options.lang@ == EPP_LANG@,
            r.services.obj_uris@.len() == 3,
            r.services.obj_uris@[0]@ == crate::host::XMLNS@,
            r.services.obj_uris@[1]@ == crate::contact::XMLNS@,
            r.services.obj_uris@[2]@ == crate::domain::XMLNS@,
            match ext_uris {
                Some(uris) => r.services.svc_ext matches Some(se) && se.ext_uris matches Some(us)
                    && us@.map_values(|v: StringValue| v@) == uris@.map_values(
                    |s: String| s@,
                ),
                None => r.services.svc_ext matches Some(se) && se.ext_uris is None,
            },
    {
        let ext_values = match ext_uris {
            Some(uris) => {
                let mut vs: Vec<StringValue> = Vec::new();
                let mut i: usize = 0;
                while i < uris.len()
                    invariant
                        0 <= i <= uris@.len(),
                        vs@.len() == i,
                        forall|j: int| 0 <= j < i ==> (#[trigger] vs@[j])@ == uris@[j]@,
                    decreases uris@.len() - i,
                {
                    vs.push(StringValue::new(uris[i].as_str()));
                    i = i + 1;
                }
                proof {
                    assert(vs@.map_values(|v: StringValue| v@) =~~= uris@.map_values(
                        |s: String| s@,
                    ));
                }
                Some(vs)
            },
            None => None,
        };
        let mut obj_uris: Vec<StringValue> = Vec::new();
        obj_uris.push(StringValue::new(crate::host::XMLNS));
        obj_uris.push(StringValue::new(crate::contact::XMLNS));
        obj_uris.push(StringValue::new(crate::domain::XMLNS));
        Login {
            username: StringValue::new(username),
            password: StringValue::new(password),
            options: Options {
                version: StringValue::new(EPP_VERSION),
                lang: StringValue::new(EPP_LANG),
            },
            services: Services { obj_uris, svc_ext: Some(ServiceExtension { ext_uris: ext_values }) },
        }
    }
}

impl EppCommand for Login {
    /// `<login>` with credentials, options, and the announced services.
    open spec fn spec_node(&self) -> SpecNode {
        SpecNode::Elem {
            name: "login"@,
            attrs: Seq::empty(),
            children: seq![
                spec_text_node("clID"@, self.username@),
                spec_text_node("pw"@, self.password@),
                SpecNode::Elem {
                    name: "options"@,
                    attrs: Seq::empty(),
                    children: seq![
                        spec_text_node("version"@, self.options.version@),
                        spec_text_node("lang"@, self.options.lang@),
                    ],
                },
                SpecNode::Elem {
                    name: "svcs"@,
                    attrs: Seq::empty(),
                    children: self.services.obj_uris@.map_values(
                        |v: StringValue| spec_text_node("objURI"@, v@),
                    ) + (match self.services.svc_ext {
                        Some(se) => seq![
                            SpecNode::Elem {
                                name: "svcExtension"@,
                                attrs: Seq::empty(),
                                children: (match se.ext_uris {
                                    Some(us) => us@.map_values(
                                        |v: StringValue| spec_text_node("extURI"@, v@),
                                    ),
                                    None => Seq::empty(),
                                }),
                            },
                        ],
                        None => Seq::empty(),
                    }),
                },
            ],
        }
    }

    fn command_node(&self) -> (r: XmlNode) {
        let mut options_children: Vec<XmlNode> = Vec::new();
        options_children.push(
            text_node("version", String::from_str(self.options.version.as_str())),
        );
        options_children.push(text_node("lang", String::from_str(self.options.lang.as_str())));
        proof {
            assert(children_view(options_children) =~= self.spec_node()
                ->Elem_children[2]->Elem_children);
        }
        let options_el = elem("options", options_children);
        let mut svcs_children = value_text_nodes("objURI", &self.services.obj_uris);
        let ghost obj_part = children_view(svcs_children);
        match &self.services.svc_ext {
            Some(se) => {
                let ext_children = match &se.ext_uris {
                    Some(us) => value_text_nodes("extURI", us),
                    None => Vec::new(),
                };
                proof {
                    assert(children_view(ext_children) =~= (match se.ext_uris {
                        Some(us) => us@.map_values(|v: StringValue| spec_text_node("extURI"@, v@)),
                        None => Seq::<SpecNode>::empty(),
                    }));
                }
                let se_el = elem("svcExtension", ext_children);
                svcs_children.push(se_el);
            },
            None => {},
        }
        proof {
            assert(children_view(svcs_children) =~= self.spec_node()
                ->Elem_children[3]->Elem_children);
        }
        let svcs_el = elem("svcs", svcs_children);
        let mut children: Vec<XmlNode> = Vec::new();
        children.push(text_node("clID", String::from_str(self.username.as_str())));
        children.push(text_node("pw", String::from_str(self.password.as_str())));
        children.push(options_el);
        children.push(svcs_el);
        proof {
            assert(children_view(children) =~= self.spec_node()->Elem_children);
        }
        elem("login", children)
    }
}

impl Transaction<NoExtension> for Login {
    type Response = ();

    type ExtensionResponse = NoExtension;
}

} // verus!
