//! Commands, extensions, and the envelope that carries them: the
//! generic pairing of a base command with zero or one extension.

use vstd::prelude::*;

use crate::err::EppError;
use crate::xml::children_view;
use crate::xml::elem;
use crate::xml::elem_with_attrs;
use crate::xml::attr;
use crate::xml::attrs_view;
use crate::xml::render_document;
use crate::xml::spec_document;
use crate::xml::spec_text_node;
use crate::xml::text_node;
use crate::xml::wf_node;
use crate::xml::wf_text;
use crate::xml::is_wf_text_str;
use crate::xml::SpecAttr;
use crate::xml::SpecNode;
use crate::xml::XmlAttr;
use crate::xml::XmlNode;

verus! {

/// The namespace of the protocol's root element.
pub const EPP_XMLNS: &'static str = "urn:ietf:params:xml:ns:epp-1.0";

/// A base command: a value with a fixed XML body under `<command>`.
pub trait EppCommand {
    /// The command body, an element such as `<check>` or `<login>`.
    spec fn spec_node(&self) -> SpecNode;

    /// Build the command body.
    fn command_node(&self) -> (r: XmlNode)
        ensures
            r@ == self.spec_node(),
    ;
}

/// A protocol extension: a value with a fixed XML body under
/// `<extension>`.
pub trait EppExtension {
    /// The extension body, an element such as `<rgp:update>`.
    spec fn spec_ext_node(&self) -> SpecNode;

    /// Build the extension body.
    fn ext_node(&self) -> (r: XmlNode)
        ensures
            r@ == self.spec_ext_node(),
    ;
}

/// A value decodable from one XML element.
pub trait FromXml: Sized {
    /// Whether `v` is the reading of the element `n`.
    spec fn spec_decodes(n: SpecNode, v: Self) -> bool;

    /// Read a value out of an element.  A failure is always a decode
    /// error, and happens only when no value at all reads the element.
    fn from_node(n: &XmlNode) -> (r: Result<Self, EppError>)
        ensures
            r matches Ok(v) ==> Self::spec_decodes(n@, v),
            r matches Err(e) ==> e is Decode && (forall|v: Self| !Self::spec_decodes(n@, v)),
    ;
}

/// The envelope of one command document: `<epp>` around `<command>`,
/// holding the base command, the extension if one is present, and the
/// client transaction id.
pub open spec fn spec_command_envelope(cmd: SpecNode, ext: Option<SpecNode>, id: Seq<char>)
    -> SpecNode {
    SpecNode::Elem {
        name: "epp"@,
        attrs: seq![SpecAttr { name: "xmlns"@, value: EPP_XMLNS@ }],
        children: seq![
            SpecNode::Elem {
                name: "command"@,
                attrs: Seq::empty(),
                children: seq![cmd] + (match ext {
                    Some(e) => seq![
                        SpecNode::Elem {
                            name: "extension"@,
                            attrs: Seq::empty(),
                            children: seq![e],
                        },
                    ],
                    None => Seq::empty(),
                }) + seq![spec_text_node("clTRID"@, id)],
            },
        ],
    }
}

/// The envelope written by a path that knows nothing of extensions:
/// the command body, then the client transaction id.
pub open spec fn spec_plain_command_envelope(cmd: SpecNode, id: Seq<char>) -> SpecNode {
    SpecNode::Elem {
        name: "epp"@,
        attrs: seq![SpecAttr { name: "xmlns"@, value: EPP_XMLNS@ }],
        children: seq![
            SpecNode::Elem {
                name: "command"@,
                attrs: Seq::empty(),
                children: seq![cmd, spec_text_node("clTRID"@, id)],
            },
        ],
    }
}

/// Extension neutrality: pairing a command with no extension yields
/// exactly the envelope of the extension-free path.
pub proof fn lemma_no_extension_neutral(cmd: SpecNode, id: Seq<char>)
    ensures
        spec_command_envelope(cmd, None, id) == spec_plain_command_envelope(cmd, id),
{
    let a = spec_command_envelope(cmd, None, id);
    let b = spec_plain_command_envelope(cmd, id);
    assert(a->Elem_children[0]->Elem_children =~= b->Elem_children[0]->Elem_children);
    assert(a->Elem_children[0] == b->Elem_children[0]);
    assert(a->Elem_children =~= b->Elem_children);
}

/// The request round trip: a serialized command document parses back to
/// exactly the envelope it was rendered from.
pub proof fn lemma_request_round_trip(cmd: SpecNode, ext: Option<SpecNode>, id: Seq<char>)
    requires
        wf_node(spec_command_envelope(cmd, ext, id)),
    ensures
        crate::xml::spec_parse_document(
            spec_document(spec_command_envelope(cmd, ext, id)),
        ) == Some(spec_command_envelope(cmd, ext, id)),
{
    crate::xml::lemma_document_round_trip(spec_command_envelope(cmd, ext, id));
}

/// Build the envelope tree for a command document.
pub fn build_command_envelope(cmd: XmlNode, ext: Option<XmlNode>, client_tr_id: &str) -> (r:
    XmlNode)
    ensures
        r@ == spec_command_envelope(
            cmd@,
            match ext {
                Some(e) => Some(e@),
                None => None,
            },
            client_tr_id@,
        ),
{
    let ghost cmd_view = cmd@;
    let ghost ext_view = match &ext {
        Some(e) => Some(e@),
        None => None::<SpecNode>,
    };
    let mut command_children: Vec<XmlNode> = Vec::new();
    command_children.push(cmd);
    match ext {
        Some(e) => {
            let ghost ev = e@;
            let mut ext_children: Vec<XmlNode> = Vec::new();
            ext_children.push(e);
            proof {
                assert(children_view(ext_children) =~= seq![ev]);
            }
            let ext_el = elem("extension", ext_children);
            command_children.push(ext_el);
        },
        None => {},
    }
    let trid = text_node("clTRID", String::from_str(client_tr_id));
    command_children.push(trid);
    proof {
        assert(children_view(command_children)
            =~= spec_command_envelope(cmd_view, ext_view, client_tr_id@)
            ->Elem_children[0]->Elem_children);
    }
    let command = elem("command", command_children);
    let mut attrs: Vec<XmlAttr> = Vec::new();
    attrs.push(attr("xmlns", String::from_str(EPP_XMLNS)));
    let mut root_children: Vec<XmlNode> = Vec::new();
    root_children.push(command);
    proof {
        assert(attrs_view(attrs) =~= spec_command_envelope(
            cmd_view,
            ext_view,
            client_tr_id@,
        )->Elem_attrs);
        assert(children_view(root_children) =~= spec_command_envelope(
            cmd_view,
            ext_view,
            client_tr_id@,
        )->Elem_children);
    }
    elem_with_attrs("epp", attrs, root_children)
}

/// Serialize one command document: the base command, at most one
/// extension, and the client transaction id.  Succeeds exactly when the
/// command, the extension and the transaction id are representable.
pub fn serialize_command<C: EppCommand, E: EppExtension>(
    command: &C,
    extension: Option<&E>,
    client_tr_id: &str,
) -> (r: Result<String, EppError>)
    ensures
        ({
            let envelope = spec_command_envelope(
                command.spec_node(),
                match extension {
                    Some(e) => Some(e.spec_ext_node()),
                    None => None,
                },
                client_tr_id@,
            );
            match r {
                Ok(s) => wf_text(client_tr_id@) && wf_node(envelope) && s@ == spec_document(
                    envelope,
                ),
                Err(e) => !(wf_text(client_tr_id@) && wf_node(envelope)) && e is Encode,
            }
        }),
{
    if !is_wf_text_str(client_tr_id) {
        return Err(
            EppError::Encode {
                message: String::from_str("client transaction id must be nonempty plain text"),
            },
        );
    }
    let cmd_node = command.command_node();
    let ext_node = match extension {
        Some(e) => Some(e.ext_node()),
        None => None,
    };
    let root = build_command_envelope(cmd_node, ext_node, client_tr_id);
    if !root.is_wf() {
        return Err(
            EppError::Encode {
                message: String::from_str("command or extension holds markup characters"),
            },
        );
    }
    Ok(render_document(&root))
}

/// Serialize a command document through the extension-free path: no
/// extension element is ever written.
pub fn serialize_command_plain<C: EppCommand>(command: &C, client_tr_id: &str) -> (r: Result<
    String,
    EppError,
>)
    ensures
        ({
            let envelope = spec_plain_command_envelope(command.spec_node(), client_tr_id@);
            match r {
                Ok(s) => wf_text(client_tr_id@) && wf_node(envelope) && s@ == spec_document(
                    envelope,
                ),
                Err(e) => !(wf_text(client_tr_id@) && wf_node(envelope)) && e is Encode,
            }
        }),
{
    if !is_wf_text_str(client_tr_id) {
        return Err(
            EppError::Encode {
                message: String::from_str("client transaction id must be nonempty plain text"),
            },
        );
    }
    let cmd_node = command.command_node();
    let mut command_children: Vec<XmlNode> = Vec::new();
    let ghost cmd_view = cmd_node@;
    command_children.push(cmd_node);
    let trid = text_node("clTRID", String::from_str(client_tr_id));
    command_children.push(trid);
    proof {
        assert(children_view(command_children) =~= spec_plain_command_envelope(
            cmd_view,
            client_tr_id@,
        )->Elem_children[0]->Elem_children);
    }
    let command_el = elem("command", command_children);
    let mut attrs: Vec<XmlAttr> = Vec::new();
    attrs.push(attr("xmlns", String::from_str(EPP_XMLNS)));
    let mut root_children: Vec<XmlNode> = Vec::new();
    root_children.push(command_el);
    proof {
        assert(attrs_view(attrs) =~= spec_plain_command_envelope(
            cmd_view,
            client_tr_id@,
        )->Elem_attrs);
        assert(children_view(root_children) =~= spec_plain_command_envelope(
            cmd_view,
            client_tr_id@,
        )->Elem_children);
    }
    let root = elem_with_attrs("epp", attrs, root_children);
    if !root.is_wf() {
        return Err(
            EppError::Encode {
                message: String::from_str("command holds markup characters"),
            },
        );
    }
    Ok(render_document(&root))
}

} // verus!

verus! {

/// A protocol-valid pairing of a base command with an extension type,
/// fixing the response shapes the registry answers that pairing with.
/// The dispatcher is generic over the pair and never inspects which
/// extension was supplied.
pub trait Transaction<Ext: EppExtension>: EppCommand + Sized {
    /// The base response payload under `<resData>`.
    type Response: FromXml;

    /// The extension response payload under the response's
    /// `<extension>` tag.
    type ExtensionResponse: FromXml;

    /// Serialize this command, paired with at most one extension, into
    /// a request document.  Succeeds exactly when the parts are
    /// representable on the wire.
    fn serialize_request(self, extension: Option<&Ext>, client_tr_id: &str) -> (r: Result<
        String,
        EppError,
    >)
        ensures
            ({
                let envelope = spec_command_envelope(
                    self.spec_node(),
                    match extension {
                        Some(e) => Some(e.spec_ext_node()),
                        None => None,
                    },
                    client_tr_id@,
                );
                match r {
                    Ok(s) => wf_text(client_tr_id@) && wf_node(envelope) && s@ == spec_document(
                        envelope,
                    ),
                    Err(e) => !(wf_text(client_tr_id@) && wf_node(envelope)) && e is Encode,
                }
            }),
    {
        serialize_command(&self, extension, client_tr_id)
    }

    /// Decode a response document for this pairing.
    fn deserialize_response(xml: &str) -> (r: Result<
        crate::response::Response<Self::Response, Self::ExtensionResponse>,
        EppError,
    >)
        ensures
            r matches Ok(resp) ==> crate::xml::spec_parse_document(xml@) matches Some(root)
                && crate::response::spec_response_decodes(root, resp),
            r matches Err(e) ==> e is Decode && (crate::xml::spec_parse_document(
                xml@,
            ) matches Some(root) ==> (forall|resp: crate::response::Response<
                Self::Response,
                Self::ExtensionResponse,
            >| !#[trigger] crate::response::spec_response_decodes(root, resp))),
    {
        crate::response::decode_response(xml)
    }
}

/// A response payload of no content: reading it never fails and learns
/// nothing.
impl FromXml for () {
    open spec fn spec_decodes(n: SpecNode, v: ()) -> bool {
        true
    }

    fn from_node(n: &XmlNode) -> (r: Result<(), EppError>) {
        Ok(())
    }
}

/// A response payload read as the element's character data.
impl FromXml for String {
    open spec fn spec_decodes(n: SpecNode, v: String) -> bool {
        crate::xml::spec_text_of(n) == Some(v@)
    }

    fn from_node(n: &XmlNode) -> (r: Result<String, EppError>) {
        match n.text_content() {
            Some(t) => Ok(t),
            None => {
                proof {
                    assert(forall|v: String| !Self::spec_decodes(n@, v));
                }
                Err(
                    EppError::Decode {
                        message: String::from_str("payload is not character data"),
                    },
                )
            },
        }
    }
}

} // verus!
