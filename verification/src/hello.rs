//! The hello request, asking the server to repeat its greeting.

use vstd::prelude::*;

use crate::err::EppError;
use crate::request::EppCommand;
use crate::request::EPP_XMLNS;
use crate::xml::attr;
use crate::xml::attrs_view;
use crate::xml::children_view;
use crate::xml::elem;
use crate::xml::elem_with_attrs;
use crate::xml::is_wf_text_str;
use crate::xml::render_document;
use crate::xml::spec_document;
use crate::xml::wf_node;
use crate::xml::SpecAttr;
use crate::xml::SpecNode;
use crate::xml::XmlAttr;
use crate::xml::XmlNode;

verus! {

/// Type corresponding to the `<hello>` tag.
#[derive(Debug, PartialEq, Eq)]
pub struct Hello;

impl EppCommand for Hello {
    /// `<hello/>`
    open spec fn spec_node(&self) -> SpecNode {
        SpecNode::Elem { name: "hello"@, attrs: Seq::empty(), children: Seq::empty() }
    }

    fn command_node(&self) -> (r: XmlNode) {
        let children: Vec<XmlNode> = Vec::new();
        proof {
            assert(children_view(children) =~= Seq::<SpecNode>::empty());
        }
        elem("hello", children)
    }
}

/// A document whose `<epp>` root wraps the body directly, without a
/// `<command>` envelope; the hello request is one.
#[derive(Debug, PartialEq, Eq)]
pub struct EppObject<T> {
    /// The document body.
    pub data: T,
}

/// The `<epp>` root around a bare body.
pub open spec fn spec_epp_root(body: SpecNode) -> SpecNode {
    SpecNode::Elem {
        name: "epp"@,
        attrs: seq![SpecAttr { name: "xmlns"@, value: EPP_XMLNS@ }],
        children: seq![body],
    }
}

impl<T: EppCommand> EppObject<T> {
    /// Wrap a body for serialization.
    pub fn build(data: T) -> (r: EppObject<T>)
        ensures
            r.data == data,
    {
        EppObject { data }
    }

    /// Serialize the document.  Succeeds exactly when the body is
    /// representable on the wire.
    pub fn serialize(&self) -> (r: Result<String, EppError>)
        ensures
            match r {
                Ok(s) => wf_node(spec_epp_root(self.data.spec_node())) && s@ == spec_document(
                    spec_epp_root(self.data.spec_node()),
                ),
                Err(e) => !wf_node(spec_epp_root(self.data.spec_node())) && e is Encode,
            },
    {
        let body = self.data.command_node();
        let mut attrs: Vec<XmlAttr> = Vec::new();
        attrs.push(attr("xmlns", String::from_str(EPP_XMLNS)));
        let mut children: Vec<XmlNode> = Vec::new();
        children.push(body);
        proof {
            assert(attrs_view(attrs) =~= spec_epp_root(self.data.spec_node())->Elem_attrs);
            assert(children_view(children) =~= spec_epp_root(self.data.spec_node())
                ->Elem_children);
        }
        let root = elem_with_attrs("epp", attrs, children);
        if !root.is_wf() {
            return Err(
                EppError::Encode { message: String::from_str("body holds markup characters") },
            );
        }
        Ok(render_document(&root))
    }
}

} // verus!
