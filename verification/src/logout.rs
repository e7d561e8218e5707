//! The logout command, ending a session.

use vstd::prelude::*;

use crate::common::NoExtension;
use crate::request::EppCommand;
use crate::request::Transaction;
use crate::xml::children_view;
use crate::xml::elem;
use crate::xml::SpecNode;
use crate::xml::XmlNode;

verus! {

/// Type corresponding to the `<logout>` tag in a logout request.
#[derive(Debug, PartialEq, Eq)]
pub struct Logout;

impl EppCommand for Logout {
    /// `<logout/>`
    open spec fn spec_node(&self) -> SpecNode {
        SpecNode::Elem { name: "logout"@, attrs: Seq::empty(), children: Seq::empty() }
    }

    fn command_node(&self) -> (r: XmlNode) {
        let children: Vec<XmlNode> = Vec::new();
        proof {
            assert(children_view(children) =~= Seq::<SpecNode>::empty());
        }
        elem("logout", children)
    }
}

impl Transaction<NoExtension> for Logout {
    type Response = ();

    type ExtensionResponse = NoExtension;
}

} // verus!
