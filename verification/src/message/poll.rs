//! Types for the message poll request.

use vstd::prelude::*;

use crate::common::NoExtension;
use crate::request::EppCommand;
use crate::request::Transaction;
use crate::xml::attr;
use crate::xml::attrs_view;
use crate::xml::attr_text_node;
use crate::xml::spec_attr_text_node;
use crate::xml::SpecAttr;
use crate::xml::SpecNode;
use crate::xml::XmlAttr;
use crate::xml::XmlNode;

verus! {

/// The `<poll op="req">` command, asking for the next queued message.
#[derive(Debug, PartialEq, Eq)]
pub struct MessagePoll {
    /// The operation, always "req" here.
    pub op: String,
}

impl Default for MessagePoll {
    fn default() -> (r: MessagePoll)
        ensures
            r.op@ == "req"@,
    {
        MessagePoll { op: String::from_str("req") }
    }
}

impl EppCommand for MessagePoll {
    /// `<poll op="req"/>`
    open spec fn spec_node(&self) -> SpecNode {
        spec_attr_text_node(
            "poll"@,
            seq![SpecAttr { name: "op"@, value: self.op@ }],
            Seq::empty(),
        )
    }

    fn command_node(&self) -> (r: XmlNode) {
        let mut attrs: Vec<XmlAttr> = Vec::new();
        attrs.push(attr("op", String::from_str(self.op.as_str())));
        proof {
            assert(attrs_view(attrs) =~= self.spec_node()->Elem_attrs);
        }
        attr_text_node("poll", attrs, String::new())
    }
}

impl Transaction<NoExtension> for MessagePoll {
    type Response = String;

    type ExtensionResponse = NoExtension;
}

} // verus!
