//! Types for the message acknowledgement request.

use vstd::prelude::*;

use crate::common::NoExtension;
use crate::num::dec_string;
use crate::num::spec_dec;
use crate::request::EppCommand;
use crate::request::Transaction;
use crate::xml::attr;
use crate::xml::attrs_view;
use crate::xml::attr_text_node;
use crate::xml::spec_attr_text_node;
use crate::xml::SpecAttr;
use crate::xml::SpecNode;
use crate::xml::XmlAttr;
use crate::xml::XmlNode;

verus! {

/// The `<poll op="ack">` command, acknowledging one queued message.
#[derive(Debug, PartialEq, Eq)]
pub struct MessageAck {
    /// The operation, always "ack" here.
    pub op: String,
    /// The id of the message to acknowledge.
    pub message_id: String,
}

impl MessageAck {
    pub fn new(message_id: u32) -> (r: MessageAck)
        ensures
            r.op@ == "ack"@,
            r.message_id@ == spec_dec(message_id as nat),
    {
        MessageAck { op: String::from_str("ack"), message_id: dec_string(message_id as u64) }
    }
}

impl EppCommand for MessageAck {
    /// `<poll op="ack" msgID=".."/>`
    open spec fn spec_node(&self) -> SpecNode {
        spec_attr_text_node(
            "poll"@,
            seq![
                SpecAttr { name: "op"@, value: self.op@ },
                SpecAttr { name: "msgID"@, value: self.message_id@ },
            ],
            Seq::empty(),
        )
    }

    fn command_node(&self) -> (r: XmlNode) {
        let mut attrs: Vec<XmlAttr> = Vec::new();
        attrs.push(attr("op", String::from_str(self.op.as_str())));
        attrs.push(attr("msgID", String::from_str(self.message_id.as_str())));
        proof {
            assert(attrs_view(attrs) =~= self.spec_node()->Elem_attrs);
        }
        attr_text_node("poll", attrs, String::new())
    }
}

impl Transaction<NoExtension> for MessageAck {
    type Response = String;

    type ExtensionResponse = NoExtension;
}

} // verus!
