//! The response envelope: result code and message, optional message
//! queue summary, optional base and extension payloads, and the
//! transaction id pair.

use vstd::prelude::*;

use crate::common::StringValue;
use crate::err::EppError;
use crate::err::RegistryError;
use crate::num::spec_parse_dec;
use crate::num::parse_dec_capped;
use crate::request::FromXml;
use crate::xml::parse_document;
use crate::xml::spec_node_attr;
use crate::xml::spec_node_child;
use crate::xml::spec_parse_document;
use crate::xml::spec_text_of;
use crate::xml::spec_elem_named;
use crate::xml::SpecNode;
use crate::xml::XmlNode;

verus! {

/// Type corresponding to the `<undef>` tag in a response.
#[derive(Debug, PartialEq, Eq)]
pub struct Undef;

/// Type corresponding to the `<value>` tag under `<extValue>`.
#[derive(Debug, PartialEq, Eq)]
pub struct ResultValue {
    /// The `<undef>` element.
    pub undef: Undef,
}

/// Type corresponding to the `<extValue>` tag in a response.
#[derive(Debug, PartialEq, Eq)]
pub struct ExtValue {
    /// Data under the `<value>` tag.
    pub value: ResultValue,
    /// Data under the `<reason>` tag.
    pub reason: StringValue,
}

/// Type corresponding to the `<result>` tag in a response.
#[derive(Debug, PartialEq, Eq)]
pub struct EppResult {
    /// The result code.
    pub code: u16,
    /// The result message.
    pub message: StringValue,
    /// Data under the `<extValue>` tag.
    pub ext_value: Option<ExtValue>,
}

/// Type corresponding to the `<trID>` tag in a response.
#[derive(Debug, PartialEq, Eq)]
pub struct ResponseTRID {
    /// The client transaction id echoed back, when one was sent.
    pub client_tr_id: Option<StringValue>,
    /// The server-assigned transaction id.
    pub server_tr_id: StringValue,
}

/// Type corresponding to the `<msgQ>` tag in a response.
#[derive(Debug, PartialEq, Eq)]
pub struct MessageQueue {
    /// The message count.
    pub count: u32,
    /// The message id.
    pub id: String,
    /// The message date.
    pub date: Option<StringValue>,
    /// The message text.
    pub message: Option<StringValue>,
}

/// A whole decoded response: result, optional message queue, optional
/// base payload, optional extension payload, and the transaction ids.
#[derive(Debug, PartialEq, Eq)]
pub struct Response<D, E> {
    /// Data under the `<result>` tag.
    pub result: EppResult,
    /// Data under the `<msgQ>` tag.
    pub message_queue: Option<MessageQueue>,
    /// Data under the `<resData>` tag.
    pub res_data: Option<D>,
    /// Data under the `<extension>` tag.
    pub extension: Option<E>,
    /// Data under the `<trID>` tag.
    pub tr_ids: ResponseTRID,
}

/// A decoded response document.
#[derive(Debug, PartialEq, Eq)]
pub struct ResponseDocument<D, E> {
    pub data: Response<D, E>,
}

/// A response carrying only a result and the transaction ids.
#[derive(Debug, PartialEq, Eq)]
pub struct ResponseStatus {
    /// Data under the `<result>` tag.
    pub result: EppResult,
    /// Data under the `<trID>` tag.
    pub tr_ids: ResponseTRID,
}

/// A decoded result-only document.
#[derive(Debug, PartialEq, Eq)]
pub struct ResultDocument {
    pub data: ResponseStatus,
}

/// The protocol's success band: every result code from 1000 through
/// 1999 reports success; all other codes report an error.
pub open spec fn spec_success_code(code: u16) -> bool {
    1000 <= code < 2000
}

impl EppResult {
    /// Whether this result reports success.
    pub fn is_success(&self) -> (r: bool)
        ensures
            r == spec_success_code(self.code),
    {
        1000 <= self.code && self.code < 2000
    }
}

impl<D, E> Response<D, E> {
    /// The data under `<resData>`, if any.
    pub fn res_data(&self) -> (r: Option<&D>)
        ensures
            match r {
                Some(d) => self.res_data matches Some(v) && d == v,
                None => self.res_data is None,
            },
    {
        match &self.res_data {
            Some(res_data) => Some(res_data),
            None => None,
        }
    }

    /// The message queue summary, if any.
    pub fn message_queue(&self) -> (r: Option<&MessageQueue>)
        ensures
            match r {
                Some(q) => self.message_queue matches Some(v) && q == v,
                None => self.message_queue is None,
            },
    {
        match &self.message_queue {
            Some(queue) => Some(queue),
            None => None,
        }
    }

    /// The registry-level failure this response reports, if any: `None`
    /// exactly when the result code is in the success band, and
    /// otherwise the exact code and message of the result.
    pub fn registry_error(&self) -> (r: Option<RegistryError>)
        ensures
            match r {
                None => spec_success_code(self.result.code),
                Some(e) => !spec_success_code(self.result.code) && e.code == self.result.code
                    && e.message@ == self.result.message@,
            },
    {
        if self.result.is_success() {
            None
        } else {
            Some(
                RegistryError {
                    code: self.result.code,
                    message: String::from_str(self.result.message.as_str()),
                },
            )
        }
    }
}

// ------------------------------------------------------------------
// Decoding
// ------------------------------------------------------------------

/// Whether `res` reads the `<result>` element `n`.
pub open spec fn spec_result_decodes(n: SpecNode, res: EppResult) -> bool {
    &&& spec_node_attr(n, "code"@) matches Some(code_chars) && spec_parse_dec(code_chars)
        == Some(res.code as nat)
    &&& spec_node_child(n, "msg"@) matches Some(msg) && spec_text_of(msg) == Some(res.message@)
    &&& match spec_node_child(n, "extValue"@) {
        None => res.ext_value is None,
        Some(ev) => res.ext_value matches Some(x) && spec_node_child(ev, "reason"@) matches Some(
            reason,
        ) && spec_text_of(reason) == Some(x.reason@),
    }
}

/// Whether `q` reads the `<msgQ>` element `n`.
pub open spec fn spec_message_queue_decodes(n: SpecNode, q: MessageQueue) -> bool {
    &&& spec_node_attr(n, "count"@) matches Some(c) && spec_parse_dec(c) == Some(q.count as nat)
    &&& spec_node_attr(n, "id"@) matches Some(id) && id == q.id@
    &&& match spec_node_child(n, "qDate"@) {
        None => q.date is None,
        Some(d) => q.date matches Some(dv) && spec_text_of(d) == Some(dv@),
    }
    &&& match spec_node_child(n, "msg"@) {
        None => q.message is None,
        Some(m) => q.message matches Some(mv) && spec_text_of(m) == Some(mv@),
    }
}

/// Whether `t` reads the `<trID>` element `n`.
pub open spec fn spec_tr_ids_decodes(n: SpecNode, t: ResponseTRID) -> bool {
    &&& match spec_node_child(n, "clTRID"@) {
        None => t.client_tr_id is None,
        Some(c) => t.client_tr_id matches Some(cv) && spec_text_of(c) == Some(cv@),
    }
    &&& spec_node_child(n, "svTRID"@) matches Some(s) && spec_text_of(s) == Some(t.server_tr_id@)
}

/// Whether `r` reads the whole response document rooted at `root`.
pub open spec fn spec_response_decodes<D: FromXml, E: FromXml>(
    root: SpecNode,
    r: Response<D, E>,
) -> bool {
    &&& spec_elem_named(root, "epp"@)
    &&& spec_node_child(root, "response"@) matches Some(resp) && {
        &&& spec_node_child(resp, "result"@) matches Some(result_el) && spec_result_decodes(
            result_el,
            r.result,
        )
        &&& match spec_node_child(resp, "msgQ"@) {
            None => r.message_queue is None,
            Some(q) => r.message_queue matches Some(mq) && spec_message_queue_decodes(q, mq),
        }
        &&& match spec_node_child(resp, "resData"@) {
            None => r.res_data is None,
            Some(rd) => r.res_data matches Some(d) && D::spec_decodes(rd, d),
        }
        &&& match spec_node_child(resp, "extension"@) {
            None => r.extension is None,
            Some(ex) => r.extension matches Some(e) && E::spec_decodes(ex, e),
        }
        &&& spec_node_child(resp, "trID"@) matches Some(t) && spec_tr_ids_decodes(t, r.tr_ids)
    }
}

fn decode_error(what: &str) -> (r: EppError)
    ensures
        r is Decode,
{
    EppError::Decode { message: String::from_str(what) }
}

fn decode_result(n: &XmlNode) -> (r: Result<EppResult, EppError>)
    ensures
        r matches Ok(res) ==> spec_result_decodes(n@, res),
        r matches Err(e) ==> e is Decode && (forall|res: EppResult| !spec_result_decodes(
            n@,
            res,
        )),
{
    let code_text = match n.attr_value("code") {
        Some(c) => c,
        None => {
            return Err(decode_error("result element has no code"));
        },
    };
    let code = match parse_dec_capped(code_text.as_str(), 0xffff) {
        Some(c) => c as u16,
        None => {
            return Err(decode_error("result code is not a number"));
        },
    };
    let message = match n.child("msg") {
        Some(m) => match m.text_content() {
            Some(t) => StringValue(t),
            None => {
                return Err(decode_error("result message is not character data"));
            },
        },
        None => {
            return Err(decode_error("result element has no message"));
        },
    };
    let ext_value = match n.child("extValue") {
        None => None,
        Some(ev) => match ev.child("reason") {
            Some(reason_el) => match reason_el.text_content() {
                Some(t) => Some(ExtValue { value: ResultValue { undef: Undef }, reason: StringValue(t) }),
                None => {
                    return Err(decode_error("extValue reason is not character data"));
                },
            },
            None => {
                return Err(decode_error("extValue has no reason"));
            },
        },
    };
    Ok(EppResult { code, message, ext_value })
}

fn decode_message_queue(n: &XmlNode) -> (r: Result<MessageQueue, EppError>)
    ensures
        r matches Ok(q) ==> spec_message_queue_decodes(n@, q),
        r matches Err(e) ==> e is Decode && (forall|q: MessageQueue| !spec_message_queue_decodes(
            n@,
            q,
        )),
{
    let count_text = match n.attr_value("count") {
        Some(c) => c,
        None => {
            return Err(decode_error("message queue has no count"));
        },
    };
    let count = match parse_dec_capped(count_text.as_str(), 0xffff_ffff) {
        Some(c) => c as u32,
        None => {
            return Err(decode_error("message queue count is not a number"));
        },
    };
    let id = match n.attr_value("id") {
        Some(i) => i,
        None => {
            return Err(decode_error("message queue has no id"));
        },
    };
    let date = match n.child("qDate") {
        None => None,
        Some(d) => match d.text_content() {
            Some(t) => Some(StringValue(t)),
            None => {
                return Err(decode_error("message date is not character data"));
            },
        },
    };
    let message = match n.child("msg") {
        None => None,
        Some(m) => match m.text_content() {
            Some(t) => Some(StringValue(t)),
            None => {
                return Err(decode_error("message text is not character data"));
            },
        },
    };
    Ok(MessageQueue { count, id, date, message })
}

fn decode_tr_ids(n: &XmlNode) -> (r: Result<ResponseTRID, EppError>)
    ensures
        r matches Ok(t) ==> spec_tr_ids_decodes(n@, t),
        r matches Err(e) ==> e is Decode && (forall|t: ResponseTRID| !spec_tr_ids_decodes(
            n@,
            t,
        )),
{
    let client_tr_id = match n.child("clTRID") {
        None => None,
        Some(c) => match c.text_content() {
            Some(t) => Some(StringValue(t)),
            None => {
                return Err(decode_error("client transaction id is not character data"));
            },
        },
    };
    let server_tr_id = match n.child("svTRID") {
        Some(s) => match s.text_content() {
            Some(t) => StringValue(t),
            None => {
                return Err(decode_error("server transaction id is not character data"));
            },
        },
        None => {
            return Err(decode_error("response has no server transaction id"));
        },
    };
    Ok(ResponseTRID { client_tr_id, server_tr_id })
}

/// Decode a whole response document.  On success the returned value
/// reads the document's parse tree, element by element; a failure means
/// no response value at all reads the document.
pub fn decode_response<D: FromXml, E: FromXml>(xml: &str) -> (r: Result<
    Response<D, E>,
    EppError,
>)
    ensures
        r matches Ok(resp) ==> spec_parse_document(xml@) matches Some(root)
            && spec_response_decodes(root, resp),
        r matches Err(e) ==> e is Decode && (spec_parse_document(xml@) matches Some(root)
            ==> (forall|resp: Response<D, E>| !#[trigger] spec_response_decodes(root, resp))),
{
    let root = match parse_document(xml) {
        Some(n) => n,
        None => {
            return Err(decode_error("response is not a well-formed document"));
        },
    };
    let is_epp = match &root {
        XmlNode::Elem { name, .. } => crate::xml::str_eq(name.as_str(), "epp"),
        XmlNode::Text { .. } => false,
    };
    if !is_epp {
        return Err(decode_error("document root is not an epp element"));
    }
    let resp = match root.child("response") {
        Some(n) => n,
        None => {
            return Err(decode_error("document holds no response"));
        },
    };
    let result = match resp.child("result") {
        Some(n) => match decode_result(n) {
            Ok(res) => res,
            Err(e) => {
                return Err(e);
            },
        },
        None => {
            return Err(decode_error("response has no result"));
        },
    };
    let message_queue = match resp.child("msgQ") {
        None => None,
        Some(q) => match decode_message_queue(q) {
            Ok(mq) => Some(mq),
            Err(e) => {
                return Err(e);
            },
        },
    };
    let res_data = match resp.child("resData") {
        None => None,
        Some(rd) => match D::from_node(rd) {
            Ok(d) => Some(d),
            Err(e) => {
                return Err(e);
            },
        },
    };
    let extension = match resp.child("extension") {
        None => None,
        Some(ex) => match E::from_node(ex) {
            Ok(e) => Some(e),
            Err(e) => {
                return Err(e);
            },
        },
    };
    let tr_ids = match resp.child("trID") {
        Some(t) => match decode_tr_ids(t) {
            Ok(ids) => ids,
            Err(e) => {
                return Err(e);
            },
        },
        None => {
            return Err(decode_error("response has no transaction ids"));
        },
    };
    Ok(Response { result, message_queue, res_data, extension, tr_ids })
}

} // verus!
