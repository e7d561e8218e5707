//! The session and transaction layer: one client owns one stream,
//! reads the greeting before anything else, logs in before issuing
//! commands, correlates every response with the request's transaction
//! id, and logs out to end the session.

use vstd::prelude::*;

use vstd::utf8::decode_utf8;
use vstd::utf8::encode_utf8;
use vstd::utf8::valid_utf8;
use vstd::string::StrSliceExecFns;

use crate::err::EppError;
use crate::frame::frame_payload_fits;
use crate::frame::read_frame;
use crate::frame::spec_frame;
use crate::frame::spec_read_frame;
use crate::frame::write_frame;
use crate::frame::MemStream;
use crate::login::Login;
use crate::logout::Logout;
use crate::num::dec_string;
use crate::num::spec_dec;
use crate::request::serialize_command;
use crate::request::spec_command_envelope;
use crate::request::EppCommand;
use crate::request::EppExtension;
use crate::request::FromXml;
use crate::request::Transaction;
use crate::response::decode_response;
use crate::response::spec_response_decodes;
use crate::response::spec_success_code;
use crate::response::Response;
use crate::xml::spec_document;
use crate::xml::spec_parse_document;
use crate::xml::str_eq;
use crate::xml::wf_node;
use crate::xml::wf_text;
use crate::xml::SpecNode;

verus! {

broadcast use vstd::utf8::encode_utf8_decode_utf8, vstd::utf8::encode_utf8_valid_utf8;

/// Where the handshake stands.  Owned exclusively by the client;
/// mutated only by the handshake operations.
#[derive(Debug, PartialEq, Eq, Structural, Clone, Copy)]
pub enum SessionState {
    /// Connected; the server's greeting has not been read yet.
    AwaitingGreeting,
    /// The greeting has been read; no login has succeeded yet.
    Greeted,
    /// A login has succeeded; commands may be sent.
    LoggedIn,
    /// The session has ended, by logout or by a fatal transport error.
    Closed,
}

/// Relies on String::from_utf8: it succeeds exactly on valid UTF-8,
/// returning the string those bytes encode.
#[verifier::external_body]
fn utf8_to_string(bytes: Vec<u8>) -> (r: Option<String>)
    ensures
        match r {
            Some(s) => encode_utf8(s@) == bytes@,
            None => !valid_utf8(bytes@),
        },
{
    match String::from_utf8(bytes) {
        Ok(s) => Some(s),
        Err(_) => None,
    }
}

/// The frame carrying a document on the wire.
pub open spec fn spec_document_frame(envelope: SpecNode) -> Seq<u8> {
    spec_frame(encode_utf8(spec_document(envelope)))
}

/// Whether `resp` echoes the client transaction id `id`.
pub open spec fn spec_correlated<D, E>(resp: Response<D, E>, id: Seq<char>) -> bool {
    resp.tr_ids.client_tr_id matches Some(c) && c@ == id
}

/// Whether a payload can be read as a response at all: valid UTF-8, a
/// parseable document, and some response value reading it.
pub open spec fn spec_payload_readable<D: FromXml, E: FromXml>(payload: Seq<u8>) -> bool {
    &&& valid_utf8(payload)
    &&& spec_parse_document(decode_utf8(payload)) matches Some(root) && (exists|
        resp: Response<D, E>,
    | spec_response_decodes(root, resp))
}

/// Every reading of one document agrees on the echoed transaction id:
/// the `<trID>` element pins its presence and characters.
pub proof fn lemma_correlation_agrees<D: FromXml, E: FromXml>(
    root: SpecNode,
    r1: Response<D, E>,
    r2: Response<D, E>,
    id: Seq<char>,
)
    requires
        spec_response_decodes(root, r1),
        spec_response_decodes(root, r2),
    ensures
        spec_correlated(r1, id) == spec_correlated(r2, id),
{
}

/// Whether the greeting may be read in `state`: only before anything
/// else has happened.
pub fn greeting_allowed(state: SessionState) -> (r: bool)
    ensures
        r == (state is AwaitingGreeting),
{
    match state {
        SessionState::AwaitingGreeting => true,
        _ => false,
    }
}

/// Whether a login may be issued in `state`: only once greeted.
pub fn login_allowed(state: SessionState) -> (r: bool)
    ensures
        r == (state is Greeted),
{
    match state {
        SessionState::Greeted => true,
        _ => false,
    }
}

/// Whether a command or logout may be issued in `state`: only while
/// logged in.
pub fn command_allowed(state: SessionState) -> (r: bool)
    ensures
        r == (state is LoggedIn),
{
    match state {
        SessionState::LoggedIn => true,
        _ => false,
    }
}

/// Where a failed exchange leaves the session: stream and correlation
/// failures close it, a decode failure leaves it as it stood.
pub open spec fn spec_state_after_error(state: SessionState, e: EppError) -> SessionState {
    if e is Io || e is Framing || e is Correlation {
        SessionState::Closed
    } else {
        state
    }
}

/// The session state after a failed exchange.
pub fn state_after_error(state: SessionState, e: &EppError) -> (r: SessionState)
    ensures
        r == spec_state_after_error(state, *e),
{
    match e {
        EppError::Io { .. } | EppError::Framing { .. } | EppError::Correlation { .. } => {
            SessionState::Closed
        },
        _ => state,
    }
}

/// One client session: one stream, one state, strictly alternating
/// write and read.
pub struct EppClient {
    /// The name of the registry this client connects to.
    pub registry: String,
    /// The one stream this session owns.
    pub stream: MemStream,
    /// Where the handshake stands.
    pub state: SessionState,
    /// The server's greeting, once read.
    pub greeting: Option<String>,
    /// Counts generated client transaction ids.
    pub tr_counter: u64,
}

/// Decode one response payload and verify the echoed transaction id,
/// as a transaction does after its read.  For callers that perform
/// their own I/O and hand the payload bytes in.  It succeeds exactly
/// when the payload reads as a response whose echoed id is the one
/// sent: an unreadable payload is a decode error, a readable payload
/// with any other echo is a correlation error.
pub fn handle_response<D: FromXml, E: FromXml>(payload: Vec<u8>, client_tr_id: &str) -> (r:
    Result<Response<D, E>, EppError>)
    ensures
        match r {
            Ok(resp) => {
                &&& spec_payload_readable::<D, E>(payload@)
                &&& spec_parse_document(decode_utf8(payload@)) matches Some(root)
                    && spec_response_decodes(root, resp)
                &&& spec_correlated(resp, client_tr_id@)
            },
            Err(e) => {
                &&& (e is Decode || e is Correlation)
                &&& (e is Decode <==> !spec_payload_readable::<D, E>(payload@))
                &&& (e is Correlation <==> spec_payload_readable::<D, E>(payload@))
                &&& (e is Correlation ==> (spec_parse_document(
                    decode_utf8(payload@),
                ) matches Some(root) ==> (forall|resp2: Response<D, E>|
                    #[trigger] spec_response_decodes(root, resp2) ==> !spec_correlated(
                        resp2,
                        client_tr_id@,
                    ))))
            },
        },
{
    let ghost payload_view = payload@;
    let body = match utf8_to_string(payload) {
        Some(s) => s,
        None => {
            return Err(
                EppError::Decode { message: String::from_str("response is not valid UTF-8") },
            );
        },
    };
    proof {
        assert(decode_utf8(payload_view) == body@);
    }
    let resp = match decode_response::<D, E>(body.as_str()) {
        Ok(resp) => resp,
        Err(e) => {
            return Err(e);
        },
    };
    let correlated = match &resp.tr_ids.client_tr_id {
        Some(c) => str_eq(c.as_str(), client_tr_id),
        None => false,
    };
    if !correlated {
        let received = match &resp.tr_ids.client_tr_id {
            Some(c) => Some(String::from_str(c.as_str())),
            None => None,
        };
        proof {
            let root = spec_parse_document(decode_utf8(payload_view))->Some_0;
            assert(spec_response_decodes(root, resp));
            assert(spec_payload_readable::<D, E>(payload_view));
            assert forall|resp2: Response<D, E>| #[trigger] spec_response_decodes(
                root,
                resp2,
            ) implies !spec_correlated(resp2, client_tr_id@) by {
                lemma_correlation_agrees::<D, E>(root, resp, resp2, client_tr_id@);
            }
        }
        return Err(
            EppError::Correlation { sent: String::from_str(client_tr_id), received },
        );
    }
    proof {
        let root = spec_parse_document(decode_utf8(payload_view))->Some_0;
        assert(spec_response_decodes(root, resp));
        assert(spec_payload_readable::<D, E>(payload_view));
    }
    Ok(resp)
}

/// One request/response exchange: write the framed document, read the
/// next frame, decode it, and verify the echoed transaction id.  It
/// succeeds exactly when the document fits a frame, a whole frame can
/// be read, its payload reads as a response, and the echoed id is the
/// one sent; each error kind stands for exactly one of those failures.
fn exchange<D: FromXml, E: FromXml>(
    stream: &mut MemStream,
    document: &String,
    client_tr_id: &str,
) -> (r: Result<Response<D, E>, EppError>)
    requires
        old(stream).wf(),
    ensures
        final(stream).wf(),
        final(stream).input == old(stream).input,
        old(stream).read_pos <= final(stream).read_pos,
        frame_payload_fits(encode_utf8(document@).len()) ==> final(stream).output@ == old(
            stream,
        ).output@ + spec_frame(encode_utf8(document@)),
        !frame_payload_fits(encode_utf8(document@).len()) ==> final(stream).output == old(
            stream,
        ).output && final(stream).read_pos == old(stream).read_pos,
        ({
            let fits = frame_payload_fits(encode_utf8(document@).len());
            let frame_read = spec_read_frame(old(stream).input@, old(stream).read_pos as int);
            match r {
                Ok(resp) => {
                    &&& fits
                    &&& frame_read matches Some((payload, p)) && ({
                        &&& p == final(stream).read_pos as int
                        &&& spec_payload_readable::<D, E>(payload)
                        &&& spec_parse_document(decode_utf8(payload)) matches Some(root)
                            && spec_response_decodes(root, resp)
                    })
                    &&& spec_correlated(resp, client_tr_id@)
                },
                Err(e) => {
                    &&& (e is Io || e is Framing || e is Decode || e is Correlation)
                    &&& (!fits ==> e is Framing)
                    &&& (e is Io ==> fits && frame_read is None)
                    &&& (e is Framing ==> !fits || frame_read is None)
                    &&& ((e is Decode || e is Correlation) ==> fits && (
                    frame_read matches Some((payload, p)) && ({
                        &&& p == final(stream).read_pos as int
                        &&& (e is Decode <==> !spec_payload_readable::<D, E>(payload))
                        &&& (e is Correlation <==> spec_payload_readable::<D, E>(payload))
                        &&& (e is Correlation ==> (spec_parse_document(
                            decode_utf8(payload),
                        ) matches Some(root) ==> (forall|resp2: Response<D, E>|
                            #[trigger] spec_response_decodes(root, resp2)
                                ==> !spec_correlated(resp2, client_tr_id@))))
                    })))
                    &&& (fits && frame_read is Some ==> (e is Decode || e is Correlation))
                },
            }
        }),
{
    let payload = document.as_str().as_bytes_vec();
    match write_frame(stream, &payload) {
        Ok(()) => {},
        Err(e) => {
            return Err(e);
        },
    }
    let response_payload = match read_frame(stream) {
        Ok(p) => p,
        Err(e) => {
            return Err(e);
        },
    };
    let ghost payload_view = response_payload@;
    let ghost np = stream.read_pos as int;
    match handle_response::<D, E>(response_payload, client_tr_id) {
        Ok(resp) => Ok(resp),
        Err(e) => Err(e),
    }
}

impl EppClient {
    /// A usable client stream.
    pub open spec fn wf(&self) -> bool {
        self.stream.wf()
    }

    /// A client over an established stream; the greeting is not read
    /// yet, so no command may be issued.
    pub fn connect(registry: String, stream: MemStream) -> (r: EppClient)
        requires
            stream.wf(),
        ensures
            r.wf(),
            r.registry == registry,
            r.stream == stream,
            r.state is AwaitingGreeting,
            r.greeting is None,
            r.tr_counter == 0,
    {
        EppClient { registry, stream, state: SessionState::AwaitingGreeting, greeting: None, tr_counter: 0 }
    }

    /// Read the server's greeting, exactly once, before anything else.
    /// It succeeds exactly when the greeting has not been read yet, a
    /// whole frame can be read, and its payload is valid UTF-8.
    pub fn read_greeting(&mut self) -> (r: Result<String, EppError>)
        requires
            old(self).wf(),
        ensures
            final(self).wf(),
            final(self).registry == old(self).registry,
            final(self).stream.input == old(self).stream.input,
            final(self).stream.output == old(self).stream.output,
            final(self).tr_counter == old(self).tr_counter,
            old(self).stream.read_pos <= final(self).stream.read_pos,
            ({
                let frame_read = spec_read_frame(
                    old(self).stream.input@,
                    old(self).stream.read_pos as int,
                );
                &&& (old(self).state is AwaitingGreeting && (frame_read matches Some(
                    (payload, p),
                ) && valid_utf8(payload)) ==> r is Ok)
                &&& match r {
                    Ok(g) => {
                        &&& old(self).state is AwaitingGreeting
                        &&& final(self).state is Greeted
                        &&& frame_read matches Some((payload, p)) && ({
                            &&& p == final(self).stream.read_pos as int
                            &&& valid_utf8(payload)
                            &&& g@ == decode_utf8(payload)
                        })
                        &&& final(self).greeting matches Some(s) && s@ == g@
                    },
                    Err(e) => {
                        &&& (e is ProtocolState || e is Io || e is Framing || e is Decode)
                        &&& (e is ProtocolState <==> !(old(self).state is AwaitingGreeting))
                        &&& (e is ProtocolState ==> *final(self) == *old(self))
                        &&& ((e is Io || e is Framing) <==> old(self).state is AwaitingGreeting
                            && frame_read is None)
                        &&& (e is Decode <==> old(self).state is AwaitingGreeting && (
                        frame_read matches Some((payload, p)) && !valid_utf8(payload)))
                        &&& (e is Decode ==> (frame_read matches Some((payload, p)) && p
                            == final(self).stream.read_pos as int))
                        &&& (!(e is ProtocolState) ==> final(self).state is Closed)
                    },
                }
            }),
    {
        if !greeting_allowed(self.state) {
            return Err(
                EppError::ProtocolState {
                    message: String::from_str("the greeting was already read"),
                },
            );
        }
        let payload = match read_frame(&mut self.stream) {
            Ok(p) => p,
            Err(e) => {
                self.state = SessionState::Closed;
                return Err(e);
            },
        };
        let ghost payload_view = payload@;
        let greeting = match utf8_to_string(payload) {
            Some(s) => s,
            None => {
                self.state = SessionState::Closed;
                return Err(
                    EppError::Decode {
                        message: String::from_str("greeting is not valid UTF-8"),
                    },
                );
            },
        };
        proof {
            assert(decode_utf8(payload_view) == greeting@);
        }
        self.greeting = Some(String::from_str(greeting.as_str()));
        self.state = SessionState::Greeted;
        Ok(greeting)
    }

    /// A client over an established stream, with the greeting read and
    /// ready to log in.  It succeeds exactly when a whole frame can be
    /// read and its payload is valid UTF-8.
    pub fn new(registry: String, stream: MemStream) -> (r: Result<EppClient, EppError>)
        requires
            stream.wf(),
        ensures
            ({
                let frame_read = spec_read_frame(stream.input@, stream.read_pos as int);
                &&& ((frame_read matches Some((payload, p)) && valid_utf8(payload)) ==> r
                    is Ok)
                &&& match r {
                    Ok(c) => {
                        &&& c.wf()
                        &&& c.state is Greeted
                        &&& c.registry == registry
                        &&& c.stream.input == stream.input
                        &&& c.stream.output == stream.output
                        &&& c.tr_counter == 0
                        &&& frame_read matches Some((payload, p)) && ({
                            &&& p == c.stream.read_pos as int
                            &&& valid_utf8(payload)
                            &&& c.greeting matches Some(g) && g@ == decode_utf8(payload)
                        })
                    },
                    Err(e) => {
                        &&& (e is Io || e is Framing || e is Decode)
                        &&& ((e is Io || e is Framing) <==> frame_read is None)
                        &&& (e is Decode <==> (frame_read matches Some((payload, p))
                            && !valid_utf8(payload)))
                    },
                }
            }),
    {
        let mut client = EppClient::connect(registry, stream);
        match client.read_greeting() {
            Ok(_) => Ok(client),
            Err(e) => Err(e),
        }
    }

    /// The greeting the server sent on connect.
    pub fn xml_greeting(&self) -> (r: String)
        requires
            self.greeting is Some,
        ensures
            self.greeting matches Some(g) && r@ == g@,
    {
        match &self.greeting {
            Some(g) => String::from_str(g.as_str()),
            None => String::new(),
        }
    }

    /// A client transaction id unique for the life of this session:
    /// the registry name, a colon, and a counter.
    pub fn generate_client_tr_id(&mut self) -> (r: String)
        requires
            old(self).tr_counter < u64::MAX,
        ensures
            final(self).tr_counter == old(self).tr_counter + 1,
            final(self).registry == old(self).registry,
            final(self).stream == old(self).stream,
            final(self).state == old(self).state,
            final(self).greeting == old(self).greeting,
            r@ == old(self).registry@ + seq![':'] + spec_dec(old(self).tr_counter as nat),
    {
        proof {
            reveal_strlit(":");
        }
        let mut id = String::from_str(self.registry.as_str());
        id.append(":");
        let counter = dec_string(self.tr_counter);
        id.append(counter.as_str());
        self.tr_counter = self.tr_counter + 1;
        proof {
            assert(id@ =~= old(self).registry@ + seq![':'] + spec_dec(old(self).tr_counter as nat));
        }
        id
    }

    /// Log in.  Legal only once greeted; the session advances to
    /// logged-in exactly when the registry answers with a success code.
    /// It succeeds exactly when the session is greeted, the request is
    /// representable and fits a frame, a whole frame can be read back,
    /// its payload reads as a response, and the echoed transaction id
    /// is the one sent.
    pub fn login(&mut self, login: &Login, client_tr_id: &str) -> (r: Result<
        Response<<Login as Transaction<crate::common::NoExtension>>::Response, crate::common::NoExtension>,
        EppError,
    >)
        requires
            old(self).wf(),
        ensures
            final(self).wf(),
            final(self).registry == old(self).registry,
            final(self).stream.input == old(self).stream.input,
            final(self).greeting == old(self).greeting,
            old(self).stream.read_pos <= final(self).stream.read_pos,
            ({
                let envelope = spec_command_envelope(login.spec_node(), None, client_tr_id@);
                let ready = old(self).state is Greeted && wf_text(client_tr_id@) && wf_node(
                    envelope,
                );
                let fits = frame_payload_fits(encode_utf8(spec_document(envelope)).len());
                let frame_read = spec_read_frame(
                    old(self).stream.input@,
                    old(self).stream.read_pos as int,
                );
                &&& (ready && fits ==> final(self).stream.output@ == old(self).stream.output@
                    + spec_document_frame(envelope))
                &&& (!(ready && fits) ==> final(self).stream.output == old(self).stream.output
                    && final(self).stream.read_pos == old(self).stream.read_pos)
                &&& ((ready && fits && (frame_read matches Some((payload, p)) && ({
                    &&& spec_payload_readable::<(), crate::common::NoExtension>(payload)
                    &&& spec_parse_document(decode_utf8(payload)) matches Some(root) && (exists|
                        resp2: Response<(), crate::common::NoExtension>,
                    |
                        #[trigger] spec_response_decodes(root, resp2) && spec_correlated(
                            resp2,
                            client_tr_id@,
                        ))
                }))) ==> r is Ok)
                &&& match r {
                    Ok(resp) => {
                        &&& ready && fits
                        &&& frame_read matches Some((payload, p)) && ({
                            &&& p == final(self).stream.read_pos as int
                            &&& spec_payload_readable::<(), crate::common::NoExtension>(payload)
                            &&& spec_parse_document(decode_utf8(payload)) matches Some(root)
                                && spec_response_decodes(root, resp)
                        })
                        &&& spec_correlated(resp, client_tr_id@)
                        &&& (final(self).state is LoggedIn <==> spec_success_code(
                            resp.result.code,
                        ))
                        &&& (!spec_success_code(resp.result.code) ==> final(self).state
                            is Greeted)
                    },
                    Err(e) => {
                        &&& (e is ProtocolState <==> !(old(self).state is Greeted))
                        &&& (e is ProtocolState ==> *final(self) == *old(self))
                        &&& (e is Encode <==> old(self).state is Greeted && !(wf_text(
                            client_tr_id@,
                        ) && wf_node(envelope)))
                        &&& (e is Encode ==> *final(self) == *old(self))
                        &&& (ready && !fits ==> e is Framing)
                        &&& (e is Io ==> ready && fits && frame_read is None)
                        &&& (e is Framing ==> ready && (!fits || frame_read is None))
                        &&& ((e is Io || e is Framing || e is Correlation) ==> final(self).state
                            is Closed)
                        &&& (e is Decode ==> final(self).state == old(self).state)
                        &&& ((e is Decode || e is Correlation) ==> ready && fits && (
                        frame_read matches Some((payload, p)) && ({
                            &&& p == final(self).stream.read_pos as int
                            &&& (e is Decode <==> !spec_payload_readable::<
                                (),
                                crate::common::NoExtension,
                            >(payload))
                            &&& (e is Correlation <==> spec_payload_readable::<
                                (),
                                crate::common::NoExtension,
                            >(payload))
                        })))
                        &&& (ready && fits && frame_read is Some ==> (e is Decode
                            || e is Correlation))
                    },
                }
            }),
    {
        if !login_allowed(self.state) {
            return Err(
                EppError::ProtocolState {
                    message: String::from_str("login is legal only once greeted"),
                },
            );
        }
        let document = match serialize_command::<Login, crate::common::NoExtension>(
            login,
            None,
            client_tr_id,
        ) {
            Ok(d) => d,
            Err(e) => {
                return Err(e);
            },
        };
        let resp = match exchange(&mut self.stream, &document, client_tr_id) {
            Ok(resp) => resp,
            Err(e) => {
                self.state = state_after_error(self.state, &e);
                return Err(e);
            },
        };
        if resp.result.is_success() {
            self.state = SessionState::LoggedIn;
        }
        Ok(resp)
    }

    /// Execute one command transaction, paired with at most one
    /// extension.  Legal only while logged in; write one request frame,
    /// then read exactly one response frame.  It succeeds exactly when
    /// the session is logged in, the request is representable and fits
    /// a frame, a whole frame can be read back, its payload reads as a
    /// response, and the echoed transaction id is the one sent.
    pub fn transact<C: Transaction<E2>, E2: EppExtension>(
        &mut self,
        command: &C,
        extension: Option<&E2>,
        client_tr_id: &str,
    ) -> (r: Result<Response<C::Response, C::ExtensionResponse>, EppError>)
        requires
            old(self).wf(),
        ensures
            final(self).wf(),
            final(self).registry == old(self).registry,
            final(self).stream.input == old(self).stream.input,
            final(self).greeting == old(self).greeting,
            old(self).stream.read_pos <= final(self).stream.read_pos,
            ({
                let envelope = spec_command_envelope(
                    command.spec_node(),
                    match extension {
                        Some(e) => Some(e.spec_ext_node()),
                        None => None,
                    },
                    client_tr_id@,
                );
                let ready = old(self).state is LoggedIn && wf_text(client_tr_id@) && wf_node(
                    envelope,
                );
                let fits = frame_payload_fits(encode_utf8(spec_document(envelope)).len());
                let frame_read = spec_read_frame(
                    old(self).stream.input@,
                    old(self).stream.read_pos as int,
                );
                &&& (ready && fits ==> final(self).stream.output@ == old(self).stream.output@
                    + spec_document_frame(envelope))
                &&& (!(ready && fits) ==> final(self).stream.output == old(self).stream.output
                    && final(self).stream.read_pos == old(self).stream.read_pos)
                &&& ((ready && fits && (frame_read matches Some((payload, p)) && ({
                    &&& spec_payload_readable::<C::Response, C::ExtensionResponse>(payload)
                    &&& spec_parse_document(decode_utf8(payload)) matches Some(root) && (exists|
                        resp2: Response<C::Response, C::ExtensionResponse>,
                    |
                        #[trigger] spec_response_decodes(root, resp2) && spec_correlated(
                            resp2,
                            client_tr_id@,
                        ))
                }))) ==> r is Ok)
                &&& match r {
                    Ok(resp) => {
                        &&& ready && fits
                        &&& final(self).state is LoggedIn
                        &&& frame_read matches Some((payload, p)) && ({
                            &&& p == final(self).stream.read_pos as int
                            &&& spec_payload_readable::<C::Response, C::ExtensionResponse>(
                                payload,
                            )
                            &&& spec_parse_document(decode_utf8(payload)) matches Some(root)
                                && spec_response_decodes(root, resp)
                        })
                        &&& spec_correlated(resp, client_tr_id@)
                    },
                    Err(e) => {
                        &&& (e is ProtocolState <==> !(old(self).state is LoggedIn))
                        &&& (e is ProtocolState ==> *final(self) == *old(self))
                        &&& (e is Encode <==> old(self).state is LoggedIn && !(wf_text(
                            client_tr_id@,
                        ) && wf_node(envelope)))
                        &&& (e is Encode ==> *final(self) == *old(self))
                        &&& (ready && !fits ==> e is Framing)
                        &&& (e is Io ==> ready && fits && frame_read is None)
                        &&& (e is Framing ==> ready && (!fits || frame_read is None))
                        &&& ((e is Io || e is Framing || e is Correlation) ==> final(self).state
                            is Closed)
                        &&& (e is Decode ==> final(self).state == old(self).state)
                        &&& ((e is Decode || e is Correlation) ==> ready && fits && (
                        frame_read matches Some((payload, p)) && ({
                            &&& p == final(self).stream.read_pos as int
                            &&& (e is Decode <==> !spec_payload_readable::<
                                C::Response,
                                C::ExtensionResponse,
                            >(payload))
                            &&& (e is Correlation <==> spec_payload_readable::<
                                C::Response,
                                C::ExtensionResponse,
                            >(payload))
                            &&& (e is Correlation ==> (spec_parse_document(
                                decode_utf8(payload),
                            ) matches Some(root) ==> (forall|
                                resp2: Response<C::Response, C::ExtensionResponse>,
                            |
                                #[trigger] spec_response_decodes(root, resp2)
                                    ==> !spec_correlated(resp2, client_tr_id@))))
                        })))
                        &&& (ready && fits && frame_read is Some ==> (e is Decode
                            || e is Correlation))
                    },
                }
            }),
    {
        if !command_allowed(self.state) {
            return Err(
                EppError::ProtocolState {
                    message: String::from_str("commands are legal only while logged in"),
                },
            );
        }
        let document = match serialize_command(command, extension, client_tr_id) {
            Ok(d) => d,
            Err(e) => {
                return Err(e);
            },
        };
        match exchange(&mut self.stream, &document, client_tr_id) {
            Ok(resp) => Ok(resp),
            Err(e) => {
                self.state = state_after_error(self.state, &e);
                Err(e)
            },
        }
    }

    /// Log out and end the session.  Legal only while logged in.  It
    /// succeeds exactly when the session is logged in, the request is
    /// representable and fits a frame, a whole frame can be read back,
    /// its payload reads as a response, and the echoed transaction id
    /// is the one sent; the session is then closed.
    pub fn logout(&mut self, client_tr_id: &str) -> (r: Result<
        Response<<Logout as Transaction<crate::common::NoExtension>>::Response, crate::common::NoExtension>,
        EppError,
    >)
        requires
            old(self).wf(),
        ensures
            final(self).wf(),
            final(self).registry == old(self).registry,
            final(self).stream.input == old(self).stream.input,
            final(self).greeting == old(self).greeting,
            old(self).stream.read_pos <= final(self).stream.read_pos,
            ({
                let envelope = spec_command_envelope((Logout).spec_node(), None, client_tr_id@);
                let ready = old(self).state is LoggedIn && wf_text(client_tr_id@) && wf_node(
                    envelope,
                );
                let fits = frame_payload_fits(encode_utf8(spec_document(envelope)).len());
                let frame_read = spec_read_frame(
                    old(self).stream.input@,
                    old(self).stream.read_pos as int,
                );
                &&& (ready && fits ==> final(self).stream.output@ == old(self).stream.output@
                    + spec_document_frame(envelope))
                &&& (!(ready && fits) ==> final(self).stream.output == old(self).stream.output
                    && final(self).stream.read_pos == old(self).stream.read_pos)
                &&& ((ready && fits && (frame_read matches Some((payload, p)) && ({
                    &&& spec_payload_readable::<(), crate::common::NoExtension>(payload)
                    &&& spec_parse_document(decode_utf8(payload)) matches Some(root) && (exists|
                        resp2: Response<(), crate::common::NoExtension>,
                    |
                        #[trigger] spec_response_decodes(root, resp2) && spec_correlated(
                            resp2,
                            client_tr_id@,
                        ))
                }))) ==> r is Ok)
                &&& match r {
                    Ok(resp) => {
                        &&& ready && fits
                        &&& final(self).state is Closed
                        &&& frame_read matches Some((payload, p)) && ({
                            &&& p == final(self).stream.read_pos as int
                            &&& spec_payload_readable::<(), crate::common::NoExtension>(payload)
                            &&& spec_parse_document(decode_utf8(payload)) matches Some(root)
                                && spec_response_decodes(root, resp)
                        })
                        &&& spec_correlated(resp, client_tr_id@)
                    },
                    Err(e) => {
                        &&& (e is ProtocolState <==> !(old(self).state is LoggedIn))
                        &&& (e is ProtocolState ==> *final(self) == *old(self))
                        &&& (e is Encode <==> old(self).state is LoggedIn && !(wf_text(
                            client_tr_id@,
                        ) && wf_node(envelope)))
                        &&& (e is Encode ==> *final(self) == *old(self))
                        &&& (ready && !fits ==> e is Framing)
                        &&& (e is Io ==> ready && fits && frame_read is None)
                        &&& (e is Framing ==> ready && (!fits || frame_read is None))
                        &&& ((e is Io || e is Framing || e is Correlation) ==> final(self).state
                            is Closed)
                        &&& (e is Decode ==> final(self).state == old(self).state)
                        &&& ((e is Decode || e is Correlation) ==> ready && fits && (
                        frame_read matches Some((payload, p)) && ({
                            &&& p == final(self).stream.read_pos as int
                            &&& (e is Decode <==> !spec_payload_readable::<
                                (),
                                crate::common::NoExtension,
                            >(payload))
                            &&& (e is Correlation <==> spec_payload_readable::<
                                (),
                                crate::common::NoExtension,
                            >(payload))
                        })))
                        &&& (ready && fits && frame_read is Some ==> (e is Decode
                            || e is Correlation))
                    },
                }
            }),
    {
        if !command_allowed(self.state) {
            return Err(
                EppError::ProtocolState {
                    message: String::from_str("logout is legal only while logged in"),
                },
            );
        }
        let document = match serialize_command::<Logout, crate::common::NoExtension>(
            &Logout,
            None,
            client_tr_id,
        ) {
            Ok(d) => d,
            Err(e) => {
                return Err(e);
            },
        };
        let resp = match exchange(&mut self.stream, &document, client_tr_id) {
            Ok(resp) => resp,
            Err(e) => {
                self.state = state_after_error(self.state, &e);
                return Err(e);
            },
        };
        self.state = SessionState::Closed;
        Ok(resp)
    }
}

} // verus!
