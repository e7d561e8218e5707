//! A client-side implementation of the EPP (Extensible Provisioning
//! Protocol) session transport and transaction layer: length-prefixed
//! framing over a byte stream, an XML document codec, a generic
//! extension-composition mechanism, session handshake sequencing, and
//! request/response correlation by transaction id.

mod common;
mod config;
mod date;
mod err;
mod frame;
mod hello;
mod login;
mod logout;
mod num;
mod request;
mod response;
mod session;
mod xml;

pub mod contact;
pub mod domain;
pub mod extensions;
pub mod host;
pub mod message;

pub use common::Address;
pub use common::ContactAuthInfo;
pub use common::ContactStatus;
pub use common::Country;
pub use common::DomainAuthInfo;
pub use common::DomainContact;
pub use common::DomainStatus;
pub use common::HostAddr;
pub use common::HostAttr;
pub use common::HostAttrList;
pub use common::HostList;
pub use common::HostObjList;
pub use common::HostStatus;
pub use common::NoExtension;
pub use common::Period;
pub use common::Phone;
pub use common::PostalInfo;
pub use common::StringValue;
pub use config::EppClientConfig;
pub use config::EppClientConnection;
pub use config::EppClientTlsFiles;
pub use date::Date;
pub use err::EppError;
pub use err::FramingError;
pub use err::RegistryError;
pub use frame::frame_bytes;
pub use frame::frame_payload_len;
pub use frame::read_frame;
pub use frame::write_frame;
pub use frame::MemStream;
pub use hello::EppObject;
pub use hello::Hello;
pub use login::Login;
pub use logout::Logout;
pub use request::serialize_command;
pub use request::serialize_command_plain;
pub use request::EppCommand;
pub use request::EppExtension;
pub use request::FromXml;
pub use request::Transaction;
pub use response::EppResult;
pub use response::ExtValue;
pub use response::MessageQueue;
pub use response::Response;
pub use response::ResponseDocument;
pub use response::ResponseStatus;
pub use response::ResponseTRID;
pub use response::ResultDocument;
pub use response::ResultValue;
pub use response::Undef;
pub use session::command_allowed;
pub use session::greeting_allowed;
pub use session::handle_response;
pub use session::login_allowed;
pub use session::state_after_error;
pub use session::EppClient;
pub use session::SessionState;
pub use xml::parse_document;
pub use xml::render_document;
pub use xml::XmlAttr;
pub use xml::XmlNode;
