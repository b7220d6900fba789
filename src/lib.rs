//! A client for the HTTP-JSON API of a search server: a request builder, a
//! builder of query expressions, and the decoding of replies, including cursor
//! pagination. Sending requests is left to a transport; this crate decides
//! what to send and what a reply means.

pub mod text;
pub mod query;
pub mod term;
pub mod date;
pub mod range;
pub mod wire;
pub mod error;
pub mod client;
pub mod cursor;
pub mod facet_fields;
pub mod params;
pub mod command;
pub mod solr_response;
pub mod solr_result;

pub use client::{Client, HttpReply, HttpRequest, Method, Payload, RequestHandlers};
pub use cursor::Cursor;
pub use error::{ErrorKind, RSolrError};
