//! Client-side adapter that lets an application act as a frontend for a
//! remote editing core speaking an RPC protocol of notifications and
//! requests.
//!
//! The core of the crate is the dispatch adapter: it receives a method name
//! together with an untyped structured payload, decodes the payload into the
//! typed message the method calls for, and hands that message to the
//! `Frontend` capability the embedding application implements.  Routing,
//! decoding and error translation are verified; the transport that carries
//! the wire bytes lives outside this crate and hands it plain values.

pub mod errors;
pub mod frontend;
pub mod json;
pub mod structs;

pub use errors::{DecodeError, Field, ServerError};
pub use frontend::{
    handle_notification, handle_request, route_notification, Frontend, FrontendBuilder,
    Notification, ServerResult,
};
pub use json::Json;
pub use structs::{ScrollTo, Style, Update, ViewId};
