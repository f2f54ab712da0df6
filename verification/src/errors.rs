//! The errors the dispatch adapter can report to the RPC engine.

use vstd::prelude::*;

verus! {

/// A field of the `scroll_to` wire payload.  The wire name of `Col` is
/// `"col"`; the decoded message stores it under `column`.
#[derive(Clone, Copy, Debug, PartialEq, Eq)]
pub enum Field {
    Line,
    Col,
    ViewId,
}

/// Why a payload did not match the schema the matched method calls for.
#[derive(Clone, Copy, Debug, PartialEq, Eq)]
pub enum DecodeError {
    /// The payload is not an object at all.
    NotAnObject,
    /// A required field is absent.  Carries the first absent field, in
    /// wire order.
    MissingField(Field),
    /// A required field is present but holds a value of the wrong type.
    /// Carries the first such field, in wire order, among the fields that
    /// are present.
    WrongFieldType(Field),
}

/// The failure outcome of a dispatch, as the RPC engine sees it.
///
/// The first three variants are the adapter's own; `Other` is free for a
/// capability implementation to report its own failures through the
/// adapter, which passes them along unchanged.
#[derive(Clone, Debug, PartialEq, Eq)]
pub enum ServerError {
    /// The payload did not match the schema of the matched method.
    DeserializeFailed(DecodeError),
    /// The method name is none of the recognized notifications.  Carries
    /// that name exactly as it arrived.
    UnknownMethod(String),
    /// An inbound request: the core's capability set handles
    /// notifications only, so every request is answered with this error
    /// rather than a reply.
    UnsupportedRequest,
    /// A failure of the embedding application's own, opaque to the
    /// adapter.
    Other(String),
}

} // verus!
