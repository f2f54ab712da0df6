//! The capability interface an embedding application implements, and the
//! dispatch adapter that routes inbound messages to it.
//!
//! The RPC engine hands the adapter a method name and an untyped
//! structured payload.  The adapter matches the name against the three
//! recognized notifications, decodes the payload into the typed message,
//! delegates it to the capability, and hands the capability's outcome
//! back unchanged.  Requests are not part of the core's capability set
//! and are answered with a clean error.

use vstd::prelude::*;
use crate::errors::{DecodeError, ServerError};
use crate::json::{str_eq, Json};
use crate::structs::{
    scroll_to_wellformed, spec_decode_scroll_to, spec_decode_style, spec_decode_update,
    lemma_scroll_to_decode_ok_iff, ScrollTo, Style, Update,
};

verus! {

/// The outcome of one dispatched message, as the RPC engine consumes it.
pub type ServerResult<T> = Result<T, ServerError>;

/// The capability interface: one operation per recognized notification,
/// implemented by the embedding application.  Each operation takes
/// ownership of its typed message, applies it to the application's own
/// state, and reports success or failure.
///
/// Each operation's contract is the implementation's own `..._resolves`
/// relation: it says nothing beyond what the implementation chooses to
/// promise, and the dispatch adapter's contract hands outcomes on
/// through that same relation, unchanged.  An implementation that keeps
/// the default relations promises nothing of its outcomes.
pub trait Frontend: Sized {
    /// The post-states and outcomes a call of `update` may resolve to.
    open spec fn update_resolves(pre: Self, post: Self, update: Update, outcome: ServerResult<()>) -> bool {
        true
    }

    /// The post-states and outcomes a call of `scroll_to` may resolve to.
    open spec fn scroll_to_resolves(pre: Self, post: Self, scroll_to: ScrollTo, outcome: ServerResult<()>) -> bool {
        true
    }

    /// The post-states and outcomes a call of `def_style` may resolve to.
    open spec fn def_style_resolves(pre: Self, post: Self, style: Style, outcome: ServerResult<()>) -> bool {
        true
    }

    /// Handles an `update` notification from the core.
    fn update(&mut self, update: Update) -> (r: ServerResult<()>)
        ensures
            Self::update_resolves(*old(self), *final(self), update, r),
    ;

    /// Handles a `scroll_to` notification from the core.
    fn scroll_to(&mut self, scroll_to: ScrollTo) -> (r: ServerResult<()>)
        ensures
            Self::scroll_to_resolves(*old(self), *final(self), scroll_to, r),
    ;

    /// Handles a `def_style` notification from the core.
    fn def_style(&mut self, style: Style) -> (r: ServerResult<()>)
        ensures
            Self::def_style_resolves(*old(self), *final(self), style, r),
    ;
}

/// Two-phase construction of a capability implementation: a frontend
/// often needs to send messages back to the core, so it is only built
/// once the outbound channel of its session exists, and never before.
pub trait FrontendBuilder<F: Frontend> {
    /// The handle to the session's outbound channel, supplied by the
    /// embedding application's transport.
    type Client;

    /// Consumes the builder, binds the outbound channel, and yields a
    /// ready-to-use frontend.
    fn build(self, client: Self::Client) -> F;
}

/// A decoded inbound notification, ready for its capability call.
#[derive(Debug, PartialEq, Eq)]
pub enum Notification {
    Update(Update),
    ScrollTo(ScrollTo),
    DefStyle(Style),
}

/// The three method names the adapter recognizes.
pub open spec fn is_known_method(method: Seq<char>) -> bool {
    ||| method == "update"@
    ||| method == "scroll_to"@
    ||| method == "def_style"@
}

/// What routing and decoding yield for a recognized method: the typed
/// message of the method the name matched, or that decoding's error.
pub open spec fn spec_decode_notification(method: Seq<char>, params: Json) -> Result<Notification, DecodeError>
    recommends
        is_known_method(method),
{
    if method == "update"@ {
        match spec_decode_update(params) {
            Ok(u) => Ok(Notification::Update(u)),
            Err(e) => Err(e),
        }
    } else if method == "scroll_to"@ {
        match spec_decode_scroll_to(params) {
            Ok(m) => Ok(Notification::ScrollTo(m)),
            Err(e) => Err(e),
        }
    } else {
        match spec_decode_style(params) {
            Ok(s) => Ok(Notification::DefStyle(s)),
            Err(e) => Err(e),
        }
    }
}

/// The shape a recognized method's payload must have for decoding to
/// succeed.
pub open spec fn notification_wellformed(method: Seq<char>, params: Json) -> bool
    recommends
        is_known_method(method),
{
    if method == "scroll_to"@ {
        scroll_to_wellformed(params)
    } else {
        params is Obj
    }
}

/// Routes one inbound notification: matches the method name against the
/// three recognized notifications and decodes the payload into the typed
/// message, without touching the capability.
pub fn route_notification(method: &str, params: Json) -> (r: Result<Notification, ServerError>)
    ensures
        is_known_method(method@) ==> (match spec_decode_notification(method@, params) {
            Ok(d) => r == Ok::<Notification, ServerError>(d),
            Err(e) => r == Err::<Notification, ServerError>(ServerError::DeserializeFailed(e)),
        }),
        !is_known_method(method@) ==> (r matches Err(ServerError::UnknownMethod(n)) && n@ == method@),
{
    if str_eq(method, "update") {
        match Update::from_json(params) {
            Ok(u) => Ok(Notification::Update(u)),
            Err(e) => Err(ServerError::DeserializeFailed(e)),
        }
    } else if str_eq(method, "scroll_to") {
        match ScrollTo::from_json(&params) {
            Ok(m) => Ok(Notification::ScrollTo(m)),
            Err(e) => Err(ServerError::DeserializeFailed(e)),
        }
    } else if str_eq(method, "def_style") {
        match Style::from_json(params) {
            Ok(s) => Ok(Notification::DefStyle(s)),
            Err(e) => Err(ServerError::DeserializeFailed(e)),
        }
    } else {
        Err(ServerError::UnknownMethod(method.to_string()))
    }
}

/// Handles one inbound notification: route by method name, decode the
/// payload, delegate the typed message to the capability, and hand its
/// outcome back unchanged.
///
/// An unrecognized method name is answered with `UnknownMethod` carrying
/// that name exactly; a payload that does not decode is answered with
/// `DeserializeFailed` carrying the mismatch; in both cases the
/// capability is left untouched.  Otherwise the outcome is one the
/// matched capability operation resolves to for exactly the decoded
/// message (the pass-through law).
pub fn handle_notification<F: Frontend>(frontend: &mut F, method: &str, params: Json) -> (r: ServerResult<()>)
    ensures
        !is_known_method(method@) ==> {
            &&& (r matches Err(ServerError::UnknownMethod(n)) && n@ == method@)
            &&& *final(frontend) == *old(frontend)
        },
        is_known_method(method@) ==> (match spec_decode_notification(method@, params) {
            Ok(Notification::Update(u)) => F::update_resolves(*old(frontend), *final(frontend), u, r),
            Ok(Notification::ScrollTo(m)) => F::scroll_to_resolves(*old(frontend), *final(frontend), m, r),
            Ok(Notification::DefStyle(s)) => F::def_style_resolves(*old(frontend), *final(frontend), s, r),
            Err(e) => r == Err::<(), ServerError>(ServerError::DeserializeFailed(e))
                && *final(frontend) == *old(frontend),
        }),
{
    match route_notification(method, params) {
        Ok(Notification::Update(u)) => frontend.update(u),
        Ok(Notification::ScrollTo(m)) => frontend.scroll_to(m),
        Ok(Notification::DefStyle(s)) => frontend.def_style(s),
        Err(e) => Err(e),
    }
}

/// Handles one inbound request.  The core's capability set defines no
/// requests, so every method/payload combination is answered with the
/// `UnsupportedRequest` failure: a clean error return, never a success
/// and never an abort, so a stray request cannot take the session down.
#[allow(unused_variables)]
pub fn handle_request<F: Frontend>(frontend: &mut F, method: &str, params: Json) -> (r: Result<Result<Json, Json>, ServerError>)
    ensures
        r == Err::<Result<Json, Json>, ServerError>(ServerError::UnsupportedRequest),
        *final(frontend) == *old(frontend),
{
    Err(ServerError::UnsupportedRequest)
}

/// A recognized method's payload decodes exactly when it is well-formed
/// for that method: anything else is rejected with a decode error, which
/// the adapter reports as `DeserializeFailed` — never a crash and never
/// a silent success.
pub proof fn lemma_decode_notification_ok_iff(method: Seq<char>, params: Json)
    requires
        is_known_method(method),
    ensures
        spec_decode_notification(method, params) is Ok <==> notification_wellformed(method, params),
{
    reveal_strlit("update");
    reveal_strlit("scroll_to");
    reveal_strlit("def_style");
    assert("update"@.len() == 6 && "scroll_to"@.len() == 9 && "def_style"@.len() == 9);
    assert("scroll_to"@[0] == 's' && "def_style"@[0] == 'd');
    assert("scroll_to"@ != "def_style"@);
    lemma_scroll_to_decode_ok_iff(params);
}

} // verus!

