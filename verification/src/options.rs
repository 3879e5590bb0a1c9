//! Translation of the recognized extension-bag policies into engine-native
//! options: the redirect policy becomes a redirect bound, the read timeout
//! becomes a request deadline. Unrecognized entries are ignored.

use vstd::prelude::*;

use crate::extensions::{ExtensionBag, ReadTimeout, RedirectPolicy};

verus! {

/// The bound put on following redirects when the caller asks to follow them
/// without a bound of their own.
pub const FOLLOW_ALL_LIMIT: u32 = 100;

/// The engine-native redirect option for one request.
#[derive(Clone, Copy, Debug, PartialEq, Eq, Structural)]
pub enum EngineRedirect {
    /// No policy attached: the engine's default behavior stands.
    Unset,
    /// Redirects are not followed: the redirect response is returned as is.
    Disabled,
    /// At most this many redirects are followed; one more fails the request.
    Limited(u32),
}

/// The engine-native options resolved from one request's extension bag.
pub struct EngineOptions {
    /// The redirect option.
    pub redirect: EngineRedirect,
    /// The request deadline in milliseconds, if one was asked for.
    pub timeout_millis: Option<u64>,
}

/// How a redirect policy translates: no policy leaves the engine default,
/// `NoFollow` disables following, `FollowLimit(n)` bounds it by `n`, and
/// `FollowAll` bounds it by `FOLLOW_ALL_LIMIT`.
pub open spec fn redirect_translation(p: Option<RedirectPolicy>) -> EngineRedirect {
    match p {
        None => EngineRedirect::Unset,
        Some(RedirectPolicy::NoFollow) => EngineRedirect::Disabled,
        Some(RedirectPolicy::FollowLimit(n)) => EngineRedirect::Limited(n),
        Some(RedirectPolicy::FollowAll) => EngineRedirect::Limited(FOLLOW_ALL_LIMIT),
    }
}

/// How a read timeout translates: its millisecond count, when present.
pub open spec fn timeout_translation(t: Option<ReadTimeout>) -> Option<u64> {
    match t {
        None => None,
        Some(ReadTimeout(ms)) => Some(ms),
    }
}

/// Resolves the recognized policies of an extension bag into engine-native
/// options, exactly as the translations above state.
pub fn resolve_engine_options(bag: &ExtensionBag) -> (o: EngineOptions)
    ensures
        o.redirect == redirect_translation(bag.spec_redirect_policy()),
        o.timeout_millis == timeout_translation(bag.spec_read_timeout()),
{
    let redirect = match bag.redirect_policy() {
        None => EngineRedirect::Unset,
        Some(RedirectPolicy::NoFollow) => EngineRedirect::Disabled,
        Some(RedirectPolicy::FollowLimit(n)) => EngineRedirect::Limited(n),
        Some(RedirectPolicy::FollowAll) => EngineRedirect::Limited(FOLLOW_ALL_LIMIT),
    };
    let timeout_millis = match bag.read_timeout() {
        None => None,
        Some(ReadTimeout(ms)) => Some(ms),
    };
    EngineOptions { redirect, timeout_millis }
}

} // verus!
