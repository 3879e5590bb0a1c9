//! The transport's error taxonomy. Everything propagates to the caller as an
//! explicit result: nothing is swallowed, nothing is retried.

use vstd::prelude::*;

verus! {

/// Why a request could not be built: a malformed part, rejected at
/// construction time and never retried.
#[derive(Clone, Copy, Debug, PartialEq, Eq, Structural)]
pub enum BuildError {
    /// The method is not an HTTP token.
    InvalidMethod,
    /// The URI does not parse as a URL.
    InvalidUri,
    /// A header name is not an HTTP token.
    InvalidHeaderName,
    /// A header value holds a byte that header values may not hold.
    InvalidHeaderValue,
}

/// The classification of a network-level failure reported by the engine.
#[derive(Clone, Copy, Debug, PartialEq, Eq, Structural)]
pub enum EngineErrorKind {
    /// The engine gave up waiting: the configured read timeout elapsed.
    TimedOut,
    /// The engine stopped following redirects: the redirect policy's limit
    /// was exceeded, or following was disabled.
    TooManyRedirects,
    /// The engine could not establish the connection.
    Connect,
    /// Any other engine-level failure.
    Other,
}

/// What sending a request can fail with.
#[derive(Debug)]
pub enum TransportError {
    /// The request was malformed; surfaced when it is built.
    Build(BuildError),
    /// The background reactor is gone: the bridge could not ship the request
    /// or the reply never arrived. Distinguished from network-level errors.
    BridgeUnavailable,
    /// A network-level failure reported by the engine, classified, with the
    /// engine's own description of it.
    Engine(EngineErrorKind, String),
}

impl TransportError {
    /// The classification of an engine-level failure, if this is one.
    pub fn engine_kind(&self) -> (r: Option<EngineErrorKind>)
        ensures
            match r {
                Some(k) => self matches TransportError::Engine(kind, _) && k == kind,
                None => !(self is Engine),
            },
    {
        match self {
            TransportError::Engine(kind, _) => Some(*kind),
            _ => None,
        }
    }
}

} // verus!
