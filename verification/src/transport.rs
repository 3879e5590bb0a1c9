//! The transport: builds an engine-native request from a request description
//! and its extension bag, dispatches it either inline (a compatible reactor
//! already drives the caller) or across the runtime bridge (a dedicated
//! background reactor thread), and assembles the response envelope.

use vstd::prelude::*;

use crate::adapter::ByteStreamAdapter;
use crate::engine;
use crate::engine::{BridgeJob, EngineBodySource, EngineReply};
use crate::error::{BuildError, TransportError};
use crate::options::{redirect_translation, resolve_engine_options, EngineRedirect};
use crate::request::{Body, Request};
use crate::response::ResponseEnvelope;
use crate::source::SyncReader;
use crate::validate;

verus! {

/// The runtime bridge: the sending half of the channel to the dedicated
/// background reactor thread, the handle owning that thread, and the probe
/// through which the thread announces its exit.
struct Bridge {
    tx: futures::channel::mpsc::UnboundedSender<BridgeJob>,
    pool: futures::executor::ThreadPool,
    probe: Option<futures::channel::oneshot::Receiver<()>>,
}

/// How the transport reaches a reactor: the caller's own, or the bridge's.
enum Dispatcher {
    /// A compatible reactor already drives the caller: dispatch inline on it.
    Inline(tokio::runtime::Handle),
    /// No reactor was present: dispatch across the bridge.
    Bridged(Bridge),
}

/// A witness of the background reactor thread's exit, to be claimed before
/// the transport is dropped and waited on afterwards.
pub struct ShutdownProbe {
    rx: futures::channel::oneshot::Receiver<()>,
}

impl ShutdownProbe {
    /// Blocks until the background reactor thread announces its exit; true
    /// when it did so, false when its end of the probe was lost instead.
    /// After the transport (and with it the channel sender) is dropped, the
    /// thread's receive loop ends and this returns.
    pub fn wait(self) -> bool {
        engine::await_exit(self.rx)
    }
}

/// One dispatched request, awaiting its reply. Dropping it abandons the
/// request: across the bridge, the already-shipped job still runs to
/// completion on the background reactor and the result it sends into the
/// dropped single-use reply channel is discarded, never delivered anywhere
/// else; inline, the built request is dropped before the engine ever sends
/// it.
pub struct InFlight {
    way: InFlightWay,
}

enum InFlightWay {
    Inline(tokio::runtime::Handle, reqwest::RequestBuilder),
    Bridged(futures::channel::oneshot::Receiver<EngineReply>),
}

impl InFlight {
    /// Whether this request went across the bridge.
    pub closed spec fn bridged(self) -> bool {
        self.way is Bridged
    }
}

/// The transport: one shared engine handle, the stored configuration, and
/// the dispatcher. Owns the bridge — and so the background reactor thread —
/// for its whole lifetime; dropping the transport drops the channel sender,
/// upon which the thread observes the channel closing and exits.
pub struct HttpTransport {
    client: reqwest::Client,
    user_agent: Option<Vec<u8>>,
    proxy: Option<Vec<u8>>,
    dispatcher: Dispatcher,
}

impl HttpTransport {
    /// Whether requests go across the bridge (no compatible reactor was
    /// present when the transport was built).
    pub closed spec fn bridged(self) -> bool {
        self.dispatcher is Bridged
    }

    /// The stored proxy address, if any.
    pub closed spec fn spec_proxy(self) -> Option<Seq<u8>> {
        match self.proxy {
            Some(p) => Some(p@),
            None => None,
        }
    }

    /// The default user agent, if one was configured.
    pub closed spec fn spec_user_agent(self) -> Option<Seq<u8>> {
        match self.user_agent {
            Some(u) => Some(u@),
            None => None,
        }
    }

    /// A well-formed transport: a configured user agent is a valid header
    /// value.
    pub closed spec fn wf(self) -> bool {
        self.user_agent matches Some(u) ==> validate::is_valid_value(u@)
    }

    /// Builds the engine and picks the dispatch mode: inline when a
    /// compatible reactor drives the caller, bridged otherwise — then the
    /// one dedicated background reactor thread is started here.
    fn make(user_agent: Option<Vec<u8>>, proxy: Option<Vec<u8>>) -> (r: Result<
        HttpTransport,
        TransportError,
    >)
        requires
            user_agent matches Some(u) ==> validate::is_valid_value(u@),
        ensures
            r matches Ok(t) ==> {
                &&& t.wf()
                &&& t.spec_user_agent() == (match user_agent {
                    Some(u) => Some(u@),
                    None => None,
                })
                &&& t.spec_proxy() == (match proxy {
                    Some(p) => Some(p@),
                    None => None,
                })
            },
            r matches Err(e) ==> (e is BridgeUnavailable || e is Engine),
    {
        let client = match engine::build_engine(user_agent.as_ref(), &EngineRedirect::Unset) {
            Ok(c) => c,
            Err(e) => {
                return Err(
                    TransportError::Engine(engine::classify_error(&e), engine::error_message(&e)),
                );
            },
        };
        match engine::ambient_handle() {
            Some(h) => Ok(
                HttpTransport { client, user_agent, proxy, dispatcher: Dispatcher::Inline(h) },
            ),
            None => {
                let pool = match engine::new_worker_pool() {
                    Ok(p) => p,
                    Err(_) => {
                        return Err(TransportError::BridgeUnavailable);
                    },
                };
                let (tx, rx) = engine::bridge_channel();
                let (done_tx, done_rx) = engine::oneshot_pair::<()>();
                engine::start_bridge_worker(&pool, rx, done_tx);
                Ok(
                    HttpTransport {
                        client,
                        user_agent,
                        proxy,
                        dispatcher: Dispatcher::Bridged(Bridge { tx, pool, probe: Some(done_rx) }),
                    },
                )
            },
        }
    }

    /// A transport with the engine's defaults: no user agent, no proxy.
    pub fn new() -> (r: Result<HttpTransport, TransportError>)
        ensures
            r matches Ok(t) ==> t.wf() && t.spec_user_agent() is None && t.spec_proxy() is None,
            r matches Err(e) ==> (e is BridgeUnavailable || e is Engine),
    {
        Self::make(None, None)
    }

    /// A transport whose engine sends the given user agent by default. A
    /// malformed agent (not a valid header value) is rejected immediately.
    pub fn user_agent(agent: Vec<u8>) -> (r: Result<HttpTransport, TransportError>)
        ensures
            !validate::is_valid_value(agent@) ==> r matches Err(
                TransportError::Build(BuildError::InvalidHeaderValue),
            ),
            validate::is_valid_value(agent@) ==> (r matches Ok(_) || (r matches Err(e) && (
            e is BridgeUnavailable || e is Engine))),
            r matches Ok(t) ==> {
                &&& validate::is_valid_value(agent@)
                &&& t.wf()
                &&& t.spec_user_agent() == Some(agent@)
                &&& t.spec_proxy() is None
            },
    {
        if !validate::check_value(agent.as_slice()) {
            return Err(TransportError::Build(BuildError::InvalidHeaderValue));
        }
        Self::make(Some(agent), None)
    }

    /// A transport with a stored proxy address and the given user agent. The
    /// proxy is configuration the transport carries for its collaborators;
    /// the engine itself is built as in [`HttpTransport::user_agent`].
    pub fn proxy_and_user_agent(proxy: Option<Vec<u8>>, agent: Vec<u8>) -> (r: Result<
        HttpTransport,
        TransportError,
    >)
        ensures
            !validate::is_valid_value(agent@) ==> r matches Err(
                TransportError::Build(BuildError::InvalidHeaderValue),
            ),
            validate::is_valid_value(agent@) ==> (r matches Ok(_) || (r matches Err(e) && (
            e is BridgeUnavailable || e is Engine))),
            r matches Ok(t) ==> {
                &&& validate::is_valid_value(agent@)
                &&& t.wf()
                &&& t.spec_user_agent() == Some(agent@)
                &&& t.spec_proxy() == (match proxy {
                    Some(p) => Some(p@),
                    None => None,
                })
            },
    {
        if !validate::check_value(agent.as_slice()) {
            return Err(TransportError::Build(BuildError::InvalidHeaderValue));
        }
        Self::make(Some(agent), proxy)
    }

    /// The stored proxy address, if any.
    pub fn proxy(&self) -> (r: Option<&Vec<u8>>)
        ensures
            match r {
                Some(p) => self.spec_proxy() == Some(p@),
                None => self.spec_proxy() is None,
            },
    {
        self.proxy.as_ref()
    }

    /// Whether requests go across the bridge.
    pub fn is_bridged(&self) -> (r: bool)
        ensures
            r == self.bridged(),
    {
        match &self.dispatcher {
            Dispatcher::Bridged(_) => true,
            Dispatcher::Inline(_) => false,
        }
    }

    /// Claims the shutdown probe of the background reactor thread: present
    /// once, on a bridged transport only.
    pub fn take_shutdown_probe(&mut self) -> (r: Option<ShutdownProbe>)
        ensures
            final(self).bridged() == old(self).bridged(),
            final(self).wf() == old(self).wf(),
            final(self).spec_proxy() == old(self).spec_proxy(),
            final(self).spec_user_agent() == old(self).spec_user_agent(),
            r is Some ==> old(self).bridged(),
    {
        match &mut self.dispatcher {
            Dispatcher::Bridged(br) => match br.probe.take() {
                Some(rx) => Some(ShutdownProbe { rx }),
                None => None,
            },
            Dispatcher::Inline(_) => None,
        }
    }

    /// Builds the engine-native request — options resolved from the
    /// extension bag, each body variant converted, every header forwarded —
    /// and dispatches it, inline or across the bridge. A build failure can
    /// only be the URI (everything else was validated when the request was
    /// built); the bridge refusing the job means the background reactor is
    /// gone; and an engine error here can only come from building the
    /// derived engine a redirect policy asks for.
    pub fn begin(&self, req: Request) -> (r: Result<InFlight, TransportError>)
        requires
            self.wf(),
            req.wf(),
        ensures
            r matches Ok(f) ==> f.bridged() == self.bridged(),
            r matches Err(TransportError::Build(b)) ==> b == BuildError::InvalidUri && !engine::url_ok(
                req.spec_uri(),
            ),
            engine::url_ok(req.spec_uri()) ==> !(r matches Err(TransportError::Build(_))),
            r matches Err(TransportError::BridgeUnavailable) ==> self.bridged(),
            r matches Err(TransportError::Engine(_, _)) ==> redirect_translation(
                req.spec_extensions().spec_redirect_policy(),
            ) != EngineRedirect::Unset,
            engine::url_ok(req.spec_uri()) && !self.bridged() && redirect_translation(
                req.spec_extensions().spec_redirect_policy(),
            ) == EngineRedirect::Unset ==> r is Ok,
    {
        let (method, uri, headers, extensions, body) = req.into_parts();
        let url = match engine::parse_url(uri.as_slice()) {
            Ok(u) => u,
            Err(_) => {
                return Err(TransportError::Build(BuildError::InvalidUri));
            },
        };
        let opts = resolve_engine_options(&extensions);
        let client = match opts.redirect {
            EngineRedirect::Unset => engine::clone_engine(&self.client),
            _ => match engine::build_engine(self.user_agent.as_ref(), &opts.redirect) {
                Ok(c) => c,
                Err(e) => {
                    return Err(
                        TransportError::Engine(
                            engine::classify_error(&e),
                            engine::error_message(&e),
                        ),
                    );
                },
            },
        };
        let mut b = engine::new_request(&client, method.as_slice(), url);
        let ghost hs0 = headers@;
        let n = headers.len();
        for i in 0..n
            invariant
                headers@ == hs0,
                n == headers@.len(),
                forall|j: int|
                    0 <= j < hs0.len() ==> validate::is_valid_token(#[trigger] hs0[j].0@)
                        && validate::is_valid_value(hs0[j].1@),
        {
            b = engine::builder_add_header(b, headers[i].0.as_slice(), headers[i].1.as_slice());
        }
        if let Some(ms) = opts.timeout_millis {
            b = engine::builder_timeout(b, ms);
        }
        match body {
            Body::Empty => {},
            Body::InMemory(v) => {
                b = engine::builder_stream_body(
                    b,
                    ByteStreamAdapter::new(Box::new(SyncReader::new(v))),
                );
            },
            Body::Streaming(src) => {
                b = engine::builder_stream_body(b, ByteStreamAdapter::new(src));
            },
        }
        match &self.dispatcher {
            Dispatcher::Inline(h) => Ok(
                InFlight { way: InFlightWay::Inline(engine::clone_handle(h), b) },
            ),
            Dispatcher::Bridged(br) => {
                let (reply_tx, reply_rx) = engine::oneshot_pair::<EngineReply>();
                match engine::bridge_send(&br.tx, BridgeJob { builder: b, reply: reply_tx }) {
                    Ok(_) => Ok(InFlight { way: InFlightWay::Bridged(reply_rx) }),
                    Err(_) => Err(TransportError::BridgeUnavailable),
                }
            },
        }
    }

    /// Waits for the reply of one dispatched request and assembles the
    /// envelope: the status, the headers, and the body behind a fresh
    /// adapter, nothing of it pulled yet. An engine failure comes back
    /// classified; a lost reply channel means the background reactor is
    /// gone. Blocks the calling thread, which must not itself be a reactor
    /// thread.
    pub fn finish(&self, flight: InFlight) -> (r: Result<ResponseEnvelope, TransportError>)
        ensures
            r matches Ok(env) ==> {
                &&& env.wf()
                &&& env.spec_body().is_active()
                &&& env.spec_body().consumed() == Seq::<u8>::empty()
                &&& env.spec_body().emitted() == Seq::<u8>::empty()
            },
            !(r matches Err(TransportError::Build(_))),
            r matches Err(TransportError::BridgeUnavailable) ==> flight.bridged(),
    {
        let outcome: EngineReply = match flight.way {
            InFlightWay::Inline(h, b) => engine::block_on_send(&h, b),
            InFlightWay::Bridged(rx) => match engine::await_reply(rx) {
                Ok(o) => o,
                Err(_) => {
                    return Err(TransportError::BridgeUnavailable);
                },
            },
        };
        complete(outcome)
    }

    /// Sends one request and blocks until its result: dispatch, await, and
    /// envelope assembly in one step, for callers not themselves driven by a
    /// reactor. Callers already on a reactor dispatch with
    /// [`HttpTransport::begin`] and await [`HttpTransport::finish`] off the
    /// reactor thread instead.
    pub fn send_blocking(&self, req: Request) -> (r: Result<ResponseEnvelope, TransportError>)
        requires
            self.wf(),
            req.wf(),
        ensures
            r matches Ok(env) ==> {
                &&& env.wf()
                &&& env.spec_body().is_active()
                &&& env.spec_body().consumed() == Seq::<u8>::empty()
                &&& env.spec_body().emitted() == Seq::<u8>::empty()
            },
            r matches Err(TransportError::Build(b)) ==> b == BuildError::InvalidUri && !engine::url_ok(
                req.spec_uri(),
            ),
            engine::url_ok(req.spec_uri()) ==> !(r matches Err(TransportError::Build(_))),
            r matches Err(TransportError::BridgeUnavailable) ==> self.bridged(),
    {
        match self.begin(req) {
            Ok(flight) => self.finish(flight),
            Err(e) => Err(e),
        }
    }
}

/// One engine reply, turned into the caller's result: a response becomes
/// the envelope, its body behind a fresh adapter with nothing pulled yet; an
/// engine failure comes back classified, with the engine's own description.
fn complete(reply: EngineReply) -> (r: Result<ResponseEnvelope, TransportError>)
    ensures
        reply is Ok <==> r is Ok,
        r matches Ok(env) ==> {
            &&& env.wf()
            &&& env.spec_body().is_active()
            &&& env.spec_body().consumed() == Seq::<u8>::empty()
            &&& env.spec_body().emitted() == Seq::<u8>::empty()
        },
        r matches Err(e) ==> e is Engine,
{
    match reply {
        Ok(resp) => {
            let status = engine::response_status(&resp);
            let hs = engine::response_headers(&resp);
            Ok(ResponseEnvelope::assemble(status, hs, Box::new(EngineBodySource { response: resp })))
        },
        Err(e) => Err(TransportError::Engine(engine::classify_error(&e), engine::error_message(&e))),
    }
}

} // verus!
