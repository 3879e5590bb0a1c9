//! The trusted boundary to the networking engine (reqwest) and its runtime
//! (tokio, with futures supplying the channels, the executor and the
//! dedicated thread): every declaration of an outside type and every wrapper
//! around an outside call stands here. Verus believes the contracts stated
//! here; each doc comment names the outside items relied on.

use futures::FutureExt;
use futures::StreamExt;
use vstd::prelude::*;

use crate::adapter::{ByteStreamAdapter, Pulled};
use crate::error::EngineErrorKind;
use crate::options::EngineRedirect;
use crate::source::{ByteSource, ReadError, SourceEvent};
use crate::validate::{is_valid_token, is_valid_value};

verus! {

#[verifier::external_type_specification]
#[verifier::external_body]
pub struct ExClient(reqwest::Client);

#[verifier::external_type_specification]
#[verifier::external_body]
pub struct ExRequestBuilder(reqwest::RequestBuilder);

#[verifier::external_type_specification]
#[verifier::external_body]
pub struct ExResponse(reqwest::Response);

#[verifier::external_type_specification]
#[verifier::external_body]
pub struct ExReqwestError(reqwest::Error);

#[verifier::external_type_specification]
#[verifier::external_body]
pub struct ExUrl(reqwest::Url);

#[verifier::external_type_specification]
#[verifier::external_body]
pub struct ExHandle(tokio::runtime::Handle);

#[verifier::external_type_specification]
#[verifier::external_body]
pub struct ExThreadPool(futures::executor::ThreadPool);

#[verifier::external_type_specification]
#[verifier::external_body]
#[verifier::reject_recursive_types(T)]
pub struct ExUnboundedSender<T>(futures::channel::mpsc::UnboundedSender<T>);

#[verifier::external_type_specification]
#[verifier::external_body]
#[verifier::reject_recursive_types(T)]
pub struct ExUnboundedReceiver<T>(futures::channel::mpsc::UnboundedReceiver<T>);

#[verifier::external_type_specification]
#[verifier::external_body]
#[verifier::reject_recursive_types(T)]
pub struct ExOneshotSender<T>(futures::channel::oneshot::Sender<T>);

#[verifier::external_type_specification]
#[verifier::external_body]
#[verifier::reject_recursive_types(T)]
pub struct ExOneshotReceiver<T>(futures::channel::oneshot::Receiver<T>);

#[verifier::external_type_specification]
#[verifier::external_body]
pub struct ExCanceled(futures::channel::oneshot::Canceled);

/// What the engine hands back for one dispatched request.
pub type EngineReply = Result<reqwest::Response, reqwest::Error>;

/// One request shipped across the bridge: the built engine request, paired
/// with the single-use channel its reply must be sent into.
pub(crate) struct BridgeJob {
    pub(crate) builder: reqwest::RequestBuilder,
    pub(crate) reply: futures::channel::oneshot::Sender<EngineReply>,
}

/// Whether the URL parser accepts these bytes: UTF-8 that parses as an
/// absolute URL. The answer depends on the bytes alone.
pub uninterp spec fn url_ok(s: Seq<u8>) -> bool;

/// Relies on reqwest's `Url::parse` (with `str::from_utf8` converting the
/// argument): the parse succeeds on exactly the byte strings that are UTF-8
/// and parse as a URL, and its answer depends on the bytes alone.
#[verifier::external_body]
pub(crate) fn parse_url(u: &[u8]) -> (r: Result<reqwest::Url, ()>)
    ensures
        r is Ok <==> url_ok(u@),
{
    match core::str::from_utf8(u) {
        Ok(s) => reqwest::Url::parse(s).map_err(|_| ()),
        Err(_) => Err(()),
    }
}

/// Relies on `Client::clone`: a clone is another shared handle to the same
/// engine, its connection pool included.
#[verifier::external_body]
pub(crate) fn clone_engine(c: &reqwest::Client) -> reqwest::Client {
    c.clone()
}

/// Relies on reqwest's `ClientBuilder`: an engine with the given default
/// user agent (a valid header value, so `user_agent` records no error) and
/// the given redirect policy, built with `Policy::none` or `Policy::limited`.
#[verifier::external_body]
pub(crate) fn build_engine(user_agent: Option<&Vec<u8>>, redirect: &EngineRedirect) -> (r: Result<
    reqwest::Client,
    reqwest::Error,
>)
    requires
        user_agent matches Some(u) ==> is_valid_value(u@),
{
    let mut b = reqwest::Client::builder();
    if let Some(u) = user_agent {
        b = b.user_agent(u.as_slice());
    }
    b = match redirect {
        EngineRedirect::Unset => b,
        EngineRedirect::Disabled => b.redirect(reqwest::redirect::Policy::none()),
        EngineRedirect::Limited(n) => b.redirect(reqwest::redirect::Policy::limited(*n as usize)),
    };
    b.build()
}

/// Relies on `Client::request` (with `Method::from_bytes` converting the
/// method, which accepts every HTTP token): the builder for one request with
/// the given method and URL.
#[verifier::external_body]
pub(crate) fn new_request(
    client: &reqwest::Client,
    method: &[u8],
    url: reqwest::Url,
) -> reqwest::RequestBuilder
    requires
        is_valid_token(method@),
{
    let m = reqwest::Method::from_bytes(method).unwrap_or(reqwest::Method::GET);
    client.request(m, url)
}

/// Relies on `RequestBuilder::header`: appends the pair to the request's
/// header map. A token name and a valid value are accepted, so no deferred
/// builder error is recorded.
#[verifier::external_body]
pub(crate) fn builder_add_header(
    b: reqwest::RequestBuilder,
    name: &[u8],
    value: &[u8],
) -> reqwest::RequestBuilder
    requires
        is_valid_token(name@),
        is_valid_value(value@),
{
    b.header(name, value)
}

/// Relies on `RequestBuilder::timeout` (with `Duration::from_millis`
/// converting the argument): the whole request, from connecting until the
/// body finishes, is bounded by the given duration.
#[verifier::external_body]
pub(crate) fn builder_timeout(b: reqwest::RequestBuilder, millis: u64) -> reqwest::RequestBuilder {
    b.timeout(core::time::Duration::from_millis(millis))
}

/// Relies on `Body::wrap_stream` (with `stream::poll_fn` turning the adapter
/// into the stream it wraps): the request body is produced by pulling the
/// adapter; each chunk becomes body bytes in order, the terminal signal ends
/// the body, and a failure aborts the request.
#[verifier::external_body]
pub(crate) fn builder_stream_body(
    b: reqwest::RequestBuilder,
    adapter: ByteStreamAdapter,
) -> reqwest::RequestBuilder {
    let mut a = adapter;
    let stream = futures::stream::poll_fn(move |_| core::task::Poll::Ready(match a.next() {
        Pulled::Chunk(c) => Some(Ok(bytes::Bytes::from(c))),
        Pulled::Done => None,
        Pulled::Failed(_) => Some(Err(std::io::Error::new(std::io::ErrorKind::Other, "body source failed"))),
    }));
    b.body(reqwest::Body::wrap_stream(stream))
}

/// Relies on tokio's `Handle::try_current`: a handle when a compatible
/// reactor already drives the calling context, nothing otherwise. The answer
/// depends on the calling context, so nothing is promised of it.
#[verifier::external_body]
pub(crate) fn ambient_handle() -> Option<tokio::runtime::Handle> {
    tokio::runtime::Handle::try_current().ok()
}

/// Relies on `Handle::clone`: another handle to the same reactor.
#[verifier::external_body]
pub(crate) fn clone_handle(h: &tokio::runtime::Handle) -> tokio::runtime::Handle {
    h.clone()
}

/// Relies on `mpsc::unbounded`: a fresh unbounded channel; what is sent into
/// the sender arrives at this receiver.
#[verifier::external_body]
pub(crate) fn bridge_channel() -> (
    futures::channel::mpsc::UnboundedSender<BridgeJob>,
    futures::channel::mpsc::UnboundedReceiver<BridgeJob>,
) {
    futures::channel::mpsc::unbounded()
}

/// Relies on `oneshot::channel`: a fresh single-use channel; the value sent
/// into the sender, if any, is what this receiver yields.
#[verifier::external_body]
pub(crate) fn oneshot_pair<T>() -> (
    futures::channel::oneshot::Sender<T>,
    futures::channel::oneshot::Receiver<T>,
) {
    futures::channel::oneshot::channel()
}

/// Relies on `ThreadPool::builder`: a pool of exactly one thread, the
/// dedicated background reactor thread; its worker exits once the pool
/// handle is dropped and its work has ended.
#[verifier::external_body]
pub(crate) fn new_worker_pool() -> Result<futures::executor::ThreadPool, ()> {
    futures::executor::ThreadPool::builder().pool_size(1).create().map_err(|_| ())
}

/// Relies on `ThreadPool::spawn_ok`, tokio's current-thread runtime,
/// `StreamExt::for_each` and `tokio::spawn`: the pool's one thread runs its
/// own reactor; each job received is spawned as an independent concurrent
/// task that sends the request and fulfills the job's reply channel exactly
/// once; when every sender is gone the loop ends and `done` is fulfilled.
#[verifier::external_body]
pub(crate) fn start_bridge_worker(
    pool: &futures::executor::ThreadPool,
    rx: futures::channel::mpsc::UnboundedReceiver<BridgeJob>,
    done: futures::channel::oneshot::Sender<()>,
) {
    pool.spawn_ok(futures::future::lazy(move |_| {
        let rt = match tokio::runtime::Builder::new_current_thread().enable_all().build() {
            Ok(rt) => rt,
            Err(_) => return,
        };
        rt.block_on(rx.for_each(|job| {
            tokio::spawn(job.builder.send().map(|r| {
                let _ = job.reply.send(r);
            }));
            futures::future::ready(())
        }));
        let _ = done.send(());
    }));
}

/// Relies on `UnboundedSender::unbounded_send`: succeeds while the receiver
/// (the background thread) still lives, fails once it is gone. Which of the
/// two holds depends on the thread, so nothing is promised of the result.
#[verifier::external_body]
pub(crate) fn bridge_send(
    tx: &futures::channel::mpsc::UnboundedSender<BridgeJob>,
    job: BridgeJob,
) -> Result<(), ()> {
    tx.unbounded_send(job).map_err(|_| ())
}

/// Relies on `futures::executor::block_on`: blocks the calling thread until
/// the paired sender fulfills the reply (then that value is returned) or is
/// dropped (then the channel is gone and nothing arrives).
#[verifier::external_body]
pub(crate) fn await_reply(rx: futures::channel::oneshot::Receiver<EngineReply>) -> Result<
    EngineReply,
    (),
> {
    futures::executor::block_on(rx).map_err(|_| ())
}

/// Relies on `futures::executor::block_on`: blocks the calling thread until
/// the background thread announces its exit by fulfilling its end, or drops
/// it without ever running.
#[verifier::external_body]
pub(crate) fn await_exit(rx: futures::channel::oneshot::Receiver<()>) -> bool {
    futures::executor::block_on(rx).is_ok()
}

/// Relies on `RequestBuilder::send`, awaited under `Handle::enter` with
/// `futures::executor::block_on`: executes the request on the caller's
/// reactor while blocking the calling thread, which must therefore not be a
/// reactor thread itself.
#[verifier::external_body]
pub(crate) fn block_on_send(h: &tokio::runtime::Handle, b: reqwest::RequestBuilder) -> EngineReply {
    let _guard = h.enter();
    futures::executor::block_on(b.send())
}

/// Relies on reqwest's `Error::is_timeout`, `Error::is_redirect` and
/// `Error::is_connect`: tells the engine error's classes apart, one arm
/// each.
#[verifier::external_body]
pub(crate) fn classify_error(e: &reqwest::Error) -> EngineErrorKind {
    if e.is_timeout() {
        EngineErrorKind::TimedOut
    } else if e.is_redirect() {
        EngineErrorKind::TooManyRedirects
    } else if e.is_connect() {
        EngineErrorKind::Connect
    } else {
        EngineErrorKind::Other
    }
}

/// Relies on reqwest's `Error` `Display` implementation: the engine's own
/// description of the failure.
#[verifier::external_body]
pub(crate) fn error_message(e: &reqwest::Error) -> String {
    format!("{}", e)
}

/// Relies on `Response::status` and `StatusCode::as_u16`: the response's
/// status code, which the http crate keeps within 100..=999.
#[verifier::external_body]
pub(crate) fn response_status(r: &reqwest::Response) -> (s: u16)
    ensures
        100 <= s < 1000,
{
    r.status().as_u16()
}

/// Relies on `Response::headers` and the `HeaderMap` iterator: every header
/// of the response, in order, each value listed under its name; converted to
/// byte pairs. The http crate keeps every name a (lowercase) token and every
/// value within the valid header-value bytes.
#[verifier::external_body]
pub(crate) fn response_headers(r: &reqwest::Response) -> (hs: Vec<(Vec<u8>, Vec<u8>)>)
    ensures
        forall|i: int|
            0 <= i < hs@.len() ==> is_valid_token(#[trigger] hs@[i].0@) && is_valid_value(
                hs@[i].1@,
            ),
{
    let mut out = Vec::new();
    for (name, value) in r.headers() {
        out.push((name.as_str().as_bytes().to_vec(), value.as_bytes().to_vec()));
    }
    out
}

/// The response body as a byte source: pulls the engine's byte stream one
/// frame at a time, blocking the pulling thread while the network delivers.
pub struct EngineBodySource {
    pub(crate) response: reqwest::Response,
}

impl EngineBodySource {
    /// Relies on `Response::chunk`, awaited with
    /// `futures::executor::block_on`: the next frame of body bytes, the end
    /// of the body, or the engine's failure (a timeout kept apart).
    #[verifier::external_body]
    fn pull_engine(&mut self) -> SourceEvent {
        match futures::executor::block_on(self.response.chunk()) {
            Ok(Some(b)) => SourceEvent::Data(b.to_vec()),
            Ok(None) => SourceEvent::End,
            Err(e) => SourceEvent::Failed(
                if e.is_timeout() {
                    ReadError::TimedOut
                } else {
                    ReadError::Engine
                },
            ),
        }
    }
}

impl ByteSource for EngineBodySource {
    fn pull(&mut self) -> SourceEvent {
        self.pull_engine()
    }
}

} // verus!
