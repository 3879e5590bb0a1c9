use reqwest_client::error::{BuildError, EngineErrorKind, TransportError};
use reqwest_client::extensions::{ReadTimeout, RedirectPolicy};
use reqwest_client::request::{Body, Request};
use reqwest_client::transport::HttpTransport;

fn engine_error(r: Result<reqwest_client::response::ResponseEnvelope, TransportError>) -> (
    EngineErrorKind,
    String,
) {
    match r {
        Err(TransportError::Engine(kind, message)) => (kind, message),
        Err(other) => panic!("an engine error was expected, not {:?}", other),
        Ok(env) => panic!("an engine error was expected, not status {}", env.status()),
    }
}

#[test]
fn a_transport_without_a_reactor_is_bridged() {
    let t = HttpTransport::new().unwrap();
    assert!(t.is_bridged());
    assert!(t.proxy().is_none());
}

#[test]
fn a_transport_inside_a_reactor_dispatches_inline() {
    let rt = tokio::runtime::Builder::new_multi_thread()
        .worker_threads(1)
        .enable_all()
        .build()
        .unwrap();
    let mut t = rt.block_on(async { HttpTransport::new().unwrap() });
    assert!(!t.is_bridged());
    assert!(t.take_shutdown_probe().is_none());
}

#[test]
fn a_malformed_user_agent_is_rejected_at_construction() {
    let r = HttpTransport::user_agent(b"bad\nagent".to_vec());
    assert!(matches!(
        r,
        Err(TransportError::Build(BuildError::InvalidHeaderValue))
    ));
}

#[test]
fn the_stored_proxy_is_handed_back() {
    let t = HttpTransport::proxy_and_user_agent(
        Some(b"http://proxy.test:3128".to_vec()),
        b"agent/1.0".to_vec(),
    )
    .unwrap();
    assert_eq!(t.proxy().unwrap(), b"http://proxy.test:3128");
}

#[test]
fn dropping_the_transport_stops_the_background_thread() {
    let mut t = HttpTransport::new().unwrap();
    assert!(t.is_bridged());
    let probe = t.take_shutdown_probe().unwrap();
    assert!(t.take_shutdown_probe().is_none());
    drop(t);
    assert!(probe.wait());
}

#[test]
fn an_unreachable_engine_comes_back_as_a_connect_error() {
    let t = HttpTransport::new().unwrap();
    let q = Request::new(b"GET".to_vec(), b"http://127.0.0.1:9/".to_vec()).unwrap();
    let (kind, message) = engine_error(t.send_blocking(q));
    assert_eq!(kind, EngineErrorKind::Connect);
    assert!(message.contains("127.0.0.1:9"));
}

#[test]
fn the_inline_path_reports_engine_errors_too() {
    let rt = tokio::runtime::Builder::new_multi_thread()
        .worker_threads(1)
        .enable_all()
        .build()
        .unwrap();
    let t = rt.block_on(async { HttpTransport::new().unwrap() });
    assert!(!t.is_bridged());
    let q = Request::new(b"GET".to_vec(), b"http://127.0.0.1:9/".to_vec()).unwrap();
    let (kind, message) = engine_error(t.send_blocking(q));
    assert_eq!(kind, EngineErrorKind::Connect);
    assert!(message.contains("127.0.0.1:9"));
}

#[test]
fn concurrent_requests_each_get_the_reply_for_their_own_request() {
    // One hundred requests in flight at once on the one background reactor;
    // each reply names the URL of its own request, so a reply delivered to
    // the wrong request would be caught here.
    let t = HttpTransport::new().unwrap();
    assert!(t.is_bridged());
    let mut flights = Vec::new();
    for i in 0..100 {
        let url = format!("http://127.0.0.1:9/req-{}", i);
        let mut q = Request::new(b"POST".to_vec(), url.into_bytes()).unwrap();
        q.set_body(Body::InMemory(format!("req-{}", i).into_bytes()));
        flights.push(t.begin(q).unwrap());
    }
    for (i, flight) in flights.into_iter().enumerate() {
        let (_, message) = match t.finish(flight) {
            Err(TransportError::Engine(kind, message)) => (kind, message),
            other => panic!("an engine error was expected for flight {}, not {:?}", i, other.is_ok()),
        };
        assert!(
            message.contains(&format!("/req-{}", i)),
            "reply {} does not name its own request: {}",
            i,
            message
        );
    }
}

#[test]
fn policies_ride_along_without_breaking_dispatch() {
    // The policies are resolved and applied during dispatch; with no engine
    // reachable the request still fails cleanly as an engine error, never a
    // build error and never a hang.
    let t = HttpTransport::new().unwrap();
    let mut q = Request::new(b"GET".to_vec(), b"http://127.0.0.1:9/".to_vec()).unwrap();
    q.extensions_mut().insert_redirect_policy(RedirectPolicy::FollowLimit(2));
    q.extensions_mut().insert_read_timeout(ReadTimeout(50));
    let (kind, _) = engine_error(t.send_blocking(q));
    assert!(kind != EngineErrorKind::TooManyRedirects);
}

#[test]
fn a_streaming_body_does_not_block_a_failing_dispatch() {
    let t = HttpTransport::new().unwrap();
    let mut q = Request::new(b"POST".to_vec(), b"http://127.0.0.1:9/".to_vec()).unwrap();
    q.set_body(Body::Streaming(Box::new(
        reqwest_client::source::SyncReader::new(vec![1, 2, 3]),
    )));
    let (kind, _) = engine_error(t.send_blocking(q));
    assert_eq!(kind, EngineErrorKind::Connect);
}

#[test]
fn requests_survive_the_transport_outliving_many_sends() {
    let t = HttpTransport::new().unwrap();
    for i in 0..5 {
        let q = Request::new(
            b"GET".to_vec(),
            format!("http://127.0.0.1:9/round-{}", i).into_bytes(),
        )
        .unwrap();
        assert!(matches!(
            t.send_blocking(q),
            Err(TransportError::Engine(_, _))
        ));
    }
}
