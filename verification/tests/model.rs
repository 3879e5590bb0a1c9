use reqwest_client::error::{BuildError, EngineErrorKind, TransportError};
use reqwest_client::extensions::{ExtensionBag, ReadTimeout, RedirectPolicy};
use reqwest_client::options::{resolve_engine_options, EngineRedirect, FOLLOW_ALL_LIMIT};
use reqwest_client::request::Request;
use reqwest_client::response::ResponseEnvelope;
use reqwest_client::source::SyncReader;
use reqwest_client::tools::{BashTool, BashToolInput};
use reqwest_client::validate::{check_token, check_value, eq_ignore_ascii_case};

#[test]
fn tokens_and_values_follow_the_grammar() {
    assert!(check_token(b"GET"));
    assert!(check_token(b"x-trace-id"));
    assert!(check_token(b"PATCH2~"));
    assert!(!check_token(b""));
    assert!(!check_token(b"GE T"));
    assert!(!check_token(b"na:me"));
    assert!(check_value(b""));
    assert!(check_value(b"text/plain; charset=utf-8"));
    assert!(check_value(b"tab\tis fine"));
    assert!(!check_value(b"line\nbreak"));
    assert!(!check_value(&[127]));
    assert!(check_value(&[0xFF]));
}

#[test]
fn names_match_without_regard_to_case() {
    assert!(eq_ignore_ascii_case(b"Content-Type", b"content-type"));
    assert!(eq_ignore_ascii_case(b"X-TRACE", b"x-trace"));
    assert!(!eq_ignore_ascii_case(b"content-type", b"content-length"));
    assert!(!eq_ignore_ascii_case(b"a", b"ab"));
    assert!(eq_ignore_ascii_case(b"", b""));
    assert!(!eq_ignore_ascii_case(b"@", b"`"));
    assert!(!eq_ignore_ascii_case(b"[", b"{"));
}

#[test]
fn malformed_method_is_rejected_at_construction() {
    let r = Request::new(b"GE T".to_vec(), b"http://example.test/".to_vec());
    assert!(matches!(r, Err(BuildError::InvalidMethod)));
}

#[test]
fn malformed_uri_is_rejected_at_construction() {
    let r = Request::new(b"GET".to_vec(), b"not a url".to_vec());
    assert!(matches!(r, Err(BuildError::InvalidUri)));
    let r = Request::new(b"GET".to_vec(), vec![0xFF, 0xFE]);
    assert!(matches!(r, Err(BuildError::InvalidUri)));
}

#[test]
fn malformed_headers_are_rejected_and_change_nothing() {
    let mut q = Request::new(b"GET".to_vec(), b"http://example.test/".to_vec()).unwrap();
    assert!(matches!(
        q.add_header(b"bad name".to_vec(), b"v".to_vec()),
        Err(BuildError::InvalidHeaderName)
    ));
    assert!(matches!(
        q.add_header(b"name".to_vec(), b"bad\nvalue".to_vec()),
        Err(BuildError::InvalidHeaderValue)
    ));
    assert!(q.get_header(b"name").is_none());
    assert!(q.get_header(b"bad name").is_none());
}

#[test]
fn headers_keep_order_and_duplicates_and_match_case_insensitively() {
    let mut q = Request::new(b"GET".to_vec(), b"http://example.test/".to_vec()).unwrap();
    q.add_header(b"X-Tag".to_vec(), b"first".to_vec()).unwrap();
    q.add_header(b"x-tag".to_vec(), b"second".to_vec()).unwrap();
    q.add_header(b"Empty".to_vec(), b"".to_vec()).unwrap();
    assert_eq!(q.get_header(b"x-TAG").unwrap(), b"first");
    assert_eq!(q.get_header(b"empty").unwrap(), b"");
    assert!(q.get_header(b"absent").is_none());
}

#[test]
fn bag_keeps_one_value_per_key_and_overwrites() {
    let mut bag = ExtensionBag::new();
    assert!(bag.redirect_policy().is_none());
    assert!(bag.read_timeout().is_none());
    bag.insert_redirect_policy(RedirectPolicy::FollowLimit(3));
    assert_eq!(bag.redirect_policy(), Some(RedirectPolicy::FollowLimit(3)));
    bag.insert_redirect_policy(RedirectPolicy::NoFollow);
    assert_eq!(bag.redirect_policy(), Some(RedirectPolicy::NoFollow));
    bag.insert_read_timeout(ReadTimeout(50));
    assert_eq!(bag.read_timeout(), Some(ReadTimeout(50)));
    bag.insert_opaque(7, vec![1]);
    bag.insert_opaque(9, vec![2]);
    bag.insert_opaque(7, vec![3, 4]);
    assert_eq!(bag.get_opaque(7).unwrap(), &vec![3, 4]);
    assert_eq!(bag.get_opaque(9).unwrap(), &vec![2]);
    assert!(bag.get_opaque(8).is_none());
    assert_eq!(bag.redirect_policy(), Some(RedirectPolicy::NoFollow));
}

#[test]
fn policies_resolve_into_exact_engine_options() {
    let mut bag = ExtensionBag::new();
    let o = resolve_engine_options(&bag);
    assert_eq!(o.redirect, EngineRedirect::Unset);
    assert_eq!(o.timeout_millis, None);

    bag.insert_redirect_policy(RedirectPolicy::NoFollow);
    assert_eq!(resolve_engine_options(&bag).redirect, EngineRedirect::Disabled);

    bag.insert_redirect_policy(RedirectPolicy::FollowLimit(2));
    assert_eq!(resolve_engine_options(&bag).redirect, EngineRedirect::Limited(2));

    bag.insert_redirect_policy(RedirectPolicy::FollowAll);
    assert_eq!(
        resolve_engine_options(&bag).redirect,
        EngineRedirect::Limited(FOLLOW_ALL_LIMIT)
    );

    bag.insert_read_timeout(ReadTimeout(50));
    assert_eq!(resolve_engine_options(&bag).timeout_millis, Some(50));
}

#[test]
fn unrecognized_entries_do_not_disturb_the_policies() {
    let mut bag = ExtensionBag::new();
    bag.insert_opaque(42, b"opaque payload".to_vec());
    let o = resolve_engine_options(&bag);
    assert_eq!(o.redirect, EngineRedirect::Unset);
    assert_eq!(o.timeout_millis, None);
    assert_eq!(bag.get_opaque(42).unwrap(), b"opaque payload");
}

#[test]
fn envelope_carries_status_headers_and_a_lazy_body() {
    let headers = vec![
        (b"content-type".to_vec(), b"text/plain".to_vec()),
        (b"x-tag".to_vec(), b"a".to_vec()),
    ];
    let mut env = ResponseEnvelope::assemble(
        200,
        headers,
        Box::new(SyncReader::new(b"hello".to_vec())),
    );
    assert_eq!(env.status(), 200);
    assert_eq!(env.get_header(b"Content-Type").unwrap(), b"text/plain");
    assert!(env.get_header(b"absent").is_none());
    let body = env.body_mut();
    assert!(body.active());
    let mut all = Vec::new();
    loop {
        match body.next() {
            reqwest_client::adapter::Pulled::Chunk(c) => all.extend_from_slice(&c),
            reqwest_client::adapter::Pulled::Done => break,
            reqwest_client::adapter::Pulled::Failed(_) => panic!("no failure was scripted"),
        }
    }
    assert_eq!(all, b"hello");
}

#[test]
fn engine_kind_is_read_back_from_transport_errors() {
    let e = TransportError::Engine(EngineErrorKind::TimedOut, String::from("t"));
    assert_eq!(e.engine_kind(), Some(EngineErrorKind::TimedOut));
    assert!(TransportError::BridgeUnavailable.engine_kind().is_none());
    assert!(TransportError::Build(BuildError::InvalidUri).engine_kind().is_none());
}

#[test]
fn tool_output_streams_combine_as_stated() {
    let tool = BashTool;
    assert_eq!(tool.name(), "bash");
    assert_eq!(
        tool.combine_output(String::from("out"), String::from("err")),
        "out\nerr"
    );
    assert_eq!(tool.combine_output(String::from("out"), String::new()), "out");
    assert_eq!(tool.combine_output(String::new(), String::from("err")), "err");
    assert_eq!(tool.combine_output(String::new(), String::new()), "");
    let input = BashToolInput { command: String::from("true") };
    assert_eq!(input.command, "true");
}
