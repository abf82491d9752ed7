use std::cell::Cell;
use std::rc::Rc;

use awc::connect::{Action, Attempt, Mode, Release, SocketAddress, Stage};
use awc::error::{ConnectError, ExchangeError, SendRequestError};
use awc::head::{RequestHead, RequestHeadType, ResponseHead};
use awc::headers::HeaderList;

/// A connection double that counts how often it was asked for an exchange.
struct DoubleConnection<'a> {
    exchanges: &'a Cell<u32>,
    status: u16,
}

impl<'a> DoubleConnection<'a> {
    fn exchange(self, _head: RequestHeadType, _body: Vec<u8>) -> Result<(ResponseHead, Vec<u8>), ExchangeError> {
        self.exchanges.set(self.exchanges.get() + 1);
        Ok((response(self.status), b"hello".to_vec()))
    }
}

fn head(method: http::Method, target: &str) -> RequestHead {
    RequestHead {
        method,
        uri: target.parse::<http::Uri>().unwrap(),
        version: http::Version::HTTP_11,
        headers: HeaderList::new(),
    }
}

fn response(status: u16) -> ResponseHead {
    ResponseHead {
        status: http::StatusCode::from_u16(status).unwrap(),
        version: http::Version::HTTP_11,
        headers: HeaderList::new(),
    }
}

fn list(entries: &[(&str, &str)]) -> HeaderList {
    let mut l = HeaderList::new();
    for (n, v) in entries {
        l.append(n.as_bytes().to_vec(), v.as_bytes().to_vec());
    }
    l
}

fn pairs(l: &HeaderList) -> Vec<(String, String)> {
    l.entries
        .iter()
        .map(|h| (String::from_utf8(h.name.clone()).unwrap(), String::from_utf8(h.value.clone()).unwrap()))
        .collect()
}

#[test]
fn get_request_resolves_to_its_status() {
    let count = Cell::new(0);
    let (target, mut attempt) = Attempt::send_request(head(http::Method::GET, "http://example.test/"), Vec::new(), None);
    assert_eq!(target.uri.to_string(), "http://example.test/");
    assert!(target.addr.is_none());
    assert_eq!(attempt.stage, Stage::Dialing);
    let conn = DoubleConnection { exchanges: &count, status: 200 };
    let answer = match attempt.on_dialed(Ok::<_, ConnectError>(conn)) {
        Action::Exchange(c, h, b) => {
            assert_eq!(h.uri().to_string(), "http://example.test/");
            c.exchange(h, b)
        }
        _ => panic!("expected an exchange"),
    };
    assert_eq!(attempt.stage, Stage::Exchanging);
    let resp = attempt.on_response(answer).unwrap();
    assert_eq!(resp.head.status, http::StatusCode::OK);
    assert_eq!(resp.payload, b"hello".to_vec());
    assert_eq!(count.get(), 1);
    assert_eq!(attempt.stage, Stage::Finished);
}

#[test]
fn refused_dial_never_reaches_the_connection() {
    let count = Cell::new(0);
    let (_target, mut attempt) = Attempt::send_request(head(http::Method::GET, "http://example.test/"), Vec::<u8>::new(), None);
    let dialed: Result<DoubleConnection, ConnectError> = Err(ConnectError::Io("refused".to_string()));
    match attempt.on_dialed(dialed) {
        Action::Fail(SendRequestError::Connect(ConnectError::Io(msg))) => assert_eq!(msg, "refused"),
        _ => panic!("expected the connect error"),
    }
    assert_eq!(count.get(), 0);
    assert_eq!(attempt.stage, Stage::Finished);
    assert_eq!(attempt.abandon(), Release::Nothing);
}

#[test]
fn response_head_is_passed_on_unchanged() {
    let (_t, mut attempt) = Attempt::send_request(head(http::Method::POST, "http://example.test/x"), 7u8, None);
    match attempt.on_dialed(Ok::<u32, ConnectError>(1)) {
        Action::Exchange(c, _, b) => {
            assert_eq!(c, 1);
            assert_eq!(b, 7u8);
        }
        _ => panic!("expected an exchange"),
    }
    let mut rh = response(404);
    rh.headers = list(&[("server", "double"), ("x-a", "1")]);
    rh.version = http::Version::HTTP_2;
    let resp = attempt.on_response(Ok::<_, ExchangeError>((rh, "body"))).unwrap();
    assert_eq!(resp.head.status.as_u16(), 404);
    assert_eq!(resp.head.version, http::Version::HTTP_2);
    assert_eq!(
        pairs(&resp.head.headers),
        vec![("server".to_string(), "double".to_string()), ("x-a".to_string(), "1".to_string())]
    );
    assert_eq!(resp.payload, "body");
}

#[test]
fn exchange_failure_is_a_send_error() {
    let (_t, mut attempt) = Attempt::send_request(head(http::Method::GET, "http://example.test/"), (), None);
    assert!(matches!(attempt.on_dialed(Ok::<u8, ConnectError>(0)), Action::Exchange(..)));
    let r = attempt.on_response::<()>(Err(ExchangeError::Timeout));
    assert!(matches!(r, Err(SendRequestError::Send(ExchangeError::Timeout))));
}

#[test]
fn dial_timeout_is_a_connect_error() {
    let (_t, mut attempt) = Attempt::open_tunnel(head(http::Method::GET, "ws://example.test/chat"), None);
    let r = attempt.on_dialed(Err::<u8, ConnectError>(ConnectError::Timeout));
    assert!(matches!(r, Action::Fail(SendRequestError::Connect(ConnectError::Timeout))));
}

#[test]
fn address_is_handed_to_the_connector() {
    let addr = SocketAddress::V4([127, 0, 0, 1], 8080);
    let shared = Rc::new(head(http::Method::GET, "http://example.test/a"));
    let (target, attempt) = Attempt::send_request_extra(shared.clone(), None, (), Some(addr));
    assert_eq!(target.uri.to_string(), "http://example.test/a");
    assert!(matches!(target.addr, Some(SocketAddress::V4([127, 0, 0, 1], 8080))));
    assert_eq!(attempt.mode, Mode::Send);
}

#[test]
fn tunnel_hands_back_the_transport() {
    let (target, mut attempt) = Attempt::open_tunnel(head(http::Method::GET, "ws://example.test/chat"), None);
    assert_eq!(target.uri.to_string(), "ws://example.test/chat");
    assert_eq!(attempt.mode, Mode::Tunnel);
    assert!(matches!(attempt.on_dialed(Ok::<u8, ConnectError>(3)), Action::Upgrade(3, _)));
    let transport: Vec<u8> = b"written".to_vec();
    let (rh, t) = attempt.on_upgraded(Ok::<_, ExchangeError>((response(101), transport))).unwrap();
    assert_eq!(rh.status, http::StatusCode::SWITCHING_PROTOCOLS);
    assert_eq!(t, b"written".to_vec());
}

#[test]
fn tunnel_with_overlay_keeps_shared_head() {
    let mut h = head(http::Method::GET, "ws://example.test/chat");
    h.headers = list(&[("upgrade", "websocket")]);
    let shared = Rc::new(h);
    let (_t, mut attempt) = Attempt::open_tunnel_extra(shared.clone(), Some(list(&[("origin", "x")])), None);
    match attempt.on_dialed(Ok::<u8, ConnectError>(0)) {
        Action::Upgrade(_, ht) => {
            assert_eq!(
                pairs(&ht.effective_headers()),
                vec![("upgrade".to_string(), "websocket".to_string()), ("origin".to_string(), "x".to_string())]
            );
        }
        _ => panic!("expected an upgrade"),
    }
    assert_eq!(pairs(&shared.headers), vec![("upgrade".to_string(), "websocket".to_string())]);
    let r = attempt.on_upgraded::<u8>(Err(ExchangeError::TunnelNotSupported));
    assert!(matches!(r, Err(SendRequestError::Send(ExchangeError::TunnelNotSupported))));
}

#[test]
fn abandon_after_dial_invalidates() {
    let (_t, mut attempt) = Attempt::send_request(head(http::Method::GET, "http://example.test/"), (), None);
    assert!(matches!(attempt.on_dialed(Ok::<u8, ConnectError>(0)), Action::Exchange(..)));
    assert_eq!(attempt.abandon(), Release::Invalidate);
    assert_eq!(attempt.stage, Stage::Finished);
}

#[test]
fn abandon_while_dialing_cancels() {
    let (_t, mut attempt) = Attempt::send_request(head(http::Method::GET, "http://example.test/"), (), None);
    assert_eq!(attempt.abandon(), Release::CancelDial);
    assert_eq!(attempt.abandon(), Release::Nothing);
}

#[test]
fn overlay_and_owned_heads_send_the_same_headers() {
    let mut base = head(http::Method::GET, "http://example.test/");
    base.headers = list(&[("accept", "a"), ("cookie", "c1"), ("cookie", "c2"), ("host", "h")]);
    let shared = Rc::new(base);
    let overlay = list(&[("accept", "b"), ("x-trace", "1")]);
    let mut owned = head(http::Method::GET, "http://example.test/");
    owned.headers = list(&[("cookie", "c1"), ("cookie", "c2"), ("host", "h"), ("accept", "b"), ("x-trace", "1")]);

    let (_t1, mut a1) = Attempt::send_request(owned, (), None);
    let (_t2, mut a2) = Attempt::send_request_extra(shared.clone(), Some(overlay), (), None);
    let h1 = match a1.on_dialed(Ok::<u8, ConnectError>(0)) {
        Action::Exchange(_, h, _) => h.effective_headers(),
        _ => panic!("expected an exchange"),
    };
    let h2 = match a2.on_dialed(Ok::<u8, ConnectError>(0)) {
        Action::Exchange(_, h, _) => h.effective_headers(),
        _ => panic!("expected an exchange"),
    };
    assert_eq!(pairs(&h1), pairs(&h2));
    assert_eq!(pairs(&shared.headers).len(), 4);
    assert_eq!(pairs(&shared.headers)[0], ("accept".to_string(), "a".to_string()));
}

#[test]
fn overlay_replaces_every_value_of_its_names() {
    let base = list(&[("cookie", "c1"), ("host", "h"), ("cookie", "c2")]);
    let overlay = list(&[("cookie", "new")]);
    let merged = base.merged_with(&overlay);
    assert_eq!(
        pairs(&merged),
        vec![("host".to_string(), "h".to_string()), ("cookie".to_string(), "new".to_string())]
    );
    assert_eq!(base.len(), 3);
}

#[test]
fn empty_overlay_keeps_base() {
    let base = list(&[("a", "1"), ("a", "2")]);
    assert_eq!(pairs(&base.merged_with(&HeaderList::new())), pairs(&base));
    let shared = RequestHeadType::Shared(Rc::new(head(http::Method::GET, "http://example.test/")), None);
    assert_eq!(shared.effective_headers().len(), 0);
}

#[test]
fn header_names_compare_bytewise() {
    assert!(awc::headers::same_name(&b"host".to_vec(), &b"host".to_vec()));
    assert!(!awc::headers::same_name(&b"host".to_vec(), &b"hosts".to_vec()));
    assert!(!awc::headers::same_name(&b"host".to_vec(), &b"hist".to_vec()));
    let l = list(&[("x-a", "1")]);
    assert!(l.contains_name(&b"x-a".to_vec()));
    assert!(!l.contains_name(&b"x-b".to_vec()));
}
