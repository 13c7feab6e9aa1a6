use axum::http::Request;
use axum_csrf::{CsrfConfig, CsrfLayer, CsrfToken};
use csrf_session::{AuthError, Handle, HandleError, Route, SessionData, TokenProvider};
use std::convert::Infallible;
use std::future::{ready, Ready};
use std::task::{Context, Poll};
use tower::{Layer, Service};

/// An inner service that hands back the token the layer attached.
struct Grab;

impl Service<Request<()>> for Grab {
    type Response = Option<CsrfToken>;
    type Error = Infallible;
    type Future = Ready<Result<Option<CsrfToken>, Infallible>>;

    fn poll_ready(&mut self, _cx: &mut Context<'_>) -> Poll<Result<(), Infallible>> {
        Poll::Ready(Ok(()))
    }

    fn call(&mut self, req: Request<()>) -> Self::Future {
        ready(Ok(req.extensions().get::<CsrfToken>().cloned()))
    }
}

/// The token capability of a request that presents no CSRF cookie.
fn fresh_csrf_token() -> CsrfToken {
    let mut service = CsrfLayer::new(CsrfConfig::default()).layer(Grab);
    let request = Request::builder().uri("/").body(()).unwrap();
    let runtime = tokio::runtime::Runtime::new().unwrap();
    runtime.block_on(service.call(request)).unwrap().expect("token attached by the layer")
}

#[test]
fn real_tokens_verify_against_their_own_cookie_only() {
    let first = fresh_csrf_token();
    let second = fresh_csrf_token();
    let a = first.issue_token().unwrap();
    let b = second.issue_token().unwrap();
    assert!(first.verify_token(&a));
    assert!(second.verify_token(&b));
    assert_ne!(a, b);
    assert!(!first.verify_token(&b));
    assert!(!first.verify_token("not-a-token"));
}

#[test]
fn real_provider_drives_a_session() {
    let csrf = fresh_csrf_token();
    let mut d = SessionData::fresh();
    let page = Handle::request(Route::Root, &csrf, &mut d, None).unwrap();
    assert_eq!(d.authenticity_token, Some(page.token.clone()));
    let body = format!("username=alice&authenticity_token={}", form_escape(&page.token));
    let page = Handle::request(Route::Username, &csrf, &mut d, Some(body.as_bytes())).unwrap();
    assert_eq!(page.username, Some("alice".to_string()));

    let other = fresh_csrf_token().issue_token().unwrap();
    let body = format!("action=Increment&authenticity_token={}", form_escape(&other));
    let e = Handle::request(Route::Counter, &csrf, &mut d, Some(body.as_bytes())).err().unwrap();
    assert_eq!(e, HandleError::Auth(AuthError::TokenMismatch));
    assert_eq!(d.counter.value, 0);
    assert_eq!(d.request_counter.value, 3);
}

/// Percent-encodes the characters of a base64 token that a form body cannot
/// carry as they are.
fn form_escape(s: &str) -> String {
    s.replace('%', "%25").replace('+', "%2B").replace('/', "%2F").replace('=', "%3D")
}
