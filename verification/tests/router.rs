use async_echo_server::executor::Poll;
use async_echo_server::extract::{
    has_content_type, string_from_request, take_body, BodyAlreadyExtracted, ContentType,
    ExtensionsAlreadyExtracted, HeadersAlreadyExtracted, Request, RequestAlreadyExtracted,
    RequestParts, StringRejection, Version,
};
use async_echo_server::handler::{get, on, post, Chosen};
use async_echo_server::response::{IntoResponse, Response};
use async_echo_server::router::empty_router::{
    EmptyRouter, FromEmptyRouter, METHOD_NOT_ALLOWED, NOT_FOUND,
};
use async_echo_server::router::future::{RouteFuture, RouteStep};
use async_echo_server::router::method_filter::{Method, MethodFilter};
use async_echo_server::router::route::{
    insert_url_params, Group, Match, PathPattern, Routed, UrlParams,
};
use async_echo_server::router::Router;

const METHODS: [Method; 10] = [
    Method::Connect,
    Method::Delete,
    Method::Get,
    Method::Head,
    Method::Options,
    Method::Patch,
    Method::Post,
    Method::Put,
    Method::Trace,
    Method::Other,
];

fn pair(k: &str, v: &str) -> (String, String) {
    (k.to_string(), v.to_string())
}

fn regex_of(pattern: &str) -> (String, Vec<String>) {
    PathPattern::to_regex(pattern)
}

#[test]
fn a_pattern_becomes_an_anchored_regular_expression() {
    assert_eq!(regex_of("/"), ("^/".to_string(), vec![]));
    assert_eq!(regex_of("/users"), ("^/users".to_string(), vec![]));
    assert_eq!(
        regex_of("/users/:id"),
        ("^/users/(?P<id>[^/]+)".to_string(), vec!["id".to_string()])
    );
    assert_eq!(
        regex_of("/:a/x/:b/"),
        ("^/(?P<a>[^/]+)/x/(?P<b>[^/]+)/".to_string(), vec!["a".to_string(), "b".to_string()])
    );
    assert_eq!(regex_of("/a:b/c"), ("^/a:b/c".to_string(), vec![]));
    assert_eq!(regex_of(""), ("^".to_string(), vec![]));
    assert_eq!(regex_of("//"), ("^//".to_string(), vec![]));
    assert_eq!(regex_of("/:"), ("^/(?P<>[^/]+)".to_string(), vec!["".to_string()]));
    assert_eq!(
        regex_of("/caf\u{e9}/:n\u{e4}me"),
        ("^/caf\u{e9}/(?P<n\u{e4}me>[^/]+)".to_string(), vec!["n\u{e4}me".to_string()])
    );
}

#[test]
fn a_pattern_remembers_its_expression_and_names() {
    let pattern = PathPattern::new("/users/:id/posts/:post");
    assert_eq!(pattern.regex(), "^/users/(?P<id>[^/]+)/posts/(?P<post>[^/]+)");
    assert_eq!(pattern.capture_names(), &vec!["id".to_string(), "post".to_string()]);
}

#[test]
fn only_patterns_with_a_slash_and_a_valid_expression_are_accepted() {
    assert!(PathPattern::accepts("/users/:id"));
    assert!(PathPattern::try_new("/users/:id").is_some());
    assert!(!PathPattern::accepts("users"));
    assert!(PathPattern::try_new("users").is_none());
    assert!(!PathPattern::accepts(""));
    assert!(PathPattern::try_new("").is_none());
    assert!(!PathPattern::accepts("/users/("));
    assert!(PathPattern::try_new("/users/(").is_none());
    assert!(!PathPattern::accepts("/:"));
    assert!(!PathPattern::accepts("/:a/:a"));
}

#[test]
fn a_pattern_matches_a_whole_path_and_captures_its_parameters() {
    let pattern = PathPattern::new("/users/:id/posts/:post");
    assert_eq!(
        pattern.full_match("/users/42/posts/7"),
        Some(vec![pair("id", "42"), pair("post", "7")])
    );
    assert_eq!(pattern.full_match("/users/42/posts/7/comments"), None);
    assert_eq!(pattern.full_match("/users/42"), None);
    assert_eq!(pattern.full_match("/users//posts/7"), None);
    assert_eq!(pattern.full_match("/x/users/42/posts/7"), None);
}

#[test]
fn a_pattern_matches_the_beginning_of_a_path() {
    let pattern = PathPattern::new("/users/:id");
    assert_eq!(
        pattern.prefix_match("/users/42/posts"),
        Some(("/users/42".to_string(), vec![pair("id", "42")]))
    );
    assert_eq!(
        pattern.prefix_match("/users/42"),
        Some(("/users/42".to_string(), vec![pair("id", "42")]))
    );
    assert_eq!(pattern.prefix_match("/user/42"), None);
    assert_eq!(PathPattern::new("/").prefix_match("/anything"), Some(("/".to_string(), vec![])));
}

#[test]
fn a_match_says_whether_it_is_of_the_whole_path() {
    let pattern = PathPattern::new("/a/:b");
    assert_eq!(
        pattern.do_match("/a/c"),
        Some(Match { captures: vec![pair("b", "c")], full_match: true, matched: "/a/c".to_string() })
    );
    assert_eq!(
        pattern.do_match("/a/c/d"),
        Some(Match {
            captures: vec![pair("b", "c")],
            full_match: false,
            matched: "/a/c".to_string()
        })
    );
    assert_eq!(pattern.do_match("/b"), None);
}

#[test]
fn parameters_are_added_behind_those_already_there() {
    assert_eq!(
        insert_url_params(None, vec![pair("a", "1")]),
        UrlParams(vec![pair("a", "1")])
    );
    assert_eq!(
        insert_url_params(Some(UrlParams(vec![pair("a", "1")])), vec![pair("b", "2")]),
        UrlParams(vec![pair("a", "1"), pair("b", "2")])
    );
    assert_eq!(insert_url_params(Some(UrlParams(vec![])), vec![]), UrlParams(vec![]));
}

#[test]
fn a_new_router_answers_not_found() {
    let router = Router::new();
    assert_eq!(router.svc().code(), 404);
    assert_eq!(router.into_make_service().service().code(), 404);
    assert_eq!(NOT_FOUND, 404);
    assert_eq!(METHOD_NOT_ALLOWED, 405);
}

#[test]
fn a_route_sends_matching_paths_to_its_service() {
    let router = Router::new().route("/users/:id", "users");
    let route = router.svc();
    assert_eq!(route.svc, "users");
    assert_eq!(route.fallback.code(), 404);
    assert_eq!(
        route.call("/users/7", None),
        Routed::Service(UrlParams(vec![pair("id", "7")]))
    );
    assert_eq!(
        route.call("/users/7", Some(UrlParams(vec![pair("org", "acme")]))),
        Routed::Service(UrlParams(vec![pair("org", "acme"), pair("id", "7")]))
    );
    assert_eq!(route.call("/users/7/x", None), Routed::Fallback(None));
    let carried = Some(UrlParams(vec![pair("org", "acme")]));
    assert_eq!(route.call("/nowhere", carried), Routed::Fallback(Some(UrlParams(vec![pair("org", "acme")]))));
}

#[test]
fn routes_are_tried_newest_first() {
    let router = Router::new().route("/a", 1).route("/b", 2);
    let newest = router.svc();
    assert_eq!(newest.svc, 2);
    assert_eq!(newest.fallback.svc, 1);
    assert_eq!(newest.call("/a", None), Routed::Fallback(None));
    assert_eq!(newest.fallback.call("/a", None), Routed::Service(UrlParams(vec![])));
}

#[test]
fn a_path_that_is_no_pattern_leaves_the_router_as_it_was() {
    match Router::new().try_route("no-slash", "svc") {
        Err((router, svc)) => {
            assert_eq!(svc, "svc");
            assert_eq!(router.svc().code(), 404);
        }
        Ok(_) => panic!("a path without a slash was accepted"),
    }
    assert!(Router::new().try_route("/ok", "svc").is_ok());
}

#[test]
fn map_replaces_the_service() {
    let router = Router::new().map(|empty: EmptyRouter| (empty.code(), "wrapped"));
    assert_eq!(*router.svc(), (404, "wrapped"));
}

#[test]
fn an_empty_router_answers_with_its_status_and_hands_the_request_back() {
    let mut router = EmptyRouter::not_found();
    let response = router.call("request", false);
    assert_eq!(response.status, 404);
    assert!(!response.no_method_match);
    assert_eq!(response.from_empty_router, FromEmptyRouter { request: "request" });
    assert_eq!(router.code(), 404);
}

#[test]
fn method_not_allowed_marks_the_request() {
    let mut router = EmptyRouter::method_not_allowed();
    let response = router.call((), false);
    assert_eq!(response.status, 405);
    assert!(response.no_method_match);
    assert_eq!(router.code(), 405);
}

#[test]
fn not_found_turns_into_method_not_allowed_for_a_marked_request_and_stays_so() {
    let mut router = EmptyRouter::not_found();
    let response = router.call((), true);
    assert_eq!(response.status, 405);
    assert!(response.no_method_match);
    assert_eq!(router.code(), 405);
    let response = router.call((), false);
    assert_eq!(response.status, 405);
    assert!(response.no_method_match);
}

#[test]
fn a_filter_holds_what_was_put_into_it() {
    for m in METHODS {
        assert!(!MethodFilter::empty().matches(m));
        assert_eq!(MethodFilter::all().matches(m), m != Method::Other);
        for n in METHODS {
            assert_eq!(MethodFilter::only(m).matches(n), m == n && m != Method::Other);
        }
    }
    let both = MethodFilter::only(Method::Get).or(MethodFilter::only(Method::Put));
    for m in METHODS {
        assert_eq!(both.matches(m), m == Method::Get || m == Method::Put);
    }
}

#[test]
fn get_answers_get_and_head() {
    let chain = get("handler");
    assert_eq!(chain.handler, "handler");
    assert_eq!(chain.fallback.code(), 405);
    for m in METHODS {
        let expected = if m == Method::Get || m == Method::Head {
            Chosen::Handler
        } else {
            Chosen::Fallback
        };
        assert_eq!(chain.call(m), expected);
    }
    for m in METHODS {
        assert_eq!(post(()).call(m) == Chosen::Handler, m == Method::Post);
    }
}

#[test]
fn a_chain_asks_the_handler_added_last_first() {
    let chain = on(MethodFilter::only(Method::Get), "first").any("second");
    assert_eq!(chain.handler, "second");
    assert_eq!(chain.fallback.handler, "first");
    assert_eq!(chain.call(Method::Get), Chosen::Handler);
    assert_eq!(chain.call(Method::Other), Chosen::Fallback);
    assert_eq!(chain.fallback.call(Method::Get), Chosen::Handler);
    assert_eq!(chain.fallback.call(Method::Put), Chosen::Fallback);
}

#[test]
fn each_builder_answers_its_method() {
    let base = || on(MethodFilter::empty(), ());
    let chosen = |f: &dyn Fn(Method) -> Chosen| -> Vec<Method> {
        METHODS.iter().copied().filter(|m| f(*m) == Chosen::Handler).collect()
    };
    assert_eq!(chosen(&|m| base().connect(()).call(m)), vec![Method::Connect]);
    assert_eq!(chosen(&|m| base().delete(()).call(m)), vec![Method::Delete]);
    assert_eq!(chosen(&|m| base().get(()).call(m)), vec![Method::Get, Method::Head]);
    assert_eq!(chosen(&|m| base().head(()).call(m)), vec![Method::Head]);
    assert_eq!(chosen(&|m| base().options(()).call(m)), vec![Method::Options]);
    assert_eq!(chosen(&|m| base().patch(()).call(m)), vec![Method::Patch]);
    assert_eq!(chosen(&|m| base().post(()).call(m)), vec![Method::Post]);
    assert_eq!(chosen(&|m| base().put(()).call(m)), vec![Method::Put]);
    assert_eq!(chosen(&|m| base().trace(()).call(m)), vec![Method::Trace]);
    assert_eq!(chosen(&|m| base().call(m)), vec![]);
}

type Step = RouteStep<&'static str, u16, &'static str, i32>;

#[test]
fn a_route_answers_with_what_its_service_answers() {
    let route = RouteFuture::a("fallback");
    let step: Step = route.poll(Poll::Ready(Ok((200, None))));
    assert_eq!(step, RouteStep::Ready(Ok((200, None))));
    let route = RouteFuture::a("fallback");
    let step: Step = route.poll(Poll::Ready(Err(-1)));
    assert_eq!(step, RouteStep::Ready(Err(-1)));
    let route = RouteFuture::a("fallback");
    let step: Step = route.poll(Poll::Pending);
    assert_eq!(step, RouteStep::Pending(RouteFuture::A { fallback: Some("fallback") }));
}

#[test]
fn a_request_that_was_not_routed_goes_to_the_fallback() {
    let route = RouteFuture::a("fallback");
    let unrouted = Some(FromEmptyRouter { request: "request" });
    let step: Step = route.poll(Poll::Ready(Ok((404, unrouted))));
    assert_eq!(step, RouteStep::Fallback { fallback: "fallback", request: "request" });
}

#[test]
fn the_answer_of_the_fallback_is_final() {
    let route: RouteFuture<&'static str> = RouteFuture::b();
    let unrouted = Some(FromEmptyRouter { request: "request" });
    let step: Step = route.poll(Poll::Ready(Ok((404, unrouted))));
    assert_eq!(
        step,
        RouteStep::Ready(Ok((404, Some(FromEmptyRouter { request: "request" }))))
    );
    let route: RouteFuture<&'static str> = RouteFuture::b();
    let step: Step = route.poll(Poll::Pending);
    assert_eq!(step, RouteStep::Pending(RouteFuture::B));
}

fn request() -> Request<&'static str, u8, Vec<u8>> {
    Request {
        method: Method::Post,
        uri: "/users?x=1".to_string(),
        version: Version::Http11,
        headers: "headers",
        extensions: 7,
        body: vec![1, 2, 3],
    }
}

#[test]
fn parts_that_were_not_touched_make_up_the_request_again() {
    let parts = RequestParts::new(request());
    assert_eq!(parts.method(), &Method::Post);
    assert_eq!(parts.uri(), "/users?x=1");
    assert_eq!(parts.version(), Version::Http11);
    assert_eq!(parts.headers(), Some(&"headers"));
    assert_eq!(parts.extensions(), Some(&7));
    assert_eq!(parts.body(), Some(&vec![1, 2, 3]));
    assert_eq!(parts.try_into_request(), Ok(request()));
}

#[test]
fn what_was_taken_is_gone() {
    let mut parts = RequestParts::new(request());
    assert_eq!(parts.take_headers(), Some("headers"));
    assert_eq!(parts.take_headers(), None);
    assert_eq!(parts.headers(), None);
    assert_eq!(parts.take_extensions(), Some(7));
    assert_eq!(parts.extensions(), None);
    assert_eq!(take_body(&mut parts), Ok(vec![1, 2, 3]));
    assert_eq!(take_body(&mut parts), Err(BodyAlreadyExtracted));
    assert_eq!(parts.body(), None);
    assert_eq!(parts.method(), &Method::Post);
}

#[test]
fn the_body_is_missed_before_the_headers_and_those_before_the_extensions() {
    let body = RequestAlreadyExtracted::BodyAlreadyExtracted(BodyAlreadyExtracted);
    let headers = RequestAlreadyExtracted::HeadersAlreadyExtracted(HeadersAlreadyExtracted);
    let extensions =
        RequestAlreadyExtracted::ExtensionsAlreadyExtracted(ExtensionsAlreadyExtracted);

    let mut parts = RequestParts::new(request());
    parts.take_extensions();
    assert_eq!(parts.try_into_request(), Err(extensions));

    let mut parts = RequestParts::new(request());
    parts.take_extensions();
    parts.take_headers();
    assert_eq!(parts.try_into_request(), Err(headers));

    let mut parts = RequestParts::new(request());
    parts.take_extensions();
    parts.take_headers();
    parts.take_body();
    assert_eq!(parts.try_into_request(), Err(body));

    let mut parts = RequestParts::new(request());
    parts.take_body();
    assert_eq!(parts.try_into_request(), Err(body));
}

#[test]
fn taking_the_request_leaves_method_target_and_version() {
    let mut parts = RequestParts::new(request());
    assert_eq!(parts.from_request(), Ok(request()));
    assert_eq!(parts.method(), &Method::Post);
    assert_eq!(parts.uri(), "/users?x=1");
    assert_eq!(parts.version(), Version::Http11);
    assert_eq!(parts.headers(), None);
    assert_eq!(parts.extensions(), None);
    assert_eq!(parts.body(), None);
    assert_eq!(
        parts.from_request(),
        Err(RequestAlreadyExtracted::BodyAlreadyExtracted(BodyAlreadyExtracted))
    );

    let mut parts = RequestParts::new(request());
    parts.take_headers();
    assert_eq!(
        parts.from_request(),
        Err(RequestAlreadyExtracted::HeadersAlreadyExtracted(HeadersAlreadyExtracted))
    );
    assert_eq!(parts.body(), None);
}

#[test]
fn a_content_type_matches_by_its_beginning() {
    let json = ContentType::Text("application/json; charset=utf-8".to_string());
    assert_eq!(has_content_type(Some(&json), "application/json"), Ok(true));
    assert_eq!(has_content_type(Some(&json), "application/json; charset=utf-8"), Ok(true));
    assert_eq!(has_content_type(Some(&json), ""), Ok(true));
    assert_eq!(has_content_type(Some(&json), "application/x-www-form-urlencoded"), Ok(false));
    assert_eq!(has_content_type(Some(&json), "pplication/json"), Ok(false));
    assert_eq!(
        has_content_type(Some(&json), "application/json; charset=utf-8 and more"),
        Ok(false)
    );
    assert_eq!(has_content_type(Some(&ContentType::Missing), "text"), Ok(false));
    assert_eq!(has_content_type(Some(&ContentType::Opaque), ""), Ok(false));
    assert_eq!(has_content_type(None, "text"), Err(HeadersAlreadyExtracted));
}

#[test]
fn plain_values_become_answers() {
    assert_eq!(().into_response(), Response { status: 200, content_type: None, body: vec![] });
    assert_eq!(
        "hi".into_response(),
        Response { status: 200, content_type: Some("text/plain"), body: b"hi".to_vec() }
    );
    assert_eq!(
        "gr\u{fc}n".to_string().into_response(),
        Response {
            status: 200,
            content_type: Some("text/plain"),
            body: vec![b'g', b'r', 0xc3, 0xbc, b'n']
        }
    );
    assert_eq!(
        vec![0u8, 255].into_response(),
        Response {
            status: 200,
            content_type: Some("application/octet-stream"),
            body: vec![0, 255]
        }
    );
    assert_eq!(404u16.into_response(), Response { status: 404, content_type: None, body: vec![] });
}

#[test]
fn a_status_replaces_the_status_of_the_value() {
    assert_eq!(
        (201u16, "made").into_response(),
        Response { status: 201, content_type: Some("text/plain"), body: b"made".to_vec() }
    );
    let nested = (500u16, (201u16, vec![1u8])).into_response();
    assert_eq!(nested.status, 500);
    assert_eq!(nested.content_type, Some("application/octet-stream"));
}

#[test]
fn a_result_answers_with_whichever_value_it_holds() {
    let ok: Result<&'static str, u16> = Ok("fine");
    assert_eq!(ok.into_response().status, 200);
    let err: Result<&'static str, u16> = Err(503);
    assert_eq!(err.into_response(), Response { status: 503, content_type: None, body: vec![] });
    let same = Response { status: 302, content_type: None, body: vec![9] };
    assert_eq!(
        same.into_response(),
        Response { status: 302, content_type: None, body: vec![9] }
    );
}

#[test]
fn the_body_of_a_request_is_a_string_if_it_is_utf8() {
    let ok: Result<Result<Vec<u8>, i32>, BodyAlreadyExtracted> = Ok(Ok(vec![b'h', b'i']));
    assert_eq!(string_from_request(ok), Ok("hi".to_string()));
    let umlaut: Result<Result<Vec<u8>, i32>, BodyAlreadyExtracted> = Ok(Ok(vec![0xc3, 0xbc]));
    assert_eq!(string_from_request(umlaut), Ok("\u{fc}".to_string()));
    let bad: Result<Result<Vec<u8>, i32>, BodyAlreadyExtracted> = Ok(Ok(vec![0xff, b'i']));
    assert_eq!(string_from_request(bad), Err(StringRejection::InvalidUtf8));
    let broken: Result<Result<Vec<u8>, i32>, BodyAlreadyExtracted> = Ok(Err(5));
    assert_eq!(string_from_request(broken), Err(StringRejection::FailedToBufferBody(5)));
    let gone: Result<Result<Vec<u8>, i32>, BodyAlreadyExtracted> = Err(BodyAlreadyExtracted);
    assert_eq!(
        string_from_request(gone),
        Err(StringRejection::BodyAlreadyExtracted(BodyAlreadyExtracted))
    );
}

#[test]
fn parts_can_be_changed_in_place() {
    let mut parts = RequestParts::new(request());
    *parts.method_mut() = Method::Put;
    parts.uri_mut().push_str("&y=2");
    *parts.version_mut() = Version::Http2;
    *parts.headers_mut().unwrap() = "other";
    *parts.extensions_mut().unwrap() = 8;
    parts.body_mut().unwrap().push(4);
    assert_eq!(
        parts.try_into_request(),
        Ok(Request {
            method: Method::Put,
            uri: "/users?x=1&y=2".to_string(),
            version: Version::Http2,
            headers: "other",
            extensions: 8,
            body: vec![1, 2, 3, 4],
        })
    );
    let mut parts = RequestParts::new(request());
    parts.take_headers();
    parts.take_extensions();
    parts.take_body();
    assert_eq!(parts.headers_mut(), None);
    assert_eq!(parts.extensions_mut(), None);
    assert_eq!(parts.body_mut(), None);
}

#[test]
fn a_match_is_made_of_the_text_found_and_the_groups_that_captured() {
    let groups: Vec<Group> = vec![
        ("a".to_string(), Some("1".to_string())),
        ("b".to_string(), None),
        ("c".to_string(), Some("3".to_string())),
    ];
    assert_eq!(
        PathPattern::matched("/x".to_string(), "/x/y", groups),
        Match {
            captures: vec![pair("a", "1"), pair("c", "3")],
            full_match: false,
            matched: "/x".to_string()
        }
    );
    assert_eq!(
        PathPattern::matched("/x/y".to_string(), "/x/y", vec![]),
        Match { captures: vec![], full_match: true, matched: "/x/y".to_string() }
    );
    let none: Vec<Group> = vec![("a".to_string(), None)];
    assert_eq!(
        PathPattern::matched(String::new(), "/", none),
        Match { captures: vec![], full_match: false, matched: String::new() }
    );
}

#[test]
fn two_patterns_of_the_same_text_are_the_same_pattern() {
    let a = PathPattern::new("/users/:id");
    let b = PathPattern::new("/users/:id");
    assert_eq!(a, b);
    assert_eq!(a.clone().full_match("/users/9"), b.full_match("/users/9"));
    assert_ne!(a, PathPattern::new("/users/:name"));
}
