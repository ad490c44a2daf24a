use dbconnect::backend::{create_result, delete_result, is_success, list_result, update_result};
use dbconnect::{
    api_info, begin, finish, parse_id, route, BackendError, BackendMethod, Body, Config,
    ConfigError, Movie, MovieInput, Page, Pending, Route, Step, Upstream, NOT_FOUND_HTML,
};

fn config() -> Config {
    Config::new(Some("https://db.example.test".to_string()), Some("k3y".to_string())).unwrap()
}

fn dune_input() -> MovieInput {
    MovieInput { title: "Dune".to_string(), tagline: None, popularity_bits: None, release_date: None }
}

fn dune(id: i32) -> Movie {
    Movie { id, title: "Dune".to_string(), tagline: None, popularity_bits: None, release_date: None }
}

fn answered(status: u16, text: Option<&str>, rows: Option<Vec<Movie>>) -> Upstream {
    Upstream::Answered { status, text: text.map(|t| t.to_string()), rows }
}

fn headers(pairs: &[(&str, &str)]) -> Vec<(String, String)> {
    pairs.iter().map(|(n, v)| (n.to_string(), v.to_string())).collect()
}

fn expect_call(step: Step) -> (dbconnect::BackendCall, Pending) {
    match step {
        Step::Call(c, p) => (c, p),
        Step::Respond(r) => panic!("expected a backend call, got a response with status {}", r.status),
    }
}

fn expect_response(step: Step) -> dbconnect::HttpResponse {
    match step {
        Step::Respond(r) => r,
        Step::Call(c, _) => panic!("expected a response, got a call to {}", c.url),
    }
}

#[test]
fn routes_of_the_table() {
    assert_eq!(route("GET", "/"), Route::MoviesPage);
    assert_eq!(route("GET", "/about"), Route::About);
    assert_eq!(route("GET", "/movies"), Route::Index);
    assert_eq!(route("POST", "/movies"), Route::CreateMovie);
    assert_eq!(route("GET", "/movies.json"), Route::MoviesJson);
    assert_eq!(route("GET", "/api"), Route::ApiInfo);
    assert_eq!(route("PUT", "/movies/7"), Route::UpdateMovie(7));
    assert_eq!(route("DELETE", "/movies/-3"), Route::DeleteMovie(-3));
    assert_eq!(route("PUT", "/movies/abc"), Route::BadId);
    assert_eq!(route("DELETE", "/movies/99999999999"), Route::BadId);
}

#[test]
fn unmatched_requests_get_the_not_found_page() {
    let cfg = config();
    for (m, p) in [("GET", "/nonexistent"), ("POST", "/movies/1"), ("PATCH", "/movies")] {
        let r = route(m, p);
        assert_eq!(r, Route::NotFound);
        let resp = expect_response(begin(&cfg, r, None));
        assert_eq!(resp.status, 404);
        match resp.body {
            Body::Html(h) => assert_eq!(h, NOT_FOUND_HTML),
            other => panic!("unexpected body {:?}", other),
        }
    }
    assert_eq!(route("PUT", "/movies/"), Route::NotFound);
    assert_eq!(route("PUT", "/movies/7/x"), Route::NotFound);
    assert_eq!(route("GET", "/movies/7"), Route::NotFound);
    assert_eq!(route("", ""), Route::NotFound);
}

#[test]
fn ids_parse_as_i32() {
    assert_eq!(parse_id("0"), Some(0));
    assert_eq!(parse_id("+12"), Some(12));
    assert_eq!(parse_id("-12"), Some(-12));
    assert_eq!(parse_id("007"), Some(7));
    assert_eq!(parse_id("2147483647"), Some(i32::MAX));
    assert_eq!(parse_id("-2147483648"), Some(i32::MIN));
    assert_eq!(parse_id("2147483648"), None);
    assert_eq!(parse_id("-2147483649"), None);
    assert_eq!(parse_id("123456789012345678901234567890"), None);
    assert_eq!(parse_id(""), None);
    assert_eq!(parse_id("-"), None);
    assert_eq!(parse_id("+"), None);
    assert_eq!(parse_id("1a"), None);
    assert_eq!(parse_id(" 1"), None);
}

#[test]
fn config_requires_both_values_and_a_sendable_key() {
    assert_eq!(Config::new(None, Some("k".to_string())).err(), Some(ConfigError::MissingBaseUrl));
    assert_eq!(Config::new(Some("u".to_string()), None).err(), Some(ConfigError::MissingKey));
    assert_eq!(
        Config::new(Some("u".to_string()), Some("bad\nkey".to_string())).err(),
        Some(ConfigError::InvalidKey)
    );
    let cfg = Config::new(Some("u".to_string()), Some("tab\tand é".to_string())).unwrap();
    assert_eq!(cfg.base_url(), "u");
    assert_eq!(cfg.key(), "tab\tand é");
}

#[test]
fn listing_asks_for_the_newest_hundred() {
    let (call, pending) = expect_call(begin(&config(), Route::MoviesJson, None));
    assert_eq!(pending, Pending::List);
    assert_eq!(call.method, BackendMethod::Get);
    assert_eq!(
        call.url,
        "https://db.example.test/rest/v1/movies?select=*&limit=100&order=id.desc"
    );
    assert_eq!(call.headers, headers(&[("apikey", "k3y"), ("Authorization", "Bearer k3y")]));
    assert!(call.payload.is_none());
}

#[test]
fn listing_answers_with_the_rows_in_order() {
    let rows = vec![dune(9), dune(4), dune(1)];
    let resp = finish(Pending::List, answered(200, None, Some(rows.clone())));
    assert_eq!(resp.status, 200);
    match resp.body {
        Body::Records(v) => assert_eq!(v, rows),
        other => panic!("unexpected body {:?}", other),
    }
    let failed = finish(Pending::List, answered(200, Some("oops"), None));
    assert_eq!(failed.status, 500);
    assert!(matches!(failed.body, Body::Empty));
    let unreachable = finish(Pending::List, Upstream::Unreachable);
    assert_eq!(unreachable.status, 500);
}

#[test]
fn create_sends_the_fields_with_write_headers() {
    let (call, pending) = expect_call(begin(&config(), Route::CreateMovie, Some(dune_input())));
    assert_eq!(pending, Pending::Create);
    assert_eq!(call.method, BackendMethod::Post);
    assert_eq!(call.url, "https://db.example.test/rest/v1/movies");
    assert_eq!(
        call.headers,
        headers(&[
            ("apikey", "k3y"),
            ("Authorization", "Bearer k3y"),
            ("Content-Type", "application/json"),
            ("Prefer", "return=representation"),
        ])
    );
    assert_eq!(call.payload, Some(dune_input()));
}

#[test]
fn malformed_body_is_refused_without_a_call() {
    let cfg = config();
    let resp = expect_response(begin(&cfg, Route::CreateMovie, None));
    assert_eq!(resp.status, 400);
    let resp = expect_response(begin(&cfg, Route::UpdateMovie(3), None));
    assert_eq!(resp.status, 400);
    let resp = expect_response(begin(&cfg, Route::BadId, Some(dune_input())));
    assert_eq!(resp.status, 400);
}

#[test]
fn create_of_dune_echoes_the_written_row() {
    let (_, pending) = expect_call(begin(&config(), Route::CreateMovie, Some(dune_input())));
    let resp = finish(pending, answered(201, None, Some(vec![dune(7)])));
    assert_eq!(resp.status, 200);
    match resp.body {
        Body::Record(m) => assert_eq!(m, dune(7)),
        other => panic!("unexpected body {:?}", other),
    }
}

#[test]
fn create_failures_map_to_status_codes() {
    let rejected = finish(Pending::Create, answered(409, Some("duplicate key"), None));
    assert_eq!(rejected.status, 400);
    match rejected.body {
        Body::Text(t) => assert_eq!(t, "duplicate key"),
        other => panic!("unexpected body {:?}", other),
    }
    let unknown = finish(Pending::Create, answered(500, None, None));
    assert_eq!(unknown.status, 400);
    match unknown.body {
        Body::Text(t) => assert_eq!(t, "Unknown error"),
        other => panic!("unexpected body {:?}", other),
    }
    let empty = finish(Pending::Create, answered(201, None, Some(vec![])));
    assert_eq!(empty.status, 500);
    match empty.body {
        Body::Text(t) => assert_eq!(t, "No movie returned"),
        other => panic!("unexpected body {:?}", other),
    }
    assert_eq!(finish(Pending::Create, answered(201, Some("[{"), None)).status, 500);
    assert_eq!(finish(Pending::Create, Upstream::Unreachable).status, 500);
}

#[test]
fn update_targets_the_row_by_id() {
    let (call, pending) = expect_call(begin(&config(), Route::UpdateMovie(-42), Some(dune_input())));
    assert_eq!(pending, Pending::Update(-42));
    assert_eq!(call.method, BackendMethod::Patch);
    assert_eq!(call.url, "https://db.example.test/rest/v1/movies?id=eq.-42");
    assert_eq!(call.headers.len(), 4);
    assert_eq!(call.payload, Some(dune_input()));
    let (call, _) = expect_call(begin(&config(), Route::UpdateMovie(i32::MIN), Some(dune_input())));
    assert_eq!(call.url, "https://db.example.test/rest/v1/movies?id=eq.-2147483648");
}

#[test]
fn update_of_missing_id_is_not_found() {
    let route = route("PUT", "/movies/999");
    let (_, pending) = expect_call(begin(&config(), route, Some(dune_input())));
    let resp = finish(pending, answered(200, Some("[]"), Some(vec![])));
    assert_eq!(resp.status, 404);
    match resp.body {
        Body::Text(t) => assert_eq!(t, "Movie not found"),
        other => panic!("unexpected body {:?}", other),
    }
    let ok = finish(Pending::Update(999), answered(200, None, Some(vec![dune(999), dune(1)])));
    assert_eq!(ok.status, 200);
    assert!(matches!(ok.body, Body::Record(m) if m == dune(999)));
}

#[test]
fn delete_of_seven_is_no_content() {
    let route = route("DELETE", "/movies/7");
    let (call, pending) = expect_call(begin(&config(), route, None));
    assert_eq!(call.method, BackendMethod::Delete);
    assert_eq!(call.url, "https://db.example.test/rest/v1/movies?id=eq.7");
    assert_eq!(call.headers, headers(&[("apikey", "k3y"), ("Authorization", "Bearer k3y")]));
    assert!(call.payload.is_none());
    let resp = finish(pending, answered(204, Some(""), None));
    assert_eq!(resp.status, 204);
    assert!(matches!(resp.body, Body::Empty));
}

#[test]
fn delete_failures_map_to_status_codes() {
    let rejected = finish(Pending::Delete(1), answered(401, Some("bad key"), None));
    assert_eq!(rejected.status, 400);
    assert_eq!(finish(Pending::Delete(1), Upstream::Unreachable).status, 500);
}

#[test]
fn backend_outcomes_are_classified() {
    assert!(matches!(list_result(Upstream::Unreachable), Err(BackendError::Transport)));
    assert!(matches!(list_result(answered(200, None, None)), Err(BackendError::Decode)));
    assert!(matches!(
        create_result(answered(299, None, Some(vec![]))),
        Err(BackendError::EmptyResult)
    ));
    assert!(matches!(
        update_result(5, answered(200, None, Some(vec![]))),
        Err(BackendError::NotFound(5))
    ));
    assert!(matches!(
        create_result(answered(300, Some("moved"), Some(vec![dune(1)]))),
        Err(BackendError::Rejected { status: 300, body }) if body == "moved"
    ));
    assert!(matches!(delete_result(answered(199, None, None)), Err(BackendError::Rejected { .. })));
    assert!(delete_result(answered(200, None, None)).is_ok());
    assert!(is_success(200) && is_success(299));
    assert!(!is_success(199) && !is_success(300) && !is_success(404));
}

#[test]
fn static_pages_and_endpoint_list() {
    let cfg = config();
    for (r, p) in [(Route::MoviesPage, Page::Movies), (Route::Index, Page::Index), (Route::About, Page::About)] {
        let resp = expect_response(begin(&cfg, r, None));
        assert_eq!(resp.status, 200);
        assert!(matches!(resp.body, Body::Page(q) if q == p));
    }
    let resp = expect_response(begin(&cfg, Route::ApiInfo, None));
    assert_eq!(resp.status, 200);
    let info = api_info();
    assert_eq!(info.message, "Movie API Server");
    assert_eq!(
        info.endpoints,
        vec!["GET /movies", "GET /movies.json", "POST /movies", "PUT /movies/:id", "DELETE /movies/:id", "/about"]
    );
    assert!(matches!(resp.body, Body::Api(a) if a == info));
}

#[test]
fn listing_longer_than_the_limit_is_refused() {
    let rows: Vec<Movie> = (0..101).rev().map(dune).collect();
    assert!(matches!(list_result(answered(200, None, Some(rows.clone()))), Err(BackendError::Unordered)));
    let resp = finish(Pending::List, answered(200, None, Some(rows)));
    assert_eq!(resp.status, 500);
    assert!(matches!(resp.body, Body::Empty));
    let hundred: Vec<Movie> = (1..101).rev().map(dune).collect();
    let resp = finish(Pending::List, answered(200, None, Some(hundred.clone())));
    assert_eq!(resp.status, 200);
    assert!(matches!(resp.body, Body::Records(v) if v == hundred));
}

#[test]
fn listing_out_of_order_is_refused() {
    let ascending = finish(Pending::List, answered(200, None, Some(vec![dune(1), dune(2)])));
    assert_eq!(ascending.status, 500);
    let repeated = finish(Pending::List, answered(200, None, Some(vec![dune(5), dune(5)])));
    assert_eq!(repeated.status, 500);
    assert!(matches!(
        list_result(answered(200, None, Some(vec![dune(3), dune(9), dune(1)]))),
        Err(BackendError::Unordered)
    ));
    let empty = finish(Pending::List, answered(200, None, Some(vec![])));
    assert_eq!(empty.status, 200);
    assert!(matches!(empty.body, Body::Records(v) if v.is_empty()));
}

#[test]
fn escaped_ids_are_decoded() {
    assert_eq!(parse_id("%37"), Some(7));
    assert_eq!(parse_id("%2D5"), Some(-5));
    assert_eq!(parse_id("%2d1%30"), Some(-10));
    assert_eq!(parse_id("%3"), None);
    assert_eq!(parse_id("%zz1"), None);
    assert_eq!(parse_id("%E2%82%AC"), None);
    assert_eq!(parse_id("1%2F2"), None);
    assert_eq!(route("PUT", "/movies/%37"), Route::UpdateMovie(7));
    assert_eq!(route("DELETE", "/movies/%41"), Route::BadId);
}
