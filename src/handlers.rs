use vstd::prelude::*;
use crate::backend::{
    create_call, create_result, delete_call, delete_outcome, delete_result, list_call,
    list_outcome, list_result, row_outcome, update_call, update_result, BackendCall,
    BackendError, CallView, Failure, Upstream, MOVIE_LIMIT, auth_headers, call_view, list_url,
    movies_url, row_url, write_headers, BackendMethod,
};
use crate::config::Config;
use crate::movie::{Movie, MovieInput};
use crate::router::Route;

verus! {

/// The body of the page served when no route matches.
pub const NOT_FOUND_HTML: &'static str = "\n            <!doctype html>\n            <html lang=\"en\">\n            <head><meta charset=\"utf-8\"><title>Not Found</title></head>\n            <body><h1>404 Not Found</h1></body>\n            </html>\n            ";

/// A static HTML page that the host serves verbatim.
#[derive(Clone, Copy, Debug, PartialEq, Eq, Structural)]
pub enum Page {
    Movies,
    Index,
    About,
}

/// The description of the endpoints served under `/api`.
#[derive(Clone, Debug, PartialEq)]
pub struct ApiInfo {
    pub message: String,
    pub endpoints: Vec<String>,
}

/// The body of an HTTP response; the host encodes records and the endpoint
/// description as JSON.
#[derive(Debug)]
pub enum Body {
    Empty,
    Text(String),
    Html(String),
    Page(Page),
    Record(Movie),
    Records(Vec<Movie>),
    Api(ApiInfo),
}

#[derive(Debug)]
pub struct HttpResponse {
    pub status: u16,
    pub body: Body,
}

pub enum BodyView {
    Empty,
    Text(Seq<char>),
    Html(Seq<char>),
    Page(Page),
    Record(Movie),
    Records(Seq<Movie>),
    Api(Seq<char>, Seq<Seq<char>>),
}

pub struct ResponseView {
    pub status: u16,
    pub body: BodyView,
}

impl View for Body {
    type V = BodyView;

    open spec fn view(&self) -> BodyView {
        match self {
            Body::Empty => BodyView::Empty,
            Body::Text(t) => BodyView::Text(t@),
            Body::Html(t) => BodyView::Html(t@),
            Body::Page(p) => BodyView::Page(*p),
            Body::Record(m) => BodyView::Record(*m),
            Body::Records(v) => BodyView::Records(v@),
            Body::Api(a) => BodyView::Api(
                a.message@,
                a.endpoints@.map_values(|e: String| e@),
            ),
        }
    }
}

impl View for HttpResponse {
    type V = ResponseView;

    open spec fn view(&self) -> ResponseView {
        ResponseView { status: self.status, body: self.body@ }
    }
}

/// Which backend operation a call stands for, so that its outcome can be
/// mapped to the response.
#[derive(Clone, Copy, Debug, PartialEq, Eq, Structural)]
pub enum Pending {
    List,
    Create,
    Update(i32),
    Delete(i32),
}

/// What to do next with a request: answer it, or make one backend call and
/// hand its outcome to `finish`.
#[derive(Debug)]
pub enum Step {
    Respond(HttpResponse),
    Call(BackendCall, Pending),
}

pub enum StepView {
    Respond(ResponseView),
    Call(CallView, Pending),
}

impl View for Step {
    type V = StepView;

    open spec fn view(&self) -> StepView {
        match self {
            Step::Respond(r) => StepView::Respond(r@),
            Step::Call(c, p) => StepView::Call(c@, *p),
        }
    }
}

pub open spec fn response(status: u16, body: BodyView) -> ResponseView {
    ResponseView { status, body }
}

pub open spec fn api_message() -> Seq<char> {
    "Movie API Server"@
}

pub open spec fn api_endpoints() -> Seq<Seq<char>> {
    seq![
        "GET /movies"@,
        "GET /movies.json"@,
        "POST /movies"@,
        "PUT /movies/:id"@,
        "DELETE /movies/:id"@,
        "/about"@,
    ]
}

/// The answer to a request that needs no backend call; a body that did not
/// decode is refused before any call.
pub open spec fn begin_spec(cfg: Config, route: Route, payload: Option<MovieInput>) -> StepView {
    match route {
        Route::MoviesPage => StepView::Respond(response(200, BodyView::Page(Page::Movies))),
        Route::Index => StepView::Respond(response(200, BodyView::Page(Page::Index))),
        Route::About => StepView::Respond(response(200, BodyView::Page(Page::About))),
        Route::ApiInfo => StepView::Respond(
            response(200, BodyView::Api(api_message(), api_endpoints())),
        ),
        Route::NotFound => StepView::Respond(response(404, BodyView::Html(NOT_FOUND_HTML@))),
        Route::BadId => StepView::Respond(response(400, BodyView::Text(bad_id_text()))),
        Route::MoviesJson => StepView::Call(
            call_view(
                BackendMethod::Get,
                list_url(cfg.base_url_view(), MOVIE_LIMIT as nat),
                auth_headers(cfg.key_view()),
                None,
            ),
            Pending::List,
        ),
        Route::CreateMovie => match payload {
            None => StepView::Respond(response(400, BodyView::Text(bad_body_text()))),
            Some(input) => StepView::Call(
                call_view(
                    BackendMethod::Post,
                    movies_url(cfg.base_url_view()),
                    write_headers(cfg.key_view()),
                    Some(input),
                ),
                Pending::Create,
            ),
        },
        Route::UpdateMovie(id) => match payload {
            None => StepView::Respond(response(400, BodyView::Text(bad_body_text()))),
            Some(input) => StepView::Call(
                call_view(
                    BackendMethod::Patch,
                    row_url(cfg.base_url_view(), id as int),
                    write_headers(cfg.key_view()),
                    Some(input),
                ),
                Pending::Update(id),
            ),
        },
        Route::DeleteMovie(id) => StepView::Call(
            call_view(
                BackendMethod::Delete,
                row_url(cfg.base_url_view(), id as int),
                auth_headers(cfg.key_view()),
                None,
            ),
            Pending::Delete(id),
        ),
    }
}

pub open spec fn bad_id_text() -> Seq<char> {
    "Invalid URL: the movie id is not an integer"@
}

pub open spec fn bad_body_text() -> Seq<char> {
    "Failed to parse the request body as JSON"@
}

/// The response for a failed backend operation.
pub open spec fn error_response(f: Failure) -> ResponseView {
    match f {
        Failure::Transport => response(500, BodyView::Text("Backend request failed"@)),
        Failure::Decode => response(
            500,
            BodyView::Text("Backend response could not be decoded"@),
        ),
        Failure::Rejected(_, text) => response(400, BodyView::Text(text)),
        Failure::NotFound(_) => response(404, BodyView::Text("Movie not found"@)),
        Failure::EmptyResult => response(500, BodyView::Text("No movie returned"@)),
        Failure::Unordered => response(
            500,
            BodyView::Text("Backend listing did not match the query"@),
        ),
    }
}

/// The response for the outcome of a backend call.
pub open spec fn finish_spec(pending: Pending, reply: Upstream) -> ResponseView {
    match pending {
        Pending::List => match list_outcome(reply) {
            Ok(rows) => response(200, BodyView::Records(rows)),
            Err(_) => response(500, BodyView::Empty),
        },
        Pending::Create => match row_outcome(reply, Failure::EmptyResult) {
            Ok(m) => response(200, BodyView::Record(m)),
            Err(f) => error_response(f),
        },
        Pending::Update(id) => match row_outcome(reply, Failure::NotFound(id)) {
            Ok(m) => response(200, BodyView::Record(m)),
            Err(f) => error_response(f),
        },
        Pending::Delete(_) => match delete_outcome(reply) {
            Ok(_) => response(204, BodyView::Empty),
            Err(f) => error_response(f),
        },
    }
}

fn text(status: u16, s: &str) -> (r: HttpResponse)
    ensures
        r@ == response(status, BodyView::Text(s@)),
{
    HttpResponse { status, body: Body::Text(String::from_str(s)) }
}

/// The description of the endpoints.
pub fn api_info() -> (r: ApiInfo)
    ensures
        r.message@ == api_message(),
        r.endpoints@.map_values(|e: String| e@) == api_endpoints(),
{
    let mut endpoints: Vec<String> = Vec::new();
    endpoints.push(String::from_str("GET /movies"));
    endpoints.push(String::from_str("GET /movies.json"));
    endpoints.push(String::from_str("POST /movies"));
    endpoints.push(String::from_str("PUT /movies/:id"));
    endpoints.push(String::from_str("DELETE /movies/:id"));
    endpoints.push(String::from_str("/about"));
    assert(endpoints@.map_values(|e: String| e@) =~= api_endpoints());
    ApiInfo { message: String::from_str("Movie API Server"), endpoints }
}

/// The response for a failed backend operation.
pub fn error_response_of(e: BackendError) -> (r: HttpResponse)
    ensures
        r@ == error_response(e@),
{
    match e {
        BackendError::Transport => text(500, "Backend request failed"),
        BackendError::Decode => text(500, "Backend response could not be decoded"),
        BackendError::Rejected { body, .. } => HttpResponse { status: 400, body: Body::Text(body) },
        BackendError::NotFound(_) => text(404, "Movie not found"),
        BackendError::EmptyResult => text(500, "No movie returned"),
        BackendError::Unordered => text(500, "Backend listing did not match the query"),
    }
}

/// Starts handling a request on `route`. `payload` is the request body
/// decoded as record fields, or `None` where it did not decode; only the
/// create and update routes read it.
pub fn begin(cfg: &Config, route: Route, payload: Option<MovieInput>) -> (r: Step)
    ensures
        r@ == begin_spec(*cfg, route, payload),
{
    match route {
        Route::MoviesPage => Step::Respond(HttpResponse { status: 200, body: Body::Page(Page::Movies) }),
        Route::Index => Step::Respond(HttpResponse { status: 200, body: Body::Page(Page::Index) }),
        Route::About => Step::Respond(HttpResponse { status: 200, body: Body::Page(Page::About) }),
        Route::ApiInfo => Step::Respond(HttpResponse { status: 200, body: Body::Api(api_info()) }),
        Route::NotFound => Step::Respond(
            HttpResponse { status: 404, body: Body::Html(String::from_str(NOT_FOUND_HTML)) },
        ),
        Route::BadId => Step::Respond(text(400, "Invalid URL: the movie id is not an integer")),
        Route::MoviesJson => Step::Call(list_call(cfg, MOVIE_LIMIT), Pending::List),
        Route::CreateMovie => match payload {
            None => Step::Respond(text(400, "Failed to parse the request body as JSON")),
            Some(input) => Step::Call(create_call(cfg, input), Pending::Create),
        },
        Route::UpdateMovie(id) => match payload {
            None => Step::Respond(text(400, "Failed to parse the request body as JSON")),
            Some(input) => Step::Call(update_call(cfg, id, input), Pending::Update(id)),
        },
        Route::DeleteMovie(id) => Step::Call(delete_call(cfg, id), Pending::Delete(id)),
    }
}

/// Ends handling a request: maps the outcome of its backend call to the
/// response.
pub fn finish(pending: Pending, reply: Upstream) -> (r: HttpResponse)
    ensures
        r@ == finish_spec(pending, reply),
{
    match pending {
        Pending::List => match list_result(reply) {
            Ok(rows) => HttpResponse { status: 200, body: Body::Records(rows) },
            Err(_) => HttpResponse { status: 500, body: Body::Empty },
        },
        Pending::Create => match create_result(reply) {
            Ok(m) => HttpResponse { status: 200, body: Body::Record(m) },
            Err(e) => error_response_of(e),
        },
        Pending::Update(id) => match update_result(id, reply) {
            Ok(m) => HttpResponse { status: 200, body: Body::Record(m) },
            Err(e) => error_response_of(e),
        },
        Pending::Delete(_) => match delete_result(reply) {
            Ok(_) => HttpResponse { status: 204, body: Body::Empty },
            Err(e) => error_response_of(e),
        },
    }
}

} // verus!
