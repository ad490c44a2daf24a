//! Properties of the request cycle as a whole, stated over the same spec
//! functions as the contracts of `route`, `begin` and `finish`.
use vstd::prelude::*;
use crate::backend::{
    auth_headers, call_view, list_url, listing_ok, movies_url, success, write_headers, BackendMethod,
    Upstream, MOVIE_LIMIT,
};
use crate::config::Config;
use crate::handlers::{
    begin_spec, finish_spec, response, BodyView, Pending, StepView, NOT_FOUND_HTML,
};
use crate::movie::{Movie, MovieInput};
use crate::router::{is_segment, route_of, Route};
use crate::text::nat_digits;

verus! {

/// The endpoints of the table: a method and a path that some route serves.
pub open spec fn in_table(method: Seq<char>, path: Seq<char>) -> bool {
    (method == "GET"@ && (path == "/"@ || path == "/about"@ || path == "/movies"@
        || path == "/movies.json"@ || path == "/api"@))
    || (method == "POST"@ && path == "/movies"@)
    || ((method == "PUT"@ || method == "DELETE"@) && "/movies/"@.is_prefix_of(path)
        && is_segment(path.skip(8)))
}

/// A request whose method and path match no endpoint is answered at once,
/// with 404 and the static not-found page, and nothing is sent to the
/// backend.
pub proof fn law_unmatched_is_not_found(
    cfg: Config,
    method: Seq<char>,
    path: Seq<char>,
    payload: Option<MovieInput>,
)
    requires
        !in_table(method, path),
    ensures
        route_of(method, path) == Route::NotFound,
        begin_spec(cfg, route_of(method, path), payload) == StepView::Respond(
            response(404, BodyView::Html(NOT_FOUND_HTML@)),
        ),
{
}

/// A create or update whose body did not decode is refused with 400 before
/// any backend call.
pub proof fn law_malformed_body_is_refused(cfg: Config, id: i32)
    ensures
        begin_spec(cfg, Route::CreateMovie, None) matches StepView::Respond(r) && r.status == 400,
        begin_spec(cfg, Route::UpdateMovie(id), None) matches StepView::Respond(r)
            && r.status == 400,
{
}

/// A create sends the client's fields as they are, without an identifier,
/// and on success answers with the row that the backend wrote, unchanged.
pub proof fn law_create_echoes_written_row(
    cfg: Config,
    input: MovieInput,
    status: u16,
    text: Option<String>,
    rows: Vec<Movie>,
)
    requires
        success(status),
        rows@.len() > 0,
    ensures
        begin_spec(cfg, Route::CreateMovie, Some(input)) == StepView::Call(
            call_view(
                BackendMethod::Post,
                movies_url(cfg.base_url_view()),
                write_headers(cfg.key_view()),
                Some(input),
            ),
            Pending::Create,
        ),
        finish_spec(Pending::Create, Upstream::Answered { status, text, rows: Some(rows) })
            == response(200, BodyView::Record(rows@[0])),
{
}

/// A create answers with the identifier that the backend assigned: when the
/// written row's identifier is not among those the backend held before, the
/// record in the response carries that new identifier.
pub proof fn law_created_id_is_new(
    held: Set<i32>,
    status: u16,
    text: Option<String>,
    rows: Vec<Movie>,
)
    requires
        success(status),
        rows@.len() > 0,
        !held.contains(rows@[0].id),
    ensures
        finish_spec(Pending::Create, Upstream::Answered { status, text, rows: Some(rows) }).body
            matches BodyView::Record(m) && !held.contains(m.id) && m.id == rows@[0].id,
{
}

/// An update of an identifier that the backend does not hold (a successful
/// answer with no row) is answered with 404; a delete that the backend
/// accepts is answered with 204 and no body, whether or not a row was
/// removed.
pub proof fn law_missing_id(id: i32, status: u16, text: Option<String>, rows: Vec<Movie>)
    requires
        success(status),
    ensures
        rows@.len() == 0 ==> finish_spec(
            Pending::Update(id),
            Upstream::Answered { status, text, rows: Some(rows) },
        ).status == 404,
        finish_spec(Pending::Delete(id), Upstream::Answered { status, text, rows: Some(rows) })
            == response(204, BodyView::Empty),
        finish_spec(Pending::Delete(id), Upstream::Answered { status, text, rows: None })
            == response(204, BodyView::Empty),
{
}

/// The listing asks the backend for at most 100 records, newest identifier
/// first. It answers with at most 100 records whose identifiers strictly
/// decrease: the rows that came back when they are such a listing, in their
/// order, and 500 with no body when they are not.
pub proof fn law_listing_is_bounded_and_ordered(
    cfg: Config,
    payload: Option<MovieInput>,
    status: u16,
    text: Option<String>,
    rows: Vec<Movie>,
)
    ensures
        MOVIE_LIMIT == 100,
        list_url(cfg.base_url_view(), MOVIE_LIMIT as nat) == movies_url(cfg.base_url_view())
            + "?select=*&limit=100&order=id.desc"@,
        begin_spec(cfg, Route::MoviesJson, payload) == StepView::Call(
            call_view(
                BackendMethod::Get,
                list_url(cfg.base_url_view(), MOVIE_LIMIT as nat),
                auth_headers(cfg.key_view()),
                None,
            ),
            Pending::List,
        ),
        listing_ok(rows@) ==> finish_spec(
            Pending::List,
            Upstream::Answered { status, text, rows: Some(rows) },
        ) == response(200, BodyView::Records(rows@)),
        !listing_ok(rows@) ==> finish_spec(
            Pending::List,
            Upstream::Answered { status, text, rows: Some(rows) },
        ) == response(500, BodyView::Empty),
        forall|reply: Upstream|
            #[trigger] finish_spec(Pending::List, reply).body matches BodyView::Records(v) ==> (
            v.len() <= 100 && forall|i: int, j: int|
                0 <= i < j < v.len() ==> #[trigger] v[i].id > #[trigger] v[j].id),
{
    reveal_strlit("?select=*&limit=");
    reveal_strlit("&order=id.desc");
    reveal_strlit("?select=*&limit=100&order=id.desc");
    assert(nat_digits(1) == seq!['1']);
    assert(nat_digits(10) == seq!['1', '0']);
    assert(nat_digits(100) =~= seq!['1', '0', '0']);
    let base = cfg.base_url_view();
    assert(list_url(base, 100) =~= movies_url(base) + "?select=*&limit=100&order=id.desc"@);
}

} // verus!
