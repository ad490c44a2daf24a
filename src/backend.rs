use vstd::prelude::*;
use crate::config::{bearer_header, bearer_of, Config};
use crate::movie::{Movie, MovieInput};
use crate::text::{decimal, nat_digits, push_decimal, push_nat};

verus! {

/// How many records the listing asks the backend for.
pub const MOVIE_LIMIT: u32 = 100;

/// The HTTP method of a backend call.
#[derive(Clone, Copy, Debug, PartialEq, Eq, Structural)]
pub enum BackendMethod {
    Get,
    Post,
    Patch,
    Delete,
}

/// One outbound REST call: the host sends it as it stands, with `payload`
/// encoded as the JSON body when there is one.
#[derive(Debug)]
pub struct BackendCall {
    pub method: BackendMethod,
    pub url: String,
    pub headers: Vec<(String, String)>,
    pub payload: Option<MovieInput>,
}

/// What a backend call is, as plain sequences.
pub struct CallView {
    pub method: BackendMethod,
    pub url: Seq<char>,
    pub headers: Seq<(Seq<char>, Seq<char>)>,
    pub payload: Option<MovieInput>,
}

impl View for BackendCall {
    type V = CallView;

    open spec fn view(&self) -> CallView {
        CallView {
            method: self.method,
            url: self.url@,
            headers: self.headers@.map_values(|h: (String, String)| (h.0@, h.1@)),
            payload: self.payload,
        }
    }
}

/// The address of the movies table.
pub open spec fn movies_url(base: Seq<char>) -> Seq<char> {
    base + "/rest/v1/movies"@
}

/// The newest `limit` records, by identifier descending.
pub open spec fn list_url(base: Seq<char>, limit: nat) -> Seq<char> {
    movies_url(base) + "?select=*&limit="@ + nat_digits(limit) + "&order=id.desc"@
}

/// The record whose identifier is `id`.
pub open spec fn row_url(base: Seq<char>, id: int) -> Seq<char> {
    movies_url(base) + "?id=eq."@ + decimal(id)
}

/// The two credential headers, both carrying the key.
pub open spec fn auth_headers(key: Seq<char>) -> Seq<(Seq<char>, Seq<char>)> {
    seq![("apikey"@, key), ("Authorization"@, bearer_of(key))]
}

/// The headers of a call that writes and wants the written row back.
pub open spec fn write_headers(key: Seq<char>) -> Seq<(Seq<char>, Seq<char>)> {
    auth_headers(key) + seq![
        ("Content-Type"@, "application/json"@),
        ("Prefer"@, "return=representation"@),
    ]
}

pub open spec fn call_view(
    method: BackendMethod,
    url: Seq<char>,
    headers: Seq<(Seq<char>, Seq<char>)>,
    payload: Option<MovieInput>,
) -> CallView {
    CallView { method, url, headers, payload }
}

fn auth_header_list(cfg: &Config) -> (r: Vec<(String, String)>)
    ensures
        r@.map_values(|h: (String, String)| (h.0@, h.1@)) == auth_headers(cfg.key_view()),
{
    let key = String::from_str(cfg.key());
    let bearer = bearer_header(&key);
    let mut r: Vec<(String, String)> = Vec::new();
    r.push((String::from_str("apikey"), key));
    r.push((String::from_str("Authorization"), bearer));
    assert(r@.map_values(|h: (String, String)| (h.0@, h.1@)) =~= auth_headers(cfg.key_view()));
    r
}

fn write_header_list(cfg: &Config) -> (r: Vec<(String, String)>)
    ensures
        r@.map_values(|h: (String, String)| (h.0@, h.1@)) == write_headers(cfg.key_view()),
{
    let mut r = auth_header_list(cfg);
    let ghost before = r@;
    r.push((String::from_str("Content-Type"), String::from_str("application/json")));
    r.push((String::from_str("Prefer"), String::from_str("return=representation")));
    proof {
        let f = |h: (String, String)| (h.0@, h.1@);
        let a = auth_headers(cfg.key_view());
        assert(before.map_values(f).len() == 2);
        assert(before.map_values(f)[0] == a[0]);
        assert(before.map_values(f)[1] == a[1]);
        assert(r@[0] == before[0] && r@[1] == before[1]);
        assert(r@.map_values(f) =~= write_headers(cfg.key_view()));
    }
    r
}

fn movies_url_string(cfg: &Config) -> (r: String)
    ensures
        r@ == movies_url(cfg.base_url_view()),
{
    String::from_str(cfg.base_url()).concat("/rest/v1/movies")
}

/// The call that lists the newest `limit` records.
pub fn list_call(cfg: &Config, limit: u32) -> (r: BackendCall)
    ensures
        r@ == call_view(
            BackendMethod::Get,
            list_url(cfg.base_url_view(), limit as nat),
            auth_headers(cfg.key_view()),
            None,
        ),
{
    let mut url = movies_url_string(cfg);
    url.append("?select=*&limit=");
    push_nat(&mut url, limit);
    url.append("&order=id.desc");
    BackendCall { method: BackendMethod::Get, url, headers: auth_header_list(cfg), payload: None }
}

/// The call that inserts a record and asks for the written row back.
pub fn create_call(cfg: &Config, input: MovieInput) -> (r: BackendCall)
    ensures
        r@ == call_view(
            BackendMethod::Post,
            movies_url(cfg.base_url_view()),
            write_headers(cfg.key_view()),
            Some(input),
        ),
{
    BackendCall {
        method: BackendMethod::Post,
        url: movies_url_string(cfg),
        headers: write_header_list(cfg),
        payload: Some(input),
    }
}

/// The call that overwrites the fields of the record `id` and asks for the
/// written row back.
pub fn update_call(cfg: &Config, id: i32, input: MovieInput) -> (r: BackendCall)
    ensures
        r@ == call_view(
            BackendMethod::Patch,
            row_url(cfg.base_url_view(), id as int),
            write_headers(cfg.key_view()),
            Some(input),
        ),
{
    let mut url = movies_url_string(cfg);
    url.append("?id=eq.");
    push_decimal(&mut url, id);
    BackendCall {
        method: BackendMethod::Patch,
        url,
        headers: write_header_list(cfg),
        payload: Some(input),
    }
}

/// The call that deletes the record `id`.
pub fn delete_call(cfg: &Config, id: i32) -> (r: BackendCall)
    ensures
        r@ == call_view(
            BackendMethod::Delete,
            row_url(cfg.base_url_view(), id as int),
            auth_headers(cfg.key_view()),
            None,
        ),
{
    let mut url = movies_url_string(cfg);
    url.append("?id=eq.");
    push_decimal(&mut url, id);
    BackendCall { method: BackendMethod::Delete, url, headers: auth_header_list(cfg), payload: None }
}

/// What came back from a backend call, as the host saw it.
#[derive(Debug)]
pub enum Upstream {
    /// The call did not complete: no connection could be made, or the
    /// request could not be sent or its answer read.
    Unreachable,
    /// The backend answered with `status`. `text` is the body as text, if it
    /// could be read; `rows` is the body decoded as a JSON array of records,
    /// if it decodes as one.
    Answered { status: u16, text: Option<String>, rows: Option<Vec<Movie>> },
}

/// Why a backend operation failed.
#[derive(Debug)]
pub enum BackendError {
    /// The call did not complete.
    Transport,
    /// The answer was not a JSON array of records.
    Decode,
    /// The backend answered with a status outside 200 to 299; `body` is its
    /// own error text.
    Rejected { status: u16, body: String },
    /// An update found no record with this identifier.
    NotFound(i32),
    /// A create returned no row.
    EmptyResult,
    /// A listing answered with more rows than asked for, or with
    /// identifiers that do not strictly decrease.
    Unordered,
}

/// A `BackendError` with its text as a sequence.
pub enum Failure {
    Transport,
    Decode,
    Rejected(u16, Seq<char>),
    NotFound(i32),
    EmptyResult,
    Unordered,
}

impl View for BackendError {
    type V = Failure;

    open spec fn view(&self) -> Failure {
        match self {
            BackendError::Transport => Failure::Transport,
            BackendError::Decode => Failure::Decode,
            BackendError::Rejected { status, body } => Failure::Rejected(*status, body@),
            BackendError::NotFound(id) => Failure::NotFound(*id),
            BackendError::EmptyResult => Failure::EmptyResult,
            BackendError::Unordered => Failure::Unordered,
        }
    }
}

/// A status code in the success class.
pub open spec fn success(status: u16) -> bool {
    200 <= status <= 299
}

/// Whether a status code is in the success class, 200 to 299, as
/// `StatusCode::is_success` of the http crate decides.
pub fn is_success(status: u16) -> (r: bool)
    ensures
        r == success(status),
{
    200 <= status && status <= 299
}

/// The error text passed on when the backend rejects a call.
pub open spec fn rejection_text(text: Option<String>) -> Seq<char> {
    match text {
        Some(t) => t@,
        None => "Unknown error"@,
    }
}

/// A listing as asked for: at most `MOVIE_LIMIT` rows, identifiers
/// strictly decreasing.
pub open spec fn listing_ok(rows: Seq<Movie>) -> bool {
    rows.len() <= MOVIE_LIMIT && forall|i: int, j: int|
        0 <= i < j < rows.len() ==> #[trigger] rows[i].id > #[trigger] rows[j].id
}

/// The outcome of listing, whatever the status: the decoded rows, when they
/// are a listing as asked for.
pub open spec fn list_outcome(reply: Upstream) -> Result<Seq<Movie>, Failure> {
    match reply {
        Upstream::Unreachable => Err(Failure::Transport),
        Upstream::Answered { rows, .. } => match rows {
            Some(v) => if listing_ok(v@) {
                Ok(v@)
            } else {
                Err(Failure::Unordered)
            },
            None => Err(Failure::Decode),
        },
    }
}

/// Whether rows are a listing as asked for.
pub fn is_listing(rows: &Vec<Movie>) -> (r: bool)
    ensures
        r == listing_ok(rows@),
{
    let n = rows.len();
    if n > MOVIE_LIMIT as usize {
        return false;
    }
    let mut k: usize = 0;
    while k + 1 < n
        invariant
            n == rows@.len(),
            n <= MOVIE_LIMIT,
            k <= n,
            forall|i: int, j: int|
                0 <= i < j <= k && j < n ==> #[trigger] rows@[i].id > #[trigger] rows@[j].id,
        decreases n - k,
    {
        if rows[k].id <= rows[k + 1].id {
            return false;
        }
        assert forall|i: int, j: int|
            0 <= i < j <= k + 1 && j < n implies #[trigger] rows@[i].id > #[trigger] rows@[j].id by {
            if j == k + 1 && i < k {
                assert(rows@[i].id > rows@[k as int].id);
            }
        }
        k = k + 1;
    }
    true
}

/// The outcome of a call that writes and returns the written row; `empty`
/// is the failure when no row came back.
pub open spec fn row_outcome(reply: Upstream, empty: Failure) -> Result<Movie, Failure> {
    match reply {
        Upstream::Unreachable => Err(Failure::Transport),
        Upstream::Answered { status, text, rows } => if !success(status) {
            Err(Failure::Rejected(status, rejection_text(text)))
        } else {
            match rows {
                None => Err(Failure::Decode),
                Some(v) => if v@.len() == 0 {
                    Err(empty)
                } else {
                    Ok(v@[0])
                },
            }
        },
    }
}

/// The outcome of a delete: only the status counts.
pub open spec fn delete_outcome(reply: Upstream) -> Result<(), Failure> {
    match reply {
        Upstream::Unreachable => Err(Failure::Transport),
        Upstream::Answered { status, text, .. } => if !success(status) {
            Err(Failure::Rejected(status, rejection_text(text)))
        } else {
            Ok(())
        },
    }
}

fn rejected(status: u16, text: Option<String>) -> (e: BackendError)
    ensures
        e@ == Failure::Rejected(status, rejection_text(text)),
{
    match text {
        Some(t) => BackendError::Rejected { status, body: t },
        None => BackendError::Rejected { status, body: String::from_str("Unknown error") },
    }
}

/// The records that a listing call brought back; a reply that is not a
/// listing as asked for is refused.
pub fn list_result(reply: Upstream) -> (r: Result<Vec<Movie>, BackendError>)
    ensures
        list_outcome(reply) == match r {
            Ok(v) => Ok(v@),
            Err(e) => Err::<Seq<Movie>, Failure>(e@),
        },
{
    match reply {
        Upstream::Unreachable => Err(BackendError::Transport),
        Upstream::Answered { rows, .. } => match rows {
            Some(v) => if is_listing(&v) {
                Ok(v)
            } else {
                Err(BackendError::Unordered)
            },
            None => Err(BackendError::Decode),
        },
    }
}

fn row_result(reply: Upstream, empty: BackendError) -> (r: Result<Movie, BackendError>)
    ensures
        row_outcome(reply, empty@) == match r {
            Ok(m) => Ok(m),
            Err(e) => Err::<Movie, Failure>(e@),
        },
{
    match reply {
        Upstream::Unreachable => Err(BackendError::Transport),
        Upstream::Answered { status, text, rows } => {
            if !is_success(status) {
                return Err(rejected(status, text));
            }
            match rows {
                None => Err(BackendError::Decode),
                Some(v) => {
                    if v.len() == 0 {
                        Err(empty)
                    } else {
                        let mut v = v;
                        Ok(v.swap_remove(0))
                    }
                },
            }
        },
    }
}

/// The record that a create call wrote: the first row returned.
pub fn create_result(reply: Upstream) -> (r: Result<Movie, BackendError>)
    ensures
        row_outcome(reply, Failure::EmptyResult) == match r {
            Ok(m) => Ok(m),
            Err(e) => Err::<Movie, Failure>(e@),
        },
{
    row_result(reply, BackendError::EmptyResult)
}

/// The record that an update of `id` wrote: the first row returned; no row
/// means that no record has this identifier.
pub fn update_result(id: i32, reply: Upstream) -> (r: Result<Movie, BackendError>)
    ensures
        row_outcome(reply, Failure::NotFound(id)) == match r {
            Ok(m) => Ok(m),
            Err(e) => Err::<Movie, Failure>(e@),
        },
{
    row_result(reply, BackendError::NotFound(id))
}

/// Whether a delete call went through.
pub fn delete_result(reply: Upstream) -> (r: Result<(), BackendError>)
    ensures
        delete_outcome(reply) == match r {
            Ok(u) => Ok(u),
            Err(e) => Err::<(), Failure>(e@),
        },
{
    match reply {
        Upstream::Unreachable => Err(BackendError::Transport),
        Upstream::Answered { status, text, .. } => {
            if !is_success(status) {
                Err(rejected(status, text))
            } else {
                Ok(())
            }
        },
    }
}

} // verus!
