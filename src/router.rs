use vstd::prelude::*;
use crate::text::str_eq;

verus! {

/// Where a request goes, decided from its method and path alone.
#[derive(Clone, Copy, Debug, PartialEq, Eq, Structural)]
pub enum Route {
    /// `GET /`: the movies page.
    MoviesPage,
    /// `GET /movies`: the index page.
    Index,
    /// `GET /about`.
    About,
    /// `GET /api`: the description of the endpoints.
    ApiInfo,
    /// `GET /movies.json`: the newest records.
    MoviesJson,
    /// `POST /movies`.
    CreateMovie,
    /// `PUT /movies/:id`.
    UpdateMovie(i32),
    /// `DELETE /movies/:id`.
    DeleteMovie(i32),
    /// `PUT` or `DELETE` on `/movies/:id` where `:id` is not an `i32`.
    BadId,
    /// Nothing matches.
    NotFound,
}

pub open spec fn is_digit(c: char) -> bool {
    '0' <= c <= '9'
}

/// The value of a run of decimal digits.
pub open spec fn digits_value(s: Seq<char>) -> int
    decreases s.len(),
{
    if s.len() == 0 {
        0
    } else {
        digits_value(s.drop_last()) * 10 + (s.last() as int - '0' as int)
    }
}

pub open spec fn all_digits(s: Seq<char>) -> bool {
    s.len() > 0 && forall|i: int| 0 <= i < s.len() ==> is_digit(#[trigger] s[i])
}

/// The integer a decimal text denotes, with an optional sign, when it is
/// one and fits in an `i32`; this is how `i32` parses from a string.
pub open spec fn parse_i32(s: Seq<char>) -> Option<i32> {
    let signed = s.len() > 0 && (s[0] == '-' || s[0] == '+');
    let d = if signed { s.subrange(1, s.len() as int) } else { s };
    let v = if signed && s[0] == '-' { -digits_value(d) } else { digits_value(d) };
    if all_digits(d) && i32::MIN <= v <= i32::MAX {
        Some(v as i32)
    } else {
        None
    }
}

/// One path segment: not empty and without a slash.
pub open spec fn is_segment(s: Seq<char>) -> bool {
    s.len() > 0 && forall|i: int| 0 <= i < s.len() ==> #[trigger] s[i] != '/'
}

/// The route of a request, by the table of endpoints; an identifier that is
/// not an `i32`, once unescaped, on a matched `/movies/:id` route is refused.
pub open spec fn route_of(method: Seq<char>, path: Seq<char>) -> Route {
    if path == "/"@ {
        if method == "GET"@ { Route::MoviesPage } else { Route::NotFound }
    } else if path == "/about"@ {
        if method == "GET"@ { Route::About } else { Route::NotFound }
    } else if path == "/movies"@ {
        if method == "GET"@ {
            Route::Index
        } else if method == "POST"@ {
            Route::CreateMovie
        } else {
            Route::NotFound
        }
    } else if path == "/movies.json"@ {
        if method == "GET"@ { Route::MoviesJson } else { Route::NotFound }
    } else if path == "/api"@ {
        if method == "GET"@ { Route::ApiInfo } else { Route::NotFound }
    } else if "/movies/"@.is_prefix_of(path) && is_segment(path.skip(8)) {
        let id = parse_i32(unescape(path.skip(8)));
        if method == "PUT"@ {
            match id {
                Some(i) => Route::UpdateMovie(i),
                None => Route::BadId,
            }
        } else if method == "DELETE"@ {
            match id {
                Some(i) => Route::DeleteMovie(i),
                None => Route::BadId,
            }
        } else {
            Route::NotFound
        }
    } else {
        Route::NotFound
    }
}

/// The value of a hexadecimal digit.
pub open spec fn hex_value(c: char) -> Option<int> {
    if '0' <= c <= '9' {
        Some(c as int - '0' as int)
    } else if 'a' <= c <= 'f' {
        Some(c as int - 'a' as int + 10)
    } else if 'A' <= c <= 'F' {
        Some(c as int - 'A' as int + 10)
    } else {
        None
    }
}

/// The character an escaped byte stands for in an identifier: itself when
/// it is ASCII; any other byte belongs to no integer and stands as U+FFFD.
pub open spec fn escaped_char(b: int) -> char {
    if 0 <= b < 128 {
        (b as u8) as char
    } else {
        '\u{FFFD}'
    }
}

/// A path segment with each `%XX` escape replaced by the byte it encodes;
/// a `%` that does not start such an escape stays as it is.
pub open spec fn unescape(s: Seq<char>) -> Seq<char>
    decreases s.len(),
{
    if s.len() == 0 {
        Seq::empty()
    } else if s.len() >= 3 && s[0] == '%' && hex_value(s[1]) is Some && hex_value(s[2]) is Some {
        seq![escaped_char(hex_value(s[1])->0 * 16 + hex_value(s[2])->0)] + unescape(s.skip(3))
    } else {
        seq![s[0]] + unescape(s.skip(1))
    }
}

fn hex_digit(c: char) -> (r: Option<u32>)
    ensures
        r matches Some(v) ==> hex_value(c) == Some(v as int) && v < 16,
        r is None ==> hex_value(c) is None,
{
    if '0' <= c && c <= '9' {
        Some(c as u32 - '0' as u32)
    } else if 'a' <= c && c <= 'f' {
        Some(c as u32 - 'a' as u32 + 10)
    } else if 'A' <= c && c <= 'F' {
        Some(c as u32 - 'A' as u32 + 10)
    } else {
        None
    }
}

fn unescape_str(s: &str) -> (r: Vec<char>)
    ensures
        r@ == unescape(s@),
{
    let n = s.unicode_len();
    let mut r: Vec<char> = Vec::new();
    let mut i: usize = 0;
    assert(r@ + unescape(s@.skip(0)) =~= unescape(s@)) by {
        assert(s@.skip(0) =~= s@);
    }
    while i < n
        invariant
            n == s@.len(),
            i <= n,
            r@ + unescape(s@.skip(i as int)) == unescape(s@),
        decreases n - i,
    {
        let ghost rest = s@.skip(i as int);
        let c = s.get_char(i);
        let mut escaped: Option<char> = None;
        if c == '%' && n - i > 2 {
            match (hex_digit(s.get_char(i + 1)), hex_digit(s.get_char(i + 2))) {
                (Some(h), Some(l)) => {
                    let b = h * 16 + l;
                    escaped = Some(if b < 128 { (b as u8) as char } else { '\u{FFFD}' });
                },
                _ => {},
            }
        }
        match escaped {
            Some(e) => {
                assert(rest.skip(3) =~= s@.skip(i + 3));
                assert(unescape(rest) == seq![e] + unescape(rest.skip(3)));
                r.push(e);
                assert(r@ + unescape(s@.skip(i + 3)) =~= unescape(s@));
                i = i + 3;
            },
            None => {
                assert(rest.skip(1) =~= s@.skip(i + 1));
                assert(unescape(rest) == seq![c] + unescape(rest.skip(1)));
                r.push(c);
                assert(r@ + unescape(s@.skip(i + 1)) =~= unescape(s@));
                i = i + 1;
            },
        }
    }
    assert(s@.skip(n as int) =~= Seq::<char>::empty());
    assert(r@ + unescape(s@.skip(n as int)) =~= r@);
    r
}

/// Parses a path segment as an `i32`, after undoing its `%XX` escapes.
pub fn parse_id(s: &str) -> (r: Option<i32>)
    ensures
        r == parse_i32(unescape(s@)),
{
    let chars = unescape_str(s);
    parse_chars(&chars)
}

fn parse_chars(s: &Vec<char>) -> (r: Option<i32>)
    ensures
        r == parse_i32(s@),
{
    let n = s.len();
    let mut start: usize = 0;
    let mut negative = false;
    if n > 0 {
        let c = s[0];
        if c == '-' || c == '+' {
            start = 1;
            negative = c == '-';
        }
    }
    let ghost d = s@.subrange(start as int, n as int);
    let ghost signed = s@.len() > 0 && (s@[0] == '-' || s@[0] == '+');
    assert(signed == (start == 1));
    assert(negative == (signed && s@[0] == '-'));
    assert(!signed ==> d =~= s@);
    if start >= n {
        assert(!all_digits(d));
        return None;
    }
    // Saturates just above 2^31: every larger value is out of range for
    // either sign.
    let cap: i64 = 2147483649;
    let mut acc: i64 = 0;
    let mut i: usize = start;
    while i < n
        invariant
            n == s@.len(),
            start <= i <= n,
            d == s@.subrange(start as int, n as int),
            d == (if signed { s@.subrange(1, s@.len() as int) } else { s@ }),
            signed == (s@.len() > 0 && (s@[0] == '-' || s@[0] == '+')),
            negative == (signed && s@[0] == '-'),
            0 <= acc <= cap,
            cap == 2147483649,
            forall|j: int| start <= j < i ==> is_digit(#[trigger] s@[j]),
            acc == if digits_value(s@.subrange(start as int, i as int)) < cap {
                digits_value(s@.subrange(start as int, i as int))
            } else {
                cap as int
            },
        decreases n - i,
    {
        let c = s[i];
        if !('0' <= c && c <= '9') {
            assert(d[i - start] == c);
            assert(!is_digit(d[i - start]));
            assert(!all_digits(d));
            assert(parse_i32(s@) is None);
            return None;
        }
        let dv: i64 = (c as u32 - '0' as u32) as i64;
        let ghost pre = s@.subrange(start as int, i as int);
        let ghost next = s@.subrange(start as int, i + 1);
        assert(next.drop_last() =~= pre);
        assert(next.last() == c);
        assert(digits_value(next) == digits_value(pre) * 10 + dv);
        proof {
            lemma_digits_value_nonneg(pre);
        }
        let grown = acc * 10 + dv;
        acc = if grown < cap { grown } else { cap };
        i = i + 1;
    }
    assert(s@.subrange(start as int, i as int) =~= d);
    assert(all_digits(d)) by {
        assert forall|j: int| 0 <= j < d.len() implies is_digit(#[trigger] d[j]) by {
            assert(d[j] == s@[start + j]);
        }
    }
    if negative {
        if acc <= 2147483648 {
            Some((-acc) as i32)
        } else {
            None
        }
    } else {
        if acc < 2147483648 {
            Some(acc as i32)
        } else {
            None
        }
    }
}

proof fn lemma_digits_value_nonneg(s: Seq<char>)
    requires
        forall|i: int| 0 <= i < s.len() ==> is_digit(#[trigger] s[i]),
    ensures
        digits_value(s) >= 0,
    decreases s.len(),
{
    if s.len() > 0 {
        lemma_digits_value_nonneg(s.drop_last());
    }
}

fn is_segment_str(s: &str) -> (r: bool)
    ensures
        r == is_segment(s@),
{
    let n = s.unicode_len();
    if n == 0 {
        return false;
    }
    let mut i: usize = 0;
    while i < n
        invariant
            n == s@.len(),
            i <= n,
            forall|j: int| 0 <= j < i ==> #[trigger] s@[j] != '/',
        decreases n - i,
    {
        if s.get_char(i) == '/' {
            return false;
        }
        i = i + 1;
    }
    true
}

/// Chooses the route for a request by its method and path.
pub fn route(method: &str, path: &str) -> (r: Route)
    ensures
        r == route_of(method@, path@),
{
    proof {
        reveal_strlit("GET");
        reveal_strlit("POST");
        reveal_strlit("PUT");
        reveal_strlit("DELETE");
        reveal_strlit("/");
        reveal_strlit("/about");
        reveal_strlit("/movies");
        reveal_strlit("/movies.json");
        reveal_strlit("/api");
        reveal_strlit("/movies/");
    }
    let get = str_eq(method, "GET");
    if str_eq(path, "/") {
        if get { Route::MoviesPage } else { Route::NotFound }
    } else if str_eq(path, "/about") {
        if get { Route::About } else { Route::NotFound }
    } else if str_eq(path, "/movies") {
        if get {
            Route::Index
        } else if str_eq(method, "POST") {
            Route::CreateMovie
        } else {
            Route::NotFound
        }
    } else if str_eq(path, "/movies.json") {
        if get { Route::MoviesJson } else { Route::NotFound }
    } else if str_eq(path, "/api") {
        if get { Route::ApiInfo } else { Route::NotFound }
    } else {
        let n = path.unicode_len();
        if n <= 8 || !str_eq(path.substring_char(0, 8), "/movies/") {
            assert(!("/movies/"@.is_prefix_of(path@) && is_segment(path@.skip(8)))) by {
                if "/movies/"@.is_prefix_of(path@) {
                    assert(path@.subrange(0, 8) =~= "/movies/"@);
                }
            }
            return Route::NotFound;
        }
        assert("/movies/"@.is_prefix_of(path@)) by {
            assert forall|i: int| 0 <= i < 8 implies path@[i] == "/movies/"@[i] by {
                assert(path@.subrange(0, 8)[i] == path@[i]);
            }
        }
        let seg = path.substring_char(8, n);
        assert(seg@ =~= path@.skip(8));
        if !is_segment_str(seg) {
            return Route::NotFound;
        }
        if str_eq(method, "PUT") {
            match parse_id(seg) {
                Some(id) => Route::UpdateMovie(id),
                None => Route::BadId,
            }
        } else if str_eq(method, "DELETE") {
            match parse_id(seg) {
                Some(id) => Route::DeleteMovie(id),
                None => Route::BadId,
            }
        } else {
            Route::NotFound
        }
    }
}

} // verus!
