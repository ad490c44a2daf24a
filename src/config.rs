use vstd::prelude::*;

verus! {

/// A character that may stand in an HTTP header value: a visible or
/// non-ASCII character, a space or a tab.
pub open spec fn header_char_ok(c: char) -> bool {
    (c as u32 >= 32 && c as u32 != 127) || c == '\t'
}

/// A string that may be sent as an HTTP header value.
pub open spec fn header_value_ok(s: Seq<char>) -> bool {
    forall|i: int| 0 <= i < s.len() ==> header_char_ok(#[trigger] s[i])
}

/// The text of the bearer credential header for a key.
pub open spec fn bearer_of(key: Seq<char>) -> Seq<char> {
    "Bearer "@ + key
}

/// Relies on reqwest::header::HeaderValue::from_str (the http crate's): it
/// accepts a string exactly when each of its bytes is at least 32 and not
/// 127, or is a tab. A character at or above 128 is encoded in UTF-8 as bytes
/// that are all at or above 128, so the test can be stated per character.
#[verifier::external_body]
fn header_value_accepts(s: &str) -> (r: bool)
    ensures
        r == header_value_ok(s@),
{
    reqwest::header::HeaderValue::from_str(s).is_ok()
}

/// Why the process cannot start serving.
#[derive(Clone, Copy, Debug, PartialEq, Eq)]
pub enum ConfigError {
    /// The backend's base URL was not given.
    MissingBaseUrl,
    /// The backend's secret key was not given.
    MissingKey,
    /// The key holds a character that no HTTP header value may hold.
    InvalidKey,
}

/// Where the backend lives and the secret that every call to it carries.
/// Built once at startup and read only afterwards.
pub struct Config {
    base_url: String,
    key: String,
}

impl Config {
    pub closed spec fn base_url_view(&self) -> Seq<char> {
        self.base_url@
    }

    pub closed spec fn key_view(&self) -> Seq<char> {
        self.key@
    }

    /// Both credential headers can be sent with this key.
    pub open spec fn wf(&self) -> bool {
        header_value_ok(self.key_view()) && header_value_ok(bearer_of(self.key_view()))
    }

    /// Builds the configuration from the two values read at startup; either
    /// one may be absent, which is fatal.
    pub fn new(base_url: Option<String>, key: Option<String>) -> (r: Result<Config, ConfigError>)
        ensures
            base_url is None ==> r == Err::<Config, ConfigError>(ConfigError::MissingBaseUrl),
            base_url is Some && key is None ==> r == Err::<Config, ConfigError>(ConfigError::MissingKey),
            base_url is Some && key is Some && !header_value_ok(key->0@)
                ==> r == Err::<Config, ConfigError>(ConfigError::InvalidKey),
            base_url is Some && key is Some && header_value_ok(key->0@) ==> (r matches Ok(c)
                && c.wf() && c.base_url_view() == base_url->0@ && c.key_view() == key->0@),
    {
        let base_url = match base_url {
            Some(u) => u,
            None => return Err(ConfigError::MissingBaseUrl),
        };
        let key = match key {
            Some(k) => k,
            None => return Err(ConfigError::MissingKey),
        };
        if !header_value_accepts(key.as_str()) {
            return Err(ConfigError::InvalidKey);
        }
        proof {
            let bearer = bearer_of(key@);
            reveal_strlit("Bearer ");
            assert forall|i: int| 0 <= i < bearer.len() implies header_char_ok(
                #[trigger] bearer[i],
            ) by {
                if i >= 7 {
                    assert(bearer[i] == key@[i - 7]);
                }
            }
        }
        Ok(Config { base_url, key })
    }

    /// The backend's base URL.
    pub fn base_url(&self) -> (r: &str)
        ensures
            r@ == self.base_url_view(),
    {
        self.base_url.as_str()
    }

    /// The secret key sent with every backend call.
    pub fn key(&self) -> (r: &str)
        ensures
            r@ == self.key_view(),
    {
        self.key.as_str()
    }
}

/// The value of the bearer credential header.
pub fn bearer_header(key: &String) -> (r: String)
    ensures
        r@ == bearer_of(key@),
{
    let r = String::from_str("Bearer ").concat(key.as_str());
    r
}

} // verus!
