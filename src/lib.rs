//! A movie catalogue front end: it routes inbound HTTP requests, turns each
//! into at most one REST call against a hosted database backend, and turns
//! the backend's answer into the HTTP response.
//!
//! The library decides; the host performs. A request goes through
//! `handlers::begin`, which either answers at once or names the one backend
//! call to make, and `handlers::finish`, which maps that call's outcome to
//! the response.
pub mod text;
pub mod movie;
pub mod config;
pub mod backend;
pub mod router;
pub mod handlers;
pub mod laws;

pub use backend::{BackendCall, BackendError, BackendMethod, Upstream, MOVIE_LIMIT};
pub use config::{Config, ConfigError};
pub use handlers::{api_info, begin, finish, ApiInfo, Body, HttpResponse, Page, Pending, Step, NOT_FOUND_HTML};
pub use movie::{Movie, MovieInput};
pub use router::{parse_id, route, Route};
