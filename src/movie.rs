use vstd::prelude::*;

verus! {

/// One row of the backend's movies table, as clients see it.
///
/// `popularity_bits` carries the IEEE-754 bit pattern of the optional
/// popularity score; the library never reads it, it only carries it.
#[derive(Clone, Debug, PartialEq)]
pub struct Movie {
    pub id: i32,
    pub title: String,
    pub tagline: Option<String>,
    pub popularity_bits: Option<u64>,
    pub release_date: Option<String>,
}

/// The fields a client supplies to create or to update a record. It has no
/// `id`: the backend assigns it.
#[derive(Clone, Debug, PartialEq)]
pub struct MovieInput {
    pub title: String,
    pub tagline: Option<String>,
    pub popularity_bits: Option<u64>,
    pub release_date: Option<String>,
}

} // verus!
