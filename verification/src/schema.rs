//! What the GraphQL resolvers decide: the page a `flights` query asks for and
//! how an origin failure reaches the client.

use vstd::prelude::*;

use crate::http_client::{origin_failure_text, OriginError, OriginFailure};
use crate::models::Flight;

verus! {

/// Page size when the query gives none.
pub const DEFAULT_PAGE_SIZE: i32 = 20;

/// Largest page a query may ask for.
pub const MAX_PAGE_SIZE: i32 = 100;

/// The page size used for a requested `limit`: the default when absent,
/// clamped to `0..=100`.
pub open spec fn page_limit(limit: Option<i32>) -> i32 {
    let requested = match limit {
        Some(l) => l,
        None => DEFAULT_PAGE_SIZE,
    };
    if requested < 0 {
        0
    } else if requested > MAX_PAGE_SIZE {
        MAX_PAGE_SIZE
    } else {
        requested
    }
}

/// The offset used for a requested `offset`: 0 when absent or negative.
pub open spec fn page_offset(offset: Option<i32>) -> i32 {
    match offset {
        Some(o) => if o < 0 {
            0
        } else {
            o
        },
        None => 0,
    }
}

/// Every page stays within bounds whatever the client asks.
pub proof fn lemma_page_within_bounds(limit: Option<i32>, offset: Option<i32>)
    ensures
        0 <= page_limit(limit) <= MAX_PAGE_SIZE,
        0 <= page_offset(offset),
        limit is None ==> page_limit(limit) == DEFAULT_PAGE_SIZE,
        offset is None ==> page_offset(offset) == 0,
        limit matches Some(l) ==> (0 <= l <= MAX_PAGE_SIZE ==> page_limit(limit) == l),
        offset matches Some(o) ==> (0 <= o ==> page_offset(offset) == o),
{
}

/// The `Query` root.
#[derive(Debug, Clone, Copy)]
pub struct QueryRoot;

/// The `Mutation` root.
#[derive(Debug, Clone, Copy)]
pub struct MutationRoot;

/// What a resolver returns for an origin result: the value, or the error's
/// text as the GraphQL error message.
pub fn resolver_outcome<T>(result: Result<T, OriginError>) -> (res: Result<T, String>)
    ensures
        match result {
            Ok(v) => res == Ok::<T, String>(v),
            Err(e) => res matches Err(m) && m@ == origin_failure_text(e@),
        },
{
    match result {
        Ok(v) => Ok(v),
        Err(e) => Err(e.message()),
    }
}

impl QueryRoot {
    /// The `(limit, offset)` sent upstream for a `flights` query.
    pub fn flights_page(limit: Option<i32>, offset: Option<i32>) -> (res: (i32, i32))
        ensures
            res == (page_limit(limit), page_offset(offset)),
    {
        let requested = match limit {
            Some(l) => l,
            None => DEFAULT_PAGE_SIZE,
        };
        let limit = if requested < 0 {
            0
        } else if requested > MAX_PAGE_SIZE {
            MAX_PAGE_SIZE
        } else {
            requested
        };
        let offset = match offset {
            Some(o) => if o < 0 {
                0
            } else {
                o
            },
            None => 0,
        };
        (limit, offset)
    }

    /// What the `flight` query returns: a missing flight (404) is `null`,
    /// any other failure is an error.
    pub fn flight_outcome(result: Result<Flight, OriginError>) -> (res: Result<Option<Flight>, String>)
        ensures
            match result {
                Ok(f) => res == Ok::<Option<Flight>, String>(Some(f)),
                Err(e) => if e@ == OriginFailure::Status(404) {
                    res == Ok::<Option<Flight>, String>(None)
                } else {
                    res matches Err(m) && m@ == origin_failure_text(e@)
                },
            },
    {
        match result {
            Ok(flight) => Ok(Some(flight)),
            Err(e) => {
                if e.is_not_found() {
                    Ok(None)
                } else {
                    Err(e.message())
                }
            },
        }
    }
}

impl MutationRoot {
    /// What the `deleteFlight` mutation returns: `true` once deleted.
    pub fn delete_outcome(result: Result<(), OriginError>) -> (res: Result<bool, String>)
        ensures
            match result {
                Ok(()) => res == Ok::<bool, String>(true),
                Err(e) => res matches Err(m) && m@ == origin_failure_text(e@),
            },
    {
        match result {
            Ok(()) => Ok(true),
            Err(e) => Err(e.message()),
        }
    }
}

} // verus!
