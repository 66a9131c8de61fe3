//! The two ends of a fetch: the address that is asked for, and the reading of
//! what came back. The fetch itself is left to the caller.

use crate::text::{contains, occurs_in};
use crate::work::{Work, WorkError};
use crate::BASE_URL;
use vstd::prelude::*;
use vstd::string::StringExecFns;

verus! {

/// The text by which the archive's page for an unknown work is recognised.
pub const NOT_FOUND_MARKER: &'static str = "system errors error-404 region";

/// The path under which the archive keeps its works.
pub const WORKS_PATH: &'static str = "/works/";

/// The query that asks the archive to show a work whatever its rating.
pub const VIEW_ADULT: &'static str = "?view_adult=true";

/// The address of the page of the work `work_id`.
pub open spec fn url_of(work_id: Seq<char>) -> Seq<char> {
    BASE_URL@ + WORKS_PATH@ + work_id + VIEW_ADULT@
}

/// Whether `body` is the archive's page for an unknown work.
pub open spec fn is_not_found_page(body: Seq<char>) -> bool {
    occurs_in(NOT_FOUND_MARKER@, body)
}

/// What the outcome of a fetch means. A failed fetch is passed on as it is; a
/// body that is the page for an unknown work is an error of its own, whatever
/// the fetch said of its success; any other body is the content of the page.
pub open spec fn checked(fetched: Result<String, reqwest::Error>) -> Result<String, WorkError> {
    match fetched {
        Ok(body) => if is_not_found_page(body@) {
            Err(WorkError::InvalidWorkId)
        } else {
            Ok(body)
        },
        Err(error) => Err(WorkError::Network(error)),
    }
}

impl Work {
    /// Builds the address of the page of the work `work_id`.
    pub fn url(work_id: &str) -> (url: String)
        ensures
            url@ == url_of(work_id@),
    {
        String::from_str(BASE_URL).concat(WORKS_PATH).concat(work_id).concat(VIEW_ADULT)
    }

    /// Reads the outcome of a fetch.
    pub fn check_content(
        fetched: Result<String, reqwest::Error>,
    ) -> (content: Result<String, WorkError>)
        ensures
            content == checked(fetched),
    {
        match fetched {
            Ok(body) => {
                if contains(body.as_str(), NOT_FOUND_MARKER) {
                    Err(WorkError::InvalidWorkId)
                } else {
                    Ok(body)
                }
            },
            Err(error) => Err(WorkError::Network(error)),
        }
    }
}

} // verus!
