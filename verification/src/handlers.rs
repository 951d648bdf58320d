//! What the transport layer answers: requests as they arrive, and the
//! status and body that each result of the repository turns into.

use vstd::prelude::*;
use vstd::string::*;

use crate::errors::{message_text, RepositoryError, RepositoryErrorView};
use crate::models::NFeIdentification;

verus! {

/// The body of an answer that reports a failure.
#[derive(Clone, Debug, PartialEq, Eq)]
pub struct ErrorResponse {
    pub error: String,
}

/// A page and a page size, as a request names them.
#[derive(Clone, Copy, Debug, PartialEq, Eq)]
pub struct PaginationQuery {
    pub page: u32,
    pub page_size: u32,
}

/// The body of an answer that carries one page of a listing.
#[derive(Clone, Debug, PartialEq, Eq)]
pub struct PaginationResponse<T> {
    pub data: T,
    /// The number of all rows that match, on every page.
    pub total: u64,
    pub current_page: u32,
    pub page_size: u32,
    pub total_pages: u32,
}

/// The query of a listing request.
#[derive(Clone, Debug, PartialEq, Eq)]
pub struct ListQuery {
    pub page: u32,
    pub page_size: u32,
    pub nat_op: Option<String>,
    pub n_nf: Option<String>,
    pub tp_nf: Option<String>,
    pub dh_emi: Option<String>,
    pub search: Option<String>,
}

/// What an answer carries.
#[derive(Debug, PartialEq, Eq)]
pub enum Body<T> {
    Data(T),
    Failure(ErrorResponse),
    Empty,
}

/// An answer: its status and what it carries.
#[derive(Debug, PartialEq, Eq)]
pub struct Response<T> {
    pub status: u16,
    pub body: Body<T>,
}

pub const OK: u16 = 200;

pub const CREATED: u16 = 201;

pub const NO_CONTENT: u16 = 204;

pub const BAD_REQUEST: u16 = 400;

pub const NOT_FOUND: u16 = 404;

pub const INTERNAL_SERVER_ERROR: u16 = 500;

/// What a listing request is told when it names no page or no page size.
pub const PAGE_BOUNDS_MESSAGE: &'static str = "page and page_size must be at least 1";

/// Page number used when a listing request names none.
pub open spec fn spec_default_page() -> u32 {
    1
}

/// Page size used when a listing request names none.
pub open spec fn spec_default_page_size() -> u32 {
    50
}

/// The least number of pages of `page_size` rows that hold `total_count` rows.
pub open spec fn pages_needed(total_count: int, page_size: int) -> int {
    (total_count + page_size - 1) / page_size
}

/// The number of pages as an answer reports it: the pages needed, or the
/// largest number the field holds where they are more.
pub open spec fn reported_pages(total_count: u64, page_size: u32) -> int {
    if pages_needed(total_count as int, page_size as int) > u32::MAX {
        u32::MAX as int
    } else {
        pages_needed(total_count as int, page_size as int)
    }
}

/// The status that a failure of the repository turns into: a malformed
/// identifier is the client's fault, a missing record is not found, and
/// everything else is the server's.
pub open spec fn failure_status(error: RepositoryErrorView) -> u16 {
    match error {
        RepositoryErrorView::InvalidIdentifier(_) => BAD_REQUEST,
        RepositoryErrorView::NotFound => NOT_FOUND,
        _ => INTERNAL_SERVER_ERROR,
    }
}

/// The pages needed are the quotient, and one more where a remainder is left.
pub proof fn lemma_pages_needed(total_count: int, page_size: int)
    requires
        total_count >= 0,
        page_size > 0,
    ensures
        pages_needed(total_count, page_size) == total_count / page_size + if total_count
            % page_size == 0 {
            0int
        } else {
            1int
        },
        (pages_needed(total_count, page_size) - 1) * page_size < total_count || total_count == 0,
        total_count <= pages_needed(total_count, page_size) * page_size,
{
    let q = total_count / page_size;
    let r = total_count % page_size;
    assert(total_count == q * page_size + r && 0 <= r < page_size) by (nonlinear_arith)
        requires
            q == total_count / page_size,
            r == total_count % page_size,
            page_size > 0,
    ;
    if r == 0 {
        assert((q * page_size + page_size - 1) / page_size == q) by (nonlinear_arith)
            requires
                page_size > 0,
        ;
    } else {
        assert((q * page_size + r + page_size - 1) / page_size == q + 1) by (nonlinear_arith)
            requires
                page_size > 0,
                0 < r < page_size,
        ;
        assert((q + 1) * page_size == q * page_size + page_size) by (nonlinear_arith);
    }
    assert((q - 1) * page_size == q * page_size - page_size) by (nonlinear_arith);
}

#[verifier::when_used_as_spec(spec_default_page)]
pub fn default_page() -> (page: u32)
    ensures
        page == spec_default_page(),
{
    1
}

#[verifier::when_used_as_spec(spec_default_page_size)]
pub fn default_page_size() -> (size: u32)
    ensures
        size == spec_default_page_size(),
{
    50
}

/// The number of pages of a listing, for the answer.
pub fn total_pages(total_count: u64, page_size: u32) -> (r: u32)
    requires
        page_size > 0,
    ensures
        r == reported_pages(total_count, page_size),
{
    proof {
        lemma_pages_needed(total_count as int, page_size as int);
    }
    let size = page_size as u64;
    let full: u64 = total_count / size;
    assert(full * size + total_count % size == total_count && full * size >= full)
        by (nonlinear_arith)
        requires
            size > 0,
            full == total_count / size,
    ;
    let pages: u64 = if total_count % size == 0 {
        full
    } else {
        full + 1
    };
    if pages > 0xffff_ffff {
        0xffff_ffff
    } else {
        pages as u32
    }
}

/// The status that a failure of the repository turns into.
pub fn status_of(error: &RepositoryError) -> (r: u16)
    ensures
        r == failure_status(error@),
{
    match error {
        RepositoryError::InvalidIdentifier(_) => BAD_REQUEST,
        RepositoryError::NotFound => NOT_FOUND,
        _ => INTERNAL_SERVER_ERROR,
    }
}

fn failure<T>(error: &RepositoryError, message: &str) -> (r: Response<T>)
    ensures
        r.status == failure_status(error@),
        r.body is Failure,
        r.body->Failure_0.error@ == message@,
{
    Response {
        status: status_of(error),
        body: Body::Failure(ErrorResponse { error: String::from_str(message) }),
    }
}

/// Looks at a listing request before the repository is asked. Pages are
/// counted from one and a page holds at least one row: a request that
/// names page zero or size zero is the caller's fault, and gets its answer
/// here; for any other request there is nothing to answer yet.
pub fn refuse_list_query(query: &ListQuery) -> (r: Option<
    Response<PaginationResponse<Vec<NFeIdentification>>>,
>)
    ensures
        match r {
            Some(answer) => {
                &&& query.page < 1 || query.page_size < 1
                &&& answer.status == BAD_REQUEST
                &&& answer.body is Failure
                &&& answer.body->Failure_0.error@ == PAGE_BOUNDS_MESSAGE@
            },
            None => query.page >= 1 && query.page_size >= 1,
        },
{
    if query.page < 1 || query.page_size < 1 {
        Some(
            Response {
                status: BAD_REQUEST,
                body: Body::Failure(
                    ErrorResponse { error: String::from_str(PAGE_BOUNDS_MESSAGE) },
                ),
            },
        )
    } else {
        None
    }
}

/// The answer to a listing request: the page with its place among the
/// pages, or the failure in the repository's own words.
pub fn list_identifications(
    query: &ListQuery,
    found: Result<(Vec<NFeIdentification>, u64), RepositoryError>,
) -> (r: Response<PaginationResponse<Vec<NFeIdentification>>>)
    requires
        query.page_size > 0,
    ensures
        match found {
            Ok((records, total)) => r == (Response {
                status: OK,
                body: Body::Data(
                    PaginationResponse {
                        data: records,
                        total,
                        current_page: query.page,
                        page_size: query.page_size,
                        total_pages: reported_pages(total, query.page_size) as u32,
                    },
                ),
            }),
            Err(error) => {
                &&& r.status == failure_status(error@)
                &&& r.body is Failure
                &&& r.body->Failure_0.error@ == message_text(error@)
            },
        },
{
    match found {
        Ok((records, total)) => Response {
            status: OK,
            body: Body::Data(
                PaginationResponse {
                    data: records,
                    total,
                    current_page: query.page,
                    page_size: query.page_size,
                    total_pages: total_pages(total, query.page_size),
                },
            ),
        },
        Err(error) => Response {
            status: status_of(&error),
            body: Body::Failure(ErrorResponse { error: error.message() }),
        },
    }
}

/// The answer to a request for one record.
pub fn get_identification(found: Result<Option<NFeIdentification>, RepositoryError>) -> (r:
    Response<NFeIdentification>)
    ensures
        match found {
            Ok(Some(record)) => r == (Response { status: OK, body: Body::Data(record) }),
            Ok(None) => {
                &&& r.status == NOT_FOUND
                &&& r.body is Failure
                &&& r.body->Failure_0.error@ == "Identification not found"@
            },
            Err(error) => {
                &&& r.status == failure_status(error@)
                &&& r.body is Failure
                &&& r.body->Failure_0.error@ == "Failed to get identification"@
            },
        },
{
    match found {
        Ok(Some(record)) => Response { status: OK, body: Body::Data(record) },
        Ok(None) => Response {
            status: NOT_FOUND,
            body: Body::Failure(
                ErrorResponse { error: String::from_str("Identification not found") },
            ),
        },
        Err(error) => failure(&error, "Failed to get identification"),
    }
}

/// The answer to a request that creates a record.
pub fn create_identification(created: Result<NFeIdentification, RepositoryError>) -> (r: Response<
    NFeIdentification,
>)
    ensures
        match created {
            Ok(record) => r == (Response { status: CREATED, body: Body::Data(record) }),
            Err(error) => {
                &&& r.status == failure_status(error@)
                &&& r.body is Failure
                &&& r.body->Failure_0.error@ == "Failed to create identification"@
            },
        },
{
    match created {
        Ok(record) => Response { status: CREATED, body: Body::Data(record) },
        Err(error) => failure(&error, "Failed to create identification"),
    }
}

/// The answer to a request that updates a record.
pub fn update_identification(updated: Result<NFeIdentification, RepositoryError>) -> (r: Response<
    NFeIdentification,
>)
    ensures
        match updated {
            Ok(record) => r == (Response { status: OK, body: Body::Data(record) }),
            Err(error) => {
                &&& r.status == failure_status(error@)
                &&& r.body is Failure
                &&& r.body->Failure_0.error@ == "Failed to update identification"@
            },
        },
{
    match updated {
        Ok(record) => Response { status: OK, body: Body::Data(record) },
        Err(error) => failure(&error, "Failed to update identification"),
    }
}

/// The answer to a request that deletes a record.
pub fn delete_identification(deleted: Result<(), RepositoryError>) -> (r: Response<()>)
    ensures
        match deleted {
            Ok(_) => r == (Response { status: NO_CONTENT, body: Body::<()>::Empty }),
            Err(error) => {
                &&& r.status == failure_status(error@)
                &&& r.body is Failure
                &&& r.body->Failure_0.error@ == "Failed to delete identification"@
            },
        },
{
    match deleted {
        Ok(_) => Response { status: NO_CONTENT, body: Body::Empty },
        Err(error) => failure(&error, "Failed to delete identification"),
    }
}

} // verus!
