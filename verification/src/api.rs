use vstd::prelude::*;
use crate::errors::{AppError, AppErrorType};
use crate::ids::{parsed_uuid, parse_uuid};

verus! {

/// A date and time without time zone, as the chrono crate gives it.
#[verifier::external_type_specification]
#[verifier::external_body]
pub struct ExNaiveDateTime(chrono::NaiveDateTime);

/// Paging parameters of a listing (`?size=&page=`).
#[derive(Debug)]
pub struct Paged {
    pub size: Option<i64>,
    pub page: Option<i64>,
}

/// Paging parameters of a listing about one host (`?uuid=&size=&page=`).
#[derive(Debug)]
pub struct SpecificPaged {
    pub uuid: String,
    pub size: Option<i64>,
    pub page: Option<i64>,
}

/// The page size asked for, 100 when none is given.
pub open spec fn size_or_default(size: Option<i64>) -> i64 {
    match size {
        Some(s) => s,
        None => 100,
    }
}

/// The page asked for, 0 when none is given.
pub open spec fn page_or_default(page: Option<i64>) -> i64 {
    match page {
        Some(p) => p,
        None => 0,
    }
}

/// Where paging parameters `(size, page)` lead: the pair itself when the
/// size lies strictly between 0 and 5000 and the page is not negative, an
/// `InvalidRequest` error otherwise.
pub open spec fn size_page_ok(size: i64, page: i64) -> bool {
    0 < size < 5000 && page >= 0
}

/// Paging parameters are accepted exactly when the size lies strictly
/// between 0 and 5000 and the page is not negative: how far the page reaches
/// plays no part, so a size accepted with one page is accepted with every
/// page that is not negative.
pub proof fn lemma_paging_accepts_every_page(size: i64, page: i64, other: i64)
    ensures
        size_page_ok(size, page) <==> (0 < size && size < 5000 && page >= 0),
        size_page_ok(size, page) && other >= 0 ==> size_page_ok(size, other),
{
}

fn size_page(size: Option<i64>, page: Option<i64>) -> (r: Result<(i64, i64), AppError>)
    ensures
        size_page_ok(size_or_default(size), page_or_default(page))
            ==> r == Ok::<(i64, i64), AppError>((size_or_default(size), page_or_default(page))),
        !size_page_ok(size_or_default(size), page_or_default(page)) ==> (r matches Err(e) && e.is_invalid_request("Size must be > 0 && < 5000 and Page must be >= 0"@)),
{
    let size = match size {
        Some(s) => s,
        None => 100,
    };
    let page = match page {
        Some(p) => p,
        None => 0,
    };
    if size > 0 && size < 5000 && page >= 0 {
        Ok((size, page))
    } else {
        Err(AppError::with_message(
            "Size must be > 0 && < 5000 and Page must be >= 0",
            AppErrorType::InvalidRequest,
        ))
    }
}

impl Paged {
    /// The validated `(size, page)` of the listing.
    pub fn get_size_page(&self) -> (r: Result<(i64, i64), AppError>)
        ensures
            size_page_ok(size_or_default(self.size), page_or_default(self.page))
                ==> r == Ok::<(i64, i64), AppError>((size_or_default(self.size), page_or_default(self.page))),
            !size_page_ok(size_or_default(self.size), page_or_default(self.page)) ==> (r matches Err(e) && e.is_invalid_request("Size must be > 0 && < 5000 and Page must be >= 0"@)),
    {
        size_page(self.size, self.page)
    }
}

impl SpecificPaged {
    /// The validated `(size, page)` of the listing.
    pub fn get_size_page(&self) -> (r: Result<(i64, i64), AppError>)
        ensures
            size_page_ok(size_or_default(self.size), page_or_default(self.page))
                ==> r == Ok::<(i64, i64), AppError>((size_or_default(self.size), page_or_default(self.page))),
            !size_page_ok(size_or_default(self.size), page_or_default(self.page)) ==> (r matches Err(e) && e.is_invalid_request("Size must be > 0 && < 5000 and Page must be >= 0"@)),
    {
        size_page(self.size, self.page)
    }

    /// The validated size of the listing: strictly between 0 and 5000.
    pub fn get_size(&self) -> (r: Result<i64, AppError>)
        ensures
            0 < size_or_default(self.size) < 5000 ==> r == Ok::<i64, AppError>(size_or_default(self.size)),
            !(0 < size_or_default(self.size) < 5000) ==> (r matches Err(e) && e.is_invalid_request("Size must be > 0"@)),
    {
        let size = match self.size {
            Some(s) => s,
            None => 100,
        };
        if size > 0 && size < 5000 {
            Ok(size)
        } else {
            Err(AppError::with_message("Size must be > 0", AppErrorType::InvalidRequest))
        }
    }
}

/// The host named in a path (`/speculare/{uuid}`).
#[derive(Debug)]
pub struct GetParams {
    pub uuid: String,
}

/// The host named in a query (`?uuid=`).
#[derive(Debug)]
pub struct HostUuid {
    pub uuid: String,
}

/// Paging parameters of a listing of hosts (`?size=&page=`).
#[derive(Debug)]
pub struct PagedInfo {
    pub size: Option<i64>,
    pub page: Option<i64>,
}

/// Paging and date range of a listing about one host
/// (`?uuid=&size=&page=&min_date=&max_date=`).
#[derive(Debug)]
pub struct PagedInfoSpecific {
    pub uuid: String,
    pub size: Option<i64>,
    pub page: Option<i64>,
    pub min_date: Option<chrono::NaiveDateTime>,
    pub max_date: Option<chrono::NaiveDateTime>,
}

/// `size` (100 when none is given) and `page` (0 when none is given) when
/// the size lies in `lo..=hi`, else an `InvalidRequest` error with `text`.
fn bounded_size_page(size: Option<i64>, page: Option<i64>, lo: i64, hi: i64, text: &str) -> (r: Result<(i64, i64), AppError>)
    ensures
        lo <= size_or_default(size) <= hi
            ==> r == Ok::<(i64, i64), AppError>((size_or_default(size), page_or_default(page))),
        !(lo <= size_or_default(size) <= hi) ==> (r matches Err(e) && e.is_invalid_request(text@)),
{
    let size = match size {
        Some(s) => s,
        None => 100,
    };
    let page = match page {
        Some(p) => p,
        None => 0,
    };
    if lo <= size && size <= hi {
        Ok((size, page))
    } else {
        Err(AppError::with_message(text, AppErrorType::InvalidRequest))
    }
}

impl PagedInfoSpecific {
    /// The `(size, page)` of an I/O statistics listing: the size must lie
    /// in `30..=5000`.
    pub fn iostats_size_page(&self) -> (r: Result<(i64, i64), AppError>)
        ensures
            30 <= size_or_default(self.size) <= 5000
                ==> r == Ok::<(i64, i64), AppError>((size_or_default(self.size), page_or_default(self.page))),
            !(30 <= size_or_default(self.size) <= 5000)
                ==> (r matches Err(e) && e.is_invalid_request("The size parameters must be 30 < size <= 5000"@)),
    {
        bounded_size_page(self.size, self.page, 30, 5000, "The size parameters must be 30 < size <= 5000")
    }

    /// The size of an I/O device count: it must lie in `30..=500`.
    pub fn iostats_count_size(&self) -> (r: Result<i64, AppError>)
        ensures
            30 <= size_or_default(self.size) <= 500 ==> r == Ok::<i64, AppError>(size_or_default(self.size)),
            !(30 <= size_or_default(self.size) <= 500)
                ==> (r matches Err(e) && e.is_invalid_request("The size parameters must be 30 < size <= 500"@)),
    {
        match bounded_size_page(self.size, None, 30, 500, "The size parameters must be 30 < size <= 500") {
            Ok((size, _)) => Ok(size),
            Err(e) => Err(e),
        }
    }
}

impl PagedInfo {
    /// The `(size, page)` of a listing of hosts: the size must lie in
    /// `30..=500`.
    pub fn host_list_size_page(&self) -> (r: Result<(i64, i64), AppError>)
        ensures
            30 <= size_or_default(self.size) <= 500
                ==> r == Ok::<(i64, i64), AppError>((size_or_default(self.size), page_or_default(self.page))),
            !(30 <= size_or_default(self.size) <= 500)
                ==> (r matches Err(e) && e.is_invalid_request("The size parameters must be 30 < size < 500"@)),
    {
        bounded_size_page(self.size, self.page, 30, 500, "The size parameters must be 30 < size < 500")
    }

    /// The `(size, page)` of the listing of all data, for an identified
    /// user: the size must lie in `30..=500`.
    pub fn data_list_size_page(&self) -> (r: Result<(i64, i64), AppError>)
        ensures
            30 <= size_or_default(self.size) <= 500
                ==> r == Ok::<(i64, i64), AppError>((size_or_default(self.size), page_or_default(self.page))),
            !(30 <= size_or_default(self.size) <= 500) ==> (r matches Err(e)
                && e.is_invalid_request("The size parameters can't be bigger than 500 and lesser than 30"@)),
    {
        bounded_size_page(self.size, self.page, 30, 500, "The size parameters can't be bigger than 500 and lesser than 30")
    }
}

/// The login of the identified user, or an `InvalidRequest` error when the
/// request carries no identity.
pub fn identified(identity: Option<String>) -> (r: Result<String, AppError>)
    ensures
        identity matches Some(login) ==> r == Ok::<String, AppError>(login),
        identity is None
            ==> (r matches Err(e) && e.is_invalid_request("You're not allowed to access this resource"@)),
{
    match identity {
        Some(login) => Ok(login),
        None => Err(AppError::with_message("You're not allowed to access this resource", AppErrorType::InvalidRequest)),
    }
}

/// The error answered when the session holds no user.
pub open spec fn is_missing_user(e: AppError) -> bool {
    &&& e.error_type == AppErrorType::InvalidToken
    &&& e.cause is None
    &&& e.message matches Some(m) && m@ == "Missing user_id in the session"@
}

/// The UUID of the session's user, or an `InvalidToken` error when the
/// session holds no user id, or one that is not a UUID.
pub fn get_user_session(session_user: Option<String>) -> (r: Result<u128, AppError>)
    ensures
        (session_user matches Some(s) && parsed_uuid(s@) is Some)
            ==> r == Ok::<u128, AppError>(parsed_uuid(session_user->0@)->0),
        !(session_user matches Some(s) && parsed_uuid(s@) is Some) ==> (r matches Err(e) && is_missing_user(e)),
{
    match session_user {
        Some(id) => match parse_uuid(id.as_str()) {
            Some(u) => Ok(u),
            None => Err(AppError::with_message("Missing user_id in the session", AppErrorType::InvalidToken)),
        },
        None => Err(AppError::with_message("Missing user_id in the session", AppErrorType::InvalidToken)),
    }
}

} // verus!
