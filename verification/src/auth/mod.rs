//! The guards placed in front of the API routes. Each guard is a machine
//! that, for one request, asks its host for the facts it needs (the session,
//! the query, a database connection, a cache entry, a database answer) one at
//! a time, and ends by passing the request on or refusing it.

pub mod alert_host_owned;
pub mod alert_owned;
pub mod check_sessions;
pub mod sptk_validator;
pub mod check_cookies;
