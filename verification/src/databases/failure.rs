//! How the error output of a database client tool is read: whether a failed
//! connection check only means that the server cannot be reached, and which
//! kind of failure a dump or a restore met.
use vstd::prelude::*;

use crate::text::{contains_text, str_contains};

verus! {

/// The kind of failure of a dump or a restore, read from the tool's error
/// output.
#[derive(Debug, Clone, Copy, PartialEq, Eq, Structural)]
pub enum ToolFailure {
    /// The server could not be reached.
    ConnectionFailed,
    /// The user lacks the rights.
    PermissionDenied,
    /// Anything else; the exit code and the output tell more.
    Other,
}

/// What a failed PostgreSQL client run reports: a failed connection where the
/// output mentions `connection to server` and `failed`, missing rights where
/// it mentions `permission denied`.
pub open spec fn pg_failure_of(stderr: Seq<char>) -> ToolFailure {
    if contains_text(stderr, "connection to server"@) && contains_text(stderr, "failed"@) {
        ToolFailure::ConnectionFailed
    } else if contains_text(stderr, "permission denied"@) {
        ToolFailure::PermissionDenied
    } else {
        ToolFailure::Other
    }
}

/// The kind of failure of a PostgreSQL client run; see `pg_failure_of`.
pub fn classify_pg_failure(stderr: &str) -> (r: ToolFailure)
    ensures
        r == pg_failure_of(stderr@),
{
    if str_contains(stderr, "connection to server") && str_contains(stderr, "failed") {
        ToolFailure::ConnectionFailed
    } else if str_contains(stderr, "permission denied") {
        ToolFailure::PermissionDenied
    } else {
        ToolFailure::Other
    }
}

/// Whether a failed PostgreSQL connection check only means that the server
/// is not reachable (the check then answers "not connected" rather than an
/// error): a time-out, or a connection that could not be made.
pub open spec fn pg_unreachable(stderr: Seq<char>) -> bool {
    contains_text(stderr, "timeout"@) || contains_text(stderr, "could not connect"@)
        || contains_text(stderr, "connection to server"@)
}

/// See `pg_unreachable`.
pub fn is_pg_unreachable(stderr: &str) -> (r: bool)
    ensures
        r == pg_unreachable(stderr@),
{
    str_contains(stderr, "timeout") || str_contains(stderr, "could not connect") || str_contains(
        stderr,
        "connection to server",
    )
}

/// Whether a failed MySQL or MariaDB connection check only means that the
/// server is not reachable: a time-out, a refused connection or refused
/// credentials.
pub open spec fn mysql_unreachable(stderr: Seq<char>) -> bool {
    contains_text(stderr, "timeout"@) || contains_text(stderr, "Can't connect"@) || contains_text(
        stderr,
        "Access denied"@,
    )
}

/// See `mysql_unreachable`.
pub fn is_mysql_unreachable(stderr: &str) -> (r: bool)
    ensures
        r == mysql_unreachable(stderr@),
{
    str_contains(stderr, "timeout") || str_contains(stderr, "Can't connect") || str_contains(stderr, "Access denied")
}

/// What a failed MySQL or MariaDB client run reports: a failed connection
/// where the output mentions `connect_text` (`Can't connect`, or the longer
/// `Can't connect to MySQL server` of a restore), refused rights where it
/// mentions `Access denied`.
pub open spec fn mysql_failure_of(stderr: Seq<char>, connect_text: Seq<char>) -> ToolFailure {
    if contains_text(stderr, connect_text) {
        ToolFailure::ConnectionFailed
    } else if contains_text(stderr, "Access denied"@) {
        ToolFailure::PermissionDenied
    } else {
        ToolFailure::Other
    }
}

/// The kind of failure of a MySQL or MariaDB client run; see
/// `mysql_failure_of`.
pub fn classify_mysql_failure(stderr: &str, connect_text: &str) -> (r: ToolFailure)
    ensures
        r == mysql_failure_of(stderr@, connect_text@),
{
    if str_contains(stderr, connect_text) {
        ToolFailure::ConnectionFailed
    } else if str_contains(stderr, "Access denied") {
        ToolFailure::PermissionDenied
    } else {
        ToolFailure::Other
    }
}

} // verus!
