//! From what a worker answered to the HTTP reply.

use vstd::prelude::*;
use crate::store::QueryError;

verus! {

/// Status of a reply that carries what was asked for.
pub const STATUS_OK: u16 = 200;

/// Status of a reply to a request whose identifier cannot be read.
pub const STATUS_BAD_REQUEST: u16 = 400;

/// Status of a reply to a request for an article that does not exist.
pub const STATUS_NOT_FOUND: u16 = 404;

/// Status of a reply to a request that failed for any other reason.
pub const STATUS_SERVER_ERROR: u16 = 500;

/// Why an operation never reached a worker, or its answer never came back.
#[derive(Debug, Clone, Copy, PartialEq, Eq, Structural)]
pub enum SendError {
    /// The pool is gone.
    Closed,
    /// No worker took the operation in time.
    Timeout,
}

/// Why an operation failed, other than for a missing row.
#[derive(Debug, Clone, Copy, PartialEq, Eq, Structural)]
pub enum Cause {
    /// The table refused or could not run the statement.
    Query(QueryError),
    /// The operation was not delivered.
    Send(SendError),
}

/// How an operation ended.
#[derive(Debug, Clone, PartialEq, Eq)]
pub enum Outcome<T> {
    Success(T),
    NotFound,
    Failure(Cause),
}

/// What a reply carries.
#[derive(Debug, Clone, PartialEq, Eq)]
pub enum Body<T> {
    /// The article, or the articles, asked for.
    Value(T),
    /// A message that gives no detail of the failure.
    Message(String),
}

/// An HTTP reply: the status and what goes into the JSON body.
#[derive(Debug, Clone, PartialEq, Eq)]
pub struct Reply<T> {
    pub status: u16,
    pub body: Body<T>,
}

/// The outcome that stands for what came back from the pool: the value, a
/// missing row, or a failure with its cause.
pub open spec fn outcome_of<T>(sent: Result<Result<T, QueryError>, SendError>) -> Outcome<T> {
    match sent {
        Ok(Ok(value)) => Outcome::Success(value),
        Ok(Err(QueryError::NotFound)) => Outcome::NotFound,
        Ok(Err(e)) => Outcome::Failure(Cause::Query(e)),
        Err(e) => Outcome::Failure(Cause::Send(e)),
    }
}

/// The outcome of an operation that names no article. No row can be missing
/// for it, so whatever went wrong is a failure.
pub open spec fn outcome_of_plain<T>(sent: Result<Result<T, QueryError>, SendError>) -> Outcome<
    T,
> {
    match sent {
        Ok(Ok(value)) => Outcome::Success(value),
        Ok(Err(e)) => Outcome::Failure(Cause::Query(e)),
        Err(e) => Outcome::Failure(Cause::Send(e)),
    }
}

/// The status that an outcome is reported with.
pub open spec fn status_of<T>(outcome: Outcome<T>) -> u16 {
    match outcome {
        Outcome::Success(_) => STATUS_OK,
        Outcome::NotFound => STATUS_NOT_FOUND,
        Outcome::Failure(_) => STATUS_SERVER_ERROR,
    }
}

/// The message that an outcome without a value is reported with.
pub open spec fn message_of<T>(outcome: Outcome<T>) -> Seq<char> {
    match outcome {
        Outcome::NotFound => "Article not found"@,
        _ => "Something went wrong"@,
    }
}

/// Whether `reply` is the reply to `outcome`.
pub open spec fn replies<T>(reply: Reply<T>, outcome: Outcome<T>) -> bool {
    &&& reply.status == status_of(outcome)
    &&& match outcome {
        Outcome::Success(value) => reply.body == Body::Value(value),
        _ => match reply.body {
            Body::Message(text) => text@ == message_of(outcome),
            Body::Value(_) => false,
        },
    }
}

/// The status tells the three kinds of outcome apart: 200 exactly for a
/// value, 404 exactly for a missing row, 500 for everything else, whether the
/// table failed or the operation was never delivered. The message of a 500
/// reply is the same for every cause.
pub proof fn law_status_by_outcome<T>(sent: Result<Result<T, QueryError>, SendError>)
    ensures
        status_of(outcome_of(sent)) == STATUS_OK <==> sent is Ok && sent->Ok_0 is Ok,
        status_of(outcome_of(sent)) == STATUS_NOT_FOUND <==> sent is Ok && sent->Ok_0
            == Err::<T, QueryError>(QueryError::NotFound),
        status_of(outcome_of(sent)) == STATUS_OK || status_of(outcome_of(sent))
            == STATUS_NOT_FOUND || status_of(outcome_of(sent)) == STATUS_SERVER_ERROR,
        status_of(outcome_of(sent)) == STATUS_SERVER_ERROR ==> message_of(outcome_of(sent))
            == "Something went wrong"@,
{
}

/// Folds the two layers of failure into one outcome.
pub fn collapse<T>(sent: Result<Result<T, QueryError>, SendError>) -> (outcome: Outcome<T>)
    ensures
        outcome == outcome_of(sent),
{
    match sent {
        Ok(Ok(value)) => Outcome::Success(value),
        Ok(Err(QueryError::NotFound)) => Outcome::NotFound,
        Ok(Err(e)) => Outcome::Failure(Cause::Query(e)),
        Err(e) => Outcome::Failure(Cause::Send(e)),
    }
}

/// Folds the two layers of failure into one outcome, for an operation that
/// names no article: a create or a listing.
pub fn collapse_plain<T>(sent: Result<Result<T, QueryError>, SendError>) -> (outcome: Outcome<T>)
    ensures
        outcome == outcome_of_plain(sent),
{
    match sent {
        Ok(Ok(value)) => Outcome::Success(value),
        Ok(Err(e)) => Outcome::Failure(Cause::Query(e)),
        Err(e) => Outcome::Failure(Cause::Send(e)),
    }
}

/// The reply of an endpoint without an identifier: 200 with the value where
/// there is one, and 500 with "Something went wrong" for every failure,
/// whatever its cause.
pub fn reply_plain<T>(sent: Result<Result<T, QueryError>, SendError>) -> (reply: Reply<T>)
    ensures
        match sent {
            Ok(Ok(value)) => reply == (Reply { status: STATUS_OK, body: Body::Value(value) }),
            _ => {
                &&& reply.status == STATUS_SERVER_ERROR
                &&& match reply.body {
                    Body::Message(text) => text@ == "Something went wrong"@,
                    Body::Value(_) => false,
                }
            },
        },
{
    respond(collapse_plain(sent))
}

/// The reply of an endpoint that names an article: 200 with the value, 404
/// with "Article not found" where no row matched, 500 with "Something went
/// wrong" for every other failure.
pub fn reply_by_id<T>(sent: Result<Result<T, QueryError>, SendError>) -> (reply: Reply<T>)
    ensures
        replies(reply, outcome_of(sent)),
{
    respond(collapse(sent))
}

/// The reply to an outcome: 200 with the value, 404 for a missing row, 500
/// for every other failure, whose cause the reply does not reveal.
pub fn respond<T>(outcome: Outcome<T>) -> (reply: Reply<T>)
    ensures
        replies(reply, outcome),
{
    match outcome {
        Outcome::Success(value) => Reply { status: STATUS_OK, body: Body::Value(value) },
        Outcome::NotFound => Reply {
            status: STATUS_NOT_FOUND,
            body: Body::Message("Article not found".to_owned()),
        },
        Outcome::Failure(_) => Reply {
            status: STATUS_SERVER_ERROR,
            body: Body::Message("Something went wrong".to_owned()),
        },
    }
}

} // verus!
