use articles::response::{
    collapse, collapse_plain, reply_by_id, reply_plain, respond, Body, Cause, Outcome, Reply, SendError, STATUS_BAD_REQUEST,
    STATUS_NOT_FOUND, STATUS_OK, STATUS_SERVER_ERROR,
};
use articles::store::QueryError;

#[test]
fn status_codes_have_their_http_values() {
    assert_eq!(STATUS_OK, 200);
    assert_eq!(STATUS_BAD_REQUEST, 400);
    assert_eq!(STATUS_NOT_FOUND, 404);
    assert_eq!(STATUS_SERVER_ERROR, 500);
}

#[test]
fn collapse_keeps_the_value() {
    assert_eq!(collapse(Ok(Ok(3u8))), Outcome::Success(3u8));
}

#[test]
fn collapse_tells_a_missing_row_from_other_failures() {
    assert_eq!(collapse::<u8>(Ok(Err(QueryError::NotFound))), Outcome::NotFound);
    assert_eq!(
        collapse::<u8>(Ok(Err(QueryError::Conflict))),
        Outcome::Failure(Cause::Query(QueryError::Conflict))
    );
    assert_eq!(
        collapse::<u8>(Ok(Err(QueryError::Unavailable))),
        Outcome::Failure(Cause::Query(QueryError::Unavailable))
    );
}

#[test]
fn collapse_reports_an_undelivered_operation_as_failure() {
    assert_eq!(
        collapse::<u8>(Err(SendError::Closed)),
        Outcome::Failure(Cause::Send(SendError::Closed))
    );
    assert_eq!(
        collapse::<u8>(Err(SendError::Timeout)),
        Outcome::Failure(Cause::Send(SendError::Timeout))
    );
}

#[test]
fn respond_to_success_is_200_with_the_value() {
    assert_eq!(
        respond(Outcome::Success(vec![1u8, 2u8])),
        Reply { status: 200, body: Body::Value(vec![1u8, 2u8]) }
    );
}

#[test]
fn respond_to_not_found_is_404_with_its_message() {
    assert_eq!(
        respond::<u8>(Outcome::NotFound),
        Reply { status: 404, body: Body::Message("Article not found".to_string()) }
    );
}

#[test]
fn respond_to_any_failure_is_500_without_detail() {
    let causes = vec![
        Cause::Query(QueryError::Conflict),
        Cause::Query(QueryError::Unavailable),
        Cause::Send(SendError::Closed),
        Cause::Send(SendError::Timeout),
    ];
    for cause in causes {
        assert_eq!(
            respond::<u8>(Outcome::Failure(cause)),
            Reply { status: 500, body: Body::Message("Something went wrong".to_string()) }
        );
    }
}

#[test]
fn collapse_plain_knows_no_missing_row() {
    assert_eq!(collapse_plain(Ok(Ok(3u8))), Outcome::Success(3u8));
    assert_eq!(
        collapse_plain::<u8>(Ok(Err(QueryError::NotFound))),
        Outcome::Failure(Cause::Query(QueryError::NotFound))
    );
    assert_eq!(
        collapse_plain::<u8>(Ok(Err(QueryError::Conflict))),
        Outcome::Failure(Cause::Query(QueryError::Conflict))
    );
    assert_eq!(
        collapse_plain::<u8>(Err(SendError::Closed)),
        Outcome::Failure(Cause::Send(SendError::Closed))
    );
}

#[test]
fn reply_plain_is_200_with_the_value() {
    assert_eq!(
        reply_plain(Ok(Ok(vec![1u8, 2u8]))),
        Reply { status: 200, body: Body::Value(vec![1u8, 2u8]) }
    );
}

#[test]
fn reply_plain_is_500_for_every_failure() {
    let wrong: Reply<u8> =
        Reply { status: 500, body: Body::Message("Something went wrong".to_string()) };
    assert_eq!(reply_plain::<u8>(Ok(Err(QueryError::NotFound))), wrong);
    assert_eq!(reply_plain::<u8>(Ok(Err(QueryError::Conflict))), wrong);
    assert_eq!(reply_plain::<u8>(Ok(Err(QueryError::Unavailable))), wrong);
    assert_eq!(reply_plain::<u8>(Err(SendError::Closed)), wrong);
    assert_eq!(reply_plain::<u8>(Err(SendError::Timeout)), wrong);
}

#[test]
fn reply_by_id_tells_a_missing_row_from_other_failures() {
    assert_eq!(reply_by_id(Ok(Ok(7u8))), Reply { status: 200, body: Body::Value(7u8) });
    assert_eq!(
        reply_by_id::<u8>(Ok(Err(QueryError::NotFound))),
        Reply { status: 404, body: Body::Message("Article not found".to_string()) }
    );
    let wrong: Reply<u8> =
        Reply { status: 500, body: Body::Message("Something went wrong".to_string()) };
    assert_eq!(reply_by_id::<u8>(Ok(Err(QueryError::Conflict))), wrong);
    assert_eq!(reply_by_id::<u8>(Ok(Err(QueryError::Unavailable))), wrong);
    assert_eq!(reply_by_id::<u8>(Err(SendError::Closed)), wrong);
    assert_eq!(reply_by_id::<u8>(Err(SendError::Timeout)), wrong);
}
