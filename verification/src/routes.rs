//! The endpoints: each turns a request into one operation, hands it to the
//! worker and reports the outcome.

use vstd::prelude::*;
use vstd::string::StringExecFns;
use crate::actors::db::{
    holds_random_id, Create, DbActor, Delete, GetArticles, Handler, Publish, Update,
};
use crate::ident::{is_random_layout, parse_uuid, parsed_uuid};
use crate::models::{Article, ArticleData, ArticleView};
use crate::response::{
    reply_by_id, reply_plain, Body, Reply, SendError, STATUS_BAD_REQUEST, STATUS_NOT_FOUND,
    STATUS_OK, STATUS_SERVER_ERROR,
};
use crate::store::{
    after_delete, after_publish, after_update, edited, has_id, listing, lookup, released, rows_of,
    QueryError,
};

verus! {

/// Whether `reply` reports the answer `want` of the table: 200 with the row,
/// 404 with "Article not found" where no row matched, 500 with "Something
/// went wrong" otherwise.
pub open spec fn shows(reply: Reply<Article>, want: Result<ArticleView, QueryError>) -> bool {
    match want {
        Ok(row) => {
            &&& reply.status == STATUS_OK
            &&& match reply.body {
                Body::Value(article) => article@ == row,
                Body::Message(_) => false,
            }
        },
        Err(e) => {
            &&& reply.status == if e == QueryError::NotFound {
                STATUS_NOT_FOUND
            } else {
                STATUS_SERVER_ERROR
            }
            &&& match reply.body {
                Body::Value(_) => false,
                Body::Message(text) => text@ == if e == QueryError::NotFound {
                    "Article not found"@
                } else {
                    "Something went wrong"@
                },
            }
        },
    }
}

/// Whether `res` is what a request is met with once its identifier was read
/// as `parsed`: the identifier itself, or a 400 reply with "Invalid
/// identifier" where there is none.
pub open spec fn admits(res: Result<u128, Reply<Article>>, parsed: Option<u128>) -> bool {
    match parsed {
        Some(id) => res == Ok::<u128, Reply<Article>>(id),
        None => match res {
            Ok(_) => false,
            Err(reply) => {
                &&& reply.status == STATUS_BAD_REQUEST
                &&& match reply.body {
                    Body::Value(_) => false,
                    Body::Message(text) => text@ == "Invalid identifier"@,
                }
            },
        },
    }
}

/// Lets a request through with the identifier that was read from its path,
/// or turns it away before it reaches a worker.
pub fn accept_id(parsed: Option<u128>) -> (res: Result<u128, Reply<Article>>)
    ensures
        admits(res, parsed),
{
    match parsed {
        Some(id) => Ok(id),
        None => Err(
            Reply {
                status: STATUS_BAD_REQUEST,
                body: Body::Message("Invalid identifier".to_owned()),
            },
        ),
    }
}

/// Reads the identifier in a path: a UUID in any of its written forms.
pub fn path_id(text: &str) -> (res: Result<u128, Reply<Article>>)
    ensures
        admits(res, parsed_uuid(text@)),
{
    accept_id(parse_uuid(text))
}

/// `POST /articles`: stores a new article.
///
/// A 200 reply carries the new row: the given title and body, unpublished,
/// under an identifier that no row had, and the row is last in the table. The
/// only other reply is 500, when the identifier drawn was taken; the table is
/// then unchanged and holds a row with an identifier of random layout. On a
/// table without such a row the reply is 200.
pub fn create_article(article: ArticleData, db: &mut DbActor) -> (reply: Reply<Article>)
    ensures
        final(db).0.wf(),
        match reply.body {
            Body::Value(created) => {
                &&& reply.status == STATUS_OK
                &&& created@ == ArticleView {
                    id: created.id,
                    title: article.title@,
                    body: article.body@,
                    published: false,
                }
                &&& is_random_layout(created.id)
                &&& !has_id(old(db).0@, created.id)
                &&& final(db).0@ == old(db).0@.push(created@)
            },
            Body::Message(text) => {
                &&& reply.status == STATUS_SERVER_ERROR
                &&& text@ == "Something went wrong"@
                &&& final(db).0@ == old(db).0@
                &&& holds_random_id(old(db).0@)
            },
        },
{
    let msg = Create { title: article.title, body: article.body };
    let answer = Handler::<Create>::handle(db, msg);
    reply_plain(Ok::<_, SendError>(answer))
}

/// `PATCH /articles/{id}`: replaces title and body of the article with `id`.
pub fn update_article(id: u128, article: ArticleData, db: &mut DbActor) -> (reply: Reply<Article>)
    ensures
        final(db).0.wf(),
        final(db).0@ == after_update(old(db).0@, id, article.title@, article.body@),
        shows(
            reply,
            match lookup(old(db).0@, id) {
                Ok(row) => Ok(edited(row, article.title@, article.body@)),
                Err(e) => Err(e),
            },
        ),
{
    let msg = Update { id, title: article.title, body: article.body };
    let answer = Handler::<Update>::handle(db, msg);
    reply_by_id(Ok::<_, SendError>(answer))
}

/// `DELETE /articles/{id}`: removes the article with `id` and reports what it
/// held.
pub fn delete_article(id: u128, db: &mut DbActor) -> (reply: Reply<Article>)
    ensures
        final(db).0.wf(),
        final(db).0@ == after_delete(old(db).0@, id),
        shows(reply, lookup(old(db).0@, id)),
{
    let answer = Handler::<Delete>::handle(db, Delete { id });
    reply_by_id(Ok::<_, SendError>(answer))
}

/// `POST /articles/{id}/publish`: marks the article with `id` as published.
pub fn publish_article(id: u128, db: &mut DbActor) -> (reply: Reply<Article>)
    ensures
        final(db).0.wf(),
        final(db).0@ == after_publish(old(db).0@, id),
        shows(
            reply,
            match lookup(old(db).0@, id) {
                Ok(row) => Ok(released(row)),
                Err(e) => Err(e),
            },
        ),
{
    let answer = Handler::<Publish>::handle(db, Publish { id });
    reply_by_id(Ok::<_, SendError>(answer))
}

/// `GET /articles`: the published articles, in table order.
pub fn get_articles(db: &mut DbActor) -> (reply: Reply<Vec<Article>>)
    ensures
        final(db).0.wf(),
        final(db).0@ == old(db).0@,
        reply.status == STATUS_OK,
        match reply.body {
            Body::Value(articles) => rows_of(articles@) == listing(old(db).0@),
            Body::Message(_) => false,
        },
{
    let answer = Handler::<GetArticles>::handle(db, GetArticles);
    reply_plain(Ok::<_, SendError>(answer))
}

/// Whom the greeting names: `name`, or the world.
pub open spec fn greeted(name: Option<&str>) -> Seq<char> {
    match name {
        Some(name) => name@,
        None => "World"@,
    }
}

/// `GET /`: a plain-text greeting.
pub fn greet(name: Option<&str>) -> (greeting: String)
    ensures
        greeting@ == "Hello "@ + greeted(name) + "!"@,
{
    let mut greeting = "Hello ".to_owned();
    match name {
        Some(name) => greeting.append(name),
        None => greeting.append("World"),
    }
    greeting.append("!");
    greeting
}

} // verus!
