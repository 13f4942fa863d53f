//! The table worker and the operations it accepts.

use vstd::prelude::*;
use crate::ident::{fresh_id, is_random_layout};
use crate::models::{Article, ArticleView, NewArticle};
use crate::store::{
    after_delete, after_publish, after_update, answers, edited, has_id, index_of, listing, lookup,
    released, rows_of, ArticleTable, QueryError,
};

verus! {

/// A worker: it owns a handle to the table and runs one operation at a time.
#[derive(Debug, Clone, PartialEq, Eq)]
pub struct DbActor(pub ArticleTable);

/// Stores a new, unpublished article under a fresh identifier.
#[derive(Debug, Clone, PartialEq, Eq)]
pub struct Create {
    pub title: String,
    pub body: String,
}

/// Replaces title and body of the article with `id`.
#[derive(Debug, Clone, PartialEq, Eq)]
pub struct Update {
    pub id: u128,
    pub title: String,
    pub body: String,
}

/// Removes the article with `id`.
#[derive(Debug, Clone, Copy, PartialEq, Eq, Structural)]
pub struct Delete {
    pub id: u128,
}

/// Marks the article with `id` as published.
#[derive(Debug, Clone, Copy, PartialEq, Eq, Structural)]
pub struct Publish {
    pub id: u128,
}

/// Lists the published articles.
#[derive(Debug, Clone, Copy, PartialEq, Eq, Structural)]
pub struct GetArticles;

impl Create {
    /// The row to insert for this operation: its title and body under a
    /// freshly drawn identifier.
    pub fn into_row(self) -> (row: NewArticle)
        ensures
            row.title@ == self.title@,
            row.body@ == self.body@,
            is_random_layout(row.id),
    {
        NewArticle { id: fresh_id(), title: self.title, body: self.body }
    }
}

/// Whether some row of `rows` has an identifier of random layout. Only such
/// a row can stand in the way of a create.
pub open spec fn holds_random_id(rows: Seq<ArticleView>) -> bool {
    exists|i: int| 0 <= i < rows.len() && is_random_layout((#[trigger] rows[i]).id)
}

/// The default number of workers in a pool.
pub const DEFAULT_WORKERS: usize = 5;

/// A worker that can run operations of type `M`.
pub trait Handler<M> {
    /// What the operation answers.
    type Result;

    /// How the answer and the worker afterwards depend on the worker before
    /// and on the operation.
    spec fn handled(before: &Self, msg: &M, after: &Self, result: &Self::Result) -> bool;

    /// Runs `msg` and answers it.
    fn handle(&mut self, msg: M) -> (result: Self::Result)
        ensures
            Self::handled(old(self), &msg, final(self), &result),
    ;
}

impl Handler<Create> for DbActor {
    type Result = Result<Article, QueryError>;

    /// On success the new row is last in the table: the given title and body,
    /// unpublished, under an identifier of random layout that no row had. The
    /// only failure is a conflict, when the identifier drawn was taken; the
    /// table is then unchanged, and it holds a row with an identifier of
    /// random layout. So a create succeeds on every table without such a row,
    /// the empty table among them.
    open spec fn handled(
        before: &Self,
        msg: &Create,
        after: &Self,
        result: &Result<Article, QueryError>,
    ) -> bool {
        &&& after.0.wf()
        &&& match *result {
            Ok(article) => {
                &&& article@ == ArticleView {
                    id: article.id,
                    title: msg.title@,
                    body: msg.body@,
                    published: false,
                }
                &&& is_random_layout(article.id)
                &&& !has_id(before.0@, article.id)
                &&& after.0@ == before.0@.push(article@)
            },
            Err(e) => {
                &&& e == QueryError::Conflict
                &&& after.0@ == before.0@
                &&& holds_random_id(before.0@)
            },
        }
    }

    fn handle(&mut self, msg: Create) -> (result: Result<Article, QueryError>) {
        let new_article = msg.into_row();
        proof {
            if has_id(self.0@, new_article.id) {
                let at = index_of(self.0@, new_article.id);
                assert(is_random_layout(self.0@[at].id));
            }
        }
        self.0.insert(new_article)
    }
}

impl Handler<Update> for DbActor {
    type Result = Result<Article, QueryError>;

    open spec fn handled(
        before: &Self,
        msg: &Update,
        after: &Self,
        result: &Result<Article, QueryError>,
    ) -> bool {
        &&& after.0.wf()
        &&& after.0@ == after_update(before.0@, msg.id, msg.title@, msg.body@)
        &&& answers(
            *result,
            match lookup(before.0@, msg.id) {
                Ok(row) => Ok(edited(row, msg.title@, msg.body@)),
                Err(e) => Err(e),
            },
        )
    }

    fn handle(&mut self, msg: Update) -> (result: Result<Article, QueryError>) {
        self.0.update(msg.id, msg.title, msg.body)
    }
}

impl Handler<Delete> for DbActor {
    type Result = Result<Article, QueryError>;

    open spec fn handled(
        before: &Self,
        msg: &Delete,
        after: &Self,
        result: &Result<Article, QueryError>,
    ) -> bool {
        &&& after.0.wf()
        &&& after.0@ == after_delete(before.0@, msg.id)
        &&& answers(*result, lookup(before.0@, msg.id))
    }

    fn handle(&mut self, msg: Delete) -> (result: Result<Article, QueryError>) {
        self.0.delete(msg.id)
    }
}

impl Handler<Publish> for DbActor {
    type Result = Result<Article, QueryError>;

    open spec fn handled(
        before: &Self,
        msg: &Publish,
        after: &Self,
        result: &Result<Article, QueryError>,
    ) -> bool {
        &&& after.0.wf()
        &&& after.0@ == after_publish(before.0@, msg.id)
        &&& answers(
            *result,
            match lookup(before.0@, msg.id) {
                Ok(row) => Ok(released(row)),
                Err(e) => Err(e),
            },
        )
    }

    fn handle(&mut self, msg: Publish) -> (result: Result<Article, QueryError>) {
        self.0.publish(msg.id)
    }
}

impl Handler<GetArticles> for DbActor {
    type Result = Result<Vec<Article>, QueryError>;

    open spec fn handled(
        before: &Self,
        msg: &GetArticles,
        after: &Self,
        result: &Result<Vec<Article>, QueryError>,
    ) -> bool {
        &&& after.0.wf()
        &&& after.0@ == before.0@
        &&& match *result {
            Ok(articles) => rows_of(articles@) == listing(before.0@),
            Err(_) => false,
        }
    }

    fn handle(&mut self, _msg: GetArticles) -> (result: Result<Vec<Article>, QueryError>) {
        Ok(self.0.list_published())
    }
}

} // verus!
