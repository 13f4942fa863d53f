//! The table of articles: rows in insertion order, at most one per identifier.

use vstd::prelude::*;
use crate::models::{Article, ArticleView, NewArticle};

verus! {

/// Why a statement against the table did not yield a row.
#[derive(Debug, Clone, Copy, PartialEq, Eq, Structural)]
pub enum QueryError {
    /// No row matched the identifier.
    NotFound,
    /// The statement would have broken a constraint of the table.
    Conflict,
    /// The table could not be reached.
    Unavailable,
}

/// The rows that a sequence of articles stands for.
pub open spec fn rows_of(articles: Seq<Article>) -> Seq<ArticleView> {
    articles.map_values(|a: Article| a@)
}

/// Whether some row of `rows` carries `id`.
pub open spec fn has_id(rows: Seq<ArticleView>, id: u128) -> bool {
    exists|i: int| 0 <= i < rows.len() && (#[trigger] rows[i]).id == id
}

/// The place of a row that carries `id`; meaningful when `has_id(rows, id)`.
pub open spec fn index_of(rows: Seq<ArticleView>, id: u128) -> int {
    choose|i: int| 0 <= i < rows.len() && (#[trigger] rows[i]).id == id
}

/// The row that carries `id`; meaningful when `has_id(rows, id)`.
pub open spec fn row_of(rows: Seq<ArticleView>, id: u128) -> ArticleView {
    rows[index_of(rows, id)]
}

/// No two rows share an identifier.
pub open spec fn distinct_ids(rows: Seq<ArticleView>) -> bool {
    forall|i: int, j: int|
        0 <= i < j < rows.len() ==> (#[trigger] rows[i]).id != (#[trigger] rows[j]).id
}

/// `row` with a new title and body; identifier and flag stay.
pub open spec fn edited(row: ArticleView, title: Seq<char>, body: Seq<char>) -> ArticleView {
    ArticleView { title, body, ..row }
}

/// `row` with the published flag set; everything else stays.
pub open spec fn released(row: ArticleView) -> ArticleView {
    ArticleView { published: true, ..row }
}

/// The published rows of `rows`, in table order.
pub open spec fn listing(rows: Seq<ArticleView>) -> Seq<ArticleView> {
    rows.filter(|row: ArticleView| row.published)
}

/// Whether the executable answer `got` is the answer `want` of the model.
pub open spec fn answers(
    got: Result<Article, QueryError>,
    want: Result<ArticleView, QueryError>,
) -> bool {
    match (got, want) {
        (Ok(article), Ok(row)) => article@ == row,
        (Err(e), Err(f)) => e == f,
        _ => false,
    }
}

/// What a lookup of `id` answers.
pub open spec fn lookup(rows: Seq<ArticleView>, id: u128) -> Result<ArticleView, QueryError> {
    if has_id(rows, id) {
        Ok(row_of(rows, id))
    } else {
        Err(QueryError::NotFound)
    }
}

/// The table after an insert of `row`: appended, unless the identifier is taken.
pub open spec fn after_insert(rows: Seq<ArticleView>, row: ArticleView) -> Seq<ArticleView> {
    if has_id(rows, row.id) {
        rows
    } else {
        rows.push(row)
    }
}

/// The table after an update of `id`: that row edited, or nothing changed.
pub open spec fn after_update(
    rows: Seq<ArticleView>,
    id: u128,
    title: Seq<char>,
    body: Seq<char>,
) -> Seq<ArticleView> {
    if has_id(rows, id) {
        rows.update(index_of(rows, id), edited(row_of(rows, id), title, body))
    } else {
        rows
    }
}

/// The table after a delete of `id`: that row gone, or nothing changed.
pub open spec fn after_delete(rows: Seq<ArticleView>, id: u128) -> Seq<ArticleView> {
    if has_id(rows, id) {
        rows.remove(index_of(rows, id))
    } else {
        rows
    }
}

/// The table after a publish of `id`: that row released, or nothing changed.
pub open spec fn after_publish(rows: Seq<ArticleView>, id: u128) -> Seq<ArticleView> {
    if has_id(rows, id) {
        rows.update(index_of(rows, id), released(row_of(rows, id)))
    } else {
        rows
    }
}

/// With distinct identifiers, the row that carries `id` is the only one.
pub proof fn lemma_index_unique(rows: Seq<ArticleView>, id: u128, i: int)
    requires
        distinct_ids(rows),
        0 <= i < rows.len(),
        rows[i].id == id,
    ensures
        has_id(rows, id),
        index_of(rows, id) == i,
        row_of(rows, id) == rows[i],
{
    let j = index_of(rows, id);
    assert(0 <= j < rows.len() && rows[j].id == id);
    if j < i {
        assert(rows[j].id != rows[i].id);
    } else if i < j {
        assert(rows[i].id != rows[j].id);
    }
}

/// Replacing a row by one with the same identifier keeps the identifiers
/// distinct and the row in its place.
pub proof fn lemma_replace_keeps_ids(rows: Seq<ArticleView>, i: int, row: ArticleView)
    requires
        distinct_ids(rows),
        0 <= i < rows.len(),
        rows[i].id == row.id,
    ensures
        distinct_ids(rows.update(i, row)),
        has_id(rows.update(i, row), row.id),
        index_of(rows.update(i, row), row.id) == i,
        row_of(rows.update(i, row), row.id) == row,
{
    let after = rows.update(i, row);
    assert forall|a: int, b: int| 0 <= a < b < after.len() implies (#[trigger] after[a]).id != (
    #[trigger] after[b]).id by {
        assert(after[a].id == rows[a].id);
        assert(after[b].id == rows[b].id);
    }
    lemma_index_unique(after, row.id, i);
}

/// Replacing an unpublished row by an unpublished row leaves the listing as
/// it was.
pub proof fn lemma_listing_skips_unpublished(rows: Seq<ArticleView>, i: int, row: ArticleView)
    requires
        0 <= i < rows.len(),
        !rows[i].published,
        !row.published,
    ensures
        listing(rows.update(i, row)) == listing(rows),
    decreases rows.len(),
{
    let after = rows.update(i, row);
    let init = rows.drop_last();
    assert(init.push(rows.last()) =~= rows);
    lemma_listing_push(init, rows.last());
    if i == rows.len() - 1 {
        assert(init.push(row) =~= after);
        lemma_listing_push(init, row);
    } else {
        assert(init.update(i, row).push(rows.last()) =~= after);
        lemma_listing_push(init.update(i, row), rows.last());
        lemma_listing_skips_unpublished(init, i, row);
    }
}

/// Listing one more row appends it when it is published and changes nothing
/// when it is not.
pub proof fn lemma_listing_push(rows: Seq<ArticleView>, row: ArticleView)
    ensures
        listing(rows.push(row)) == if row.published {
            listing(rows).push(row)
        } else {
            listing(rows)
        },
{
    reveal(Seq::filter);
    assert(rows.push(row).drop_last() =~= rows);
}

/// An in-memory table of articles.
#[derive(Debug, PartialEq, Eq)]
pub struct ArticleTable {
    rows: Vec<Article>,
}

impl View for ArticleTable {
    type V = Seq<ArticleView>;

    closed spec fn view(&self) -> Seq<ArticleView> {
        rows_of(self.rows@)
    }
}

impl Clone for ArticleTable {
    /// A table with copies of the same rows in the same order.
    fn clone(&self) -> (copy: ArticleTable)
        ensures
            copy@ == self@,
    {
        let mut rows: Vec<Article> = Vec::new();
        let mut i: usize = 0;
        while i < self.rows.len()
            invariant
                i <= self.rows.len(),
                rows_of(rows@) =~= self@.take(i as int),
            decreases self.rows.len() - i,
        {
            let ghost before = rows_of(rows@);
            let copy = self.rows[i].duplicate();
            rows.push(copy);
            assert(rows_of(rows@) =~= before.push(self@[i as int]));
            assert(self@.take(i + 1) =~= self@.take(i as int).push(self@[i as int]));
            i += 1;
        }
        proof {
            use_type_invariant(self);
            assert(self@.take(i as int) =~= self@);
        }
        ArticleTable { rows }
    }
}

impl ArticleTable {
    /// The table's invariant: identifiers are unique.
    #[verifier::type_invariant]
    spec fn inv(&self) -> bool {
        distinct_ids(rows_of(self.rows@))
    }

    /// What holds of every table: identifiers are unique.
    pub open spec fn wf(&self) -> bool {
        distinct_ids(self@)
    }

    /// An empty table.
    pub fn new() -> (table: ArticleTable)
        ensures
            table@ == Seq::<ArticleView>::empty(),
            table.wf(),
    {
        let table = ArticleTable { rows: Vec::new() };
        assert(table@ =~= Seq::<ArticleView>::empty());
        table
    }

    /// The number of rows.
    pub fn len(&self) -> (n: usize)
        ensures
            self.wf(),
            n == self@.len(),
    {
        proof {
            use_type_invariant(self);
        }
        self.rows.len()
    }

    /// Where the row with `id` stands, if there is one.
    pub fn position(&self, id: u128) -> (found: Option<usize>)
        ensures
            self.wf(),
            match found {
                Some(i) => has_id(self@, id) && i as int == index_of(self@, id),
                None => !has_id(self@, id),
            },
    {
        proof {
            use_type_invariant(&*self);
        }
        let mut i: usize = 0;
        while i < self.rows.len()
            invariant
                i <= self.rows.len(),
                distinct_ids(self@),
                forall|k: int| 0 <= k < i ==> (#[trigger] self@[k]).id != id,
            decreases self.rows.len() - i,
        {
            if self.rows[i].id == id {
                proof {
                    lemma_index_unique(self@, id, i as int);
                }
                return Some(i);
            }
            i += 1;
        }
        None
    }

    /// A copy of the row with `id`.
    pub fn find(&self, id: u128) -> (found: Result<Article, QueryError>)
        ensures
            self.wf(),
            answers(found, lookup(self@, id)),
    {
        match self.position(id) {
            Some(i) => Ok(self.rows[i].duplicate()),
            None => Err(QueryError::NotFound),
        }
    }

    /// Appends `row` as an unpublished article, unless its identifier is
    /// taken: then the table stays as it is and the insert is a conflict.
    pub fn insert(&mut self, row: NewArticle) -> (res: Result<Article, QueryError>)
        ensures
            final(self).wf(),
            final(self)@ == after_insert(old(self)@, row.row()),
            answers(
                res,
                if has_id(old(self)@, row.id) {
                    Err(QueryError::Conflict)
                } else {
                    Ok(row.row())
                },
            ),
    {
        match self.position(row.id) {
            Some(_) => Err(QueryError::Conflict),
            None => {
                let article = row.into_article();
                let copy = article.duplicate();
                proof {
                    use_type_invariant(&*self);
                    assert(rows_of(self.rows@.push(article)) =~= self@.push(article@));
                }
                let mut rows: Vec<Article> = Vec::new();
                std::mem::swap(&mut self.rows, &mut rows);
                rows.push(article);
                std::mem::swap(&mut self.rows, &mut rows);
                assert(self@ =~= old(self)@.push(copy@));
                Ok(copy)
            },
        }
    }

    /// Puts `article` in the place of the row that has its identifier.
    fn put(&mut self, i: usize, article: Article)
        requires
            i < old(self)@.len(),
            old(self)@[i as int].id == article.id,
        ensures
            final(self).wf(),
            final(self)@ == old(self)@.update(i as int, article@),
            has_id(final(self)@, article.id),
            index_of(final(self)@, article.id) == i,
    {
        proof {
            use_type_invariant(&*self);
            lemma_replace_keeps_ids(self@, i as int, article@);
            assert(rows_of(self.rows@.update(i as int, article)) =~= self@.update(
                i as int,
                article@,
            ));
        }
        let mut rows: Vec<Article> = Vec::new();
        std::mem::swap(&mut self.rows, &mut rows);
        rows.set(i, article);
        std::mem::swap(&mut self.rows, &mut rows);
    }

    /// Replaces title and body of the row with `id` and returns the new row.
    pub fn update(&mut self, id: u128, title: String, body: String) -> (res: Result<
        Article,
        QueryError,
    >)
        ensures
            final(self).wf(),
            final(self)@ == after_update(old(self)@, id, title@, body@),
            answers(res, lookup(final(self)@, id)),
            answers(
                res,
                match lookup(old(self)@, id) {
                    Ok(row) => Ok(edited(row, title@, body@)),
                    Err(e) => Err(e),
                },
            ),
    {
        match self.position(id) {
            Some(i) => {
                let article = Article { id, title, body, published: self.rows[i].published };
                let copy = article.duplicate();
                self.put(i, article);
                Ok(copy)
            },
            None => Err(QueryError::NotFound),
        }
    }

    /// Removes the row with `id` and returns what it held.
    pub fn delete(&mut self, id: u128) -> (res: Result<Article, QueryError>)
        ensures
            final(self).wf(),
            final(self)@ == after_delete(old(self)@, id),
            answers(res, lookup(old(self)@, id)),
            !has_id(final(self)@, id),
    {
        match self.position(id) {
            Some(i) => {
                proof {
                    use_type_invariant(&*self);
                    lemma_remove_forgets(self@, id);
                    assert(rows_of(self.rows@.remove(i as int)) =~= self@.remove(i as int));
                }
                let mut rows: Vec<Article> = Vec::new();
                std::mem::swap(&mut self.rows, &mut rows);
                let article = rows.remove(i);
                std::mem::swap(&mut self.rows, &mut rows);
                assert(self@ =~= old(self)@.remove(i as int));
                Ok(article)
            },
            None => Err(QueryError::NotFound),
        }
    }

    /// Sets the published flag of the row with `id` and returns the new row.
    pub fn publish(&mut self, id: u128) -> (res: Result<Article, QueryError>)
        ensures
            final(self).wf(),
            final(self)@ == after_publish(old(self)@, id),
            answers(res, lookup(final(self)@, id)),
            answers(
                res,
                match lookup(old(self)@, id) {
                    Ok(row) => Ok(released(row)),
                    Err(e) => Err(e),
                },
            ),
    {
        match self.position(id) {
            Some(i) => {
                let article = Article {
                    id,
                    title: self.rows[i].title.clone(),
                    body: self.rows[i].body.clone(),
                    published: true,
                };
                let copy = article.duplicate();
                self.put(i, article);
                Ok(copy)
            },
            None => Err(QueryError::NotFound),
        }
    }

    /// Copies of the published rows, in table order.
    pub fn list_published(&self) -> (out: Vec<Article>)
        ensures
            self.wf(),
            rows_of(out@) == listing(self@),
    {
        let mut out: Vec<Article> = Vec::new();
        let mut i: usize = 0;
        proof {
            use_type_invariant(&*self);
            reveal(Seq::filter);
            assert(self@.take(0) =~= Seq::<ArticleView>::empty());
            assert(rows_of(out@) =~= listing(self@.take(0)));
        }
        while i < self.rows.len()
            invariant
                i <= self.rows.len(),
                rows_of(out@) == listing(self@.take(i as int)),
            decreases self.rows.len() - i,
        {
            proof {
                lemma_listing_push(self@.take(i as int), self@[i as int]);
                assert(self@.take(i as int).push(self@[i as int]) =~= self@.take(i + 1));
            }
            if self.rows[i].published {
                let ghost before = rows_of(out@);
                let copy = self.rows[i].duplicate();
                out.push(copy);
                assert(rows_of(out@) =~= before.push(self@[i as int]));
            }
            i += 1;
        }
        assert(self@.take(i as int) =~= self@);
        out
    }
}

/// Removing the row that carries `id` leaves no row with `id` and keeps the
/// identifiers distinct.
pub proof fn lemma_remove_forgets(rows: Seq<ArticleView>, id: u128)
    requires
        distinct_ids(rows),
        has_id(rows, id),
    ensures
        distinct_ids(rows.remove(index_of(rows, id))),
        !has_id(rows.remove(index_of(rows, id)), id),
{
    let i = index_of(rows, id);
    let rest = rows.remove(i);
    assert forall|k: int| 0 <= k < rest.len() implies (#[trigger] rest[k]).id != id by {
        if k < i {
            assert(rest[k] == rows[k]);
            assert(rows[k].id != rows[i].id);
        } else {
            assert(rest[k] == rows[k + 1]);
            assert(rows[i].id != rows[k + 1].id);
        }
    }
    assert forall|a: int, b: int| 0 <= a < b < rest.len() implies (#[trigger] rest[a]).id != (
    #[trigger] rest[b]).id by {
        let a2 = if a < i { a } else { a + 1 };
        let b2 = if b < i { b } else { b + 1 };
        assert(rest[a] == rows[a2]);
        assert(rest[b] == rows[b2]);
        assert(rows[a2].id != rows[b2].id);
    }
}

} // verus!
