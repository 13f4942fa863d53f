//! What holds of the table across operations.

use vstd::prelude::*;
use crate::models::ArticleView;
use crate::store::{
    after_delete, after_insert, after_publish, after_update, distinct_ids, edited, has_id,
    index_of, lemma_index_unique, lemma_listing_push, lemma_remove_forgets,
    lemma_replace_keeps_ids, listing, lookup, released, row_of, QueryError,
};

verus! {

/// Every row of the listing is a published row of the table, every published
/// row of the table is in the listing, and the listing repeats no identifier
/// where the table repeats none.
pub proof fn lemma_listing_rows(rows: Seq<ArticleView>)
    ensures
        forall|row: ArticleView| #[trigger]
            listing(rows).contains(row) <==> rows.contains(row) && row.published,
        distinct_ids(rows) ==> distinct_ids(listing(rows)),
    decreases rows.len(),
{
    reveal(Seq::filter);
    if rows.len() == 0 {
        assert(listing(rows) =~= Seq::<ArticleView>::empty());
    } else {
        let init = rows.drop_last();
        let last = rows.last();
        lemma_listing_rows(init);
        assert(init.push(last) =~= rows);
        lemma_listing_push(init, last);
        assert forall|row: ArticleView| #[trigger]
            listing(rows).contains(row) <==> rows.contains(row) && row.published by {
            if listing(rows).contains(row) {
                let k = choose|k: int| 0 <= k < listing(rows).len() && listing(rows)[k] == row;
                if k < listing(init).len() {
                    assert(listing(init)[k] == row);
                    assert(listing(init).contains(row));
                    let j = choose|j: int| 0 <= j < init.len() && init[j] == row;
                    assert(rows[j] == row);
                } else {
                    assert(row == last);
                    assert(rows[rows.len() - 1] == row);
                }
            }
            if rows.contains(row) && row.published {
                let j = choose|j: int| 0 <= j < rows.len() && rows[j] == row;
                if j < init.len() {
                    assert(init[j] == row);
                    assert(init.contains(row));
                    assert(listing(init).contains(row));
                    let k = choose|k: int| 0 <= k < listing(init).len() && listing(init)[k] == row;
                    assert(listing(rows)[k] == row);
                } else {
                    assert(listing(rows)[listing(rows).len() - 1] == row);
                }
            }
        }
        if distinct_ids(rows) {
            assert forall|i: int, j: int| 0 <= i < j < init.len() implies (#[trigger] init[i]).id
                != (#[trigger] init[j]).id by {
                assert(rows[i].id != rows[j].id);
            }
            if last.published {
                assert forall|k: int| 0 <= k < listing(init).len() implies (#[trigger] listing(
                    init,
                )[k]).id != last.id by {
                    let row = listing(init)[k];
                    assert(listing(init).contains(row));
                    let j = choose|j: int| 0 <= j < init.len() && init[j] == row;
                    assert(rows[j].id != rows[rows.len() - 1].id);
                }
            }
        }
    }
}

/// An identifier is listed exactly when its row is published, and then once,
/// with the row that the table holds.
pub proof fn law_listed_iff_published(rows: Seq<ArticleView>, id: u128)
    requires
        distinct_ids(rows),
    ensures
        distinct_ids(listing(rows)),
        has_id(listing(rows), id) <==> has_id(rows, id) && row_of(rows, id).published,
        has_id(listing(rows), id) ==> row_of(listing(rows), id) == row_of(rows, id),
{
    lemma_listing_rows(rows);
    let list = listing(rows);
    if has_id(list, id) {
        let k = index_of(list, id);
        assert(list.contains(list[k]));
        let j = choose|j: int| 0 <= j < rows.len() && rows[j] == list[k];
        lemma_index_unique(rows, id, j);
    }
    if has_id(rows, id) && row_of(rows, id).published {
        let j = index_of(rows, id);
        assert(rows.contains(rows[j]));
        assert(list.contains(rows[j]));
        let k = choose|k: int| 0 <= k < list.len() && list[k] == rows[j];
        lemma_index_unique(list, id, k);
    }
}

/// Creating an article leaves the listing as it was: the new article is not
/// listed.
pub proof fn law_created_is_unlisted(rows: Seq<ArticleView>, row: ArticleView)
    requires
        distinct_ids(rows),
        !has_id(rows, row.id),
        !row.published,
    ensures
        after_insert(rows, row) == rows.push(row),
        distinct_ids(after_insert(rows, row)),
        listing(after_insert(rows, row)) == listing(rows),
        !has_id(listing(after_insert(rows, row)), row.id),
{
    lemma_listing_push(rows, row);
    law_listed_iff_published(rows, row.id);
}

/// An update keeps an article's place in or out of the listing: it leaves the
/// identifier and the published flag of every row as they were.
pub proof fn law_update_keeps_listed(
    rows: Seq<ArticleView>,
    id: u128,
    title: Seq<char>,
    body: Seq<char>,
    other: u128,
)
    requires
        distinct_ids(rows),
    ensures
        distinct_ids(after_update(rows, id, title, body)),
        has_id(after_update(rows, id, title, body), other) <==> has_id(rows, other),
        has_id(listing(after_update(rows, id, title, body)), other) <==> has_id(
            listing(rows),
            other,
        ),
{
    let after = after_update(rows, id, title, body);
    if has_id(rows, id) {
        let i = index_of(rows, id);
        lemma_replace_keeps_ids(rows, i, edited(row_of(rows, id), title, body));
        if has_id(rows, other) {
            let j = index_of(rows, other);
            assert(after[j].id == other);
            lemma_index_unique(after, other, j);
            assert(row_of(after, other).published == row_of(rows, other).published);
        }
        if has_id(after, other) {
            let j = index_of(after, other);
            assert(rows[j].id == other);
        }
    }
    law_listed_iff_published(rows, other);
    law_listed_iff_published(after, other);
}

/// After a publish the article is listed exactly once, as the row it was with
/// the flag set.
pub proof fn law_publish_lists_once(rows: Seq<ArticleView>, id: u128)
    requires
        distinct_ids(rows),
        has_id(rows, id),
    ensures
        distinct_ids(after_publish(rows, id)),
        lookup(after_publish(rows, id), id) == Ok::<ArticleView, QueryError>(
            released(row_of(rows, id)),
        ),
        has_id(listing(after_publish(rows, id)), id),
        distinct_ids(listing(after_publish(rows, id))),
        row_of(listing(after_publish(rows, id)), id) == released(row_of(rows, id)),
{
    let after = after_publish(rows, id);
    let i = index_of(rows, id);
    lemma_replace_keeps_ids(rows, i, released(row_of(rows, id)));
    law_listed_iff_published(after, id);
}

/// A create changes no article that the table held.
pub proof fn law_create_spares_the_rest(rows: Seq<ArticleView>, row: ArticleView, other: u128)
    requires
        distinct_ids(rows),
        has_id(rows, other),
    ensures
        distinct_ids(after_insert(rows, row)),
        has_id(after_insert(rows, row), other),
        row_of(after_insert(rows, row), other) == row_of(rows, other),
{
    let after = after_insert(rows, row);
    let j = index_of(rows, other);
    if !has_id(rows, row.id) {
        assert(after[j] == rows[j]);
        lemma_index_unique(after, other, j);
    }
}

/// A publish keeps every article in the table and never clears a published
/// flag.
pub proof fn law_publish_never_unpublishes(rows: Seq<ArticleView>, id: u128, other: u128)
    requires
        distinct_ids(rows),
        has_id(rows, other),
    ensures
        has_id(after_publish(rows, id), other),
        row_of(rows, other).published ==> row_of(after_publish(rows, id), other).published,
        other != id ==> row_of(after_publish(rows, id), other) == row_of(rows, other),
{
    let after = after_publish(rows, id);
    let j = index_of(rows, other);
    if has_id(rows, id) {
        law_publish_lists_once(rows, id);
        assert(after[j].id == other);
        lemma_index_unique(after, other, j);
        if other == id {
            lemma_index_unique(rows, id, j);
        }
    }
}

/// An update changes no other article, and of its own only title and body.
pub proof fn law_update_spares_the_rest(
    rows: Seq<ArticleView>,
    id: u128,
    title: Seq<char>,
    body: Seq<char>,
    other: u128,
)
    requires
        distinct_ids(rows),
        has_id(rows, other),
    ensures
        has_id(after_update(rows, id, title, body), other),
        row_of(after_update(rows, id, title, body), other) == if other == id {
            edited(row_of(rows, other), title, body)
        } else {
            row_of(rows, other)
        },
{
    let after = after_update(rows, id, title, body);
    let j = index_of(rows, other);
    if has_id(rows, id) {
        law_update_keeps_listed(rows, id, title, body, other);
        assert(after[j].id == other);
        lemma_index_unique(after, other, j);
        if other == id {
            lemma_index_unique(rows, id, j);
        }
    }
}

/// A delete removes no other article and changes none.
pub proof fn law_delete_spares_the_rest(rows: Seq<ArticleView>, id: u128, other: u128)
    requires
        distinct_ids(rows),
        has_id(rows, other),
        other != id,
    ensures
        has_id(after_delete(rows, id), other),
        row_of(after_delete(rows, id), other) == row_of(rows, other),
{
    let after = after_delete(rows, id);
    let j = index_of(rows, other);
    if has_id(rows, id) {
        lemma_remove_forgets(rows, id);
        let i = index_of(rows, id);
        let k = if j < i { j } else { j - 1 };
        assert(after[k] == rows[j]);
        lemma_index_unique(after, other, k);
    }
}

/// An operation on an identifier that the table does not hold finds nothing
/// and changes nothing.
pub proof fn law_missing_id_changes_nothing(
    rows: Seq<ArticleView>,
    id: u128,
    title: Seq<char>,
    body: Seq<char>,
)
    requires
        !has_id(rows, id),
    ensures
        lookup(rows, id) == Err::<ArticleView, QueryError>(QueryError::NotFound),
        after_update(rows, id, title, body) == rows,
        after_delete(rows, id) == rows,
        after_publish(rows, id) == rows,
{
}

/// Once an article is deleted, a lookup, an update, a delete and a publish of
/// its identifier all find nothing and leave the table as the delete left it.
pub proof fn law_deleted_is_gone(
    rows: Seq<ArticleView>,
    id: u128,
    title: Seq<char>,
    body: Seq<char>,
)
    requires
        distinct_ids(rows),
    ensures
        distinct_ids(after_delete(rows, id)),
        !has_id(after_delete(rows, id), id),
        lookup(after_delete(rows, id), id) == Err::<ArticleView, QueryError>(
            QueryError::NotFound,
        ),
        after_update(after_delete(rows, id), id, title, body) == after_delete(rows, id),
        after_delete(after_delete(rows, id), id) == after_delete(rows, id),
        after_publish(after_delete(rows, id), id) == after_delete(rows, id),
{
    if has_id(rows, id) {
        lemma_remove_forgets(rows, id);
    }
}

/// Publishing twice is publishing once: the table and the row answered are
/// the same, and the row is published.
pub proof fn law_publish_idempotent(rows: Seq<ArticleView>, id: u128)
    requires
        distinct_ids(rows),
    ensures
        after_publish(after_publish(rows, id), id) == after_publish(rows, id),
        has_id(after_publish(rows, id), id) <==> has_id(rows, id),
        has_id(rows, id) ==> row_of(after_publish(rows, id), id).published,
        has_id(rows, id) ==> released(row_of(after_publish(rows, id), id)) == row_of(
            after_publish(rows, id),
            id,
        ),
{
    if has_id(rows, id) {
        law_publish_lists_once(rows, id);
        let once = after_publish(rows, id);
        let i = index_of(rows, id);
        assert(once[i].id == id);
        lemma_index_unique(once, id, i);
        assert(after_publish(once, id) =~= once);
    }
}

/// An update answers the row with the new title and body, under the same
/// identifier and with the published flag it had.
pub proof fn law_update_keeps_identity(
    rows: Seq<ArticleView>,
    id: u128,
    title: Seq<char>,
    body: Seq<char>,
)
    requires
        distinct_ids(rows),
        has_id(rows, id),
    ensures
        lookup(after_update(rows, id, title, body), id) == Ok::<ArticleView, QueryError>(
            ArticleView { id, title, body, published: row_of(rows, id).published },
        ),
        edited(row_of(rows, id), title, body) == (ArticleView {
            id,
            title,
            body,
            published: row_of(rows, id).published,
        }),
{
    law_update_keeps_listed(rows, id, title, body, id);
    let after = after_update(rows, id, title, body);
    let i = index_of(rows, id);
    assert(after[i].id == id);
    lemma_index_unique(after, id, i);
}

/// Create, then update: the article comes back with the new title and body,
/// the identifier it was created under and the flag it was created with.
pub proof fn law_create_then_update(
    rows: Seq<ArticleView>,
    row: ArticleView,
    title: Seq<char>,
    body: Seq<char>,
)
    requires
        distinct_ids(rows),
        !has_id(rows, row.id),
    ensures
        lookup(after_update(after_insert(rows, row), row.id, title, body), row.id) == Ok::<
            ArticleView,
            QueryError,
        >(ArticleView { id: row.id, title, body, published: row.published }),
{
    let created = after_insert(rows, row);
    assert(created[rows.len() as int] == row);
    lemma_index_unique(created, row.id, rows.len() as int);
    law_update_keeps_identity(created, row.id, title, body);
}

/// Two articles created one after the other have different identifiers, and
/// each is found under its own.
pub proof fn law_two_creates_are_distinct(
    rows: Seq<ArticleView>,
    first: ArticleView,
    second: ArticleView,
)
    requires
        distinct_ids(rows),
        !has_id(rows, first.id),
        !has_id(after_insert(rows, first), second.id),
    ensures
        first.id != second.id,
        distinct_ids(after_insert(after_insert(rows, first), second)),
        lookup(after_insert(after_insert(rows, first), second), first.id) == Ok::<
            ArticleView,
            QueryError,
        >(first),
        lookup(after_insert(after_insert(rows, first), second), second.id) == Ok::<
            ArticleView,
            QueryError,
        >(second),
{
    let one = after_insert(rows, first);
    let two = after_insert(one, second);
    let n = rows.len() as int;
    assert(one[n] == first);
    assert(two[n] == first);
    assert(two[n + 1] == second);
    lemma_index_unique(two, first.id, n);
    lemma_index_unique(two, second.id, n + 1);
}

} // verus!
