//! Sequences of operations, and what holds of the table after any of them.

use vstd::prelude::*;
use crate::laws::law_listed_iff_published;
use crate::models::ArticleView;
use crate::store::{
    after_delete, after_insert, after_publish, after_update, distinct_ids, edited, has_id,
    index_of, lemma_index_unique, lemma_listing_push, lemma_listing_skips_unpublished,
    lemma_remove_forgets, lemma_replace_keeps_ids, listing, released, row_of,
};

verus! {

/// One operation, as far as the table is concerned.
pub ghost enum Step {
    /// A create that drew `id`.
    Create { id: u128, title: Seq<char>, body: Seq<char> },
    Update { id: u128, title: Seq<char>, body: Seq<char> },
    Delete { id: u128 },
    Publish { id: u128 },
    /// A listing: it changes nothing.
    List,
}

/// The table after one operation.
pub open spec fn step(rows: Seq<ArticleView>, op: Step) -> Seq<ArticleView> {
    match op {
        Step::Create { id, title, body } => after_insert(
            rows,
            ArticleView { id, title, body, published: false },
        ),
        Step::Update { id, title, body } => after_update(rows, id, title, body),
        Step::Delete { id } => after_delete(rows, id),
        Step::Publish { id } => after_publish(rows, id),
        Step::List => rows,
    }
}

/// The table after the operations `ops`, run in order.
pub open spec fn run(rows: Seq<ArticleView>, ops: Seq<Step>) -> Seq<ArticleView>
    decreases ops.len(),
{
    if ops.len() == 0 {
        rows
    } else {
        step(run(rows, ops.drop_last()), ops.last())
    }
}

/// No row with `id` is published.
pub open spec fn unpublished(rows: Seq<ArticleView>, id: u128) -> bool {
    forall|i: int| 0 <= i < rows.len() && (#[trigger] rows[i]).id == id ==> !rows[i].published
}

/// Some row with `id` is published.
pub open spec fn published(rows: Seq<ArticleView>, id: u128) -> bool {
    exists|i: int| 0 <= i < rows.len() && (#[trigger] rows[i]).id == id && rows[i].published
}

/// Every operation keeps the identifiers distinct.
pub proof fn lemma_step_keeps_distinct(rows: Seq<ArticleView>, op: Step)
    requires
        distinct_ids(rows),
    ensures
        distinct_ids(step(rows, op)),
{
    let after = step(rows, op);
    match op {
        Step::Create { id, title, body } => {},
        Step::Update { id, title, body } => {
            if has_id(rows, id) {
                lemma_replace_keeps_ids(
                    rows,
                    index_of(rows, id),
                    edited(row_of(rows, id), title, body),
                );
            }
        },
        Step::Delete { id } => {
            if has_id(rows, id) {
                lemma_remove_forgets(rows, id);
            }
        },
        Step::Publish { id } => {
            if has_id(rows, id) {
                lemma_replace_keeps_ids(rows, index_of(rows, id), released(row_of(rows, id)));
            }
        },
        Step::List => {},
    }
}

/// Only a publish of `id` publishes `id`.
pub proof fn lemma_step_keeps_unpublished(rows: Seq<ArticleView>, op: Step, id: u128)
    requires
        unpublished(rows, id),
        op != (Step::Publish { id }),
    ensures
        unpublished(step(rows, op), id),
{
    let after = step(rows, op);
    assert forall|i: int| 0 <= i < after.len() && (#[trigger] after[i]).id == id implies !after[i].published by {
        match op {
            Step::Create { id: new, title, body } => {
                if i < rows.len() {
                    assert(after[i] == rows[i]);
                }
            },
            Step::Update { id: target, title, body } => {
                assert(after[i].id == rows[i].id);
                assert(after[i].published == rows[i].published);
            },
            Step::Delete { id: target } => {
                if has_id(rows, target) {
                    let at = index_of(rows, target);
                    if i < at {
                        assert(after[i] == rows[i]);
                    } else {
                        assert(after[i] == rows[i + 1]);
                    }
                }
            },
            Step::Publish { id: target } => {
                if has_id(rows, target) {
                    let at = index_of(rows, target);
                    assert(rows[at].id == target);
                    if i != at {
                        assert(after[i] == rows[i]);
                    }
                }
            },
            Step::List => {},
        }
    }
}

/// Only a delete of `id` takes a published `id` away.
pub proof fn lemma_step_keeps_published(rows: Seq<ArticleView>, op: Step, id: u128)
    requires
        published(rows, id),
        op != (Step::Delete { id }),
    ensures
        published(step(rows, op), id),
{
    let after = step(rows, op);
    let i = choose|i: int| 0 <= i < rows.len() && (#[trigger] rows[i]).id == id && rows[i].published;
    match op {
        Step::Create { id: new, title, body } => {
            assert(after[i] == rows[i]);
        },
        Step::Update { id: target, title, body } => {
            assert(after[i].id == id && after[i].published);
        },
        Step::Delete { id: target } => {
            if has_id(rows, target) {
                let at = index_of(rows, target);
                assert(rows[at].id == target);
                if i < at {
                    assert(after[i] == rows[i]);
                } else {
                    assert(after[i - 1] == rows[i]);
                }
            }
        },
        Step::Publish { id: target } => {
            assert(after[i].id == id && after[i].published);
        },
        Step::List => {},
    }
}

/// Whatever is done to the table, an article that is not published, or not
/// there at all, is listed only after a publish of its identifier: without
/// one among the operations, the listing does not hold it.
pub proof fn law_unlisted_until_published(rows: Seq<ArticleView>, ops: Seq<Step>, id: u128)
    requires
        distinct_ids(rows),
        unpublished(rows, id),
        forall|k: int| 0 <= k < ops.len() ==> ops[k] != (Step::Publish { id }),
    ensures
        distinct_ids(run(rows, ops)),
        unpublished(run(rows, ops), id),
        !has_id(listing(run(rows, ops)), id),
    decreases ops.len(),
{
    let end = run(rows, ops);
    if ops.len() > 0 {
        let before = run(rows, ops.drop_last());
        assert forall|k: int| 0 <= k < ops.drop_last().len() implies ops.drop_last()[k] != (
        Step::Publish { id }) by {
            assert(ops.drop_last()[k] == ops[k]);
        }
        law_unlisted_until_published(rows, ops.drop_last(), id);
        lemma_step_keeps_distinct(before, ops.last());
        lemma_step_keeps_unpublished(before, ops.last(), id);
    }
    law_listed_iff_published(end, id);
    if has_id(end, id) {
        assert(end[index_of(end, id)].id == id);
    }
}

/// Once published, an article is listed exactly once for as long as it is
/// not deleted: its flag is never cleared.
pub proof fn law_listed_until_deleted(rows: Seq<ArticleView>, ops: Seq<Step>, id: u128)
    requires
        distinct_ids(rows),
        published(rows, id),
        forall|k: int| 0 <= k < ops.len() ==> ops[k] != (Step::Delete { id }),
    ensures
        distinct_ids(run(rows, ops)),
        published(run(rows, ops), id),
        has_id(listing(run(rows, ops)), id),
        distinct_ids(listing(run(rows, ops))),
    decreases ops.len(),
{
    let end = run(rows, ops);
    if ops.len() > 0 {
        let before = run(rows, ops.drop_last());
        assert forall|k: int| 0 <= k < ops.drop_last().len() implies ops.drop_last()[k] != (
        Step::Delete { id }) by {
            assert(ops.drop_last()[k] == ops[k]);
        }
        law_listed_until_deleted(rows, ops.drop_last(), id);
        lemma_step_keeps_distinct(before, ops.last());
        lemma_step_keeps_published(before, ops.last(), id);
    }
    law_listed_iff_published(end, id);
    let i = choose|i: int| 0 <= i < end.len() && (#[trigger] end[i]).id == id && end[i].published;
    lemma_index_unique(end, id, i);
}

/// Whether `op` is a create, an update of an article that `rows` does not
/// hold as published, or a listing.
pub open spec fn quiet(rows: Seq<ArticleView>, op: Step) -> bool {
    match op {
        Step::Create { .. } => true,
        Step::Update { id, .. } => unpublished(rows, id),
        Step::List => true,
        _ => false,
    }
}

/// A create, an update of an unpublished article or a listing leaves the
/// listing as it was.
pub proof fn lemma_quiet_step_keeps_listing(rows: Seq<ArticleView>, op: Step)
    requires
        quiet(rows, op),
    ensures
        listing(step(rows, op)) == listing(rows),
{
    match op {
        Step::Create { id, title, body } => {
            lemma_listing_push(rows, ArticleView { id, title, body, published: false });
        },
        Step::Update { id, title, body } => {
            if has_id(rows, id) {
                let at = index_of(rows, id);
                assert(rows[at].id == id);
                lemma_listing_skips_unpublished(rows, at, edited(row_of(rows, id), title, body));
            }
        },
        _ => {},
    }
}

/// Creating articles and editing unpublished ones never changes what is
/// listed, however many such operations run: where each operation is a
/// create, an update of an article that is not published when the update
/// runs, or a listing, the listing at the end is the listing at the start.
pub proof fn law_quiet_run_keeps_listing(rows: Seq<ArticleView>, ops: Seq<Step>)
    requires
        forall|k: int| 0 <= k < ops.len() ==> quiet(run(rows, ops.take(k)), #[trigger] ops[k]),
    ensures
        listing(run(rows, ops)) == listing(rows),
    decreases ops.len(),
{
    if ops.len() > 0 {
        let init = ops.drop_last();
        assert forall|k: int| 0 <= k < init.len() implies quiet(
            run(rows, init.take(k)),
            #[trigger] init[k],
        ) by {
            assert(init.take(k) =~= ops.take(k));
            assert(init[k] == ops[k]);
        }
        law_quiet_run_keeps_listing(rows, init);
        assert(ops.take(ops.len() - 1) =~= init);
        assert(quiet(run(rows, init), ops[ops.len() - 1]));
        lemma_quiet_step_keeps_listing(run(rows, init), ops.last());
    }
}

} // verus!
