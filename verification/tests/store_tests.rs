use articles::models::{Article, NewArticle};
use articles::store::{ArticleTable, QueryError};

fn pending(id: u128, title: &str, body: &str) -> NewArticle {
    NewArticle { id, title: title.to_string(), body: body.to_string() }
}

fn stored(id: u128, title: &str, body: &str, published: bool) -> Article {
    Article { id, title: title.to_string(), body: body.to_string(), published }
}

#[test]
fn new_table_is_empty() {
    let table = ArticleTable::new();
    assert_eq!(table.len(), 0);
    assert_eq!(table.position(1), None);
    assert_eq!(table.find(1), Err(QueryError::NotFound));
    assert_eq!(table.list_published(), vec![]);
}

#[test]
fn insert_stores_an_unpublished_row() {
    let mut table = ArticleTable::new();
    let got = table.insert(pending(7, "T", "B"));
    assert_eq!(got, Ok(stored(7, "T", "B", false)));
    assert_eq!(table.len(), 1);
    assert_eq!(table.position(7), Some(0));
    assert_eq!(table.find(7), Ok(stored(7, "T", "B", false)));
}

#[test]
fn insert_of_a_taken_id_is_a_conflict() {
    let mut table = ArticleTable::new();
    assert!(table.insert(pending(7, "T", "B")).is_ok());
    let before = table.clone();
    assert_eq!(table.insert(pending(7, "X", "Y")), Err(QueryError::Conflict));
    assert_eq!(table, before);
    assert_eq!(table.find(7), Ok(stored(7, "T", "B", false)));
}

#[test]
fn position_follows_insertion_order() {
    let mut table = ArticleTable::new();
    assert!(table.insert(pending(30, "a", "a")).is_ok());
    assert!(table.insert(pending(10, "b", "b")).is_ok());
    assert!(table.insert(pending(20, "c", "c")).is_ok());
    assert_eq!(table.position(30), Some(0));
    assert_eq!(table.position(10), Some(1));
    assert_eq!(table.position(20), Some(2));
    assert_eq!(table.position(40), None);
}

#[test]
fn update_replaces_title_and_body_only() {
    let mut table = ArticleTable::new();
    assert!(table.insert(pending(1, "a", "a")).is_ok());
    assert!(table.insert(pending(2, "b", "b")).is_ok());
    assert!(table.publish(2).is_ok());
    let got = table.update(2, "T2".to_string(), "B2".to_string());
    assert_eq!(got, Ok(stored(2, "T2", "B2", true)));
    assert_eq!(table.find(2), Ok(stored(2, "T2", "B2", true)));
    assert_eq!(table.find(1), Ok(stored(1, "a", "a", false)));
    assert_eq!(table.position(2), Some(1));
    assert_eq!(table.len(), 2);
}

#[test]
fn update_of_a_missing_id_changes_nothing() {
    let mut table = ArticleTable::new();
    assert!(table.insert(pending(1, "a", "a")).is_ok());
    let before = table.clone();
    let got = table.update(9, "x".to_string(), "y".to_string());
    assert_eq!(got, Err(QueryError::NotFound));
    assert_eq!(table, before);
}

#[test]
fn delete_returns_the_row_and_closes_the_gap() {
    let mut table = ArticleTable::new();
    assert!(table.insert(pending(1, "a", "a")).is_ok());
    assert!(table.insert(pending(2, "b", "b")).is_ok());
    assert!(table.insert(pending(3, "c", "c")).is_ok());
    assert_eq!(table.delete(2), Ok(stored(2, "b", "b", false)));
    assert_eq!(table.len(), 2);
    assert_eq!(table.position(1), Some(0));
    assert_eq!(table.position(3), Some(1));
    assert_eq!(table.find(2), Err(QueryError::NotFound));
}

#[test]
fn delete_of_a_missing_id_changes_nothing() {
    let mut table = ArticleTable::new();
    assert!(table.insert(pending(1, "a", "a")).is_ok());
    let before = table.clone();
    assert_eq!(table.delete(2), Err(QueryError::NotFound));
    assert_eq!(table, before);
}

#[test]
fn publish_sets_the_flag_and_keeps_the_rest() {
    let mut table = ArticleTable::new();
    assert!(table.insert(pending(1, "a", "b")).is_ok());
    assert_eq!(table.publish(1), Ok(stored(1, "a", "b", true)));
    assert_eq!(table.find(1), Ok(stored(1, "a", "b", true)));
}

#[test]
fn publish_of_a_missing_id_changes_nothing() {
    let mut table = ArticleTable::new();
    assert!(table.insert(pending(1, "a", "b")).is_ok());
    let before = table.clone();
    assert_eq!(table.publish(2), Err(QueryError::NotFound));
    assert_eq!(table, before);
}

#[test]
fn publish_twice_gives_the_same_row_and_table() {
    let mut table = ArticleTable::new();
    assert!(table.insert(pending(1, "a", "b")).is_ok());
    let first = table.publish(1);
    let once = table.clone();
    let second = table.publish(1);
    assert_eq!(first, second);
    assert_eq!(second, Ok(stored(1, "a", "b", true)));
    assert_eq!(table, once);
    assert_eq!(table.list_published(), vec![stored(1, "a", "b", true)]);
}

#[test]
fn listing_holds_the_published_rows_in_table_order() {
    let mut table = ArticleTable::new();
    assert!(table.insert(pending(5, "e", "e")).is_ok());
    assert!(table.insert(pending(3, "c", "c")).is_ok());
    assert!(table.insert(pending(4, "d", "d")).is_ok());
    assert_eq!(table.list_published(), vec![]);
    assert!(table.publish(4).is_ok());
    assert!(table.publish(5).is_ok());
    assert_eq!(
        table.list_published(),
        vec![stored(5, "e", "e", true), stored(4, "d", "d", true)]
    );
}

#[test]
fn an_update_does_not_change_what_is_listed() {
    let mut table = ArticleTable::new();
    assert!(table.insert(pending(1, "a", "a")).is_ok());
    assert!(table.insert(pending(2, "b", "b")).is_ok());
    assert!(table.publish(1).is_ok());
    assert!(table.update(2, "x".to_string(), "y".to_string()).is_ok());
    assert_eq!(table.list_published(), vec![stored(1, "a", "a", true)]);
    assert!(table.update(1, "x".to_string(), "y".to_string()).is_ok());
    assert_eq!(table.list_published(), vec![stored(1, "x", "y", true)]);
}

#[test]
fn two_inserts_are_found_independently() {
    let mut table = ArticleTable::new();
    assert!(table.insert(pending(1, "a", "a")).is_ok());
    assert!(table.insert(pending(2, "b", "b")).is_ok());
    assert_eq!(table.find(1), Ok(stored(1, "a", "a", false)));
    assert_eq!(table.find(2), Ok(stored(2, "b", "b", false)));
}

#[test]
fn duplicate_and_into_article_keep_the_fields() {
    let article = pending(11, "t", "b").into_article();
    assert_eq!(article, stored(11, "t", "b", false));
    assert_eq!(article.duplicate(), article);
}
