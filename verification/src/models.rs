//! The article record and the payloads that create or change one.

use vstd::prelude::*;

verus! {

/// One stored article.
#[derive(Debug, Clone, PartialEq, Eq)]
pub struct Article {
    pub id: u128,
    pub title: String,
    pub body: String,
    pub published: bool,
}

/// What an `Article` is in contracts.
pub ghost struct ArticleView {
    pub id: u128,
    pub title: Seq<char>,
    pub body: Seq<char>,
    pub published: bool,
}

impl View for Article {
    type V = ArticleView;

    open spec fn view(&self) -> ArticleView {
        ArticleView {
            id: self.id,
            title: self.title@,
            body: self.body@,
            published: self.published,
        }
    }
}

impl Article {
    /// An independent copy of this article.
    pub fn duplicate(&self) -> (copy: Article)
        ensures
            copy@ == self@,
    {
        Article {
            id: self.id,
            title: self.title.clone(),
            body: self.body.clone(),
            published: self.published,
        }
    }
}

/// The body of a create or update request.
#[derive(Debug, Clone, PartialEq, Eq)]
pub struct ArticleData {
    pub title: String,
    pub body: String,
}

/// A row about to be inserted; `published` starts out false.
#[derive(Debug, Clone, PartialEq, Eq)]
pub struct NewArticle {
    pub id: u128,
    pub title: String,
    pub body: String,
}

impl NewArticle {
    /// The row as the table stores it.
    pub open spec fn row(&self) -> ArticleView {
        ArticleView { id: self.id, title: self.title@, body: self.body@, published: false }
    }

    /// Turns the pending row into a stored, unpublished article.
    pub fn into_article(self) -> (article: Article)
        ensures
            article@ == self.row(),
    {
        Article { id: self.id, title: self.title, body: self.body, published: false }
    }
}

} // verus!
