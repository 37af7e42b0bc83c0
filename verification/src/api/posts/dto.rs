//! The forms and queries of the post pages.
use vstd::prelude::*;

verus! {

/// A reaction to a post, with where to go back to.
pub struct ReactionForm {
    pub reaction: String,
    pub filter: Option<String>,
    pub sort: Option<String>,
    pub tab: Option<String>,
}

/// Pinning or unpinning a post, with where to go back to.
pub struct PinForm {
    pub pinned: String,
    pub filter: Option<String>,
    pub sort: Option<String>,
    pub tab: Option<String>,
}

/// The query of the list of posts.
pub struct NewQuery {
    pub filter: Option<String>,
    pub sort: Option<String>,
}

/// The fields of the form that creates a post.
pub struct CreatePostForm {
    pub title: String,
    pub image: Option<String>,
    pub description: String,
    pub start_date: Option<String>,
    pub end_date: Option<String>,
    pub filter: Option<String>,
    pub sort: Option<String>,
}

} // verus!
