use vstd::prelude::*;
use crate::reddit::data_types::reddit_comment::{Comment, CommentView};
use crate::reddit::data_types::reddit_listing::Listing;
use crate::reddit::data_types::reddit_post::{Post, PostView};

verus! {

/// The answer to a listing request: one listing of posts.
#[derive(Debug, Clone)]
pub struct ThreadPage {
    pub posts: Listing<Post>,
}

/// The answer to a post request: the post itself, then its comments.
#[derive(Debug, Clone)]
pub struct CommentPage {
    pub post: Listing<Post>,
    pub comments: Listing<Comment>,
}

impl ThreadPage {
    /// The cursor of the next page, if the listing goes on.
    pub open spec fn spec_after(&self) -> Option<Seq<char>> {
        self.posts.spec_after()
    }

    /// The posts of the page, in order.
    pub open spec fn spec_posts(&self) -> Seq<PostView> {
        Seq::new(self.posts.data.children@.len(), |i: int| self.posts.data.children@[i].data@)
    }
}

impl CommentPage {
    /// The comments of the page, in order.
    pub open spec fn spec_comments(&self) -> Seq<CommentView> {
        Seq::new(
            self.comments.data.children@.len(),
            |i: int| self.comments.data.children@[i].data@,
        )
    }
}

} // verus!
