use vstd::prelude::*;

verus! {

/// A comment as the second listing of a post page describes it.
#[derive(Debug, Clone)]
pub struct Comment {
    pub id: String,
    pub parent_id: String,
    /// Creation time in whole seconds since the epoch.
    pub timestamp: Option<i64>,
    pub score: u64,
    pub author_id: Option<String>,
    pub author_name: Option<String>,
    pub source: Option<String>,
    pub body: Option<String>,
}

/// Mathematical content of a [`Comment`].
pub struct CommentView {
    pub id: Seq<char>,
    pub parent_id: Seq<char>,
    pub timestamp: Option<i64>,
    pub score: u64,
    pub author_id: Option<Seq<char>>,
    pub author_name: Option<Seq<char>>,
    pub source: Option<Seq<char>>,
    pub body: Option<Seq<char>>,
}

impl View for Comment {
    type V = CommentView;

    open spec fn view(&self) -> CommentView {
        CommentView {
            id: self.id@,
            parent_id: self.parent_id@,
            timestamp: self.timestamp,
            score: self.score,
            author_id: self.author_id.deep_view(),
            author_name: self.author_name.deep_view(),
            source: self.source.deep_view(),
            body: self.body.deep_view(),
        }
    }
}

impl DeepView for Comment {
    type V = CommentView;

    open spec fn deep_view(&self) -> CommentView {
        self@
    }
}

} // verus!
