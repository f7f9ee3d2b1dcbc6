use vstd::prelude::*;
use vstd::string::*;

verus! {

/// A post as a listing describes it.
#[derive(Debug, Clone)]
pub struct Post {
    /// The post's full name, marker included.
    pub id: String,
    /// Creation time in whole seconds since the epoch.
    pub timestamp: Option<i64>,
    pub source: Option<String>,
    pub source_followers: Option<u64>,
    pub title: String,
    pub self_text: Option<String>,
    pub author_id: Option<String>,
    pub author_name: Option<String>,
    pub ups: u64,
    pub preview: Option<Preview>,
}

#[derive(Debug, Clone)]
pub struct Preview {
    pub images: Vec<Image>,
}

#[derive(Debug, Clone)]
pub struct Image {
    pub source: Source,
}

#[derive(Debug, Clone)]
pub struct Source {
    pub url: String,
}

impl View for Preview {
    /// The addresses of the preview's images, in order.
    type V = Seq<Seq<char>>;

    open spec fn view(&self) -> Seq<Seq<char>> {
        Seq::new(self.images@.len(), |i: int| self.images@[i].source.url@)
    }
}

/// Mathematical content of a [`Post`].
pub struct PostView {
    pub id: Seq<char>,
    pub timestamp: Option<i64>,
    pub source: Option<Seq<char>>,
    pub source_followers: Option<u64>,
    pub title: Seq<char>,
    pub self_text: Option<Seq<char>>,
    pub author_id: Option<Seq<char>>,
    pub author_name: Option<Seq<char>>,
    pub ups: u64,
    pub preview: Option<Seq<Seq<char>>>,
}

impl View for Post {
    type V = PostView;

    open spec fn view(&self) -> PostView {
        PostView {
            id: self.id@,
            timestamp: self.timestamp,
            source: self.source.deep_view(),
            source_followers: self.source_followers,
            title: self.title@,
            self_text: self.self_text.deep_view(),
            author_id: self.author_id.deep_view(),
            author_name: self.author_name.deep_view(),
            ups: self.ups,
            preview: match self.preview {
                Some(preview) => Some(preview@),
                None => None,
            },
        }
    }
}

impl DeepView for Post {
    type V = PostView;

    open spec fn deep_view(&self) -> PostView {
        self@
    }
}

impl Preview {
    /// The addresses of the preview's images, in order.
    pub fn image_urls(&self) -> (urls: Vec<String>)
        ensures
            urls.deep_view() == self@,
    {
        let mut urls: Vec<String> = Vec::new();
        let mut at: usize = 0;
        while at < self.images.len()
            invariant
                at <= self.images@.len(),
                urls@.len() == at,
                forall|i: int| 0 <= i < at ==> urls@[i]@ == self.images@[i].source.url@,
            decreases self.images@.len() - at,
        {
            urls.push(self.images[at].source.url.clone());
            at = at + 1;
        }
        assert(urls.deep_view() =~= self@);
        urls
    }
}

} // verus!
