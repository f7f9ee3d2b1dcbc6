use vstd::prelude::*;
use vstd::string::*;
use mongodb::bson::oid::ObjectId;
use crate::client::db::client::{DBCollection, DATABASE_COLLECTIONS};
use crate::commons::social_network::SocialNetworkEnum;
use crate::reddit::data_types::reddit_comment::{Comment, CommentView};
use crate::reddit::data_types::reddit_post::{Post, PostView};
use crate::utils::text::{copy_optional_text, copy_text};

verus! {

#[derive(Debug, Clone, Copy, PartialEq, Eq, Hash, Structural)]
pub enum EntityType {
    Post,
    Comment,
    Message,
}

/// One normalized piece of content, as the entity store keeps it.
#[derive(Debug, Clone, PartialEq, Eq)]
pub struct Entity {
    pub _id: Option<ObjectId>,
    pub entity_type: EntityType,
    /// Creation time in milliseconds since the epoch.
    pub date_time: i64,
    /// The identifier the network gave the content: the key of an upsert.
    pub id: String,
    pub source: String,
    pub source_followers: Option<u64>,
    pub author_id: Option<String>,
    pub title: Option<String>,
    pub content: Option<String>,
    pub author_name: Option<String>,
    pub social_network: SocialNetworkEnum,
    pub rating: Option<u64>,
    pub images: Vec<String>,
}

/// Mathematical content of an [`Entity`].
pub struct EntityView {
    pub store_id: Option<ObjectId>,
    pub entity_type: EntityType,
    pub date_time: i64,
    pub id: Seq<char>,
    pub source: Seq<char>,
    pub source_followers: Option<u64>,
    pub author_id: Option<Seq<char>>,
    pub title: Option<Seq<char>>,
    pub content: Option<Seq<char>>,
    pub author_name: Option<Seq<char>>,
    pub social_network: SocialNetworkEnum,
    pub rating: Option<u64>,
    pub images: Seq<Seq<char>>,
}

impl View for Entity {
    type V = EntityView;

    open spec fn view(&self) -> EntityView {
        EntityView {
            store_id: self._id,
            entity_type: self.entity_type,
            date_time: self.date_time,
            id: self.id@,
            source: self.source@,
            source_followers: self.source_followers,
            author_id: self.author_id.deep_view(),
            title: self.title.deep_view(),
            content: self.content.deep_view(),
            author_name: self.author_name.deep_view(),
            social_network: self.social_network,
            rating: self.rating,
            images: self.images.deep_view(),
        }
    }
}

impl DeepView for Entity {
    type V = EntityView;

    open spec fn deep_view(&self) -> EntityView {
        self@
    }
}

/// Milliseconds since the epoch for a time given in seconds, zero for a
/// missing one; a time too far from the epoch to be counted in milliseconds
/// is held at the nearest end of the range.
pub open spec fn spec_epoch_millis(seconds: Option<i64>) -> i64 {
    match seconds {
        None => 0,
        Some(seconds) => if seconds * 1000 > i64::MAX {
            i64::MAX
        } else if seconds * 1000 < i64::MIN {
            i64::MIN
        } else {
            (seconds * 1000) as i64
        },
    }
}

pub open spec fn spec_text_or_empty(text: Option<Seq<char>>) -> Seq<char> {
    match text {
        Some(text) => text,
        None => Seq::empty(),
    }
}

impl EntityView {
    /// The entity a post is stored as.
    pub open spec fn of_post(post: PostView) -> EntityView {
        EntityView {
            store_id: None,
            entity_type: EntityType::Post,
            date_time: spec_epoch_millis(post.timestamp),
            id: post.id,
            source: spec_text_or_empty(post.source),
            source_followers: post.source_followers,
            author_id: post.author_id,
            title: Some(post.title),
            content: post.self_text,
            author_name: post.author_name,
            social_network: SocialNetworkEnum::Reddit,
            rating: Some(post.ups),
            images: match post.preview {
                Some(urls) => urls,
                None => Seq::empty(),
            },
        }
    }

    /// The entity a comment is stored as.
    pub open spec fn of_comment(comment: CommentView) -> EntityView {
        EntityView {
            store_id: None,
            entity_type: EntityType::Comment,
            date_time: spec_epoch_millis(comment.timestamp),
            id: comment.id,
            source: spec_text_or_empty(comment.source),
            source_followers: None,
            author_id: comment.author_id,
            title: None,
            content: comment.body,
            author_name: comment.author_name,
            social_network: SocialNetworkEnum::Reddit,
            rating: Some(comment.score),
            images: Seq::empty(),
        }
    }
}

/// Turns a creation time in seconds into milliseconds.
pub fn epoch_millis(seconds: Option<i64>) -> (millis: i64)
    ensures
        millis == spec_epoch_millis(seconds),
{
    match seconds {
        None => 0,
        Some(seconds) => {
            if seconds > i64::MAX / 1000 {
                i64::MAX
            } else if seconds < i64::MIN / 1000 {
                i64::MIN
            } else {
                seconds * 1000
            }
        },
    }
}

fn text_or_empty(text: &Option<String>) -> (result: String)
    ensures
        result@ == spec_text_or_empty(text.deep_view()),
{
    match text {
        Some(text) => copy_text(text),
        None => String::new(),
    }
}

/// `from` states what it returns over views; no `Entity` is named as the
/// result in specifications.
impl vstd::std_specs::convert::FromSpecImpl<Post> for Entity {
    open spec fn obeys_from_spec() -> bool {
        false
    }

    open spec fn from_spec(children: Post) -> Entity {
        arbitrary()
    }
}

impl From<Post> for Entity {
    fn from(children: Post) -> (entity: Entity)
        ensures
            entity@ == EntityView::of_post(children@),
    {
        Entity::of_post(&children)
    }
}

/// `from` states what it returns over views; no `Entity` is named as the
/// result in specifications.
impl vstd::std_specs::convert::FromSpecImpl<Comment> for Entity {
    open spec fn obeys_from_spec() -> bool {
        false
    }

    open spec fn from_spec(comment: Comment) -> Entity {
        arbitrary()
    }
}

impl From<Comment> for Entity {
    fn from(comment: Comment) -> (entity: Entity)
        ensures
            entity@ == EntityView::of_comment(comment@),
    {
        Entity::of_comment(&comment)
    }
}

impl Entity {
    /// The entity a post is stored as.
    pub fn of_post(post: &Post) -> (entity: Entity)
        ensures
            entity@ == EntityView::of_post(post@),
    {
        let images = match &post.preview {
            Some(preview) => preview.image_urls(),
            None => Vec::new(),
        };
        let entity = Entity {
            _id: None,
            id: copy_text(&post.id),
            source: text_or_empty(&post.source),
            source_followers: post.source_followers,
            date_time: epoch_millis(post.timestamp),
            entity_type: EntityType::Post,
            author_id: copy_optional_text(&post.author_id),
            title: Some(copy_text(&post.title)),
            content: copy_optional_text(&post.self_text),
            author_name: copy_optional_text(&post.author_name),
            rating: Some(post.ups),
            images,
            social_network: SocialNetworkEnum::Reddit,
        };
        assert(entity@.images =~= EntityView::of_post(post@).images);
        entity
    }

    /// The entity a comment is stored as.
    pub fn of_comment(comment: &Comment) -> (entity: Entity)
        ensures
            entity@ == EntityView::of_comment(comment@),
    {
        let entity = Entity {
            _id: None,
            id: copy_text(&comment.id),
            source: text_or_empty(&comment.source),
            source_followers: None,
            date_time: epoch_millis(comment.timestamp),
            entity_type: EntityType::Comment,
            author_id: copy_optional_text(&comment.author_id),
            title: None,
            content: copy_optional_text(&comment.body),
            author_name: copy_optional_text(&comment.author_name),
            rating: Some(comment.score),
            images: Vec::new(),
            social_network: SocialNetworkEnum::Reddit,
        };
        assert(entity@.images =~= EntityView::of_comment(comment@).images);
        entity
    }
}

impl DBCollection for Entity {
    open spec fn spec_collection() -> DATABASE_COLLECTIONS {
        DATABASE_COLLECTIONS::ENTITIES
    }

    fn get_collection() -> (name: String) {
        DATABASE_COLLECTIONS::ENTITIES.to_string()
    }
}

} // verus!
