pub mod reddit_auth;
pub mod reddit_comment;
pub mod reddit_listing;
pub mod reddit_pages;
pub mod reddit_post;
pub mod reddit_response_body;
