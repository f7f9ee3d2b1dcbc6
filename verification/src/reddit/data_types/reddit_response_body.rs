use vstd::prelude::*;
use crate::reddit::data_types::reddit_pages::{CommentPage, ThreadPage};

verus! {

/// The failure of a request or of reading its body. It is only carried around.
#[verifier::external_type_specification]
#[verifier::external_body]
pub struct ExRequestError(reqwest::Error);

/// A response body after the attempt to read it as the page the task asked for.
pub enum ResponseBody {
    Thread(Result<ThreadPage, reqwest::Error>),
    Comments(Result<CommentPage, reqwest::Error>),
}

impl ResponseBody {
    pub open spec fn spec_is_ok(&self) -> bool {
        match self {
            ResponseBody::Thread(thread) => thread is Ok,
            ResponseBody::Comments(comments) => comments is Ok,
        }
    }

    /// Whether the body could be read.
    pub fn is_ok(&self) -> (ok: bool)
        ensures
            ok == self.spec_is_ok(),
    {
        match self {
            ResponseBody::Thread(thread) => thread.is_ok(),
            ResponseBody::Comments(comments) => comments.is_ok(),
        }
    }
}

} // verus!
