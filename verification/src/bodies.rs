//! What the bodies of requests hold.

use vstd::prelude::*;

verus! {

/// What a user may change of the own account.
#[derive(Debug)]
pub struct UserupdateBody {
    pub avatar: Option<String>,
    pub description: Option<String>,
    pub old_password: Option<String>,
    pub new_password: Option<String>,
    pub school: Option<String>,
    pub email: Option<String>,
}

/// Which fields of which row are asked for.
#[derive(Debug)]
pub struct GetBody {
    pub wants: Vec<String>,
    pub id: i64,
}

/// A practice submission.
#[derive(Debug)]
pub struct SubmitCodeBody {
    pub lang: String,
    pub code: String,
    pub pid: i64,
}

/// A contest submission.
#[derive(Debug)]
pub struct SubmitContestCodeBody {
    pub lang: String,
    pub code: String,
    pub label: String,
}

/// A new post.
#[derive(Debug)]
pub struct NewPostBody {
    pub cid: i64,
    pub pid: i64,
    pub kind: i32,
    pub title: String,
    pub content: String,
}

/// A change of a post.
#[derive(Debug)]
pub struct UpdatePostBody {
    pub post_id: i64,
    pub title: String,
    pub content: String,
}

/// A comment on a post.
#[derive(Debug)]
pub struct CommentBody {
    pub post_id: i64,
    pub reply_id: i64,
    pub content: String,
}

} // verus!
