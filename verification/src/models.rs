//! The content model: posts, tags, and the write-request payload.
//!
//! `status` and `visibility` are restricted to their two enumerated values.
//! A write that carries any other string is rejected with `BadRequest`
//! rather than silently stored, so a post can never sit outside every
//! listing filter by accident.

use vstd::prelude::*;
use crate::error::AppError;

verus! {

/// Lifecycle state of a post.  The only transition is `Draft` to
/// `Published`, one way, through an explicit publish operation or an
/// explicit status override at creation or update.
#[derive(Clone, Copy, Debug, PartialEq, Eq, Structural)]
pub enum Status {
    Draft,
    Published,
}

/// Read gate for non-owners, orthogonal to `Status`.
#[derive(Clone, Copy, Debug, PartialEq, Eq, Structural)]
pub enum Visibility {
    Public,
    Private,
}

/// The parsed form of an optional `status` field: the default when absent,
/// a value when enumerated, nothing when unrecognized.
pub open spec fn spec_parse_status(s: Option<Seq<char>>) -> Option<Status> {
    match s {
        Option::None => Option::Some(Status::Draft),
        Option::Some(t) => if t == "draft"@ {
            Option::Some(Status::Draft)
        } else if t == "published"@ {
            Option::Some(Status::Published)
        } else {
            Option::None
        },
    }
}

pub open spec fn spec_parse_visibility(s: Option<Seq<char>>) -> Option<Visibility> {
    match s {
        Option::None => Option::Some(Visibility::Public),
        Option::Some(t) => if t == "public"@ {
            Option::Some(Visibility::Public)
        } else if t == "private"@ {
            Option::Some(Visibility::Private)
        } else {
            Option::None
        },
    }
}

pub open spec fn view_of_opt(s: &Option<String>) -> Option<Seq<char>> {
    match s {
        Option::None => Option::None,
        Option::Some(t) => Option::Some(t@),
    }
}

/// Parse a caller-supplied status; absence means the draft default.
pub fn parse_status(s: &Option<String>) -> (r: Result<Status, AppError>)
    ensures
        match spec_parse_status(view_of_opt(s)) {
            Option::Some(st) => r == Result::<Status, AppError>::Ok(st),
            Option::None => r matches Result::Err(e) && e matches AppError::BadRequest(m)
                && m@ == "invalid status"@,
        },
{
    match s {
        Option::None => Ok(Status::Draft),
        Option::Some(t) => {
            if *t == "draft".to_owned() {
                Ok(Status::Draft)
            } else if *t == "published".to_owned() {
                Ok(Status::Published)
            } else {
                Err(AppError::BadRequest("invalid status".to_owned()))
            }
        },
    }
}

/// Parse a caller-supplied visibility; absence means the public default.
pub fn parse_visibility(s: &Option<String>) -> (r: Result<Visibility, AppError>)
    ensures
        match spec_parse_visibility(view_of_opt(s)) {
            Option::Some(v) => r == Result::<Visibility, AppError>::Ok(v),
            Option::None => r matches Result::Err(e) && e matches AppError::BadRequest(m)
                && m@ == "invalid visibility"@,
        },
{
    match s {
        Option::None => Ok(Visibility::Public),
        Option::Some(t) => {
            if *t == "public".to_owned() {
                Ok(Visibility::Public)
            } else if *t == "private".to_owned() {
                Ok(Visibility::Private)
            } else {
                Err(AppError::BadRequest("invalid visibility".to_owned()))
            }
        },
    }
}

impl Status {
    /// The storage form of the value.
    pub fn as_str(&self) -> (r: &'static str)
        ensures
            self is Draft ==> r@ == "draft"@,
            self is Published ==> r@ == "published"@,
    {
        match self {
            Status::Draft => "draft",
            Status::Published => "published",
        }
    }
}

impl Visibility {
    /// The storage form of the value.
    pub fn as_str(&self) -> (r: &'static str)
        ensures
            self is Public ==> r@ == "public"@,
            self is Private ==> r@ == "private"@,
    {
        match self {
            Visibility::Public => "public",
            Visibility::Private => "private",
        }
    }
}

/// One stored content item.  `body_html` is derived from `body_md` on every
/// body change and is never accepted as direct input; `published_at` is set
/// the first time the post becomes published and never cleared or changed.
#[derive(Debug, PartialEq, Eq)]
pub struct Post {
    pub id: String,
    pub slug: String,
    pub title: String,
    pub excerpt: Option<String>,
    pub body_md: String,
    pub body_html: String,
    pub status: Status,
    pub visibility: Visibility,
    pub author_id: String,
    pub published_at: Option<String>,
    pub created_at: String,
    pub updated_at: String,
}

impl Clone for Post {
    /// A clone is the same post, field for field.
    fn clone(&self) -> (r: Post)
        ensures
            r == *self,
    {
        Post {
            id: self.id.clone(),
            slug: self.slug.clone(),
            title: self.title.clone(),
            excerpt: match &self.excerpt {
                Option::Some(s) => Option::Some(s.clone()),
                Option::None => Option::None,
            },
            body_md: self.body_md.clone(),
            body_html: self.body_html.clone(),
            status: self.status,
            visibility: self.visibility,
            author_id: self.author_id.clone(),
            published_at: match &self.published_at {
                Option::Some(s) => Option::Some(s.clone()),
                Option::None => Option::None,
            },
            created_at: self.created_at.clone(),
            updated_at: self.updated_at.clone(),
        }
    }
}

/// A shared label.  `slug` is the dedup key; `name` is whatever display
/// form the first writer supplied for that slug.
#[derive(Clone, Debug, PartialEq, Eq)]
pub struct Tag {
    pub id: String,
    pub slug: String,
    pub name: String,
}

/// The payload of a post create or update request.
#[derive(Clone, Debug)]
pub struct PostInput {
    pub title: String,
    pub slug: Option<String>,
    pub body_md: String,
    pub tags: Option<Vec<String>>,
    pub status: Option<String>,
    pub excerpt: Option<String>,
    pub visibility: Option<String>,
}

} // verus!
