//! The access-control evaluator: a pure function from the caller (an
//! identity or anonymous) and a post's lifecycle state, visibility and
//! owner to an allow/deny decision.
//!
//! Read: a published public post is open to all; a published private post
//! and any draft are open to the author alone, and denial is reported as
//! `NotFound` so existence is never revealed.  Write: only the
//! authenticated author may mutate, and denial is `Forbidden` whether the
//! post exists under another owner or not at all.

use vstd::prelude::*;
use crate::models::{Status, Visibility};

verus! {

/// May this caller read a post in this state?
pub open spec fn spec_can_read(
    caller: Option<Seq<char>>,
    status: Status,
    visibility: Visibility,
    author_id: Seq<char>,
) -> bool {
    match status {
        Status::Published => visibility is Public || caller == Option::Some(author_id),
        Status::Draft => caller == Option::Some(author_id),
    }
}

/// May this caller mutate a post owned by `author_id`?  Anonymous callers
/// never may; an authenticated caller may exactly when they are the owner.
pub open spec fn spec_can_write(caller: Option<Seq<char>>, author_id: Seq<char>) -> bool {
    caller == Option::Some(author_id)
}

/// Evaluate the read decision.
pub fn can_read(
    caller: &Option<String>,
    status: Status,
    visibility: Visibility,
    author_id: &String,
) -> (r: bool)
    ensures
        r == spec_can_read(crate::models::view_of_opt(caller), status, visibility, author_id@),
{
    let owner = match caller {
        Option::Some(c) => *c == *author_id,
        Option::None => false,
    };
    match status {
        Status::Published => matches!(visibility, Visibility::Public) || owner,
        Status::Draft => owner,
    }
}

/// Evaluate the write decision.
pub fn can_write(caller: &Option<String>, author_id: &String) -> (r: bool)
    ensures
        r == spec_can_write(crate::models::view_of_opt(caller), author_id@),
{
    match caller {
        Option::Some(c) => *c == *author_id,
        Option::None => false,
    }
}

/// Read access is monotonic in privilege: whatever an anonymous caller may
/// read, every authenticated caller may read as well.
pub proof fn lemma_can_read_monotonic(
    caller: Seq<char>,
    status: Status,
    visibility: Visibility,
    author_id: Seq<char>,
)
    ensures
        spec_can_read(Option::None, status, visibility, author_id) ==> spec_can_read(
            Option::Some(caller),
            status,
            visibility,
            author_id,
        ),
{
}

} // verus!
