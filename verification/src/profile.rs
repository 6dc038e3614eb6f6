//! The author's own profile: the response shape and the partial update.
//! A patch updates exactly the supplied fields; an unset field is left
//! unchanged, never nulled.

use vstd::prelude::*;
use crate::models::view_of_opt;

verus! {

/// The profile as the owner reads it.
#[derive(Debug, PartialEq, Eq)]
pub struct MeResp {
    pub id: String,
    pub username: String,
    pub display_name: Option<String>,
    pub avatar_url: Option<String>,
    pub motto: Option<String>,
    pub created_at: String,
}

/// A partial profile update: only the supplied fields change.
#[derive(Debug, Clone)]
pub struct MePatch {
    pub display_name: Option<String>,
    pub avatar_url: Option<String>,
    pub motto: Option<String>,
}

/// The value a patched field settles on.
pub open spec fn spec_patched(
    cur: Option<Seq<char>>,
    req: Option<Seq<char>>,
) -> Option<Seq<char>> {
    match req {
        Option::Some(v) => Option::Some(v),
        Option::None => cur,
    }
}

fn patched_field(cur: &Option<String>, req: &Option<String>) -> (r: Option<String>)
    ensures
        view_of_opt(&r) == spec_patched(view_of_opt(cur), view_of_opt(req)),
{
    match req {
        Option::Some(v) => Option::Some(v.clone()),
        Option::None => match cur {
            Option::Some(c) => Option::Some(c.clone()),
            Option::None => Option::None,
        },
    }
}

/// Apply a partial update to a profile: each supplied field replaces the
/// stored one, each omitted field keeps it; identity, username and the
/// creation instant never change.
pub fn apply_me_patch(cur: &MeResp, patch: &MePatch) -> (r: MeResp)
    ensures
        r.id == cur.id,
        r.username == cur.username,
        r.created_at == cur.created_at,
        view_of_opt(&r.display_name) == spec_patched(
            view_of_opt(&cur.display_name),
            view_of_opt(&patch.display_name),
        ),
        view_of_opt(&r.avatar_url) == spec_patched(
            view_of_opt(&cur.avatar_url),
            view_of_opt(&patch.avatar_url),
        ),
        view_of_opt(&r.motto) == spec_patched(
            view_of_opt(&cur.motto),
            view_of_opt(&patch.motto),
        ),
{
    MeResp {
        id: cur.id.clone(),
        username: cur.username.clone(),
        display_name: patched_field(&cur.display_name, &patch.display_name),
        avatar_url: patched_field(&cur.avatar_url, &patch.avatar_url),
        motto: patched_field(&cur.motto, &patch.motto),
        created_at: cur.created_at.clone(),
    }
}

} // verus!
