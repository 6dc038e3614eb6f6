//! The content store: posts, tags and their associations, with the
//! lifecycle and synchronization rules proved over an in-memory model of
//! the relational schema.
//!
//! Well-formedness carries the model's invariants: ids are unique, tag
//! slugs are unique and derived from the first writer's name, an
//! association's tag always exists, a post's rendered body is always
//! derived from its markdown, and `published_at` is set exactly when the
//! post is published — once set it is never changed or cleared.
//!
//! The operations mirror the write paths: conditional on ownership, with
//! a zero-row match reported as `Forbidden` whether the id is absent or
//! owned by someone else, never distinguished.

use vstd::prelude::*;
use crate::access::spec_can_read;
use crate::error::AppError;
use crate::markdown::{html_of, render};
use crate::models::{
    spec_parse_status, spec_parse_visibility, parse_visibility, view_of_opt, Post, PostInput,
    Status, Tag, Visibility,
};
use crate::slug::{slugify, spec_slugify};

verus! {

/// One row of the association table: a (post, tag) pair.
#[derive(Clone, Debug, PartialEq, Eq)]
pub struct Assoc {
    pub post_id: String,
    pub tag_id: String,
}

/// Is some post in `posts` carrying this id?
pub open spec fn has_post_id(posts: Seq<Post>, id: Seq<char>) -> bool {
    exists|i: int| 0 <= i < posts.len() && (#[trigger] posts[i]).id@ == id
}

/// The index of the post carrying this id; meaningful under uniqueness.
pub open spec fn post_index_of(posts: Seq<Post>, id: Seq<char>) -> int {
    choose|i: int| 0 <= i < posts.len() && (#[trigger] posts[i]).id@ == id
}

pub open spec fn has_tag_id(tags: Seq<Tag>, id: Seq<char>) -> bool {
    exists|i: int| 0 <= i < tags.len() && (#[trigger] tags[i]).id@ == id
}

pub open spec fn has_tag_slug(tags: Seq<Tag>, slug: Seq<char>) -> bool {
    exists|i: int| 0 <= i < tags.len() && (#[trigger] tags[i]).slug@ == slug
}

pub open spec fn tag_index_by_slug(tags: Seq<Tag>, slug: Seq<char>) -> int {
    choose|i: int| 0 <= i < tags.len() && (#[trigger] tags[i]).slug@ == slug
}

pub open spec fn tag_index_by_id(tags: Seq<Tag>, id: Seq<char>) -> int {
    choose|i: int| 0 <= i < tags.len() && (#[trigger] tags[i]).id@ == id
}

pub open spec fn has_assoc(assocs: Seq<Assoc>, pid: Seq<char>, tid: Seq<char>) -> bool {
    exists|i: int|
        0 <= i < assocs.len() && (#[trigger] assocs[i]).post_id@ == pid && assocs[i].tag_id@
            == tid
}

/// Post ids are unique.
pub open spec fn posts_unique(posts: Seq<Post>) -> bool {
    forall|i: int, j: int|
        0 <= i < j < posts.len() ==> (#[trigger] posts[i]).id@ != (#[trigger] posts[j]).id@
}

/// Each post's derived and lifecycle fields are coherent: the rendered
/// body comes from the markdown, and `published_at` is set if and only if
/// the post is published.
pub open spec fn posts_coherent(posts: Seq<Post>) -> bool {
    forall|i: int|
        0 <= i < posts.len() ==> ((#[trigger] posts[i]).published_at is Some <==> posts[i].status
            is Published) && posts[i].body_html@ == html_of(posts[i].body_md@)
}

/// Tag ids and slugs are unique, and each slug derives from the name the
/// first writer supplied.
pub open spec fn tags_unique(tags: Seq<Tag>) -> bool {
    (forall|i: int, j: int|
        0 <= i < j < tags.len() ==> (#[trigger] tags[i]).id@ != (#[trigger] tags[j]).id@
            && tags[i].slug@ != tags[j].slug@) && (forall|i: int|
        0 <= i < tags.len() ==> (#[trigger] tags[i]).slug@ == spec_slugify(tags[i].name@))
}

/// Association pairs are unique and always reference an existing tag.
pub open spec fn assocs_ok(assocs: Seq<Assoc>, tags: Seq<Tag>) -> bool {
    (forall|i: int, j: int|
        0 <= i < j < assocs.len() ==> !((#[trigger] assocs[i]).post_id@
            == (#[trigger] assocs[j]).post_id@ && assocs[i].tag_id@ == assocs[j].tag_id@))
        && (forall|i: int|
        0 <= i < assocs.len() ==> has_tag_id(tags, (#[trigger] assocs[i]).tag_id@))
}

/// The relational state of the content model.
pub struct Store {
    posts: Vec<Post>,
    tags: Vec<Tag>,
    assocs: Vec<Assoc>,
}

impl Store {
    pub closed spec fn posts_view(self) -> Seq<Post> {
        self.posts@
    }

    pub closed spec fn tags_view(self) -> Seq<Tag> {
        self.tags@
    }

    pub closed spec fn assocs_view(self) -> Seq<Assoc> {
        self.assocs@
    }

    /// The model's invariants, together.
    pub open spec fn wf(self) -> bool {
        posts_unique(self.posts_view()) && posts_coherent(self.posts_view()) && tags_unique(
            self.tags_view(),
        ) && assocs_ok(self.assocs_view(), self.tags_view())
    }

    /// An empty store.
    pub fn new() -> (s: Store)
        ensures
            s.wf(),
            s.posts_view().len() == 0,
            s.tags_view().len() == 0,
            s.assocs_view().len() == 0,
    {
        Store { posts: Vec::new(), tags: Vec::new(), assocs: Vec::new() }
    }

    /// The position of the post with this id, if any.
    fn find_post_index(&self, id: &String) -> (r: Option<usize>)
        ensures
            match r {
                Some(i) => i < self.posts_view().len() && self.posts_view()[i as int].id@ == id@,
                None => !has_post_id(self.posts_view(), id@),
            },
    {
        let mut i: usize = 0;
        while i < self.posts.len()
            invariant
                0 <= i <= self.posts@.len(),
                forall|k: int| 0 <= k < i ==> (#[trigger] self.posts@[k]).id@ != id@,
            decreases self.posts@.len() - i,
        {
            if self.posts[i].id == *id {
                return Some(i);
            }
            i = i + 1;
        }
        None
    }

    /// Create a post.  The caller supplies a fresh id; the slug is the
    /// explicit one or the derivation from the title; the body is
    /// rendered; absent status and visibility take the draft and public
    /// defaults, and an unrecognized value is rejected, not stored.  A
    /// post created as published carries its publication instant from the
    /// start.
    pub fn create_post(
        &mut self,
        id: String,
        author_id: String,
        input: &PostInput,
        now: &String,
    ) -> (r: Result<String, AppError>)
        requires
            old(self).wf(),
            !has_post_id(old(self).posts_view(), id@),
        ensures
            final(self).wf(),
            final(self).tags_view() == old(self).tags_view(),
            final(self).assocs_view() == old(self).assocs_view(),
            r is Ok <==> (spec_parse_status(view_of_opt(&input.status)) is Some
                && spec_parse_visibility(view_of_opt(&input.visibility)) is Some),
            r matches Err(e) ==> e is BadRequest && final(self).posts_view() == old(
                self,
            ).posts_view(),
            r matches Ok(slug) ==> ({
                let p = final(self).posts_view().last();
                &&& final(self).posts_view() =~= old(self).posts_view().push(p)
                &&& p.id@ == id@
                &&& p.author_id@ == author_id@
                &&& p.slug@ == spec_slug_choice(input)
                &&& slug@ == p.slug@
                &&& p.title@ == input.title@
                &&& view_of_opt(&p.excerpt) == view_of_opt(&input.excerpt)
                &&& p.body_md@ == input.body_md@
                &&& p.body_html@ == html_of(input.body_md@)
                &&& Some(p.status) == spec_parse_status(view_of_opt(&input.status))
                &&& Some(p.visibility) == spec_parse_visibility(view_of_opt(&input.visibility))
                &&& (p.status is Published ==> (p.published_at matches Some(t) && t@ == now@))
                &&& (p.status is Draft ==> p.published_at is None)
                &&& p.created_at@ == now@
                &&& p.updated_at@ == now@
            }),
    {
        let status = match crate::models::parse_status(&input.status) {
            Ok(st) => st,
            Err(e) => {
                return Err(e);
            },
        };
        let visibility = match parse_visibility(&input.visibility) {
            Ok(v) => v,
            Err(e) => {
                return Err(e);
            },
        };
        let slug = match &input.slug {
            Some(s) => s.clone(),
            None => slugify(input.title.as_str()),
        };
        let excerpt = match &input.excerpt {
            Some(s) => Some(s.clone()),
            None => None,
        };
        let html = render(input.body_md.as_str());
        let published_at = match status {
            Status::Published => Some(now.clone()),
            Status::Draft => None,
        };
        let post = Post {
            id,
            slug: slug.clone(),
            title: input.title.clone(),
            excerpt,
            body_md: input.body_md.clone(),
            body_html: html,
            status,
            visibility,
            author_id,
            published_at,
            created_at: now.clone(),
            updated_at: now.clone(),
        };
        self.posts.push(post);
        proof {
            let posts = self.posts@;
            let prev = old(self).posts@;
            assert forall|i: int, j: int| 0 <= i < j < posts.len() implies (
            #[trigger] posts[i]).id@ != (#[trigger] posts[j]).id@ by {
                if j < prev.len() {
                } else {
                    assert(posts[j].id@ == posts[prev.len() as int].id@);
                    assert(!has_post_id(prev, posts[j].id@));
                }
            }
        }
        Ok(slug)
    }

    /// Update a post's content.  Only the owner may: a zero-row match —
    /// absent id or another author — is `Forbidden`, with the cause never
    /// distinguished.  An omitted status or visibility keeps the current
    /// value; a published post cannot be demoted to draft; the rendered
    /// body is always recomputed; `published_at` is set when this update
    /// itself publishes, and otherwise left exactly as it was.
    pub fn update_post(
        &mut self,
        id: &String,
        caller: &String,
        input: &PostInput,
        now: &String,
    ) -> (r: Result<(), AppError>)
        requires
            old(self).wf(),
        ensures
            final(self).wf(),
            final(self).tags_view() == old(self).tags_view(),
            final(self).assocs_view() == old(self).assocs_view(),
            r is Err ==> final(self).posts_view() == old(self).posts_view(),
            r is Ok <==> (spec_owned(old(self).posts_view(), id@, caller@) && spec_update_status(
                old(self).posts_view()[post_index_of(old(self).posts_view(), id@)].status,
                view_of_opt(&input.status),
            ) is Some && spec_update_visibility(
                old(self).posts_view()[post_index_of(old(self).posts_view(), id@)].visibility,
                view_of_opt(&input.visibility),
            ) is Some),
            (r matches Err(e) && e is Forbidden) <==> !spec_owned(old(self).posts_view(), id@, caller@),
            (r matches Err(e) && e is BadRequest) <==> (spec_owned(old(self).posts_view(), id@, caller@)
                && (spec_update_status(
                old(self).posts_view()[post_index_of(old(self).posts_view(), id@)].status,
                view_of_opt(&input.status),
            ) is None || spec_update_visibility(
                old(self).posts_view()[post_index_of(old(self).posts_view(), id@)].visibility,
                view_of_opt(&input.visibility),
            ) is None)),
            r is Ok ==> ({
                let i = post_index_of(old(self).posts_view(), id@);
                let prev = old(self).posts_view()[i];
                let p = final(self).posts_view()[i];
                &&& final(self).posts_view() =~= old(self).posts_view().update(i, p)
                &&& p.id == prev.id
                &&& p.author_id == prev.author_id
                &&& p.created_at == prev.created_at
                &&& p.slug@ == spec_slug_choice(input)
                &&& p.title@ == input.title@
                &&& view_of_opt(&p.excerpt) == view_of_opt(&input.excerpt)
                &&& p.body_md@ == input.body_md@
                &&& p.body_html@ == html_of(input.body_md@)
                &&& Some(p.status) == spec_update_status(prev.status, view_of_opt(&input.status))
                &&& Some(p.visibility) == spec_update_visibility(
                    prev.visibility,
                    view_of_opt(&input.visibility),
                )
                &&& (prev.status is Draft && p.status is Published ==> (p.published_at matches Some(
                    t,
                ) && t@ == now@))
                &&& (!(prev.status is Draft && p.status is Published) ==> p.published_at
                    == prev.published_at)
                &&& p.updated_at@ == now@
            }),
    {
        let i = match self.find_post_index(id) {
            Some(i) => i,
            None => {
                return Err(AppError::Forbidden);
            },
        };
        proof {
            lemma_post_index_agrees(self.posts@, id@, i as int);
        }
        if !(self.posts[i].author_id == *caller) {
            return Err(AppError::Forbidden);
        }
        let cur_status = self.posts[i].status;
        let cur_visibility = self.posts[i].visibility;
        let status = match update_status(cur_status, &input.status) {
            Ok(st) => st,
            Err(e) => {
                return Err(e);
            },
        };
        let visibility = match update_visibility(cur_visibility, &input.visibility) {
            Ok(v) => v,
            Err(e) => {
                return Err(e);
            },
        };
        let slug = match &input.slug {
            Some(s) => s.clone(),
            None => slugify(input.title.as_str()),
        };
        let excerpt = match &input.excerpt {
            Some(s) => Some(s.clone()),
            None => None,
        };
        let html = render(input.body_md.as_str());
        let published_at = if matches!(cur_status, Status::Draft) && matches!(
            status,
            Status::Published,
        ) {
            Some(now.clone())
        } else {
            match &self.posts[i].published_at {
                Some(t) => Some(t.clone()),
                None => None,
            }
        };
        let updated = Post {
            id: self.posts[i].id.clone(),
            slug,
            title: input.title.clone(),
            excerpt,
            body_md: input.body_md.clone(),
            body_html: html,
            status,
            visibility,
            author_id: self.posts[i].author_id.clone(),
            published_at,
            created_at: self.posts[i].created_at.clone(),
            updated_at: now.clone(),
        };
        self.posts[i] = updated;
        proof {
            lemma_update_preserves_post_invariants(old(self).posts@, self.posts@, i as int);
        }
        Ok(())
    }

    /// Publish a post.  Only the owner may, with the same `Forbidden`
    /// ambiguity as every write.  Publishing is idempotent in effect: an
    /// already-published post only has `updated_at` refreshed, and its
    /// `published_at` is never touched again.
    pub fn publish_post(&mut self, id: &String, caller: &String, now: &String) -> (r: Result<
        (),
        AppError,
    >)
        requires
            old(self).wf(),
        ensures
            final(self).wf(),
            final(self).tags_view() == old(self).tags_view(),
            final(self).assocs_view() == old(self).assocs_view(),
            r is Err ==> final(self).posts_view() == old(self).posts_view(),
            r is Ok <==> spec_owned(old(self).posts_view(), id@, caller@),
            (r matches Err(e) ==> e is Forbidden),
            r is Ok ==> ({
                let i = post_index_of(old(self).posts_view(), id@);
                let prev = old(self).posts_view()[i];
                let p = final(self).posts_view()[i];
                &&& final(self).posts_view() =~= old(self).posts_view().update(i, p)
                &&& p.status is Published
                &&& (prev.status is Published ==> p.published_at == prev.published_at)
                &&& (prev.status is Draft ==> (p.published_at matches Some(t) && t@ == now@))
                &&& p.updated_at@ == now@
                &&& p.id == prev.id
                &&& p.slug == prev.slug
                &&& p.title == prev.title
                &&& p.excerpt == prev.excerpt
                &&& p.body_md == prev.body_md
                &&& p.body_html == prev.body_html
                &&& p.visibility == prev.visibility
                &&& p.author_id == prev.author_id
                &&& p.created_at == prev.created_at
            }),
    {
        let i = match self.find_post_index(id) {
            Some(i) => i,
            None => {
                return Err(AppError::Forbidden);
            },
        };
        proof {
            lemma_post_index_agrees(self.posts@, id@, i as int);
        }
        if !(self.posts[i].author_id == *caller) {
            return Err(AppError::Forbidden);
        }
        let published_at = match &self.posts[i].published_at {
            Some(t) => Some(t.clone()),
            None => Some(now.clone()),
        };
        let updated = Post {
            id: self.posts[i].id.clone(),
            slug: self.posts[i].slug.clone(),
            title: self.posts[i].title.clone(),
            excerpt: match &self.posts[i].excerpt {
                Some(s) => Some(s.clone()),
                None => None,
            },
            body_md: self.posts[i].body_md.clone(),
            body_html: self.posts[i].body_html.clone(),
            status: Status::Published,
            visibility: self.posts[i].visibility,
            author_id: self.posts[i].author_id.clone(),
            published_at,
            created_at: self.posts[i].created_at.clone(),
            updated_at: now.clone(),
        };
        self.posts[i] = updated;
        proof {
            lemma_update_preserves_post_invariants(old(self).posts@, self.posts@, i as int);
        }
        Ok(())
    }

    /// Delete a post.  Only the owner may, with the same `Forbidden`
    /// ambiguity.  Association rows are left behind, as the storage layer
    /// leaves them; they reference no post and are invisible to every
    /// read path.
    pub fn delete_post(&mut self, id: &String, caller: &String) -> (r: Result<(), AppError>)
        requires
            old(self).wf(),
        ensures
            final(self).wf(),
            final(self).tags_view() == old(self).tags_view(),
            final(self).assocs_view() == old(self).assocs_view(),
            r is Err ==> final(self).posts_view() == old(self).posts_view(),
            r is Ok <==> spec_owned(old(self).posts_view(), id@, caller@),
            (r matches Err(e) ==> e is Forbidden),
            r is Ok ==> final(self).posts_view() =~= old(self).posts_view().remove(
                post_index_of(old(self).posts_view(), id@),
            ),
    {
        let i = match self.find_post_index(id) {
            Some(i) => i,
            None => {
                return Err(AppError::Forbidden);
            },
        };
        proof {
            lemma_post_index_agrees(self.posts@, id@, i as int);
        }
        if !(self.posts[i].author_id == *caller) {
            return Err(AppError::Forbidden);
        }
        self.posts.remove(i);
        proof {
            let prev = old(self).posts@;
            let cur = self.posts@;
            assert forall|a: int, b: int| 0 <= a < b < cur.len() implies (#[trigger] cur[a]).id@
                != (#[trigger] cur[b]).id@ by {
                let a0 = if a < i as int { a } else { a + 1 };
                let b0 = if b < i as int { b } else { b + 1 };
                assert(cur[a] == prev[a0] && cur[b] == prev[b0]);
            }
            assert forall|k: int| 0 <= k < cur.len() implies ((#[trigger] cur[k]).published_at
                is Some <==> cur[k].status is Published) && cur[k].body_html@ == html_of(
                cur[k].body_md@,
            ) by {
                let k0 = if k < i as int { k } else { k + 1 };
                assert(cur[k] == prev[k0]);
            }
        }
        Ok(())
    }
}

impl Store {
    /// Is some association and tag pair giving this post the slug `s`?
    pub open spec fn slug_in_assocs(self, pid: Seq<char>, s: Seq<char>) -> bool {
        exists|j: int, t: int|
            0 <= j < self.assocs_view().len() && 0 <= t < self.tags_view().len() && (
            #[trigger] self.assocs_view()[j]).post_id@ == pid && self.assocs_view()[j].tag_id@ == (
            #[trigger] self.tags_view()[t]).id@ && self.tags_view()[t].slug@ == s
    }

    /// The position of the tag with this slug, if any.
    fn find_tag_by_slug(&self, slug: &String) -> (r: Option<usize>)
        ensures
            match r {
                Some(i) => i < self.tags_view().len() && self.tags_view()[i as int].slug@ == slug@,
                None => !has_tag_slug(self.tags_view(), slug@),
            },
    {
        let mut i: usize = 0;
        while i < self.tags.len()
            invariant
                0 <= i <= self.tags@.len(),
                forall|k: int| 0 <= k < i ==> (#[trigger] self.tags@[k]).slug@ != slug@,
            decreases self.tags@.len() - i,
        {
            if self.tags[i].slug == *slug {
                return Some(i);
            }
            i = i + 1;
        }
        None
    }

    /// Look the tag up by the slug of `name`, else create it under
    /// `fresh_id`.  When the slug exists already, the stored tag — id and
    /// display name both — is left exactly as the first writer made it.
    pub fn ensure_tag(&mut self, name: &String, fresh_id: String) -> (tag_id: String)
        requires
            old(self).wf(),
            !has_tag_id(old(self).tags_view(), fresh_id@),
        ensures
            final(self).wf(),
            final(self).posts_view() == old(self).posts_view(),
            final(self).assocs_view() == old(self).assocs_view(),
            old(self).tags_view().is_prefix_of(final(self).tags_view()),
            has_tag_slug(old(self).tags_view(), spec_slugify(name@)) ==> final(self).tags_view()
                == old(self).tags_view(),
            !has_tag_slug(old(self).tags_view(), spec_slugify(name@)) ==> ({
                let t = final(self).tags_view().last();
                &&& final(self).tags_view() =~= old(self).tags_view().push(t)
                &&& t.id@ == fresh_id@
                &&& t.slug@ == spec_slugify(name@)
                &&& t.name@ == name@
            }),
            exists|t: int|
                0 <= t < final(self).tags_view().len() && (#[trigger] final(self).tags_view()[t]).id@
                    == tag_id@ && final(self).tags_view()[t].slug@ == spec_slugify(name@),
    {
        let slug = slugify(name.as_str());
        match self.find_tag_by_slug(&slug) {
            Some(i) => {
                let tid = self.tags[i].id.clone();
                proof {
                    assert(self.tags_view()[i as int].id@ == tid@);
                }
                tid
            },
            None => {
                let tag = Tag { id: fresh_id.clone(), slug, name: name.clone() };
                self.tags.push(tag);
                proof {
                    let tags = self.tags@;
                    let prev = old(self).tags@;
                    let n = prev.len() as int;
                    assert(tags[n].slug@ == spec_slugify(name@));
                    assert forall|a: int, b: int| 0 <= a < b < tags.len() implies (
                    #[trigger] tags[a]).id@ != (#[trigger] tags[b]).id@ && tags[a].slug@
                        != tags[b].slug@ by {
                        if b < n {
                        } else {
                            assert(tags[a] == prev[a]);
                            assert(tags[b].id@ == fresh_id@);
                            assert(!has_tag_id(prev, fresh_id@));
                            assert(!has_tag_slug(prev, spec_slugify(name@)));
                        }
                    }
                    assert forall|k: int|
                        0 <= k < self.assocs@.len() implies has_tag_id(
                        tags,
                        (#[trigger] self.assocs@[k]).tag_id@,
                    ) by {
                        assert(has_tag_id(prev, self.assocs@[k].tag_id@));
                        let w = choose|w: int|
                            0 <= w < prev.len() && (#[trigger] prev[w]).id@
                                == self.assocs@[k].tag_id@;
                        assert(tags[w].id@ == self.assocs@[k].tag_id@);
                    }
                }
                fresh_id
            },
        }
    }

    /// Record the association, ignoring a duplicate pair.
    pub fn add_assoc(&mut self, post_id: &String, tag_id: &String)
        requires
            old(self).wf(),
            has_tag_id(old(self).tags_view(), tag_id@),
        ensures
            final(self).wf(),
            final(self).posts_view() == old(self).posts_view(),
            final(self).tags_view() == old(self).tags_view(),
            has_assoc(old(self).assocs_view(), post_id@, tag_id@) ==> final(self).assocs_view()
                == old(self).assocs_view(),
            !has_assoc(old(self).assocs_view(), post_id@, tag_id@) ==> ({
                let a = final(self).assocs_view().last();
                &&& final(self).assocs_view() =~= old(self).assocs_view().push(a)
                &&& a.post_id@ == post_id@
                &&& a.tag_id@ == tag_id@
            }),
            has_assoc(final(self).assocs_view(), post_id@, tag_id@),
    {
        let mut j: usize = 0;
        while j < self.assocs.len()
            invariant
                0 <= j <= self.assocs@.len(),
                self.posts@ == old(self).posts@,
                self.tags@ == old(self).tags@,
                self.assocs@ == old(self).assocs@,
                old(self).wf(),
                forall|k: int|
                    0 <= k < j ==> !((#[trigger] self.assocs@[k]).post_id@ == post_id@
                        && self.assocs@[k].tag_id@ == tag_id@),
            decreases self.assocs@.len() - j,
        {
            if self.assocs[j].post_id == *post_id && self.assocs[j].tag_id == *tag_id {
                return ;
            }
            j = j + 1;
        }
        let a = Assoc { post_id: post_id.clone(), tag_id: tag_id.clone() };
        self.assocs.push(a);
        proof {
            let cur = self.assocs@;
            let prev = old(self).assocs@;
            let n = prev.len() as int;
            assert forall|x: int, y: int| 0 <= x < y < cur.len() implies !((
            #[trigger] cur[x]).post_id@ == (#[trigger] cur[y]).post_id@ && cur[x].tag_id@
                == cur[y].tag_id@) by {
                if y < n {
                } else {
                    assert(cur[x] == prev[x]);
                    assert(cur[y].post_id@ == post_id@ && cur[y].tag_id@ == tag_id@);
                }
            }
            assert forall|k: int|
                0 <= k < cur.len() implies has_tag_id(
                self.tags@,
                (#[trigger] cur[k]).tag_id@,
            ) by {
                if k < n {
                    assert(cur[k] == prev[k]);
                }
            }
        }
    }

    /// Delete every association row of this post.
    pub fn clear_post_assocs(&mut self, post_id: &String)
        requires
            old(self).wf(),
        ensures
            final(self).wf(),
            final(self).posts_view() == old(self).posts_view(),
            final(self).tags_view() == old(self).tags_view(),
            final(self).assocs_view() =~= old(self).assocs_view().filter(
                |a: Assoc| a.post_id@ != post_id@,
            ),
            forall|s: Seq<char>| !final(self).slug_in_assocs(post_id@, s),
            forall|pid: Seq<char>, tid: Seq<char>|
                pid != post_id@ ==> (has_assoc(final(self).assocs_view(), pid, tid) <==> has_assoc(
                    old(self).assocs_view(),
                    pid,
                    tid,
                )),
    {
        let ghost pred = |a: Assoc| a.post_id@ != post_id@;
        let mut kept: Vec<Assoc> = Vec::new();
        let mut j: usize = 0;
        while j < self.assocs.len()
            invariant
                0 <= j <= self.assocs@.len(),
                kept@ =~= self.assocs@.subrange(0, j as int).filter(pred),
                pred == (|a: Assoc| a.post_id@ != post_id@),
            decreases self.assocs@.len() - j,
        {
            let ghost before = self.assocs@.subrange(0, j as int);
            let ghost after = self.assocs@.subrange(0, j + 1 as int);
            if !(self.assocs[j].post_id == *post_id) {
                let a = Assoc {
                    post_id: self.assocs[j].post_id.clone(),
                    tag_id: self.assocs[j].tag_id.clone(),
                };
                proof {
                    assert(a == self.assocs@[j as int]);
                }
                kept.push(a);
            }
            proof {
                assert(after.drop_last() =~= before);
                assert(after.last() == self.assocs@[j as int]);
                reveal(Seq::filter);
            }
            j = j + 1;
        }
        proof {
            assert(self.assocs@.subrange(0, self.assocs@.len() as int) =~= self.assocs@);
        }
        self.assocs = kept;
        proof {
            let prev = old(self).assocs@;
            let cur = self.assocs@;
            lemma_filter_keeps_assoc_membership(prev, pred);
            lemma_filter_keeps_assocs_ok(prev, self.tags@, pred);
            assert forall|s: Seq<char>| !final(self).slug_in_assocs(post_id@, s) by {
                if final(self).slug_in_assocs(post_id@, s) {
                    let (j0, t0) = choose|j0: int, t0: int|
                        0 <= j0 < cur.len() && 0 <= t0 < self.tags@.len() && (
                        #[trigger] cur[j0]).post_id@ == post_id@ && cur[j0].tag_id@ == (
                        #[trigger] self.tags@[t0]).id@ && self.tags@[t0].slug@ == s;
                    assert(cur == prev.filter(pred));
                    prev.lemma_filter_pred(pred, j0);
                }
            }
        }
    }
}

/// Is `s` the slug of one of the first `upto` names?
pub open spec fn slug_listed(names: Seq<String>, upto: int, s: Seq<char>) -> bool {
    exists|k: int| 0 <= k < upto && spec_slugify((#[trigger] names[k])@) == s
}

/// Is `s` the value of one of the first `upto` strings?
pub open spec fn string_listed(strings: Seq<String>, upto: int, s: Seq<char>) -> bool {
    exists|k: int| 0 <= k < upto && s == (#[trigger] strings[k])@
}

impl Store {
    /// Reconcile the post's association set to exactly the distinct slugs
    /// of `names`, regardless of prior state: delete every existing row
    /// of the post, then associate each named tag, looking tags up by
    /// slug and creating missing ones under the supplied fresh ids (one
    /// per name, consumed in order, skipped when the slug already
    /// exists).  An empty list therefore clears all associations; a
    /// caller who wants them untouched does not call at all.  Existing
    /// tags are never altered: the first writer's id and display name
    /// win.  Associations of every other post are exactly preserved.
    pub fn sync_tags(&mut self, post_id: &String, names: &Vec<String>, fresh_ids: &Vec<String>)
        requires
            old(self).wf(),
            fresh_ids@.len() == names@.len(),
            forall|a: int, b: int|
                0 <= a < b < fresh_ids@.len() ==> (#[trigger] fresh_ids@[a])@ != (
                #[trigger] fresh_ids@[b])@,
            forall|a: int|
                0 <= a < fresh_ids@.len() ==> !has_tag_id(
                    old(self).tags_view(),
                    (#[trigger] fresh_ids@[a])@,
                ),
        ensures
            final(self).wf(),
            final(self).posts_view() == old(self).posts_view(),
            old(self).tags_view().is_prefix_of(final(self).tags_view()),
            forall|s: Seq<char>|
                #![trigger final(self).slug_in_assocs(post_id@, s)]
                final(self).slug_in_assocs(post_id@, s) <==> slug_listed(
                    names@,
                    names@.len() as int,
                    s,
                ),
            forall|pid: Seq<char>, tid: Seq<char>|
                pid != post_id@ ==> (has_assoc(
                    #[trigger] final(self).assocs_view(),
                    pid,
                    tid,
                ) <==> has_assoc(old(self).assocs_view(), pid, tid)),
            forall|t: int|
                #![trigger final(self).tags_view()[t]]
                old(self).tags_view().len() <= t < final(self).tags_view().len() ==> (
                string_listed(names@, names@.len() as int, final(self).tags_view()[t].name@)
                    && string_listed(
                    fresh_ids@,
                    fresh_ids@.len() as int,
                    final(self).tags_view()[t].id@,
                )),
    {
        self.clear_post_assocs(post_id);
        let ghost cleared: Store = *self;
        let mut k: usize = 0;
        while k < names.len()
            invariant
                0 <= k <= names@.len(),
                fresh_ids@.len() == names@.len(),
                self.wf(),
                self.posts_view() == cleared.posts_view(),
                cleared.tags_view().is_prefix_of(self.tags_view()),
                forall|a: int, b: int|
                    0 <= a < b < fresh_ids@.len() ==> (#[trigger] fresh_ids@[a])@ != (
                    #[trigger] fresh_ids@[b])@,
                forall|a: int|
                    k <= a < fresh_ids@.len() ==> !has_tag_id(
                        self.tags_view(),
                        (#[trigger] fresh_ids@[a])@,
                    ),
                forall|s: Seq<char>|
                    #![trigger self.slug_in_assocs(post_id@, s)]
                    self.slug_in_assocs(post_id@, s) <==> slug_listed(names@, k as int, s),
                forall|pid: Seq<char>, tid: Seq<char>|
                    pid != post_id@ ==> (has_assoc(
                        #[trigger] self.assocs_view(),
                        pid,
                        tid,
                    ) <==> has_assoc(cleared.assocs_view(), pid, tid)),
                forall|t: int|
                    #![trigger self.tags_view()[t]]
                    cleared.tags_view().len() <= t < self.tags_view().len() ==> (string_listed(
                        names@,
                        k as int,
                        self.tags_view()[t].name@,
                    ) && string_listed(fresh_ids@, k as int, self.tags_view()[t].id@)),
            decreases names@.len() - k,
        {
            let ghost pre: Store = *self;
            let tid = self.ensure_tag(&names[k], fresh_ids[k].clone());
            let ghost mid: Store = *self;
            self.add_assoc(post_id, &tid);
            proof {
                let nk = names@[k as int]@;
                let sk = spec_slugify(nk);
                // the consumed id leaves the rest of the pool fresh
                assert forall|a: int|
                    k + 1 <= a < fresh_ids@.len() implies !has_tag_id(
                    self.tags_view(),
                    (#[trigger] fresh_ids@[a])@,
                ) by {
                    if has_tag_id(self.tags_view(), fresh_ids@[a]@) {
                        let t = choose|t: int|
                            0 <= t < self.tags_view().len() && (#[trigger] self.tags_view()[t]).id@
                                == fresh_ids@[a]@;
                        if t < pre.tags_view().len() {
                            assert(pre.tags_view()[t] == self.tags_view()[t]);
                        } else {
                            assert(self.tags_view()[t].id@ == fresh_ids@[k as int]@);
                        }
                    }
                }
                // the tag reached by `tid` carries slug `sk`
                let t0 = choose|t0: int|
                    0 <= t0 < mid.tags_view().len() && (#[trigger] mid.tags_view()[t0]).id@ == tid@
                        && mid.tags_view()[t0].slug@ == sk;
                assert(self.tags_view() == mid.tags_view());
                // the association set now holds exactly the first k + 1 slugs
                assert forall|s: Seq<char>|
                    #![trigger self.slug_in_assocs(post_id@, s)]
                    self.slug_in_assocs(post_id@, s) <==> slug_listed(
                    names@,
                    k + 1 as int,
                    s,
                ) by {
                    if self.slug_in_assocs(post_id@, s) {
                        let (j, t) = choose|j: int, t: int|
                            0 <= j < self.assocs_view().len() && 0 <= t < self.tags_view().len()
                                && (#[trigger] self.assocs_view()[j]).post_id@ == post_id@
                                && self.assocs_view()[j].tag_id@ == (
                            #[trigger] self.tags_view()[t]).id@ && self.tags_view()[t].slug@ == s;
                        if j < pre.assocs_view().len() {
                            assert(self.assocs_view()[j] == pre.assocs_view()[j]);
                            assert(has_tag_id(pre.tags_view(), pre.assocs_view()[j].tag_id@));
                            let tp = choose|tp: int|
                                0 <= tp < pre.tags_view().len() && (
                                #[trigger] pre.tags_view()[tp]).id@
                                    == pre.assocs_view()[j].tag_id@;
                            assert(self.tags_view()[tp] == pre.tags_view()[tp]);
                            assert(self.tags_view()[tp].id@ == self.tags_view()[t].id@);
                            if tp != t {
                                assert(false);
                            }
                            assert(pre.slug_in_assocs(post_id@, s));
                        } else {
                            assert(self.assocs_view()[j].tag_id@ == tid@);
                            assert(self.tags_view()[t0].id@ == tid@);
                            if t != t0 {
                                assert(false);
                            }
                            assert(s == sk);
                            assert(slug_listed(names@, k + 1 as int, s));
                        }
                    }
                    if slug_listed(names@, k + 1 as int, s) {
                        let k2 = choose|k2: int|
                            0 <= k2 < k + 1 && spec_slugify((#[trigger] names@[k2])@) == s;
                        if k2 < k as int {
                            assert(pre.slug_in_assocs(post_id@, s));
                            let (j, t) = choose|j: int, t: int|
                                0 <= j < pre.assocs_view().len() && 0 <= t
                                    < pre.tags_view().len() && (
                                #[trigger] pre.assocs_view()[j]).post_id@ == post_id@
                                    && pre.assocs_view()[j].tag_id@ == (
                                #[trigger] pre.tags_view()[t]).id@ && pre.tags_view()[t].slug@
                                    == s;
                            assert(self.assocs_view()[j] == pre.assocs_view()[j]);
                            assert(self.tags_view()[t] == pre.tags_view()[t]);
                            assert(self.slug_in_assocs(post_id@, s));
                        } else {
                            assert(has_assoc(self.assocs_view(), post_id@, tid@));
                            let j = choose|j: int|
                                0 <= j < self.assocs_view().len() && (
                                #[trigger] self.assocs_view()[j]).post_id@ == post_id@
                                    && self.assocs_view()[j].tag_id@ == tid@;
                            assert(self.tags_view()[t0].slug@ == s);
                            assert(self.slug_in_assocs(post_id@, s));
                        }
                    }
                }
                // every tag created so far carries one of the supplied names
                assert forall|t: int|
                    #![trigger self.tags_view()[t]]
                    cleared.tags_view().len() <= t < self.tags_view().len() implies (
                string_listed(names@, k + 1 as int, self.tags_view()[t].name@) && string_listed(
                    fresh_ids@,
                    k + 1 as int,
                    self.tags_view()[t].id@,
                )) by {
                    if t < pre.tags_view().len() {
                        assert(self.tags_view()[t] == pre.tags_view()[t]);
                        assert(string_listed(names@, k as int, pre.tags_view()[t].name@));
                        let k2 = choose|k2: int|
                            0 <= k2 < k && pre.tags_view()[t].name@ == (#[trigger] names@[k2])@;
                        assert(self.tags_view()[t].name@ == names@[k2]@);
                        assert(string_listed(fresh_ids@, k as int, pre.tags_view()[t].id@));
                        let k3 = choose|k3: int|
                            0 <= k3 < k && pre.tags_view()[t].id@ == (#[trigger] fresh_ids@[k3])@;
                        assert(self.tags_view()[t].id@ == fresh_ids@[k3]@);
                    } else {
                        assert(self.tags_view()[t].name@ == names@[k as int]@);
                        assert(self.tags_view()[t].id@ == fresh_ids@[k as int]@);
                    }
                }
                // other posts' associations are untouched
                assert forall|pid: Seq<char>, tid2: Seq<char>|
                    pid != post_id@ implies (has_assoc(
                    #[trigger] self.assocs_view(),
                    pid,
                    tid2,
                ) <==> has_assoc(cleared.assocs_view(), pid, tid2)) by {
                    if has_assoc(self.assocs_view(), pid, tid2) {
                        let j = choose|j: int|
                            0 <= j < self.assocs_view().len() && (
                            #[trigger] self.assocs_view()[j]).post_id@ == pid
                                && self.assocs_view()[j].tag_id@ == tid2;
                        if j < pre.assocs_view().len() {
                            assert(self.assocs_view()[j] == pre.assocs_view()[j]);
                            assert(has_assoc(pre.assocs_view(), pid, tid2));
                        } else {
                            assert(self.assocs_view()[j].post_id@ == post_id@);
                        }
                    }
                    if has_assoc(pre.assocs_view(), pid, tid2) {
                        let j = choose|j: int|
                            0 <= j < pre.assocs_view().len() && (
                            #[trigger] pre.assocs_view()[j]).post_id@ == pid
                                && pre.assocs_view()[j].tag_id@ == tid2;
                        assert(self.assocs_view()[j] == pre.assocs_view()[j]);
                        assert(has_assoc(self.assocs_view(), pid, tid2));
                    }
                }
            }
            k = k + 1;
        }
        proof {
            assert(cleared.tags_view() == old(self).tags_view());
            assert(k as int == names@.len() as int);
        }
    }
}

impl Store {
    /// Is the post at `i` what the detail-by-slug path would show this
    /// caller: carrying the slug, published, and readable under the
    /// access table?
    pub open spec fn detail_visible(
        self,
        i: int,
        slug: Seq<char>,
        caller: Option<Seq<char>>,
    ) -> bool {
        let p = self.posts_view()[i];
        p.slug@ == slug && p.status is Published && spec_can_read(
            caller,
            p.status,
            p.visibility,
            p.author_id@,
        )
    }

    /// The author-only read by id, for loading a post into the editor.
    /// Exactly the owner receives the post; an absent id and another
    /// author's id are both `Forbidden`, never distinguished.
    pub fn get_post(&self, id: &String, caller: &String) -> (r: Result<Post, AppError>)
        requires
            self.wf(),
        ensures
            r is Ok <==> spec_owned(self.posts_view(), id@, caller@),
            r matches Ok(p) ==> p == self.posts_view()[post_index_of(self.posts_view(), id@)],
            r matches Err(e) ==> e is Forbidden,
    {
        let i = match self.find_post_index(id) {
            Some(i) => i,
            None => {
                return Err(AppError::Forbidden);
            },
        };
        proof {
            lemma_post_index_agrees(self.posts@, id@, i as int);
        }
        if !(self.posts[i].author_id == *caller) {
            return Err(AppError::Forbidden);
        }
        Ok(self.posts[i].clone())
    }

    /// The public detail read by slug under an optional caller: the first
    /// post carrying the slug that is published and readable by this
    /// caller, else `NotFound` — whether the slug is absent, the post is
    /// a draft, or it is private and the caller is not its author.
    pub fn get_post_by_slug(&self, slug: &String, caller: &Option<String>) -> (r: Result<
        Post,
        AppError,
    >)
        requires
            self.wf(),
        ensures
            r is Ok <==> exists|i: int|
                0 <= i < self.posts_view().len() && self.detail_visible(i, slug@, view_of_opt(caller)),
            r matches Ok(p) ==> exists|i: int|
                0 <= i < self.posts_view().len() && #[trigger] self.detail_visible(
                    i,
                    slug@,
                    view_of_opt(caller),
                ) && p == self.posts_view()[i] && (forall|j: int|
                    0 <= j < i ==> !self.detail_visible(j, slug@, view_of_opt(caller))),
            r matches Err(e) ==> e is NotFound,
    {
        let mut i: usize = 0;
        while i < self.posts.len()
            invariant
                0 <= i <= self.posts@.len(),
                forall|j: int| 0 <= j < i ==> !self.detail_visible(j, slug@, view_of_opt(caller)),
            decreases self.posts@.len() - i,
        {
            let p = &self.posts[i];
            let readable = crate::access::can_read(caller, p.status, p.visibility, &p.author_id);
            if p.slug == *slug && matches!(p.status, Status::Published) && readable {
                proof {
                    assert(self.detail_visible(i as int, slug@, view_of_opt(caller)));
                }
                return Ok(self.posts[i].clone());
            }
            i = i + 1;
        }
        Err(AppError::NotFound)
    }
}

/// The display names of the tags associated with a post, in association
/// order.
pub open spec fn spec_tag_names_of(assocs: Seq<Assoc>, tags: Seq<Tag>, pid: Seq<char>) -> Seq<
    Seq<char>,
>
    decreases assocs.len(),
{
    if assocs.len() == 0 {
        Seq::empty()
    } else {
        let rest = spec_tag_names_of(assocs.drop_last(), tags, pid);
        let a = assocs.last();
        if a.post_id@ == pid && has_tag_id(tags, a.tag_id@) {
            rest.push(tags[tag_index_by_id(tags, a.tag_id@)].name@)
        } else {
            rest
        }
    }
}

/// The character sequences of a list of strings.
pub open spec fn names_view(s: Seq<String>) -> Seq<Seq<char>> {
    s.map_values(|n: String| n@)
}

proof fn lemma_names_view_push(s: Seq<String>, x: String)
    ensures
        names_view(s.push(x)) =~= names_view(s).push(x@),
{
    assert forall|i: int|
        0 <= i < s.len() + 1 implies #[trigger] names_view(s.push(x))[i] == names_view(s).push(
        x@,
    )[i] by {
        if i < s.len() {
            assert(s.push(x)[i] == s[i]);
        } else {
            assert(s.push(x)[i] == x);
        }
    }
}

/// Under unique tag ids, any index holding the id is the chosen one.
proof fn lemma_tag_index_agrees(tags: Seq<Tag>, id: Seq<char>, i: int)
    requires
        tags_unique(tags),
        0 <= i < tags.len(),
        tags[i].id@ == id,
    ensures
        has_tag_id(tags, id),
        tag_index_by_id(tags, id) == i,
{
    assert(has_tag_id(tags, id));
    let j = tag_index_by_id(tags, id);
    if j != i {
        if i < j {
            assert(tags[i].id@ != tags[j].id@);
        } else {
            assert(tags[j].id@ != tags[i].id@);
        }
    }
}

impl Store {
    /// The position of the tag with this id, if any.
    fn find_tag_by_id(&self, id: &String) -> (r: Option<usize>)
        ensures
            match r {
                Some(i) => i < self.tags_view().len() && self.tags_view()[i as int].id@ == id@,
                None => !has_tag_id(self.tags_view(), id@),
            },
    {
        let mut i: usize = 0;
        while i < self.tags.len()
            invariant
                0 <= i <= self.tags@.len(),
                forall|k: int| 0 <= k < i ==> (#[trigger] self.tags@[k]).id@ != id@,
            decreases self.tags@.len() - i,
        {
            if self.tags[i].id == *id {
                return Some(i);
            }
            i = i + 1;
        }
        None
    }

    /// The display names of a post's tags, in association order.
    pub fn tag_names_of(&self, post_id: &String) -> (r: Vec<String>)
        requires
            self.wf(),
        ensures
            names_view(r@) =~= spec_tag_names_of(
                self.assocs_view(),
                self.tags_view(),
                post_id@,
            ),
    {
        let mut out: Vec<String> = Vec::new();
        let mut j: usize = 0;
        while j < self.assocs.len()
            invariant
                0 <= j <= self.assocs@.len(),
                self.wf(),
                names_view(out@) =~= spec_tag_names_of(
                    self.assocs@.subrange(0, j as int),
                    self.tags@,
                    post_id@,
                ),
            decreases self.assocs@.len() - j,
        {
            let ghost before = self.assocs@.subrange(0, j as int);
            let ghost after = self.assocs@.subrange(0, j + 1 as int);
            let ghost outv = out@;
            if self.assocs[j].post_id == *post_id {
                match self.find_tag_by_id(&self.assocs[j].tag_id) {
                    Some(t) => {
                        out.push(self.tags[t].name.clone());
                        proof {
                            lemma_tag_index_agrees(self.tags@, self.assocs@[j as int].tag_id@, t as int);
                            lemma_names_view_push(outv, out@.last());
                        }
                    },
                    None => {
                        proof {
                            assert(has_tag_id(self.tags@, self.assocs@[j as int].tag_id@));
                        }
                    },
                }
            }
            proof {
                assert(after.drop_last() =~= before);
                assert(after.last() == self.assocs@[j as int]);
            }
            j = j + 1;
        }
        proof {
            assert(self.assocs@.subrange(0, self.assocs@.len() as int) =~= self.assocs@);
        }
        out
    }
}

/// A post's publication instant is recorded exactly when the post is
/// published: a well-formed store holds no published post without its
/// instant and no instant on a draft.
pub proof fn lemma_published_iff_dated(s: Store)
    requires
        s.wf(),
    ensures
        forall|i: int|
            0 <= i < s.posts_view().len() ==> ((#[trigger] s.posts_view()[i]).published_at
                is Some <==> s.posts_view()[i].status is Published),
{
}

/// Tag synchronization overwrites: two stores that both underwent a
/// synchronization of the same post to the same target list carry the
/// same association slugs, whatever either held before.
pub proof fn lemma_sync_overwrite(s1: Store, s2: Store, post_id: Seq<char>, names: Seq<String>)
    requires
        forall|s: Seq<char>|
            #![trigger s1.slug_in_assocs(post_id, s)]
            s1.slug_in_assocs(post_id, s) <==> slug_listed(names, names.len() as int, s),
        forall|s: Seq<char>|
            #![trigger s2.slug_in_assocs(post_id, s)]
            s2.slug_in_assocs(post_id, s) <==> slug_listed(names, names.len() as int, s),
    ensures
        forall|s: Seq<char>|
            #![trigger s1.slug_in_assocs(post_id, s), s2.slug_in_assocs(post_id, s)]
            s1.slug_in_assocs(post_id, s) <==> s2.slug_in_assocs(post_id, s),
{
}

/// Every element of a filtered sequence occurs in the original.
proof fn lemma_filter_elem_from<A>(s: Seq<A>, pred: spec_fn(A) -> bool, i: int)
    requires
        0 <= i < s.filter(pred).len(),
    ensures
        exists|k: int| 0 <= k < s.len() && #[trigger] s[k] == s.filter(pred)[i],
    decreases s.len(),
{
    reveal(Seq::filter);
    if s.len() > 0 {
        let dl = s.drop_last();
        let f = s.filter(pred);
        let fd = dl.filter(pred);
        if pred(s.last()) {
            assert(f == fd.push(s.last()));
            if i < fd.len() {
                lemma_filter_elem_from(dl, pred, i);
                let k = choose|k: int| 0 <= k < dl.len() && #[trigger] dl[k] == fd[i];
                assert(s[k] == dl[k]);
                assert(f[i] == fd[i]);
            } else {
                assert(f[i] == s.last());
                assert(s[s.len() - 1] == s.last());
            }
        } else {
            assert(f == fd);
            lemma_filter_elem_from(dl, pred, i);
            let k = choose|k: int| 0 <= k < dl.len() && #[trigger] dl[k] == fd[i];
            assert(s[k] == dl[k]);
        }
    }
}

/// Filtering keeps pair-uniqueness and tag references.
proof fn lemma_filter_keeps_assocs_ok(s: Seq<Assoc>, tags: Seq<Tag>, pred: spec_fn(Assoc) -> bool)
    requires
        forall|i: int, j: int|
            0 <= i < j < s.len() ==> !((#[trigger] s[i]).post_id@ == (#[trigger] s[j]).post_id@
                && s[i].tag_id@ == s[j].tag_id@),
        forall|i: int| 0 <= i < s.len() ==> has_tag_id(tags, (#[trigger] s[i]).tag_id@),
    ensures
        assocs_ok(s.filter(pred), tags),
    decreases s.len(),
{
    reveal(Seq::filter);
    if s.len() > 0 {
        let dl = s.drop_last();
        lemma_filter_keeps_assocs_ok(dl, tags, pred);
        let f = s.filter(pred);
        let fd = dl.filter(pred);
        if pred(s.last()) {
            assert(f =~= fd.push(s.last()));
            assert forall|x: int, y: int| 0 <= x < y < f.len() implies !((
            #[trigger] f[x]).post_id@ == (#[trigger] f[y]).post_id@ && f[x].tag_id@
                == f[y].tag_id@) by {
                if y < fd.len() {
                    assert(f[x] == fd[x] && f[y] == fd[y]);
                } else {
                    assert(f[x] == fd[x]);
                    assert(f[y] == s.last());
                    lemma_filter_elem_from(dl, pred, x);
                    let k = choose|k: int| 0 <= k < dl.len() && dl[k] == fd[x];
                    assert(s[k] == dl[k]);
                    assert(!(s[k].post_id@ == s[s.len() - 1].post_id@ && s[k].tag_id@
                        == s[s.len() - 1].tag_id@));
                }
            }
            assert forall|k: int| 0 <= k < f.len() implies has_tag_id(
                tags,
                (#[trigger] f[k]).tag_id@,
            ) by {
                if k < fd.len() {
                    assert(f[k] == fd[k]);
                } else {
                    assert(f[k] == s.last());
                    assert(s[s.len() - 1] == s.last());
                }
            }
        } else {
            assert(f =~= fd);
        }
    }
}

/// For every pair not filtered away, membership is preserved both ways.
proof fn lemma_filter_keeps_assoc_membership(s: Seq<Assoc>, pred: spec_fn(Assoc) -> bool)
    ensures
        forall|pid: Seq<char>, tid: Seq<char>|
            (exists|k: int|
                0 <= k < s.len() && (#[trigger] s[k]).post_id@ == pid && s[k].tag_id@ == tid
                    && pred(s[k])) <==> has_assoc(s.filter(pred), pid, tid),
    decreases s.len(),
{
    reveal(Seq::filter);
    if s.len() > 0 {
        let dl = s.drop_last();
        lemma_filter_keeps_assoc_membership(dl, pred);
        let f = s.filter(pred);
        let fd = dl.filter(pred);
        assert forall|pid: Seq<char>, tid: Seq<char>| true implies ((exists|k: int|
            0 <= k < s.len() && (#[trigger] s[k]).post_id@ == pid && s[k].tag_id@ == tid && pred(
                s[k],
            )) <==> has_assoc(f, pid, tid)) by {
            if exists|k: int|
                0 <= k < s.len() && (#[trigger] s[k]).post_id@ == pid && s[k].tag_id@ == tid
                    && pred(s[k]) {
                let k = choose|k: int|
                    0 <= k < s.len() && (#[trigger] s[k]).post_id@ == pid && s[k].tag_id@ == tid
                        && pred(s[k]);
                if k < dl.len() {
                    assert(dl[k] == s[k]);
                    assert(has_assoc(fd, pid, tid));
                    if pred(s.last()) {
                        assert(f =~= fd.push(s.last()));
                        let w = choose|w: int|
                            0 <= w < fd.len() && (#[trigger] fd[w]).post_id@ == pid
                                && fd[w].tag_id@ == tid;
                        assert(f[w] == fd[w]);
                    } else {
                        assert(f =~= fd);
                    }
                } else {
                    assert(s[k] == s.last());
                    assert(f =~= fd.push(s.last()));
                    assert(f[f.len() - 1] == s.last());
                }
            }
            if has_assoc(f, pid, tid) {
                let w = choose|w: int|
                    0 <= w < f.len() && (#[trigger] f[w]).post_id@ == pid && f[w].tag_id@ == tid;
                if pred(s.last()) {
                    assert(f =~= fd.push(s.last()));
                    if w < fd.len() {
                        assert(f[w] == fd[w]);
                        assert(has_assoc(fd, pid, tid));
                        let k0 = choose|k0: int|
                            0 <= k0 < dl.len() && (#[trigger] dl[k0]).post_id@ == pid
                                && dl[k0].tag_id@ == tid && pred(dl[k0]);
                        assert(s[k0] == dl[k0]);
                    } else {
                        assert(f[w] == s.last());
                        assert(s[s.len() - 1] == s.last());
                    }
                } else {
                    assert(f =~= fd);
                    assert(has_assoc(fd, pid, tid));
                    let k0 = choose|k0: int|
                        0 <= k0 < dl.len() && (#[trigger] dl[k0]).post_id@ == pid
                            && dl[k0].tag_id@ == tid && pred(dl[k0]);
                    assert(s[k0] == dl[k0]);
                }
            }
        }
    }
}

/// Does a post with this id exist and belong to this caller?  The write
/// paths allow exactly this, and deny everything else identically.
pub open spec fn spec_owned(posts: Seq<Post>, id: Seq<char>, caller: Seq<char>) -> bool {
    has_post_id(posts, id) && posts[post_index_of(posts, id)].author_id@ == caller
}

/// The status an update settles on: the current one when the request
/// omits it, the parsed one otherwise — unless it is unrecognized or
/// would demote a published post, which nothing may.
pub open spec fn spec_update_status(cur: Status, req: Option<Seq<char>>) -> Option<Status> {
    match req {
        Option::None => Option::Some(cur),
        Option::Some(_) => match spec_parse_status(req) {
            Option::None => Option::None,
            Option::Some(st) => if cur is Published && st is Draft {
                Option::None
            } else {
                Option::Some(st)
            },
        },
    }
}

/// The visibility an update settles on: the current one when omitted,
/// else the parsed one; both values are always reachable.
pub open spec fn spec_update_visibility(cur: Visibility, req: Option<Seq<char>>) -> Option<
    Visibility,
> {
    match req {
        Option::None => Option::Some(cur),
        Option::Some(_) => spec_parse_visibility(req),
    }
}

/// Decide the status an update settles on, rejecting what nothing may
/// store: an unrecognized value, or the demotion of a published post.
pub fn update_status(cur: Status, req: &Option<String>) -> (r: Result<Status, AppError>)
    ensures
        match spec_update_status(cur, view_of_opt(req)) {
            Option::Some(st) => r == Result::<Status, AppError>::Ok(st),
            Option::None => r matches Result::Err(e) && e is BadRequest,
        },
{
    match req {
        None => Ok(cur),
        Some(_) => {
            match crate::models::parse_status(req) {
                Ok(st) => {
                    if matches!(cur, Status::Published) && matches!(st, Status::Draft) {
                        Err(AppError::BadRequest("cannot demote a published post".to_owned()))
                    } else {
                        Ok(st)
                    }
                },
                Err(e) => Err(e),
            }
        },
    }
}

/// Decide the visibility an update settles on.
pub fn update_visibility(cur: Visibility, req: &Option<String>) -> (r: Result<
    Visibility,
    AppError,
>)
    ensures
        match spec_update_visibility(cur, view_of_opt(req)) {
            Option::Some(v) => r == Result::<Visibility, AppError>::Ok(v),
            Option::None => r matches Result::Err(e) && e is BadRequest,
        },
{
    match req {
        None => Ok(cur),
        Some(_) => parse_visibility(req),
    }
}

/// Under uniqueness, any index holding the id is the chosen one.
proof fn lemma_post_index_agrees(posts: Seq<Post>, id: Seq<char>, i: int)
    requires
        posts_unique(posts),
        0 <= i < posts.len(),
        posts[i].id@ == id,
    ensures
        has_post_id(posts, id),
        post_index_of(posts, id) == i,
{
    assert(has_post_id(posts, id));
    let j = post_index_of(posts, id);
    if j != i {
        if i < j {
            assert(posts[i].id@ != posts[j].id@);
        } else {
            assert(posts[j].id@ != posts[i].id@);
        }
    }
}

/// Replacing one post with another carrying the same id and coherent
/// fields keeps the posts' invariants.
proof fn lemma_update_preserves_post_invariants(prev: Seq<Post>, cur: Seq<Post>, i: int)
    requires
        posts_unique(prev),
        posts_coherent(prev),
        0 <= i < prev.len(),
        cur =~= prev.update(i, cur[i]),
        cur[i].id@ == prev[i].id@,
        cur[i].published_at is Some <==> cur[i].status is Published,
        cur[i].body_html@ == html_of(cur[i].body_md@),
    ensures
        posts_unique(cur),
        posts_coherent(cur),
{
    assert forall|a: int, b: int| 0 <= a < b < cur.len() implies (#[trigger] cur[a]).id@ != (
    #[trigger] cur[b]).id@ by {
        assert(prev[a].id@ != prev[b].id@);
        assert(cur[a].id@ == prev[a].id@ && cur[b].id@ == prev[b].id@);
    }
    assert forall|k: int| 0 <= k < cur.len() implies ((#[trigger] cur[k]).published_at
        is Some <==> cur[k].status is Published) && cur[k].body_html@ == html_of(
        cur[k].body_md@,
    ) by {
        if k != i {
            assert(cur[k] == prev[k]);
        }
    }
}

/// The slug a write request asks for: the explicit value, else the
/// derivation from the title.
pub open spec fn spec_slug_choice(input: &PostInput) -> Seq<char> {
    match input.slug {
        Some(s) => s@,
        None => spec_slugify(input.title@),
    }
}

} // verus!
