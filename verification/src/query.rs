//! The query builder: assembles the filtered, paginated read queries as a
//! statement text plus an ordered list of bound parameters.  A filter value
//! only ever becomes a placeholder and a parameter, never part of the
//! text, so the text is a function of which filters are present and the
//! parameter list carries the values.
//!
//! The access scope is baked into the base text at construction time: the
//! public listing always forces published-and-public, the author listing
//! always forces the caller's own rows.  Unrecognized status or visibility
//! filter values add no predicate, by design.

use vstd::prelude::*;
use vstd::string::StringExecFns;
use crate::models::view_of_opt;
use crate::paging::{
    clamp_page, clamp_page_size, page_offset, spec_clamp_page, spec_clamp_page_size, spec_offset,
    AUTHOR_DEFAULT_PAGE_SIZE, AUTHOR_MAX_PAGE_SIZE, PUBLIC_DEFAULT_PAGE_SIZE,
    PUBLIC_MAX_PAGE_SIZE,
};

verus! {

/// A value bound to one placeholder.
#[derive(Clone, Debug, PartialEq)]
pub enum Param {
    Str(String),
    Int(i64),
}

/// The mathematical value of a bound parameter.
pub ghost enum ParamV {
    S(Seq<char>),
    I(int),
}

impl View for Param {
    type V = ParamV;

    open spec fn view(&self) -> ParamV {
        match self {
            Param::Str(s) => ParamV::S(s@),
            Param::Int(i) => ParamV::I(*i as int),
        }
    }
}

/// The values of a parameter list, in order.
pub open spec fn params_view(s: Seq<Param>) -> Seq<ParamV> {
    s.map_values(|p: Param| p@)
}

proof fn lemma_params_view_push(s: Seq<Param>, p: Param)
    ensures
        params_view(s.push(p)) =~= params_view(s).push(p@),
{
    assert forall|i: int| 0 <= i < s.len() + 1 implies params_view(s.push(p))[i] == params_view(
        s,
    ).push(p@)[i] by {
        if i < s.len() {
            assert(s.push(p)[i] == s[i]);
        } else {
            assert(s.push(p)[i] == p);
        }
    }
}

/// A statement under construction: text with `?` placeholders, and the
/// parameters bound to them, in order.
pub struct Sql {
    pub text: String,
    pub params: Vec<Param>,
}

impl Sql {
    /// Start from a fixed base text.
    pub fn new(base: &str) -> (r: Sql)
        ensures
            r.text@ == base@,
            r.params@.len() == 0,
    {
        Sql { text: base.to_owned(), params: Vec::new() }
    }

    /// Append fixed text; never caller data.
    pub fn push(&mut self, sql: &str)
        ensures
            final(self).text@ == old(self).text@ + sql@,
            final(self).params@ == old(self).params@,
    {
        self.text.append(sql);
    }

    /// Append one placeholder and bind a string value to it.
    pub fn push_bind_str(&mut self, v: String)
        ensures
            final(self).text@ == old(self).text@ + "?"@,
            params_view(final(self).params@) =~= params_view(old(self).params@).push(
                ParamV::S(v@),
            ),
    {
        self.text.append("?");
        let ghost before = self.params@;
        self.params.push(Param::Str(v));
        proof {
            lemma_params_view_push(before, self.params@.last());
        }
    }

    /// Append one placeholder and bind an integer value to it.
    pub fn push_bind_int(&mut self, v: i64)
        ensures
            final(self).text@ == old(self).text@ + "?"@,
            params_view(final(self).params@) =~= params_view(old(self).params@).push(
                ParamV::I(v as int),
            ),
    {
        self.text.append("?");
        let ghost before = self.params@;
        self.params.push(Param::Int(v));
        proof {
            lemma_params_view_push(before, self.params@.last());
        }
    }
}

/// Optional filters of the public listing.
pub struct ListParams {
    pub page: Option<i64>,
    pub page_size: Option<i64>,
    pub tag: Option<String>,
    pub q: Option<String>,
}

/// Optional filters of the author's own listing.
pub struct MyPostsParams {
    pub status: Option<String>,
    pub visibility: Option<String>,
    pub page: Option<i64>,
    pub page_size: Option<i64>,
}

/// The free-text filter wraps the query in `%` wildcards.
pub open spec fn spec_like_pattern(q: Seq<char>) -> Seq<char> {
    "%"@ + q + "%"@
}

/// The tag filter clause, with its two placeholders: the tag value is
/// matched against slug or display name.
pub open spec fn spec_tag_clause() -> Seq<char> {
    " AND id IN (SELECT post_id FROM post_tags WHERE tag_id IN (SELECT id FROM tags WHERE slug = "@
        + "?"@ + " OR name = "@ + "?"@ + "))"@
}

/// The free-text filter clause, with its two placeholders.
pub open spec fn spec_q_clause() -> Seq<char> {
    " AND (title LIKE "@ + "?"@ + " OR body_html LIKE "@ + "?"@ + ")"@
}

/// The text of the public listing query, given which filters are present.
pub open spec fn spec_public_list_sql(has_tag: bool, has_q: bool) -> Seq<char> {
    "SELECT id, slug, title, excerpt, published_at FROM posts WHERE status='published' AND visibility='public'"@
        + (if has_tag {
        spec_tag_clause()
    } else {
        Seq::<char>::empty()
    }) + (if has_q {
        spec_q_clause()
    } else {
        Seq::<char>::empty()
    }) + " ORDER BY published_at DESC LIMIT "@ + "?"@ + " OFFSET "@ + "?"@
}

/// The parameters of the public listing query, in placeholder order.
pub open spec fn spec_public_list_params(
    tag: Option<Seq<char>>,
    q: Option<Seq<char>>,
    size: int,
    offset: int,
) -> Seq<ParamV> {
    (match tag {
        Option::Some(t) => seq![ParamV::S(t), ParamV::S(t)],
        Option::None => Seq::<ParamV>::empty(),
    }) + (match q {
        Option::Some(qs) => seq![
            ParamV::S(spec_like_pattern(qs)),
            ParamV::S(spec_like_pattern(qs)),
        ],
        Option::None => Seq::<ParamV>::empty(),
    }) + seq![ParamV::I(size), ParamV::I(offset)]
}

/// Build the public listing query: only published, public rows, newest
/// first by publication instant, with the optional tag and free-text
/// filters bound, and pagination clamped.  Returns the statement and the
/// effective page and page size.
pub fn build_public_list_query(p: &ListParams) -> (r: (Sql, i64, i64))
    ensures
        r.1 == spec_clamp_page(p.page),
        r.2 == spec_clamp_page_size(p.page_size, PUBLIC_DEFAULT_PAGE_SIZE, PUBLIC_MAX_PAGE_SIZE),
        r.0.text@ == spec_public_list_sql(p.tag is Some, p.q is Some),
        params_view(r.0.params@) =~= spec_public_list_params(
            view_of_opt(&p.tag),
            view_of_opt(&p.q),
            r.2 as int,
            spec_offset(r.1, r.2) as int,
        ),
{
    let page = clamp_page(&p.page);
    let size = clamp_page_size(&p.page_size, PUBLIC_DEFAULT_PAGE_SIZE, PUBLIC_MAX_PAGE_SIZE);
    let offset = page_offset(page, size);

    let mut qb = Sql::new(
        "SELECT id, slug, title, excerpt, published_at FROM posts WHERE status='published' AND visibility='public'",
    );

    match &p.tag {
        Option::Some(t) => {
            qb.push(
                " AND id IN (SELECT post_id FROM post_tags WHERE tag_id IN (SELECT id FROM tags WHERE slug = ",
            );
            qb.push_bind_str(t.clone());
            qb.push(" OR name = ");
            qb.push_bind_str(t.clone());
            qb.push("))");
        },
        Option::None => {},
    }

    match &p.q {
        Option::Some(q) => {
            let mut like = "%".to_owned();
            like.append(q.as_str());
            like.append("%");
            qb.push(" AND (title LIKE ");
            qb.push_bind_str(like.clone());
            qb.push(" OR body_html LIKE ");
            qb.push_bind_str(like);
            qb.push(")");
        },
        Option::None => {},
    }

    qb.push(" ORDER BY published_at DESC LIMIT ");
    qb.push_bind_int(size);
    qb.push(" OFFSET ");
    qb.push_bind_int(offset);

    proof {
        assert(qb.text@ =~= spec_public_list_sql(p.tag is Some, p.q is Some));
        assert(params_view(qb.params@) =~= spec_public_list_params(
            view_of_opt(&p.tag),
            view_of_opt(&p.q),
            size as int,
            spec_offset(page, size) as int,
        ));
    }
    (qb, page, size)
}

/// The text of the author listing query.  An unrecognized or absent filter
/// value adds no predicate.
pub open spec fn spec_my_posts_sql(
    status: Option<Seq<char>>,
    visibility: Option<Seq<char>>,
) -> Seq<char> {
    "SELECT id, slug, title, excerpt, status, visibility, published_at FROM posts WHERE author_id = "@
        + "?"@ + (match status {
        Option::Some(s) => if s == "published"@ {
            " AND status = 'published'"@
        } else if s == "draft"@ {
            " AND status = 'draft'"@
        } else {
            Seq::<char>::empty()
        },
        Option::None => Seq::<char>::empty(),
    }) + (match visibility {
        Option::Some(v) => if v == "public"@ {
            " AND visibility = 'public'"@
        } else if v == "private"@ {
            " AND visibility = 'private'"@
        } else {
            Seq::<char>::empty()
        },
        Option::None => Seq::<char>::empty(),
    }) + " ORDER BY COALESCE(published_at, updated_at) DESC, updated_at DESC LIMIT "@ + "?"@
        + " OFFSET "@ + "?"@
}

/// Build the author's own listing: always scoped to the caller's rows,
/// drafts surfacing by recency of edit, with optional status and
/// visibility filters and clamped pagination.
pub fn build_my_posts_query(user_id: &String, p: &MyPostsParams) -> (r: (Sql, i64, i64))
    ensures
        r.1 == spec_clamp_page(p.page),
        r.2 == spec_clamp_page_size(p.page_size, AUTHOR_DEFAULT_PAGE_SIZE, AUTHOR_MAX_PAGE_SIZE),
        r.0.text@ == spec_my_posts_sql(view_of_opt(&p.status), view_of_opt(&p.visibility)),
        params_view(r.0.params@) =~= seq![
            ParamV::S(user_id@),
            ParamV::I(r.2 as int),
            ParamV::I(spec_offset(r.1, r.2) as int),
        ],
{
    let page = clamp_page(&p.page);
    let size = clamp_page_size(&p.page_size, AUTHOR_DEFAULT_PAGE_SIZE, AUTHOR_MAX_PAGE_SIZE);
    let offset = page_offset(page, size);

    let mut qb = Sql::new(
        "SELECT id, slug, title, excerpt, status, visibility, published_at FROM posts WHERE author_id = ",
    );
    qb.push_bind_str(user_id.clone());

    match &p.status {
        Option::Some(s) => {
            if *s == "published".to_owned() {
                qb.push(" AND status = 'published'");
            } else if *s == "draft".to_owned() {
                qb.push(" AND status = 'draft'");
            }
        },
        Option::None => {},
    }

    match &p.visibility {
        Option::Some(v) => {
            if *v == "public".to_owned() {
                qb.push(" AND visibility = 'public'");
            } else if *v == "private".to_owned() {
                qb.push(" AND visibility = 'private'");
            }
        },
        Option::None => {},
    }

    qb.push(" ORDER BY COALESCE(published_at, updated_at) DESC, updated_at DESC LIMIT ");
    qb.push_bind_int(size);
    qb.push(" OFFSET ");
    qb.push_bind_int(offset);

    proof {
        assert(qb.text@ =~= spec_my_posts_sql(view_of_opt(&p.status), view_of_opt(&p.visibility)));
        assert(params_view(qb.params@) =~= seq![
            ParamV::S(user_id@),
            ParamV::I(size as int),
            ParamV::I(spec_offset(page, size) as int),
        ]);
    }
    (qb, page, size)
}

/// The text of the detail-by-slug query: published rows only, and the
/// visibility predicate widens to the caller's own rows exactly when a
/// caller is present.
pub open spec fn spec_detail_sql(has_caller: bool) -> Seq<char> {
    "SELECT id, slug, title, excerpt, body_html, published_at, author_id, visibility, status FROM posts WHERE slug = "@
        + "?"@ + " AND status = 'published'"@ + (if has_caller {
        " AND (visibility='public' OR author_id = "@ + "?"@ + ")"@
    } else {
        " AND visibility='public'"@
    })
}

/// Build the detail-by-slug query under an optional caller.
pub fn build_detail_query(slug: &String, caller: &Option<String>) -> (r: Sql)
    ensures
        r.text@ == spec_detail_sql(caller is Some),
        params_view(r.params@) =~= (match caller {
            Option::Some(c) => seq![ParamV::S(slug@), ParamV::S(c@)],
            Option::None => seq![ParamV::S(slug@)],
        }),
{
    let mut qb = Sql::new(
        "SELECT id, slug, title, excerpt, body_html, published_at, author_id, visibility, status FROM posts WHERE slug = ",
    );
    qb.push_bind_str(slug.clone());
    qb.push(" AND status = 'published'");
    match caller {
        Option::Some(c) => {
            qb.push(" AND (visibility='public' OR author_id = ");
            qb.push_bind_str(c.clone());
            qb.push(")");
        },
        Option::None => {
            qb.push(" AND visibility='public'");
        },
    }
    proof {
        assert(qb.text@ =~= spec_detail_sql(caller is Some));
        assert(params_view(qb.params@) =~= (match caller {
            Option::Some(c) => seq![ParamV::S(slug@), ParamV::S(c@)],
            Option::None => seq![ParamV::S(slug@)],
        }));
    }
    qb
}

} // verus!
