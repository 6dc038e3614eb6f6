use blog_engine::query::{
    build_detail_query, build_my_posts_query, build_public_list_query, ListParams, MyPostsParams,
    Param,
};

fn list(page: Option<i64>, page_size: Option<i64>, tag: Option<&str>, q: Option<&str>) -> ListParams {
    ListParams {
        page,
        page_size,
        tag: tag.map(|s| s.to_string()),
        q: q.map(|s| s.to_string()),
    }
}

#[test]
fn public_list_without_filters() {
    let (sql, page, size) = build_public_list_query(&list(None, None, None, None));
    assert_eq!(page, 1);
    assert_eq!(size, 10);
    let expected = "SELECT id, slug, title, excerpt, published_at FROM posts WHERE status='published' AND visibility='public' ORDER BY published_at DESC LIMIT ? OFFSET ?";
    assert_eq!(sql.text, expected);
    assert_eq!(sql.params, vec![Param::Int(10), Param::Int(0)]);
}

#[test]
fn public_list_with_tag_and_text_filters() {
    let (sql, page, size) = build_public_list_query(&list(Some(2), Some(5), Some("rust"), Some("mem")));
    assert_eq!(page, 2);
    assert_eq!(size, 5);
    let expected = "SELECT id, slug, title, excerpt, published_at FROM posts WHERE status='published' AND visibility='public' AND id IN (SELECT post_id FROM post_tags WHERE tag_id IN (SELECT id FROM tags WHERE slug = ? OR name = ?)) AND (title LIKE ? OR body_html LIKE ?) ORDER BY published_at DESC LIMIT ? OFFSET ?";
    assert_eq!(sql.text, expected);
    assert_eq!(
        sql.params,
        vec![
            Param::Str("rust".to_string()),
            Param::Str("rust".to_string()),
            Param::Str("%mem%".to_string()),
            Param::Str("%mem%".to_string()),
            Param::Int(5),
            Param::Int(5),
        ]
    );
}

#[test]
fn author_list_with_recognized_filters() {
    let p = MyPostsParams {
        status: Some("draft".to_string()),
        visibility: Some("private".to_string()),
        page: Some(3),
        page_size: Some(20),
    };
    let (sql, page, size) = build_my_posts_query(&"alice".to_string(), &p);
    assert_eq!((page, size), (3, 20));
    let expected = "SELECT id, slug, title, excerpt, status, visibility, published_at FROM posts WHERE author_id = ? AND status = 'draft' AND visibility = 'private' ORDER BY COALESCE(published_at, updated_at) DESC, updated_at DESC LIMIT ? OFFSET ?";
    assert_eq!(sql.text, expected);
    assert_eq!(
        sql.params,
        vec![Param::Str("alice".to_string()), Param::Int(20), Param::Int(40)]
    );
}

#[test]
fn author_list_ignores_unrecognized_filter_values() {
    let p = MyPostsParams {
        status: Some("all".to_string()),
        visibility: Some("whatever".to_string()),
        page: None,
        page_size: None,
    };
    let (sql, _, _) = build_my_posts_query(&"alice".to_string(), &p);
    let expected = "SELECT id, slug, title, excerpt, status, visibility, published_at FROM posts WHERE author_id = ? ORDER BY COALESCE(published_at, updated_at) DESC, updated_at DESC LIMIT ? OFFSET ?";
    assert_eq!(sql.text, expected);
}

#[test]
fn detail_query_for_anonymous_caller() {
    let sql = build_detail_query(&"hello-world".to_string(), &None);
    let expected = "SELECT id, slug, title, excerpt, body_html, published_at, author_id, visibility, status FROM posts WHERE slug = ? AND status = 'published' AND visibility='public'";
    assert_eq!(sql.text, expected);
    assert_eq!(sql.params, vec![Param::Str("hello-world".to_string())]);
}

#[test]
fn detail_query_widens_for_authenticated_caller() {
    let sql = build_detail_query(&"hello-world".to_string(), &Some("alice".to_string()));
    let expected = "SELECT id, slug, title, excerpt, body_html, published_at, author_id, visibility, status FROM posts WHERE slug = ? AND status = 'published' AND (visibility='public' OR author_id = ?)";
    assert_eq!(sql.text, expected);
    assert_eq!(
        sql.params,
        vec![
            Param::Str("hello-world".to_string()),
            Param::Str("alice".to_string()),
        ]
    );
}
