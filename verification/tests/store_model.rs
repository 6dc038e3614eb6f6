use blog_engine::error::AppError;
use blog_engine::models::PostInput;
use blog_engine::store::Store;

fn input(title: &str) -> PostInput {
    PostInput {
        title: title.to_string(),
        slug: None,
        body_md: "hello *world*".to_string(),
        tags: None,
        status: None,
        excerpt: None,
        visibility: None,
    }
}

fn seeded() -> Store {
    let mut st = Store::new();
    let r = st.create_post(
        "p1".to_string(),
        "alice".to_string(),
        &input("Hello, World!"),
        &"2024-01-01T00:00:00+00:00".to_string(),
    );
    assert_eq!(r.unwrap(), "hello-world");
    st
}

#[test]
fn create_derives_slug_and_renders_body() {
    let st = seeded();
    let p = st.get_post(&"p1".to_string(), &"alice".to_string()).unwrap();
    assert_eq!(p.slug, "hello-world");
    assert!(p.body_html.contains("<em>world</em>"));
    assert!(p.published_at.is_none());
}

#[test]
fn create_rejects_unknown_status_and_visibility() {
    let mut st = Store::new();
    let mut inp = input("A");
    inp.status = Some("archived".to_string());
    let r = st.create_post("p9".to_string(), "alice".to_string(), &inp, &"t0".to_string());
    assert!(matches!(r, Err(AppError::BadRequest(_))));

    let mut inp = input("A");
    inp.visibility = Some("friends".to_string());
    let r = st.create_post("p9".to_string(), "alice".to_string(), &inp, &"t0".to_string());
    assert!(matches!(r, Err(AppError::BadRequest(_))));
}

#[test]
fn published_at_set_once_and_never_changed() {
    let mut st = seeded();
    let id = "p1".to_string();
    let alice = "alice".to_string();

    st.publish_post(&id, &alice, &"t1".to_string()).unwrap();
    let p = st.get_post(&id, &alice).unwrap();
    assert_eq!(p.published_at.as_deref(), Some("t1"));

    // re-publishing refreshes updated_at only
    st.publish_post(&id, &alice, &"t2".to_string()).unwrap();
    let p = st.get_post(&id, &alice).unwrap();
    assert_eq!(p.published_at.as_deref(), Some("t1"));
    assert_eq!(p.updated_at, "t2");

    // an ordinary edit leaves it alone too
    st.update_post(&id, &alice, &input("Hello again"), &"t3".to_string()).unwrap();
    let p = st.get_post(&id, &alice).unwrap();
    assert_eq!(p.published_at.as_deref(), Some("t1"));
    assert_eq!(p.status, blog_engine::models::Status::Published);
}

#[test]
fn publishing_via_explicit_status_sets_instant() {
    let mut st = seeded();
    let mut inp = input("Hello, World!");
    inp.status = Some("published".to_string());
    st.update_post(&"p1".to_string(), &"alice".to_string(), &inp, &"t5".to_string()).unwrap();
    let p = st.get_post(&"p1".to_string(), &"alice".to_string()).unwrap();
    assert_eq!(p.published_at.as_deref(), Some("t5"));
}

#[test]
fn published_post_cannot_be_demoted() {
    let mut st = seeded();
    st.publish_post(&"p1".to_string(), &"alice".to_string(), &"t1".to_string()).unwrap();
    let mut inp = input("Hello, World!");
    inp.status = Some("draft".to_string());
    let r = st.update_post(&"p1".to_string(), &"alice".to_string(), &inp, &"t2".to_string());
    assert!(matches!(r, Err(AppError::BadRequest(_))));
}

#[test]
fn non_owner_write_and_absent_id_deny_identically() {
    let mut st = seeded();
    let mallory = "mallory".to_string();
    let now = "t1".to_string();

    let on_existing = st.update_post(&"p1".to_string(), &mallory, &input("X"), &now);
    let on_absent = st.update_post(&"nope".to_string(), &mallory, &input("X"), &now);
    assert_eq!(on_existing, on_absent);
    assert_eq!(on_existing, Err(AppError::Forbidden));

    assert_eq!(
        st.publish_post(&"p1".to_string(), &mallory, &now),
        st.publish_post(&"nope".to_string(), &mallory, &now)
    );
    assert_eq!(
        st.delete_post(&"p1".to_string(), &mallory),
        st.delete_post(&"nope".to_string(), &mallory)
    );
    assert_eq!(
        st.get_post(&"p1".to_string(), &mallory),
        st.get_post(&"nope".to_string(), &mallory)
    );
}

#[test]
fn private_published_post_hidden_from_others_but_served_to_author() {
    let mut st = Store::new();
    let mut inp = input("Secret Note");
    inp.visibility = Some("private".to_string());
    inp.status = Some("published".to_string());
    st.create_post("p2".to_string(), "alice".to_string(), &inp, &"t0".to_string()).unwrap();

    let slug = "secret-note".to_string();
    let anon = st.get_post_by_slug(&slug, &None);
    assert_eq!(anon, Err(AppError::NotFound));
    let stranger = st.get_post_by_slug(&slug, &Some("bob".to_string()));
    assert_eq!(stranger, Err(AppError::NotFound));

    let own = st.get_post_by_slug(&slug, &Some("alice".to_string())).unwrap();
    assert!(own.body_html.contains("<em>world</em>"));
}

#[test]
fn draft_not_served_by_slug_even_to_author() {
    let st = seeded();
    let r = st.get_post_by_slug(&"hello-world".to_string(), &Some("alice".to_string()));
    assert_eq!(r, Err(AppError::NotFound));
}

#[test]
fn delete_removes_the_post() {
    let mut st = seeded();
    st.delete_post(&"p1".to_string(), &"alice".to_string()).unwrap();
    assert_eq!(
        st.get_post(&"p1".to_string(), &"alice".to_string()),
        Err(AppError::Forbidden)
    );
}

#[test]
fn sync_tags_overwrites_to_exactly_the_target_list() {
    let mut st = seeded();
    let id = "p1".to_string();

    st.sync_tags(&id, &vec!["Alpha".to_string(), "Beta".to_string()], &vec![
        "t-1".to_string(),
        "t-2".to_string(),
    ]);
    assert_eq!(st.tag_names_of(&id), vec!["Alpha".to_string(), "Beta".to_string()]);

    // regardless of prior state, the set becomes the target list
    st.sync_tags(&id, &vec!["Beta".to_string(), "Gamma".to_string()], &vec![
        "t-3".to_string(),
        "t-4".to_string(),
    ]);
    assert_eq!(st.tag_names_of(&id), vec!["Beta".to_string(), "Gamma".to_string()]);

    // synchronizing the same list twice changes nothing
    st.sync_tags(&id, &vec!["Beta".to_string(), "Gamma".to_string()], &vec![
        "t-5".to_string(),
        "t-6".to_string(),
    ]);
    assert_eq!(st.tag_names_of(&id), vec!["Beta".to_string(), "Gamma".to_string()]);

    // the empty list clears all associations
    st.sync_tags(&id, &vec![], &vec![]);
    assert_eq!(st.tag_names_of(&id), Vec::<String>::new());
}

#[test]
fn sync_tags_dedups_by_slug_within_one_call() {
    let mut st = seeded();
    let id = "p1".to_string();
    st.sync_tags(
        &id,
        &vec!["Rust".to_string(), "rust".to_string(), "RUST".to_string()],
        &vec!["t-1".to_string(), "t-2".to_string(), "t-3".to_string()],
    );
    assert_eq!(st.tag_names_of(&id), vec!["Rust".to_string()]);
}

#[test]
fn first_writer_wins_on_tag_display_name() {
    let mut st = Store::new();
    st.create_post("p1".to_string(), "alice".to_string(), &input("One"), &"t0".to_string())
        .unwrap();
    st.create_post("p2".to_string(), "alice".to_string(), &input("Two"), &"t0".to_string())
        .unwrap();

    st.sync_tags(&"p1".to_string(), &vec!["Rust".to_string()], &vec!["t-1".to_string()]);
    // the second create call must reuse the first tag and keep "Rust"
    st.sync_tags(&"p2".to_string(), &vec!["rust".to_string()], &vec!["t-2".to_string()]);

    assert_eq!(st.tag_names_of(&"p1".to_string()), vec!["Rust".to_string()]);
    assert_eq!(st.tag_names_of(&"p2".to_string()), vec!["Rust".to_string()]);
}

#[test]
fn sync_tags_leaves_other_posts_alone() {
    let mut st = seeded();
    st.create_post("p2".to_string(), "alice".to_string(), &input("Other"), &"t0".to_string())
        .unwrap();
    st.sync_tags(&"p1".to_string(), &vec!["Keep".to_string()], &vec!["t-1".to_string()]);
    st.sync_tags(&"p2".to_string(), &vec!["New".to_string()], &vec!["t-2".to_string()]);
    assert_eq!(st.tag_names_of(&"p1".to_string()), vec!["Keep".to_string()]);
}

#[test]
fn explicit_slug_wins_over_derivation() {
    let mut st = Store::new();
    let mut inp = input("Some Title");
    inp.slug = Some("custom".to_string());
    let r = st.create_post("p1".to_string(), "alice".to_string(), &inp, &"t0".to_string());
    assert_eq!(r.unwrap(), "custom");
}

#[test]
fn update_without_tag_list_leaves_associations_untouched() {
    let mut st = seeded();
    let id = "p1".to_string();
    let alice = "alice".to_string();
    st.sync_tags(&id, &vec!["Keep".to_string()], &vec!["t-1".to_string()]);

    // the update carries no tag list, so the prior set stays
    st.update_post(&id, &alice, &input("New Title"), &"t1".to_string()).unwrap();
    assert_eq!(st.tag_names_of(&id), vec!["Keep".to_string()]);
}

#[test]
fn update_overwrites_content_and_rerenders() {
    let mut st = seeded();
    let id = "p1".to_string();
    let alice = "alice".to_string();
    let mut inp = input("Changed");
    inp.body_md = "# Head".to_string();
    inp.excerpt = Some("summary".to_string());
    st.update_post(&id, &alice, &inp, &"t9".to_string()).unwrap();

    let p = st.get_post(&id, &alice).unwrap();
    assert_eq!(p.title, "Changed");
    assert_eq!(p.slug, "changed");
    assert_eq!(p.excerpt.as_deref(), Some("summary"));
    assert!(p.body_html.contains("<h1>"));
    assert_eq!(p.updated_at, "t9");
    assert_eq!(p.created_at, "2024-01-01T00:00:00+00:00");
}

#[test]
fn duplicate_slugs_resolve_to_the_first_matching_row() {
    let mut st = Store::new();
    let mut a = input("Same");
    a.status = Some("published".to_string());
    let mut b = input("Same");
    b.status = Some("published".to_string());
    b.body_md = "second".to_string();
    st.create_post("p1".to_string(), "alice".to_string(), &a, &"t0".to_string()).unwrap();
    st.create_post("p2".to_string(), "alice".to_string(), &b, &"t1".to_string()).unwrap();

    let p = st.get_post_by_slug(&"same".to_string(), &None).unwrap();
    assert_eq!(p.id, "p1");
}
