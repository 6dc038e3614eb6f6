use argon2::{Argon2, PasswordHasher};
use blog_engine::auth::{login, sign, verify, CredentialRow, MaybeUser};
use blog_engine::error::AppError;
use blog_engine::feed::{build_rss, build_sitemap, RssItem, SitemapRow};
use blog_engine::profile::{apply_me_patch, MePatch, MeResp};

fn now_unix() -> i64 {
    chrono::Utc::now().timestamp()
}

fn phc_hash(password: &str) -> String {
    Argon2::default()
        .hash_password_with_salt(password.as_bytes(), b"a-test-salt-of-16")
        .unwrap()
        .to_string()
}

#[test]
fn sign_then_verify_returns_the_subject() {
    let secret = "test-signing-secret".to_string();
    let token = sign(&"user-7".to_string(), &secret, now_unix(), 60).unwrap();
    let claims = verify(token.as_str(), &secret, now_unix()).unwrap();
    assert_eq!(claims.sub, "user-7");
}

#[test]
fn verify_rejects_wrong_secret_and_garbage() {
    let secret = "test-signing-secret".to_string();
    let other = "another-secret".to_string();
    let token = sign(&"user-7".to_string(), &secret, now_unix(), 60).unwrap();
    assert!(matches!(verify(token.as_str(), &other, now_unix()), Err(AppError::Unauthorized)));
    assert!(matches!(verify("not.a.token", &secret, now_unix()), Err(AppError::Unauthorized)));
}

#[test]
fn optional_auth_degrades_to_anonymous() {
    let m = MaybeUser::from_verify(Err(AppError::Unauthorized));
    assert!(m.caller_id().is_none());

    let secret = "test-signing-secret".to_string();
    let token = sign(&"user-7".to_string(), &secret, now_unix(), 60).unwrap();
    let m = MaybeUser::from_verify(verify(token.as_str(), &secret, now_unix()));
    assert_eq!(m.caller_id().as_deref(), Some("user-7"));
}

#[test]
fn login_succeeds_only_on_matching_password() {
    let secret = "test-signing-secret".to_string();
    let row = CredentialRow { id: "user-1".to_string(), password_hash: phc_hash("hunter2") };

    let token = login(
        Some(CredentialRow { id: row.id.clone(), password_hash: row.password_hash.clone() }),
        &"hunter2".to_string(),
        &secret,
        now_unix(),
        60,
    )
    .unwrap();
    assert_eq!(verify(token.as_str(), &secret, now_unix()).unwrap().sub, "user-1");

    let wrong = login(Some(row), &"letmein".to_string(), &secret, now_unix(), 60);
    assert_eq!(wrong, Err(AppError::Unauthorized));

    let absent = login(None, &"hunter2".to_string(), &secret, now_unix(), 60);
    assert_eq!(absent, Err(AppError::Unauthorized));
}

#[test]
fn unparseable_stored_hash_is_a_plain_mismatch() {
    let secret = "test-signing-secret".to_string();
    let row = CredentialRow { id: "user-1".to_string(), password_hash: "not-a-hash".to_string() };
    let r = login(Some(row), &"anything".to_string(), &secret, now_unix(), 60);
    assert_eq!(r, Err(AppError::Unauthorized));
}

#[test]
fn profile_patch_updates_only_supplied_fields() {
    let cur = MeResp {
        id: "u1".to_string(),
        username: "alice".to_string(),
        display_name: Some("Alice".to_string()),
        avatar_url: None,
        motto: Some("hello".to_string()),
        created_at: "t0".to_string(),
    };
    let patch = MePatch {
        display_name: None,
        avatar_url: Some("http://x/a.png".to_string()),
        motto: None,
    };
    let r = apply_me_patch(&cur, &patch);
    assert_eq!(r.display_name.as_deref(), Some("Alice"));
    assert_eq!(r.avatar_url.as_deref(), Some("http://x/a.png"));
    assert_eq!(r.motto.as_deref(), Some("hello"));
    assert_eq!(r.id, "u1");
    assert_eq!(r.username, "alice");
    assert_eq!(r.created_at, "t0");
}

#[test]
fn rss_document_is_exactly_the_prescribed_text() {
    let items = vec![RssItem {
        slug: "hello-world".to_string(),
        title: "Hello".to_string(),
        excerpt: "An excerpt".to_string(),
        published_at: "2024-01-01T00:00:00+00:00".to_string(),
    }];
    let xml = build_rss(&items, &"http://example.com".to_string());
    let expected = "<?xml version=\"1.0\" encoding=\"utf-8\"?>\n<rss version=\"2.0\"><channel>\n<title>Blog RSS</title><link>http://example.com</link><description>Feed</description><item><title><![CDATA[Hello]]></title><link>http://example.com/posts/hello-world</link><guid>http://example.com/posts/hello-world</guid><pubDate>2024-01-01T00:00:00+00:00</pubDate><description><![CDATA[An excerpt]]></description></item>\n</channel></rss>";
    assert_eq!(xml, expected);
}

#[test]
fn sitemap_document_is_exactly_the_prescribed_text() {
    let rows = vec![
        SitemapRow { slug: "a".to_string(), updated_at: "t1".to_string() },
        SitemapRow { slug: "b".to_string(), updated_at: "t2".to_string() },
    ];
    let xml = build_sitemap(&rows, &"http://example.com".to_string());
    let expected = "<?xml version=\"1.0\" encoding=\"UTF-8\"?>\n<urlset xmlns=\"http://www.sitemaps.org/schemas/sitemap/0.9\"><url><loc>http://example.com/posts/a</loc><lastmod>t1</lastmod><changefreq>weekly</changefreq></url><url><loc>http://example.com/posts/b</loc><lastmod>t2</lastmod><changefreq>weekly</changefreq></url></urlset>";
    assert_eq!(xml, expected);
}

#[test]
fn error_mapping_and_messages() {
    assert_eq!(AppError::NotFound.status_code(), 404);
    assert_eq!(AppError::Unauthorized.status_code(), 401);
    assert_eq!(AppError::Forbidden.status_code(), 403);
    assert_eq!(AppError::BadRequest("x".to_string()).status_code(), 400);
    assert_eq!(AppError::Internal.status_code(), 500);

    assert_eq!(AppError::BadRequest("no file".to_string()).message(), "bad request: no file");
    assert_eq!(AppError::Internal.message(), "internal error");
}

#[test]
fn empty_feed_and_sitemap_hold_only_the_frame() {
    let xml = build_rss(&vec![], &"http://x".to_string());
    let expected = "<?xml version=\"1.0\" encoding=\"utf-8\"?>\n<rss version=\"2.0\"><channel>\n<title>Blog RSS</title><link>http://x</link><description>Feed</description>\n</channel></rss>";
    assert_eq!(xml, expected);

    let xml = build_sitemap(&vec![], &"http://x".to_string());
    let expected = "<?xml version=\"1.0\" encoding=\"UTF-8\"?>\n<urlset xmlns=\"http://www.sitemaps.org/schemas/sitemap/0.9\"></urlset>";
    assert_eq!(xml, expected);
}

#[test]
fn verify_rejects_a_token_at_or_past_its_expiry() {
    let secret = "test-signing-secret".to_string();
    let issued = now_unix();
    let token = sign(&"user-7".to_string(), &secret, issued, 1).unwrap();
    // at the expiry instant the token is already invalid
    let at_expiry = verify(token.as_str(), &secret, issued + 60);
    assert_eq!(at_expiry.map(|c| c.sub), Err(AppError::Unauthorized));
    // one second before it, it still verifies
    let before = verify(token.as_str(), &secret, issued + 59).unwrap();
    assert_eq!(before.sub, "user-7");
    assert_eq!(before.exp, (issued + 60) as u64);
}
