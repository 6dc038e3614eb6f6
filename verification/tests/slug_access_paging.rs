use blog_engine::access::{can_read, can_write};
use blog_engine::models::{Status, Visibility};
use blog_engine::paging::{
    clamp_page, clamp_page_size, page_offset, AUTHOR_DEFAULT_PAGE_SIZE, AUTHOR_MAX_PAGE_SIZE,
    PUBLIC_DEFAULT_PAGE_SIZE, PUBLIC_MAX_PAGE_SIZE,
};
use blog_engine::slug::slugify;

#[test]
fn slug_of_plain_title() {
    assert_eq!(slugify("Hello, World!"), "hello-world");
}

#[test]
fn slug_of_symbol_only_title_is_empty() {
    assert_eq!(slugify("!!!"), "");
}

#[test]
fn slug_collapses_runs_and_trims() {
    assert_eq!(slugify("  A  --  B  "), "a-b");
    assert_eq!(slugify("Rust 2024: What's New?"), "rust-2024-what-s-new");
    assert_eq!(slugify("café"), "caf");
}

#[test]
fn slug_case_insensitive_dedup_key() {
    assert_eq!(slugify("Rust"), slugify("rust"));
}

#[test]
fn read_table_published_public_open_to_all() {
    let author = "u1".to_string();
    assert!(can_read(&None, Status::Published, Visibility::Public, &author));
    assert!(can_read(&Some("u2".to_string()), Status::Published, Visibility::Public, &author));
}

#[test]
fn read_table_published_private_author_only() {
    let author = "u1".to_string();
    assert!(!can_read(&None, Status::Published, Visibility::Private, &author));
    assert!(!can_read(&Some("u2".to_string()), Status::Published, Visibility::Private, &author));
    assert!(can_read(&Some("u1".to_string()), Status::Published, Visibility::Private, &author));
}

#[test]
fn read_table_draft_author_only() {
    let author = "u1".to_string();
    assert!(!can_read(&None, Status::Draft, Visibility::Public, &author));
    assert!(!can_read(&Some("u2".to_string()), Status::Draft, Visibility::Public, &author));
    assert!(can_read(&Some("u1".to_string()), Status::Draft, Visibility::Private, &author));
}

#[test]
fn read_is_monotonic_in_privilege() {
    // whatever an anonymous caller can read, any authenticated caller can
    let author = "u1".to_string();
    for status in [Status::Draft, Status::Published] {
        for vis in [Visibility::Public, Visibility::Private] {
            if can_read(&None, status, vis, &author) {
                assert!(can_read(&Some("stranger".to_string()), status, vis, &author));
            }
        }
    }
}

#[test]
fn page_size_clamps_to_engine_maximum() {
    let size = clamp_page_size(&Some(500), PUBLIC_DEFAULT_PAGE_SIZE, PUBLIC_MAX_PAGE_SIZE);
    assert_eq!(size, 50);
    let size = clamp_page_size(&Some(500), AUTHOR_DEFAULT_PAGE_SIZE, AUTHOR_MAX_PAGE_SIZE);
    assert_eq!(size, 100);
}

#[test]
fn page_zero_clamps_to_one() {
    assert_eq!(clamp_page(&Some(0)), 1);
    assert_eq!(clamp_page(&Some(-7)), 1);
    assert_eq!(clamp_page(&None), 1);
}

#[test]
fn page_size_defaults_and_minimum() {
    assert_eq!(clamp_page_size(&None, PUBLIC_DEFAULT_PAGE_SIZE, PUBLIC_MAX_PAGE_SIZE), 10);
    assert_eq!(clamp_page_size(&None, AUTHOR_DEFAULT_PAGE_SIZE, AUTHOR_MAX_PAGE_SIZE), 20);
    assert_eq!(clamp_page_size(&Some(0), PUBLIC_DEFAULT_PAGE_SIZE, PUBLIC_MAX_PAGE_SIZE), 1);
}

#[test]
fn offset_is_page_minus_one_times_size() {
    assert_eq!(page_offset(1, 10), 0);
    assert_eq!(page_offset(3, 20), 40);
    assert_eq!(page_offset(i64::MAX, 2), i64::MAX);
}

#[test]
fn write_is_owner_only() {
    let author = "u1".to_string();
    assert!(can_write(&Some("u1".to_string()), &author));
    assert!(!can_write(&Some("u2".to_string()), &author));
    assert!(!can_write(&None, &author));
}

#[test]
fn slug_of_empty_title_is_empty() {
    assert_eq!(slugify(""), "");
    assert_eq!(slugify("---"), "");
}
