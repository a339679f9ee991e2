use solidrop::api_error::AppError;
use solidrop::auth::authorize_bearer;
use solidrop::cache_plan::{plan_evictions, CacheEntry};
use solidrop::urls::rewrite_presigned_url_for_public_access;

#[test]
fn test_rewrite_presigned_url() {
    let url = "http://minio:9000/solidrop-dev/test.enc?X-Amz-Algorithm=AWS4-HMAC-SHA256&X-Amz-Credential=minioadmin";
    let result = rewrite_presigned_url_for_public_access(
        url,
        "http://minio:9000",
        "http://localhost:9000",
    );
    assert_eq!(
        result,
        "http://localhost:9000/solidrop-dev/test.enc?X-Amz-Algorithm=AWS4-HMAC-SHA256&X-Amz-Credential=minioadmin"
    );
}

#[test]
fn test_rewrite_noop_when_no_match() {
    let url = "https://s3.amazonaws.com/bucket/key?signature=abc";
    let result = rewrite_presigned_url_for_public_access(
        url,
        "http://minio:9000",
        "http://localhost:9000",
    );
    assert_eq!(url, result);
}

#[test]
fn test_rewrite_agrees_with_std_replace() {
    let cases: &[(&str, &str, &str)] = &[
        ("aaa", "a", "bb"),
        ("aaa", "aa", "b"),
        ("hello world", "o", "0"),
        ("ab", "", "-"),
        ("", "", "x"),
        ("overlap: aaaa", "aa", "a"),
        ("unicode: caf\u{e9} caf\u{e9}", "caf\u{e9}", "tea"),
    ];
    for (hay, from, to) in cases {
        assert_eq!(
            rewrite_presigned_url_for_public_access(hay, from, to),
            hay.replace(from, to),
            "replace mismatch on {hay:?} / {from:?} / {to:?}"
        );
    }
}

fn entry(path: &str, size_bytes: u64, last_used: i64, text: &str) -> CacheEntry {
    CacheEntry {
        path: path.to_string(),
        size_bytes,
        last_used,
        last_used_text: text.to_string(),
    }
}

#[test]
fn test_plan_under_limit_returns_empty() {
    let files = vec![entry("a.png", 100, 100, "2026-01-01T00:00:00Z")];
    let plan = plan_evictions(files, 200);
    assert!(plan.is_empty());
}

#[test]
fn test_plan_exactly_at_limit_returns_empty() {
    let files = vec![entry("a.png", 500, 100, "2026-01-01T00:00:00Z")];
    let plan = plan_evictions(files, 500);
    assert!(plan.is_empty());
}

#[test]
fn test_plan_over_limit_evicts_oldest_first() {
    // Total = 650, limit = 400, need to free 250.
    // Sorted by last use: old(200) -> mid(150) -> new(300).
    // old(200) < 250 -> keep going; old(200) + mid(150) = 350 >= 250 -> stop.
    let files = vec![
        entry("new.png", 300, 300, "2026-02-01T00:00:00Z"),
        entry("old.png", 200, 100, "2026-01-01T00:00:00Z"),
        entry("mid.png", 150, 200, "2026-01-15T00:00:00Z"),
    ];
    let plan = plan_evictions(files, 400);
    assert_eq!(plan.len(), 2);
    assert_eq!(plan[0].path, "old.png");
    assert_eq!(plan[0].reason, "lru");
    assert_eq!(plan[0].last_used, "2026-01-01T00:00:00Z");
    assert_eq!(plan[1].path, "mid.png");
    assert_eq!(plan[1].reason, "lru");
    assert_eq!(plan[1].last_used, "2026-01-15T00:00:00Z");
}

#[test]
fn test_plan_ties_keep_reported_order() {
    // Two files last used at the same instant: the one reported first is
    // evicted first.
    let files = vec![
        entry("first.png", 100, 100, "t"),
        entry("second.png", 100, 100, "t"),
        entry("newer.png", 100, 200, "t"),
    ];
    let plan = plan_evictions(files, 0);
    assert_eq!(plan.len(), 3);
    assert_eq!(plan[0].path, "first.png");
    assert_eq!(plan[1].path, "second.png");
    assert_eq!(plan[2].path, "newer.png");
}

#[test]
fn test_plan_empty_files() {
    let plan = plan_evictions(Vec::new(), 1000);
    assert!(plan.is_empty());
}

#[test]
fn test_authorize_bearer_accepts_matching_token() {
    let header = Some(b"Bearer sesame".to_vec());
    assert!(authorize_bearer(&header, &b"sesame".to_vec()));
}

#[test]
fn test_authorize_bearer_rejects_wrong_token() {
    let header = Some(b"Bearer wrong".to_vec());
    assert!(!authorize_bearer(&header, &b"sesame".to_vec()));
}

#[test]
fn test_authorize_bearer_rejects_missing_header() {
    assert!(!authorize_bearer(&None, &b"sesame".to_vec()));
}

#[test]
fn test_authorize_bearer_rejects_other_scheme() {
    let header = Some(b"Basic sesame".to_vec());
    assert!(!authorize_bearer(&header, &b"sesame".to_vec()));
    let short = Some(b"Bear".to_vec());
    assert!(!authorize_bearer(&short, &b"sesame".to_vec()));
}

#[test]
fn test_app_error_presentation() {
    assert_eq!(AppError::Unauthorized.status_code(), 401);
    assert_eq!(AppError::Unauthorized.code_label(), "UNAUTHORIZED");
    assert_eq!(AppError::Unauthorized.public_message(), "unauthorized");

    let e = AppError::NotFound("file not found: x".to_string());
    assert_eq!(e.status_code(), 404);
    assert_eq!(e.code_label(), "FILE_NOT_FOUND");
    assert_eq!(e.public_message(), "file not found: x");

    let e = AppError::BadRequest("bad".to_string());
    assert_eq!(e.status_code(), 400);
    assert_eq!(e.code_label(), "BAD_REQUEST");

    let e = AppError::Internal("secret detail".to_string());
    assert_eq!(e.status_code(), 500);
    assert_eq!(e.code_label(), "INTERNAL_ERROR");
    assert_eq!(e.public_message(), "An internal error occurred.");
}
