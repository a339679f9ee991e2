use solidrop::master_key::{master_key_from_hex, MasterKeyError};
use solidrop::paths::{download_file_name, local_relative_key, remote_upload_path};
use solidrop::sizes::format_size;

#[test]
fn test_format_size_bytes() {
    assert_eq!(format_size(0), "0 B");
    assert_eq!(format_size(512), "512 B");
    assert_eq!(format_size(1023), "1023 B");
}

#[test]
fn test_format_size_kilobytes() {
    assert_eq!(format_size(1024), "1.0 KB");
    assert_eq!(format_size(5325), "5.2 KB");
    assert_eq!(format_size(1024 * 1024 - 1), "1024.0 KB");
}

#[test]
fn test_format_size_megabytes() {
    assert_eq!(format_size(1024 * 1024), "1.0 MB");
    assert_eq!(format_size(30 * 1024 * 1024), "30.0 MB");
}

#[test]
fn test_format_size_gigabytes() {
    assert_eq!(format_size(1024 * 1024 * 1024), "1.0 GB");
    assert_eq!(format_size(2 * 1024 * 1024 * 1024_i64), "2.0 GB");
}

#[test]
fn test_format_size_negative_and_halves() {
    assert_eq!(format_size(-5), "-5 B");
    assert_eq!(format_size(1536), "1.5 KB");
    assert_eq!(format_size(3 * 1024 * 1024 / 2), "1.5 MB");
}

#[test]
fn test_master_key_from_hex_valid() {
    let key_hex = "aa".repeat(32); // 64 hex chars = 32 bytes
    let key = master_key_from_hex(&key_hex).unwrap();
    assert_eq!(key, vec![0xaa; 32]);
}

#[test]
fn test_master_key_from_hex_mixed_case() {
    let key_hex = "Ab".repeat(32);
    let key = master_key_from_hex(&key_hex).unwrap();
    assert_eq!(key, vec![0xab; 32]);
}

#[test]
fn test_master_key_from_hex_invalid() {
    let result = master_key_from_hex("not-valid-hex!");
    assert_eq!(result.unwrap_err(), MasterKeyError::InvalidHex);
    let result = master_key_from_hex(&"a".repeat(63)); // odd length
    assert_eq!(result.unwrap_err(), MasterKeyError::InvalidHex);
}

#[test]
fn test_master_key_from_hex_wrong_length() {
    let result = master_key_from_hex("aabb"); // 2 bytes, not 32
    assert_eq!(result.unwrap_err(), MasterKeyError::WrongLength(2));
}

#[test]
fn test_remote_upload_path() {
    assert_eq!(
        remote_upload_path("2026-02", "reference.png"),
        "active/2026-02/reference.png.enc"
    );
}

#[test]
fn test_local_relative_key() {
    assert_eq!(
        local_relative_key("transfer/2026-02-11/reference.png.enc"),
        "2026-02-11/reference.png"
    );
    assert_eq!(local_relative_key("other/file.txt"), "other/file.txt");
    assert_eq!(local_relative_key("transfer/plain"), "plain");
}

#[test]
fn test_download_file_name() {
    assert_eq!(download_file_name("photo.jpg.enc"), "photo.jpg");
    assert_eq!(download_file_name("notes.txt"), "notes.txt");
}

#[test]
fn test_format_size_agrees_with_float_formatting() {
    // For sizes below 2^53 the float divisions are exact, so the usual
    // float rendering with one decimal is well defined; format_size must
    // agree with it, ties included.
    let float_version = |bytes: i64| -> String {
        if bytes < 1024 {
            format!("{} B", bytes)
        } else if bytes < 1024 * 1024 {
            format!("{:.1} KB", bytes as f64 / 1024.0)
        } else if bytes < 1024 * 1024 * 1024 {
            format!("{:.1} MB", bytes as f64 / (1024.0 * 1024.0))
        } else {
            format!("{:.1} GB", bytes as f64 / (1024.0 * 1024.0 * 1024.0))
        }
    };
    let mut samples: Vec<i64> = vec![
        0,
        1,
        512,
        1023,
        1024,
        1025,
        1280, // an exact tie: 1.25 KB rounds to even
        1536,
        5325,
        1024 * 1024 - 1,
        1024 * 1024,
        1024 * 1024 + 1,
        30 * 1024 * 1024,
        1024 * 1024 * 1024 - 1,
        1024 * 1024 * 1024,
        5 * 1024 * 1024 * 1024 / 2,
        (1i64 << 53) - 1,
    ];
    let mut x: i64 = 987_654_321;
    for _ in 0..200 {
        x = x.wrapping_mul(6_364_136_223_846_793_005).wrapping_add(1_442_695_040_888_963_407);
        samples.push((x.unsigned_abs() % (1u64 << 53)) as i64);
    }
    for bytes in samples {
        assert_eq!(
            format_size(bytes),
            float_version(bytes),
            "format_size mismatch at {bytes}"
        );
    }
}
