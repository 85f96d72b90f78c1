use photo_desk::config::ServerConfig;
use photo_desk::error::Error;
use photo_desk::paths::generate_preview_path;
use photo_desk::photos::{bucket_url, buckets_url, choose_bucket, first_thumbnail, thumbnail_url};

#[test]
fn preview_path_is_the_file_stem() {
    assert_eq!(generate_preview_path("photos/cat.png"), "cat");
    assert_eq!(generate_preview_path("archive.tar.gz"), "archive.tar");
    assert_eq!(generate_preview_path("plain"), "plain");
    assert_eq!(generate_preview_path(""), "");
    assert_eq!(generate_preview_path("/"), "");
}

#[test]
fn config_defaults() {
    let config = ServerConfig::new("key".to_string(), "https://photos.example".to_string());
    assert_eq!(config.api_key, "key");
    assert_eq!(config.photo_api_base_url, "https://photos.example");
    assert_eq!(config.samples_dir, "samples");
    assert_eq!(config.port, 3005);
}

#[test]
fn bucket_choice() {
    assert_eq!(choose_bucket(&vec![]), None);
    let buckets = vec!["2024-01-01".to_string(), "2024-02-01".to_string()];
    for _ in 0..10 {
        let b = choose_bucket(&buckets).unwrap();
        assert!(buckets.contains(&b));
    }
    assert_eq!(choose_bucket(&vec!["only".to_string()]), Some("only".to_string()));
}

#[test]
fn first_thumbnail_of_bucket() {
    assert_eq!(first_thumbnail(&vec![]), None);
    assert_eq!(first_thumbnail(&vec!["a".to_string(), "b".to_string()]), Some("a".to_string()));
}

#[test]
fn service_urls() {
    assert_eq!(buckets_url("https://p"), "https://p/api/timeline/buckets");
    assert_eq!(bucket_url("https://p"), "https://p/api/timeline/bucket");
    assert_eq!(thumbnail_url("https://p", "abc"), "https://p/api/assets/abc/thumbnail?size=preview");
}

#[test]
fn error_messages() {
    assert_eq!(Error::BadMagic.message(), "not an EPD stream");
    assert_eq!(Error::WrongDimensions(1, 2).message(), "wrong image dimensions");
}
