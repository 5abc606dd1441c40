use cbr_client::client_common::{endpoint, normalize_base_url, DEFAULT_BASE_URL};

#[test]
fn normalize_base_url_uses_default_for_empty_value() {
    assert_eq!(normalize_base_url("  "), DEFAULT_BASE_URL);
}

#[test]
fn normalize_base_url_trims_trailing_slashes() {
    assert_eq!(
        normalize_base_url("https://example.com/api///"),
        "https://example.com/api"
    );
}

#[test]
fn normalize_base_url_preserves_trimming_with_leading_whitespace() {
    assert_eq!(
        normalize_base_url("  https://example.com/api///  "),
        "https://example.com/api"
    );
}

#[test]
fn endpoint_trims_leading_slashes_in_path() {
    assert_eq!(
        endpoint("https://example.com/api", "//datasets"),
        "https://example.com/api/datasets"
    );
}

#[test]
fn normalize_base_url_keeps_a_clean_url() {
    assert_eq!(
        normalize_base_url("https://example.com/api"),
        "https://example.com/api"
    );
}

#[test]
fn normalize_base_url_uses_default_for_empty_string() {
    assert_eq!(normalize_base_url(""), DEFAULT_BASE_URL);
    assert_eq!(DEFAULT_BASE_URL, "https://www.cbr.ru/dataservice");
}

#[test]
fn normalize_base_url_trims_unicode_white_space() {
    assert_eq!(
        normalize_base_url("\u{a0}\thttps://example.com/\u{3000}"),
        "https://example.com"
    );
}

#[test]
fn normalize_base_url_is_idempotent_on_a_regular_url() {
    let once = normalize_base_url(" https://example.com/api/ ");
    assert_eq!(normalize_base_url(&once), once);
}

#[test]
fn normalize_base_url_of_only_slashes_is_empty() {
    // the input on which normalising twice differs from normalising once
    assert_eq!(normalize_base_url("///"), "");
    assert_eq!(normalize_base_url(""), DEFAULT_BASE_URL);
}

#[test]
fn endpoint_accepts_path_without_leading_slash() {
    assert_eq!(
        endpoint("https://example.com/api", "datasets"),
        "https://example.com/api/datasets"
    );
    assert_eq!(
        endpoint("https://example.com/api", "/datasets"),
        endpoint("https://example.com/api", "datasets")
    );
}
