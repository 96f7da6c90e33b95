use memelibre::config::{public_host_of_endpoint, PipelineConfig};
use memelibre::errors::PublishError;

#[test]
fn status_codes_follow_the_response_contract() {
    assert_eq!(PublishError::MissingFile.status_code(), 400);
    assert_eq!(PublishError::PayloadTooLarge.status_code(), 413);
    assert_eq!(PublishError::InvalidMediaFormat.status_code(), 400);
    assert_eq!(PublishError::StorageUnavailable.status_code(), 500);
    assert_eq!(PublishError::MetadataCommitFailed.status_code(), 500);
}

#[test]
fn server_side_failures_show_only_a_generic_message() {
    assert_eq!(PublishError::StorageUnavailable.client_message(), "Internal server error");
    assert_eq!(PublishError::MetadataCommitFailed.client_message(), "Internal server error");
    assert_eq!(PublishError::MissingFile.client_message(), "File is empty");
    assert_eq!(PublishError::PayloadTooLarge.client_message(), "Request payload too large");
    assert_eq!(PublishError::InvalidMediaFormat.client_message(), "Invalid image format");
}

#[test]
fn configuration_clamps_quality_at_load_time() {
    let over = PipelineConfig::new(String::from("h"), String::from("b"), 1, 255, 1);
    assert_eq!(over.quality, 100);
    let exact = PipelineConfig::new(String::from("h"), String::from("b"), 1, 80, 1);
    assert_eq!(exact.quality, 80);
    let zero = PipelineConfig::new(String::from("h"), String::from("b"), 1, 0, 1);
    assert_eq!(zero.quality, 0);
}

#[test]
fn public_host_comes_from_an_https_endpoint() {
    assert_eq!(
        public_host_of_endpoint("https://nyc3.digitaloceanspaces.com").as_deref(),
        Some("nyc3.digitaloceanspaces.com")
    );
    assert_eq!(public_host_of_endpoint("https://").as_deref(), Some(""));
}

#[test]
fn endpoint_without_https_scheme_is_refused() {
    assert_eq!(public_host_of_endpoint("http://nyc3.digitaloceanspaces.com"), None);
    assert_eq!(public_host_of_endpoint("nyc3.digitaloceanspaces.com"), None);
    assert_eq!(public_host_of_endpoint(""), None);
    assert_eq!(public_host_of_endpoint("https:/"), None);
}
