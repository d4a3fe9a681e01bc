// Tests for the alternative API configuration and its URL building

use reso_client::ResoApiConfig;

#[test]
fn test_config_creation() {
    let config = ResoApiConfig::new(
        "https://api.bridgedataoutput.com/api/v2".to_string(),
        "your_token_here".to_string(),
    )
    .with_dataset("test_dataset".to_string());

    assert_eq!(config.dataset_id, Some("test_dataset".to_string()));
}

#[test]
fn test_url_building() {
    let config = ResoApiConfig::new(
        "https://api.bridgedataoutput.com/api/v2".to_string(),
        "test_token".to_string(),
    )
    .with_dataset("abc123".to_string());

    let url = config.build_odata_url("Property").unwrap();

    assert!(url.contains("OData/abc123/Property"));
    assert!(!url.contains("access_token"));
}

#[test]
fn test_build_url_trims_slashes() {
    let config = ResoApiConfig::new(
        "https://api.example.com/v2///".to_string(),
        "token".to_string(),
    );

    assert_eq!(
        config.build_url("/Property"),
        "https://api.example.com/v2/Property"
    );
    assert_eq!(
        config.build_url("Property"),
        "https://api.example.com/v2/Property"
    );
}

#[test]
fn test_build_odata_url_requires_dataset() {
    let config = ResoApiConfig::new("https://api.example.com/v2".to_string(), "token".to_string());

    assert_eq!(config.build_odata_url("Property"), None);
}

#[test]
fn test_auth_header_value() {
    let config = ResoApiConfig::new(
        "https://api.example.com/v2".to_string(),
        "secret-token".to_string(),
    );

    assert_eq!(config.auth_header(), "Bearer secret-token");
}
