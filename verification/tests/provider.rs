use crusty::provider::{ProviderConfig, ProviderType};

#[test]
fn test_provider_config_validation() {
    let valid = ProviderConfig::new(
        "openai",
        "https://api.openai.com/v1",
        "sk-test",
        Some("gpt-4".to_string()),
    );
    assert!(valid.is_valid());

    let invalid = ProviderConfig::default();
    assert!(!invalid.is_valid());
}

#[test]
fn test_provider_type_parsing() {
    let config = ProviderConfig::new("openai", "https://api.openai.com/v1", "key", None);
    assert_eq!(config.get_provider_type(), ProviderType::OpenAI);
}

#[test]
fn provider_type_names() {
    for (name, t) in [
        ("openai", ProviderType::OpenAI),
        ("anthropic", ProviderType::Anthropic),
        ("local-proxy", ProviderType::LocalProxy),
        ("something-else", ProviderType::Custom),
        ("", ProviderType::Custom),
    ] {
        let c = ProviderConfig::new(name, "http://x", "k", None);
        assert_eq!(c.get_provider_type(), t);
    }
    assert_eq!(ProviderType::OpenAI.to_string(), "openai");
    assert_eq!(ProviderType::Anthropic.to_string(), "anthropic");
    assert_eq!(ProviderType::LocalProxy.to_string(), "local-proxy");
    assert_eq!(ProviderType::Custom.to_string(), "custom");
}

#[test]
fn normalize_adds_v1_when_no_path() {
    assert_eq!(ProviderConfig::normalize_base_url("https://api.openai.com"), "https://api.openai.com/v1");
    assert_eq!(ProviderConfig::normalize_base_url("http://localhost:8000/"), "http://localhost:8000/v1");
    assert_eq!(ProviderConfig::normalize_base_url("  http://localhost:8000///  "), "http://localhost:8000/v1");
}

#[test]
fn normalize_keeps_existing_path() {
    assert_eq!(ProviderConfig::normalize_base_url("https://api.openai.com/v1"), "https://api.openai.com/v1");
    assert_eq!(ProviderConfig::normalize_base_url("https://host/api/v2/"), "https://host/api/v2");
}

#[test]
fn normalize_leaves_other_text_trimmed() {
    assert_eq!(ProviderConfig::normalize_base_url("  api.openai.com/ "), "api.openai.com");
    assert_eq!(ProviderConfig::normalize_base_url(""), "");
    assert_eq!(ProviderConfig::normalize_base_url("https://"), "https:");
    assert_eq!(ProviderConfig::normalize_base_url("\u{3000}https://h\t"), "https://h/v1");
}

#[test]
fn validity_needs_key_and_http_scheme() {
    assert!(!ProviderConfig::new("openai", "https://a", "", None).is_valid());
    assert!(!ProviderConfig::new("openai", "ftp://a", "k", None).is_valid());
    assert!(!ProviderConfig::new("openai", "a.com", "k", None).is_valid());
    assert!(ProviderConfig::new("openai", "http://a", "k", None).is_valid());
    let c = ProviderConfig::new("openai", "http://a", "k", Some("m".to_string()));
    assert_eq!(c.base_url, "http://a/v1");
    assert_eq!(c.default_model.as_deref(), Some("m"));
    assert!(c.metadata.is_empty());
}

#[test]
fn normalizing_twice_changes_nothing() {
    for url in ["https://api.openai.com", " http://localhost:8080/// ", "https://h/v1/", "custom", ""] {
        let once = ProviderConfig::normalize_base_url(url);
        assert_eq!(ProviderConfig::normalize_base_url(&once), once);
    }
    let once = ProviderConfig::normalize_base_url("x /");
    assert_eq!(once, "x ");
    assert_eq!(ProviderConfig::normalize_base_url(&once), "x");
}
