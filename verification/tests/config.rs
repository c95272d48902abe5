use oauth_token_exchange::config::{
    default_timeout_ms, default_token_type_urn, glob_match, validate_provider,
};
use oauth_token_exchange::plugin::PluginClass;
use oauth_token_exchange::str_map::StrMap;
use oauth_token_exchange::{
    ConfigError, OAuthTokenExchangePlugin, ProviderConfig, TokenExchangeConfig,
    TokenExchangeTargetTemplate,
};

fn provider() -> ProviderConfig {
    ProviderConfig {
        token_url: "https://sts.example.com/oauth/token".to_owned(),
        client_id: "mcpg".to_owned(),
        client_secret: None,
        scopes: vec![],
        subject_token_type: default_token_type_urn(),
        requested_token_type: default_token_type_urn(),
        audience: Some("https://notion-mcp.example.com".to_owned()),
        resource: None,
        timeout_ms: default_timeout_ms(),
    }
}

fn with_provider(name: &str, provider: ProviderConfig) -> TokenExchangeConfig {
    let mut providers = StrMap::new();
    providers.insert(name.to_owned(), provider);
    TokenExchangeConfig { providers, target_template: None }
}

fn minimal() -> TokenExchangeConfig {
    with_provider("notion", provider())
}

fn template() -> TokenExchangeTargetTemplate {
    TokenExchangeTargetTemplate {
        allowed_targets: vec!["com.acme/*".to_owned()],
        token_url: "https://sts.acme.example/oauth/token".to_owned(),
        client_id: "mcpg-fleet".to_owned(),
        client_secret: None,
        scopes: vec![],
        subject_token_type: default_token_type_urn(),
        requested_token_type: default_token_type_urn(),
        audience_template: Some("https://{target}.mcp.acme.internal".to_owned()),
        resource_template: Some("https://{target}.mcp.acme.internal/mcp".to_owned()),
        timeout_ms: default_timeout_ms(),
    }
}

fn with_template(template: TokenExchangeTargetTemplate) -> TokenExchangeConfig {
    TokenExchangeConfig { providers: StrMap::new(), target_template: Some(template) }
}

fn template_only() -> TokenExchangeConfig {
    with_template(template())
}

fn parse(config: TokenExchangeConfig) -> Result<TokenExchangeConfig, ConfigError> {
    TokenExchangeConfig::parse(Ok(config))
}

#[test]
fn parses_minimal_with_defaults() {
    let cfg = parse(minimal()).unwrap();
    let p = cfg.providers.get("notion").unwrap();
    assert_eq!(p.subject_token_type, "urn:ietf:params:oauth:token-type:access_token");
    assert_eq!(p.requested_token_type, "urn:ietf:params:oauth:token-type:access_token");
    assert_eq!(p.timeout_ms, 5_000);
    assert!(p.client_secret.is_none());
}

#[test]
fn rejects_empty_providers() {
    let v = TokenExchangeConfig { providers: StrMap::new(), target_template: None };
    assert!(matches!(parse(v).unwrap_err(), ConfigError::EmptyProviders));
}

#[test]
fn rejects_unknown_token_url_scheme() {
    let mut p = provider();
    p.token_url = "file:///etc/oauth".to_owned();
    assert!(matches!(
        parse(with_provider("notion", p)).unwrap_err(),
        ConfigError::InvalidTokenUrlScheme { .. }
    ));
}

#[test]
fn rejects_empty_client_id() {
    let mut p = provider();
    p.client_id = "".to_owned();
    assert!(matches!(
        parse(with_provider("notion", p)).unwrap_err(),
        ConfigError::EmptyClientId { .. }
    ));
}

#[test]
fn rejects_oversize_timeout() {
    let mut p = provider();
    p.timeout_ms = 120_000;
    assert!(matches!(
        parse(with_provider("notion", p)).unwrap_err(),
        ConfigError::InvalidTimeoutMs { .. }
    ));
}

#[test]
fn template_only_config_validates_and_expands() {
    let cfg = parse(template_only()).unwrap();
    let template = cfg.target_template.as_ref().unwrap();
    let expanded = template.expand("com.acme/crm").expect("allowlisted target");
    assert_eq!(
        expanded.audience.as_deref(),
        Some("https://com.acme/crm.mcp.acme.internal")
    );
    assert_eq!(
        expanded.resource.as_deref(),
        Some("https://com.acme/crm.mcp.acme.internal/mcp")
    );
    assert_eq!(expanded.token_url, "https://sts.acme.example/oauth/token");
    assert_eq!(expanded.timeout_ms, 5_000);

    // Outside the allowlist: no expansion.
    assert!(template.expand("io.github.evil/exfil").is_none());
}

#[test]
fn template_requires_allowed_targets() {
    let mut t = template();
    t.allowed_targets = vec![];
    assert!(matches!(
        parse(with_template(t)).unwrap_err(),
        ConfigError::EmptyAllowedTargets
    ));
}

#[test]
fn template_url_scheme_validated() {
    let mut t = template();
    t.token_url = "ftp://sts.example/token".to_owned();
    assert!(matches!(
        parse(with_template(t)).unwrap_err(),
        ConfigError::InvalidTokenUrlScheme { .. }
    ));
}

#[test]
fn exact_provider_and_template_coexist() {
    let mut v = template_only();
    v.providers = minimal().providers;
    let cfg = parse(v).unwrap();
    assert_eq!(cfg.providers.len(), 1);
    assert!(cfg.target_template.is_some());
}

#[test]
fn undecoded_config_is_refused_in_the_words_of_the_decoder() {
    let err = TokenExchangeConfig::parse(Err("key must be a string".to_owned())).unwrap_err();
    assert!(matches!(err, ConfigError::InvalidJson(_)));
    assert_eq!(
        err.message(),
        "invalid credential.oauth-token-exchange config JSON: key must be a string"
    );
}

#[test]
fn blank_fields_count_as_empty() {
    let mut p = provider();
    p.token_url = " \t\u{3000}".to_owned();
    let err = validate_provider("notion", &p).unwrap_err();
    assert!(matches!(&err, ConfigError::EmptyTokenUrl { name } if name == "notion"));
    assert_eq!(
        err.message(),
        "credential.oauth-token-exchange: provider `notion` token_url is empty"
    );
    let mut p = provider();
    p.client_id = "\n".to_owned();
    let err = validate_provider("notion", &p).unwrap_err();
    assert_eq!(
        err.message(),
        "credential.oauth-token-exchange: provider `notion` client_id is empty"
    );
}

#[test]
fn timeout_bounds_are_inclusive() {
    let mut p = provider();
    for (timeout, valid) in [(99, false), (100, true), (60_000, true), (60_001, false)] {
        p.timeout_ms = timeout;
        assert_eq!(validate_provider("p", &p).is_ok(), valid);
    }
    assert_eq!(
        validate_provider("p", &p).unwrap_err().message(),
        "credential.oauth-token-exchange: provider `p` timeout_ms=60001; must be 100..=60_000"
    );
}

#[test]
fn messages_of_the_other_errors() {
    assert_eq!(
        ConfigError::EmptyProviders.message(),
        "credential.oauth-token-exchange: providers must be non-empty (or set target_template)"
    );
    assert_eq!(
        ConfigError::EmptyAllowedTargets.message(),
        "credential.oauth-token-exchange: target_template.allowed_targets must be non-empty"
    );
    assert_eq!(
        ConfigError::InvalidTokenUrlScheme { name: "n".to_owned() }.message(),
        "credential.oauth-token-exchange: provider `n` token_url must start with http:// or https://"
    );
}

#[test]
fn http_scheme_must_stand_at_the_start_and_in_lower_case() {
    let mut p = provider();
    for (url, valid) in [
        ("http://sts", true),
        ("https://sts", true),
        (" https://sts", false),
        ("HTTPS://sts", false),
        ("http:/sts", false),
    ] {
        p.token_url = url.to_owned();
        assert_eq!(validate_provider("p", &p).is_ok(), valid);
    }
}

#[test]
fn first_faulty_provider_by_name_is_reported() {
    let mut broken = provider();
    broken.client_id = "".to_owned();
    let mut late = provider();
    late.timeout_ms = 1;
    let mut config = with_provider("zeta", late);
    config.providers.insert("beta".to_owned(), broken);
    config.providers.insert("alpha".to_owned(), provider());
    let err = parse(config).unwrap_err();
    assert!(matches!(err, ConfigError::EmptyClientId { name } if name == "beta"));
}

#[test]
fn faulty_provider_is_reported_before_the_template() {
    let mut config = template_only();
    let mut broken = provider();
    broken.client_id = "".to_owned();
    config.providers.insert("notion".to_owned(), broken);
    config.target_template.as_mut().unwrap().allowed_targets = vec![];
    assert!(matches!(parse(config).unwrap_err(), ConfigError::EmptyClientId { .. }));
}

#[test]
fn template_fault_carries_the_template_name() {
    let mut t = template();
    t.client_id = " ".to_owned();
    let err = parse(with_template(t)).unwrap_err();
    assert!(matches!(err, ConfigError::EmptyClientId { name } if name == "target_template"));
}

#[test]
fn pattern_with_two_stars_is_accepted() {
    let mut t = template();
    for pattern in ["a**", "**", "*", "srv-*", "srv"] {
        t.allowed_targets = vec![pattern.to_owned()];
        assert!(parse(with_template(t.clone())).is_ok());
    }
    t.allowed_targets = vec!["a**".to_owned()];
    assert!(t.expand("a").is_none());
    assert!(t.expand("a*b").is_some());
    t.timeout_ms = 99;
    assert!(matches!(
        with_template(t).validate(),
        Err(ConfigError::InvalidTimeoutMs { timeout: 99, .. })
    ));
}

#[test]
fn globs() {
    assert!(glob_match("srv-*", "srv-crm"));
    assert!(glob_match("srv-*", "srv-"));
    assert!(!glob_match("srv-*", "srv"));
    assert!(glob_match("*", ""));
    assert!(glob_match("srv", "srv"));
    assert!(!glob_match("srv", "srv-crm"));
    assert!(!glob_match("", "x"));
    assert!(glob_match("a*b", "a*b"));
    assert!(!glob_match("a*b", "axb"));
    assert!(glob_match("a**", "a*x"));
    assert!(!glob_match("a**", "ax"));
}

#[test]
fn exact_entry_wins_over_the_template() {
    let mut config = template_only();
    config.providers.insert("com.acme/crm".to_owned(), provider());
    assert_eq!(config.resolve("com.acme/crm").unwrap(), provider());
    let derived = config.resolve("com.acme/erp").unwrap();
    assert_eq!(derived.client_id, "mcpg-fleet");
    assert_eq!(config.resolve("org.acme/crm"), None);
    assert_eq!(config.clone(), config);
}

#[test]
fn every_occurrence_of_the_placeholder_is_filled() {
    let mut t = template();
    t.audience_template = Some("{target}/{{target}}/{targe}".to_owned());
    t.resource_template = None;
    let expanded = t.expand("com.acme/{target}").unwrap();
    assert_eq!(
        expanded.audience.as_deref(),
        Some("com.acme/{target}/{com.acme/{target}}/{targe}")
    );
    assert_eq!(expanded.resource, None);
}

#[test]
fn from_config_json_succeeds() {
    let mut p = provider();
    p.token_url = "https://example.com/token".to_owned();
    p.client_secret = Some("csecret".to_owned());
    p.scopes = vec!["read".to_owned()];
    let plugin = OAuthTokenExchangePlugin::from_config_json(
        Ok(with_provider("notion", p)),
        "1.2.3",
        "oauth_plugin::issuer::inner",
    )
    .unwrap();
    assert_eq!(plugin.manifest().id, oauth_token_exchange::plugin::PLUGIN_ID);
    assert_eq!(plugin.manifest().id, "dev.mcpg.credential.oauth-token-exchange");
    assert_eq!(plugin.manifest().version, "1.2.3");
    assert_eq!(plugin.manifest().name, "OAuth 2.0 Token Exchange Issuer");
    assert_eq!(plugin.manifest().protocol_version, "1.0");
    assert_eq!(plugin.manifest().module_path_prefix, "oauth_plugin");
    assert_eq!(plugin.manifest().plugin_class, PluginClass::CredentialIssuer);
    assert_eq!(plugin.manifest().license, None);
    assert_eq!(plugin.manifest().backend_profile, None);
    assert!(plugin.manifest().required_capabilities.is_empty());
    assert!(plugin.manifest().tags.is_empty());
    assert!(plugin.manifest().provides.is_empty());
    assert!(plugin.manifest().provides_schemes.is_empty());
    assert_eq!(plugin.config().providers.len(), 1);
}

#[test]
fn path_without_separator_is_its_own_prefix() {
    for (path, prefix) in [("plain", "plain"), ("", ""), ("a:b::c", "a:b"), ("::a", "")] {
        let plugin = OAuthTokenExchangePlugin::from_validated_config(minimal(), "1", path);
        assert_eq!(plugin.manifest().module_path_prefix, prefix);
    }
}

#[test]
fn malformed_config_is_not_loaded() {
    let said = OAuthTokenExchangePlugin::from_config_json(
        Err("key must be a string at line 1 column 3".to_owned()),
        "1.2.3",
        "oauth_plugin",
    )
    .unwrap_err();
    assert_eq!(
        said,
        "oauth-token-exchange config parse failed: invalid credential.oauth-token-exchange config \
         JSON: key must be a string at line 1 column 3. A misconfigured credential issuer is a \
         security hole; refusing to load."
    );
}

#[test]
#[should_panic(expected = "oauth-token-exchange config parse failed")]
fn malformed_config_panics_at_construction() {
    let detail = serde_json::from_str::<serde_json::Value>("{ not json").unwrap_err().to_string();
    OAuthTokenExchangePlugin::from_config_json(Err(detail), "1.2.3", "oauth_plugin")
        .unwrap_or_else(|said| panic!("{said}"));
}
