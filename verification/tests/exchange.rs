use oauth_token_exchange::config::{default_timeout_ms, default_token_type_urn};
use oauth_token_exchange::issue::{
    exchange_request, plan_issue, CallConfig, CallOverrides, CallerIdentity, CredentialError,
    ExchangeRequest, SUBJECT_TOKEN_ATTR, SUBJECT_TOKEN_TYPE_ATTR,
};
use oauth_token_exchange::reply::{
    conclude, credential_from, default_token_type, error_code, error_for, is_standard, refuse,
    reply_kind, ExchangeReply, ReplyKind, TokenExchangeResponse,
};
use oauth_token_exchange::str_map::StrMap;
use oauth_token_exchange::{
    OAuthTokenExchangePlugin, ProviderConfig, TokenExchangeConfig, TokenExchangeTargetTemplate,
};

/// Identity carrying a subject token in `attributes`.
fn identity_with_subject(token: &str) -> CallerIdentity {
    let mut attributes = StrMap::new();
    if !token.is_empty() {
        attributes.insert(SUBJECT_TOKEN_ATTR.to_owned(), token.to_owned());
    }
    CallerIdentity { trust_level: "verified".to_owned(), verified: true, attributes }
}

fn notion(url: &str) -> ProviderConfig {
    ProviderConfig {
        token_url: url.to_owned(),
        client_id: "mcpg".to_owned(),
        client_secret: Some("csecret".to_owned()),
        scopes: vec!["read".to_owned()],
        subject_token_type: default_token_type_urn(),
        requested_token_type: default_token_type_urn(),
        audience: Some("https://notion-mcp.example.com".to_owned()),
        resource: None,
        timeout_ms: default_timeout_ms(),
    }
}

fn build(config: TokenExchangeConfig) -> OAuthTokenExchangePlugin {
    OAuthTokenExchangePlugin::from_config_json(Ok(config), "1.0.0", "oauth_plugin").unwrap()
}

fn build_with_token_url(url: &str) -> OAuthTokenExchangePlugin {
    let mut providers = StrMap::new();
    providers.insert("notion".to_owned(), notion(url));
    build(TokenExchangeConfig { providers, target_template: None })
}

/// A plugin without exact providers: only a target template whose audience and resource expand
/// `{target}`.
fn build_template_with_token_url(url: &str) -> OAuthTokenExchangePlugin {
    build(TokenExchangeConfig {
        providers: StrMap::new(),
        target_template: Some(TokenExchangeTargetTemplate {
            allowed_targets: vec!["srv-*".to_owned()],
            token_url: url.to_owned(),
            client_id: "mcpg-fleet".to_owned(),
            client_secret: None,
            scopes: vec![],
            subject_token_type: default_token_type_urn(),
            requested_token_type: default_token_type_urn(),
            audience_template: Some("https://{target}.mcp.example.com".to_owned()),
            resource_template: Some("https://{target}.mcp.example.com/mcp".to_owned()),
            timeout_ms: default_timeout_ms(),
        }),
    })
}

/// A per-call config that names nothing.
fn no_overrides() -> CallConfig {
    CallConfig::Decoded(CallOverrides::default())
}

/// The body that an HTTP client posts for a request.
fn posted(request: &ExchangeRequest) -> String {
    let built = reqwest::Client::new()
        .post(&request.token_url)
        .form(&request.form)
        .build()
        .unwrap();
    String::from_utf8(built.body().unwrap().as_bytes().unwrap().to_vec()).unwrap()
}

fn response(access_token: &str, expires_in: u64) -> TokenExchangeResponse {
    TokenExchangeResponse {
        access_token: access_token.to_owned(),
        token_type: default_token_type(),
        expires_in: Some(expires_in),
        issued_token_type: None,
    }
}

#[test]
fn exchanges_caller_subject_token() {
    let plugin = build_with_token_url("https://example.com/token");
    let request = plugin
        .plan(&identity_with_subject("caller-bearer-xyz"), "notion", no_overrides())
        .unwrap();
    assert_eq!(request.token_url, "https://example.com/token");
    assert_eq!(request.timeout_ms, 5_000);
    let body = posted(&request);
    assert!(body.contains("grant_type=urn%3Aietf%3Aparams%3Aoauth%3Agrant-type%3Atoken-exchange"));
    assert!(body.contains("subject_token=caller-bearer-xyz"));
    assert!(body.contains("client_id=mcpg"));
    assert!(body.contains("audience="));
    let cred = conclude(
        "notion",
        ExchangeReply::Token(TokenExchangeResponse {
            access_token: "exchanged-tok".to_owned(),
            issued_token_type: Some("urn:ietf:params:oauth:token-type:access_token".to_owned()),
            token_type: "Bearer".to_owned(),
            expires_in: Some(600),
        }),
    )
    .unwrap();
    assert_eq!(cred.value.as_deref(), Some("exchanged-tok"));
    assert_eq!(cred.ttl_seconds, 600);
    assert_eq!(
        cred.metadata.get("oauth.issued_token_type").map(String::as_str),
        Some("urn:ietf:params:oauth:token-type:access_token")
    );
}

#[test]
fn missing_subject_token_is_misconfigured() {
    let plugin = build_with_token_url("https://example.com/token");
    let err = plugin.plan(&identity_with_subject(""), "notion", no_overrides()).unwrap_err();
    match err {
        CredentialError::Misconfigured { reason } => {
            assert!(reason.contains("subject_token"), "got: {reason}");
            assert_eq!(
                reason,
                "token exchange for `notion` requires the caller's subject token in \
                 identity.attributes[\"subject_token\"]"
            );
        }
        other => panic!("unexpected error: {other:?}"),
    }
}

#[test]
fn empty_subject_token_is_misconfigured() {
    let plugin = build_with_token_url("https://example.com/token");
    let mut identity = identity_with_subject("");
    identity.attributes.insert(SUBJECT_TOKEN_ATTR.to_owned(), "".to_owned());
    let err = plugin.plan(&identity, "notion", no_overrides()).unwrap_err();
    assert!(matches!(err, CredentialError::Misconfigured { .. }));
}

#[test]
fn non_verified_identity_is_not_authorized() {
    // A caller who is not verified is refused whatever token the identity carries.
    let plugin = build_with_token_url("https://example.com/token");
    let mut identity = identity_with_subject("caller-bearer-xyz");
    identity.trust_level = "header_asserted".to_owned();
    identity.verified = false;
    let err = plugin.plan(&identity, "notion", no_overrides()).unwrap_err();
    match err {
        CredentialError::NotAuthorized { reason } => {
            assert!(reason.contains("Verified"), "got: {reason}");
            assert_eq!(
                reason,
                "token exchange for `notion` requires a Verified caller; trust is \
                 `header_asserted`"
            );
        }
        other => panic!("unexpected error: {other:?}"),
    }
}

#[test]
fn unknown_provider_is_misconfigured() {
    let plugin = build_with_token_url("https://example.com/token");
    let err = plugin.plan(&identity_with_subject("tok"), "missing", no_overrides()).unwrap_err();
    assert!(matches!(err, CredentialError::Misconfigured { .. }));
}

#[test]
fn sts_4xx_surfaces_as_misconfigured() {
    let body = "{\"error\": \"invalid_request\", \
                \"error_description\": \"subject_token LEAKED_SECRET_abc123 rejected\"}";
    let err = conclude(
        "notion",
        ExchangeReply::Refused { status: 400, body: Some(body.to_owned()) },
    )
    .unwrap_err();
    match err {
        CredentialError::Misconfigured { reason } => {
            assert!(reason.contains("400"), "status preserved: {reason}");
            assert!(
                reason.contains("invalid_request"),
                "OAuth error code should be surfaced: {reason}"
            );
            assert!(
                !reason.contains("LEAKED_SECRET_abc123"),
                "STS error body leaked into the reason: {reason}"
            );
            assert_eq!(
                reason,
                "token-exchange endpoint returned HTTP 400 Bad Request for `notion` \
                 (error: invalid_request)"
            );
        }
        other => panic!("unexpected error: {other:?}"),
    }
}

#[test]
fn subject_token_type_override_from_identity() {
    let plugin = build_with_token_url("https://example.com/token");
    let mut identity = identity_with_subject("caller-bearer");
    identity.attributes.insert(
        SUBJECT_TOKEN_TYPE_ATTR.to_owned(),
        "urn:ietf:params:oauth:token-type:jwt".to_owned(),
    );
    let request = plugin.plan(&identity, "notion", no_overrides()).unwrap();
    assert!(posted(&request)
        .contains("subject_token_type=urn%3Aietf%3Aparams%3Aoauth%3Atoken-type%3Ajwt"));
    let cred = conclude("notion", ExchangeReply::Token(response("tok", 300))).unwrap();
    assert_eq!(cred.value.as_deref(), Some("tok"));
}

#[test]
fn template_expands_target_through_exchange() {
    let plugin = build_template_with_token_url("https://example.com/token");
    let request = plugin
        .plan(&identity_with_subject("caller-bearer-xyz"), "srv-crm", no_overrides())
        .unwrap();
    let body = posted(&request);
    assert!(body.contains("audience=https%3A%2F%2Fsrv-crm.mcp.example.com"));
    assert!(body.contains("resource=https%3A%2F%2Fsrv-crm.mcp.example.com%2Fmcp"));
    assert!(body.contains("client_id=mcpg-fleet"));
    let cred = conclude("srv-crm", ExchangeReply::Token(response("exchanged-tok", 600))).unwrap();
    assert_eq!(cred.value.as_deref(), Some("exchanged-tok"));
    assert_eq!(cred.ttl_seconds, 600);
}

#[test]
fn template_target_outside_allowlist_is_misconfigured() {
    let plugin = build_template_with_token_url("https://example.com/token");
    let err =
        plugin.plan(&identity_with_subject("tok"), "other-app", no_overrides()).unwrap_err();
    match err {
        CredentialError::Misconfigured { reason } => {
            assert!(reason.contains("other-app"), "got: {reason}");
            assert_eq!(
                reason,
                "unknown provider `other-app` (no exact entry; target_template absent or target \
                 not in allowed_targets)"
            );
        }
        other => panic!("unexpected error: {other:?}"),
    }
}

#[test]
fn call_config_overrides_take_precedence() {
    let plugin = build_with_token_url("https://example.com/token");
    let call_config = CallConfig::Decoded(CallOverrides {
        audience: Some("https://discovered.example.com".to_owned()),
        resource: Some("https://discovered.example.com/mcp".to_owned()),
    });
    let request = plugin
        .plan(&identity_with_subject("caller-bearer-xyz"), "notion", call_config)
        .unwrap();
    let body = posted(&request);
    assert!(body.contains("audience=https%3A%2F%2Fdiscovered.example.com"));
    assert!(body.contains("resource=https%3A%2F%2Fdiscovered.example.com%2Fmcp"));
    assert_eq!(request.token_url, "https://example.com/token");
    let cred = conclude("notion", ExchangeReply::Token(response("exchanged-tok", 300))).unwrap();
    assert_eq!(cred.value.as_deref(), Some("exchanged-tok"));
}

#[test]
fn malformed_call_config_is_misconfigured() {
    let plugin = build_with_token_url("https://example.com/token");
    let audience = serde_json::from_value::<Option<String>>(serde_json::Value::from(5));
    let call_config = CallConfig::Undecodable(audience.unwrap_err().to_string());
    let err = plugin.plan(&identity_with_subject("tok"), "notion", call_config).unwrap_err();
    match err {
        CredentialError::Misconfigured { reason } => assert_eq!(
            reason,
            "invalid per-call issuer config: invalid type: integer `5`, expected a string"
        ),
        other => panic!("unexpected error: {other:?}"),
    }
}

#[test]
fn form_in_full() {
    let mut provider = notion("https://example.com/token");
    provider.scopes.push("write".to_owned());
    provider.resource = Some("https://r".to_owned());
    let request = exchange_request(&provider, "tok", "kind");
    let urn = "urn:ietf:params:oauth:token-type:access_token";
    let expected: Vec<(String, String)> = [
        ("grant_type", "urn:ietf:params:oauth:grant-type:token-exchange"),
        ("subject_token", "tok"),
        ("subject_token_type", "kind"),
        ("requested_token_type", urn),
        ("client_id", "mcpg"),
        ("client_secret", "csecret"),
        ("scope", "read write"),
        ("audience", "https://notion-mcp.example.com"),
        ("resource", "https://r"),
    ]
    .iter()
    .map(|(name, value)| (name.to_string(), value.to_string()))
    .collect();
    assert_eq!(request.form, expected);
    provider.client_secret = Some("".to_owned());
    provider.scopes = vec![];
    provider.audience = None;
    provider.resource = Some("".to_owned());
    let request = exchange_request(&provider, "tok", "kind");
    assert_eq!(request.form.len(), 6);
    assert_eq!(request.form[5], ("resource".to_owned(), "".to_owned()));
}

#[test]
fn empty_overrides_and_null_leave_the_provider() {
    let plugin = build_with_token_url("https://example.com/token");
    let identity = identity_with_subject("tok");
    let plain = plugin.plan(&identity, "notion", CallConfig::Null).unwrap();
    let empty = CallConfig::Decoded(CallOverrides {
        audience: Some("".to_owned()),
        resource: Some("".to_owned()),
    });
    let overridden = plugin.plan(&identity, "notion", empty).unwrap();
    assert_eq!(plain.form, overridden.form);
    assert!(plain
        .form
        .contains(&("audience".to_owned(), "https://notion-mcp.example.com".to_owned())));
}

#[test]
fn refusals_come_in_order() {
    let config = TokenExchangeConfig { providers: StrMap::new(), target_template: None };
    let mut identity = identity_with_subject("");
    identity.verified = false;
    let broken = || CallConfig::Undecodable("x".to_owned());
    assert!(matches!(
        plan_issue(&config, &identity, "p", broken()),
        Err(CredentialError::NotAuthorized { .. })
    ));
    identity.verified = true;
    match plan_issue(&config, &identity, "p", broken()) {
        Err(CredentialError::Misconfigured { reason }) => {
            assert!(reason.starts_with("unknown provider `p`"))
        }
        other => panic!("unexpected: {other:?}"),
    }
    let plugin = build_with_token_url("https://example.com/token");
    match plugin.plan(&identity, "notion", broken()) {
        Err(CredentialError::Misconfigured { reason }) => {
            assert_eq!(reason, "invalid per-call issuer config: x")
        }
        other => panic!("unexpected: {other:?}"),
    }
}

#[test]
fn refusal_is_the_same_for_every_token() {
    let plugin = build_with_token_url("https://example.com/token");
    let one = plugin.plan(&identity_with_subject("one"), "missing", CallConfig::Null);
    let two = plugin.plan(&identity_with_subject("two"), "missing", CallConfig::Null);
    assert_eq!(format!("{:?}", one.unwrap_err()), format!("{:?}", two.unwrap_err()));
}

#[test]
fn different_callers_send_different_requests() {
    let plugin = build_with_token_url("https://example.com/token");
    let one = plugin.plan(&identity_with_subject("one"), "notion", CallConfig::Null).unwrap();
    let two = plugin.plan(&identity_with_subject("two"), "notion", CallConfig::Null).unwrap();
    assert_ne!(one.form, two.form);
}

#[test]
fn status_decides_how_the_body_is_read() {
    for (status, kind) in [
        (199, ReplyKind::Error),
        (200, ReplyKind::Token),
        (299, ReplyKind::Token),
        (300, ReplyKind::Error),
        (404, ReplyKind::Error),
    ] {
        assert_eq!(reply_kind(status), kind);
    }
}

#[test]
fn status_decides_the_class_of_the_error() {
    let none = &None;
    assert!(matches!(refuse("p", 429, none), CredentialError::Throttled { .. }));
    assert!(matches!(refuse("p", 400, none), CredentialError::Misconfigured { .. }));
    assert!(matches!(refuse("p", 499, none), CredentialError::Misconfigured { .. }));
    assert!(matches!(refuse("p", 399, none), CredentialError::Backend { .. }));
    match refuse("p", 503, none) {
        CredentialError::Backend { reason } => assert_eq!(
            reason,
            "token-exchange endpoint returned HTTP 503 Service Unavailable for `p`"
        ),
        other => panic!("unexpected: {other:?}"),
    }
    match refuse("p", 799, none) {
        CredentialError::Backend { reason } => assert_eq!(
            reason,
            "token-exchange endpoint returned HTTP 799 <unknown status code> for `p`"
        ),
        other => panic!("unexpected: {other:?}"),
    }
}

#[test]
fn only_a_standard_error_member_at_the_top_is_a_code() {
    let code = |body: &str| match refuse("p", 500, &Some(body.to_owned())) {
        CredentialError::Backend { reason } => reason.contains("(error:"),
        other => panic!("unexpected: {other:?}"),
    };
    assert!(code("{\"error\":\"invalid_grant\"}"));
    assert!(code("{\"error\":1,\"error\":\"invalid_grant\"}"));
    assert!(!code("{\"error\":\"invalid_grant\",\"error\":1}"));
    assert!(!code("{\"error\":5}"));
    assert!(!code("{\"error\":\"Invalid_Grant\"}"));
    assert!(!code("{\"error\":\"invalid_grant \"}"));
    assert!(!code("{\"inner\":{\"error\":\"invalid_grant\"}}"));
    assert!(!code("[\"error\",\"invalid_grant\"]"));
    assert!(!code("\"error\""));
    assert!(!code("{\"error\":\"invalid_grant\""));
    assert!(!code("<html>"));
    assert!(!code(""));
}

#[test]
fn echoed_token_is_not_surfaced() {
    let body = "{\"error\":\"LEAKED_SECRET_abc123\"}".to_owned();
    match conclude("notion", ExchangeReply::Refused { status: 400, body: Some(body) }) {
        Err(CredentialError::Misconfigured { reason }) => assert_eq!(
            reason,
            "token-exchange endpoint returned HTTP 400 Bad Request for `notion`"
        ),
        other => panic!("unexpected: {other:?}"),
    }
}

#[test]
fn standard_codes() {
    for code in [
        "invalid_request",
        "invalid_client",
        "invalid_grant",
        "unauthorized_client",
        "unsupported_grant_type",
        "invalid_scope",
    ] {
        assert!(is_standard(code));
        let body = format!("{{\"error\":\"{code}\"}}");
        match refuse("p", 401, &Some(body)) {
            CredentialError::Misconfigured { reason } => assert_eq!(
                reason,
                format!(
                    "token-exchange endpoint returned HTTP 401 Unauthorized for `p` (error: {code})"
                )
            ),
            other => panic!("unexpected: {other:?}"),
        }
    }
    assert!(!is_standard(""));
    assert!(!is_standard("invalid"));
    assert!(!is_standard("invalid_request2"));
}

#[test]
fn error_code_of_members() {
    let member = |name: &str, text: Option<&str>| (name.to_owned(), text.map(str::to_owned));
    assert_eq!(error_code(&None), None);
    assert_eq!(error_code(&Some(vec![])), None);
    let members = vec![member("error", Some("invalid_scope")), member("x", Some("y"))];
    assert_eq!(error_code(&Some(members)), Some("invalid_scope".to_owned()));
    let members = vec![member("error", Some("e"))];
    assert_eq!(error_code(&Some(members)), None);
    let members = vec![member("error", None)];
    assert_eq!(error_code(&Some(members)), None);
    let throttled = |code: &str| {
        match error_for("p", 429, "429 Too Many Requests", &Some(code.to_owned())) {
            CredentialError::Throttled { reason } => reason,
            other => panic!("unexpected: {other:?}"),
        }
    };
    assert_eq!(
        throttled("invalid_grant"),
        "token-exchange endpoint returned HTTP 429 Too Many Requests for `p` (error: invalid_grant)"
    );
    assert_eq!(
        throttled("slow_down"),
        "token-exchange endpoint returned HTTP 429 Too Many Requests for `p`"
    );
}

#[test]
fn transport_and_decoder_failures_are_backend_errors() {
    match conclude("p", ExchangeReply::Unreachable("refused".to_owned())) {
        Err(CredentialError::Backend { reason }) => {
            assert_eq!(reason, "token-exchange endpoint unreachable for `p`: refused")
        }
        other => panic!("unexpected: {other:?}"),
    }
    match conclude("p", ExchangeReply::Undecodable("eof".to_owned())) {
        Err(CredentialError::Backend { reason }) => {
            assert_eq!(reason, "failed to parse token-exchange response for `p`: eof")
        }
        other => panic!("unexpected: {other:?}"),
    }
}

#[test]
fn credential_in_full() {
    let answer = TokenExchangeResponse {
        access_token: "tok".to_owned(),
        token_type: default_token_type(),
        expires_in: None,
        issued_token_type: None,
    };
    let cred = credential_from(answer, "2018-01-26T18:30:09Z".to_owned());
    assert_eq!(cred.value.as_deref(), Some("tok"));
    assert_eq!(cred.ttl_seconds, 3600);
    assert_eq!(cred.lease_id, None);
    assert_eq!(cred.issued_at, "2018-01-26T18:30:09Z");
    assert_eq!(cred.parts.len(), 2);
    assert_eq!(cred.parts.get("access_token").map(String::as_str), Some("tok"));
    assert_eq!(cred.parts.get("token_type").map(String::as_str), Some("Bearer"));
    assert_eq!(cred.metadata.len(), 1);
    assert_eq!(cred.metadata.get("oauth.token_type").map(String::as_str), Some("Bearer"));
}

#[test]
fn credential_is_stamped_with_the_present_time() {
    let before = chrono::Utc::now().timestamp();
    let cred = conclude("p", ExchangeReply::Token(response("tok", 1))).unwrap();
    let after = chrono::Utc::now().timestamp();
    let issued = chrono::DateTime::parse_from_rfc3339(&cred.issued_at).unwrap();
    assert!(before <= issued.timestamp() && issued.timestamp() <= after);
    assert!(cred.issued_at.ends_with('Z'));
    assert_eq!(cred.issued_at.len(), 20);
}
