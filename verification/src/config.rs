//! Operator-supplied configuration: its types, its rules and the expansion of the fleet template.
use vstd::prelude::*;

use crate::str_map::StrMap;
use crate::text::chars_of;
use crate::text::copy_list;
use crate::text::copy_option;
use crate::text::decimal;
use crate::text::is_blank;
use crate::text::replace_all;
use crate::text::same_text;
use crate::text::starts_with;
use crate::text::trim_end_of;

verus! {

/// One named token-exchange provider.
#[derive(Debug, PartialEq)]
pub struct ProviderConfig {
    /// STS token endpoint URL (RFC 8693 section 2).
    pub token_url: String,
    /// OAuth client ID presented to the STS.
    pub client_id: String,
    /// OAuth client secret; token-exchange clients may be public or authenticate by other means.
    pub client_secret: Option<String>,
    /// Scopes to request for the exchanged token.
    pub scopes: Vec<String>,
    /// `subject_token_type` of the exchange; the caller may override it per request.
    pub subject_token_type: String,
    /// `requested_token_type` of the exchanged token.
    pub requested_token_type: String,
    /// The logical target that the exchanged token is for.
    pub audience: Option<String>,
    /// The target URI that the exchanged token is for.
    pub resource: Option<String>,
    /// Timeout of one request to the STS endpoint, in milliseconds.
    pub timeout_ms: u64,
}

/// What a [`ProviderConfig`] holds.
pub struct Provider {
    pub token_url: Seq<char>,
    pub client_id: Seq<char>,
    pub client_secret: Option<Seq<char>>,
    pub scopes: Seq<Seq<char>>,
    pub subject_token_type: Seq<char>,
    pub requested_token_type: Seq<char>,
    pub audience: Option<Seq<char>>,
    pub resource: Option<Seq<char>>,
    pub timeout_ms: u64,
}

impl View for ProviderConfig {
    type V = Provider;

    open spec fn view(&self) -> Provider {
        Provider {
            token_url: self.token_url@,
            client_id: self.client_id@,
            client_secret: self.client_secret.deep_view(),
            scopes: self.scopes.deep_view(),
            subject_token_type: self.subject_token_type@,
            requested_token_type: self.requested_token_type@,
            audience: self.audience.deep_view(),
            resource: self.resource.deep_view(),
            timeout_ms: self.timeout_ms,
        }
    }
}

impl Clone for ProviderConfig {
    fn clone(&self) -> (copy: Self)
        ensures
            copy@ == self@,
    {
        ProviderConfig {
            token_url: self.token_url.clone(),
            client_id: self.client_id.clone(),
            client_secret: copy_option(&self.client_secret),
            scopes: copy_list(&self.scopes),
            subject_token_type: self.subject_token_type.clone(),
            requested_token_type: self.requested_token_type.clone(),
            audience: copy_option(&self.audience),
            resource: copy_option(&self.resource),
            timeout_ms: self.timeout_ms,
        }
    }
}

/// The token type that a provider asks for and presents unless it says otherwise.
pub fn default_token_type_urn() -> (urn: String)
    ensures
        urn@ == "urn:ietf:params:oauth:token-type:access_token"@,
{
    "urn:ietf:params:oauth:token-type:access_token".to_owned()
}

/// The timeout of a provider that names none, in milliseconds.
pub fn default_timeout_ms() -> (timeout: u64)
    ensures
        timeout == 5_000,
{
    5_000
}

/// Whether `name` matches `pattern`: a pattern that ends in `*` matches every name that starts
/// with what stands before that `*`, any other pattern matches itself alone.
pub open spec fn glob_matches(pattern: Seq<char>, name: Seq<char>) -> bool {
    if pattern.len() > 0 && pattern.last() == '*' {
        pattern.drop_last().is_prefix_of(name)
    } else {
        pattern == name
    }
}

/// Exact-name or trailing-`*` prefix match.
pub fn glob_match(pattern: &str, name: &str) -> (matched: bool)
    ensures
        matched == glob_matches(pattern@, name@),
{
    let chars = chars_of(pattern);
    let n: usize = chars.len();
    if n > 0 && chars[n - 1] == '*' {
        assert(pattern@.subrange(0, n - 1) =~= pattern@.drop_last());
        starts_with(name, pattern.substring_char(0, n - 1))
    } else {
        same_text(pattern, name)
    }
}

/// Template that derives a [`ProviderConfig`] per target: `{target}` in the `*_template` fields
/// is replaced by the requested target name. Only targets that match `allowed_targets` expand.
#[derive(Debug, PartialEq)]
pub struct TokenExchangeTargetTemplate {
    /// Targets the template may serve: exact names or trailing-`*` prefix globs.
    pub allowed_targets: Vec<String>,
    /// STS token endpoint URL (RFC 8693 section 2): one STS for the fleet.
    pub token_url: String,
    /// OAuth client ID presented to the STS.
    pub client_id: String,
    /// OAuth client secret.
    pub client_secret: Option<String>,
    /// Scopes to request for the exchanged token.
    pub scopes: Vec<String>,
    /// `subject_token_type` of the exchange.
    pub subject_token_type: String,
    /// `requested_token_type` of the exchanged token.
    pub requested_token_type: String,
    /// `audience` template.
    pub audience_template: Option<String>,
    /// `resource` template.
    pub resource_template: Option<String>,
    /// Timeout of one request to the STS endpoint, in milliseconds.
    pub timeout_ms: u64,
}

/// What a [`TokenExchangeTargetTemplate`] holds.
pub struct Template {
    pub allowed_targets: Seq<Seq<char>>,
    pub token_url: Seq<char>,
    pub client_id: Seq<char>,
    pub client_secret: Option<Seq<char>>,
    pub scopes: Seq<Seq<char>>,
    pub subject_token_type: Seq<char>,
    pub requested_token_type: Seq<char>,
    pub audience_template: Option<Seq<char>>,
    pub resource_template: Option<Seq<char>>,
    pub timeout_ms: u64,
}

impl View for TokenExchangeTargetTemplate {
    type V = Template;

    open spec fn view(&self) -> Template {
        Template {
            allowed_targets: self.allowed_targets.deep_view(),
            token_url: self.token_url@,
            client_id: self.client_id@,
            client_secret: self.client_secret.deep_view(),
            scopes: self.scopes.deep_view(),
            subject_token_type: self.subject_token_type@,
            requested_token_type: self.requested_token_type@,
            audience_template: self.audience_template.deep_view(),
            resource_template: self.resource_template.deep_view(),
            timeout_ms: self.timeout_ms,
        }
    }
}

/// An optional template with `{target}` replaced by `target`.
pub open spec fn filled(template: Option<Seq<char>>, target: Seq<char>) -> Option<Seq<char>> {
    match template {
        Some(t) => Some(crate::text::replaced(t, "{target}"@, target)),
        None => None,
    }
}

fn fill(template: &Option<String>, target: &str) -> (text: Option<String>)
    ensures
        text.deep_view() == filled(template.deep_view(), target@),
{
    match template {
        Some(t) => {
            proof {
                reveal_strlit("{target}");
            }
            Some(replace_all(t.as_str(), "{target}", target))
        },
        None => None,
    }
}

impl Clone for TokenExchangeTargetTemplate {
    fn clone(&self) -> (copy: Self)
        ensures
            copy@ == self@,
    {
        TokenExchangeTargetTemplate {
            allowed_targets: copy_list(&self.allowed_targets),
            token_url: self.token_url.clone(),
            client_id: self.client_id.clone(),
            client_secret: copy_option(&self.client_secret),
            scopes: copy_list(&self.scopes),
            subject_token_type: self.subject_token_type.clone(),
            requested_token_type: self.requested_token_type.clone(),
            audience_template: copy_option(&self.audience_template),
            resource_template: copy_option(&self.resource_template),
            timeout_ms: self.timeout_ms,
        }
    }
}

impl Template {
    /// Whether `target` matches one of the allowed targets.
    pub open spec fn allows(self, target: Seq<char>) -> bool {
        exists|i: int|
            0 <= i < self.allowed_targets.len() && glob_matches(
                #[trigger] self.allowed_targets[i],
                target,
            )
    }

    /// The provider that the template stands for at `target`.
    pub open spec fn expansion(self, target: Seq<char>) -> Provider {
        Provider {
            token_url: self.token_url,
            client_id: self.client_id,
            client_secret: self.client_secret,
            scopes: self.scopes,
            subject_token_type: self.subject_token_type,
            requested_token_type: self.requested_token_type,
            audience: filled(self.audience_template, target),
            resource: filled(self.resource_template, target),
            timeout_ms: self.timeout_ms,
        }
    }
}

impl TokenExchangeTargetTemplate {
    /// Whether `target` is allowlisted.
    fn is_allowed(&self, target: &str) -> (allowed: bool)
        ensures
            allowed == self@.allows(target@),
    {
        let mut k: usize = 0;
        while k < self.allowed_targets.len()
            invariant
                k <= self.allowed_targets@.len(),
                forall|i: int|
                    0 <= i < k ==> !glob_matches(
                        #[trigger] self@.allowed_targets[i],
                        target@,
                    ),
            decreases self.allowed_targets@.len() - k,
        {
            assert(self@.allowed_targets[k as int] == self.allowed_targets@[k as int]@);
            if glob_match(self.allowed_targets[k].as_str(), target) {
                return true;
            }
            k += 1;
        }
        false
    }

    /// The provider that the template stands for at `target`, allowlisted or not.
    fn expanded(&self, target: &str) -> (provider: ProviderConfig)
        ensures
            provider@ == self@.expansion(target@),
            provider.token_url@ == self.token_url@,
            provider.client_id@ == self.client_id@,
            provider.client_secret.deep_view() == self.client_secret.deep_view(),
            provider.scopes.deep_view() == self.scopes.deep_view(),
            provider.subject_token_type@ == self.subject_token_type@,
            provider.requested_token_type@ == self.requested_token_type@,
            provider.timeout_ms == self.timeout_ms,
    {
        ProviderConfig {
            token_url: self.token_url.clone(),
            client_id: self.client_id.clone(),
            client_secret: copy_option(&self.client_secret),
            scopes: copy_list(&self.scopes),
            subject_token_type: self.subject_token_type.clone(),
            requested_token_type: self.requested_token_type.clone(),
            audience: fill(&self.audience_template, target),
            resource: fill(&self.resource_template, target),
            timeout_ms: self.timeout_ms,
        }
    }

    /// Expand the template for `target`. Returns `None` when the target is not allowlisted.
    pub fn expand(&self, target: &str) -> (provider: Option<ProviderConfig>)
        ensures
            provider is Some <==> self@.allows(target@),
            provider matches Some(p) ==> p@ == self@.expansion(target@),
            provider matches Some(p) ==> {
                &&& p.token_url@ == self.token_url@
                &&& p.client_id@ == self.client_id@
                &&& p.client_secret.deep_view() == self.client_secret.deep_view()
                &&& p.scopes.deep_view() == self.scopes.deep_view()
                &&& p.subject_token_type@ == self.subject_token_type@
                &&& p.requested_token_type@ == self.requested_token_type@
                &&& p.timeout_ms == self.timeout_ms
            },
    {
        if !self.is_allowed(target) {
            return None;
        }
        Some(self.expanded(target))
    }
}

/// Why a configuration is refused.
#[derive(Debug)]
pub enum ConfigError {
    /// The configuration is no JSON document of the expected shape; holds what is wrong with it.
    InvalidJson(String),
    /// There is neither a provider nor a target template.
    EmptyProviders,
    /// The target template allows no target.
    EmptyAllowedTargets,
    /// The token URL of a provider is blank.
    EmptyTokenUrl { name: String },
    /// The token URL of a provider has neither of the two schemes.
    InvalidTokenUrlScheme { name: String },
    /// The client ID of a provider is blank.
    EmptyClientId { name: String },
    /// The timeout of a provider is out of range.
    InvalidTimeoutMs { name: String, timeout: u64 },
}

/// What a [`ConfigError`] says.
pub enum ConfigFault {
    InvalidJson(Seq<char>),
    EmptyProviders,
    EmptyAllowedTargets,
    EmptyTokenUrl { name: Seq<char> },
    InvalidTokenUrlScheme { name: Seq<char> },
    EmptyClientId { name: Seq<char> },
    InvalidTimeoutMs { name: Seq<char>, timeout: u64 },
}

impl View for ConfigError {
    type V = ConfigFault;

    open spec fn view(&self) -> ConfigFault {
        match self {
            ConfigError::InvalidJson(detail) => ConfigFault::InvalidJson(detail@),
            ConfigError::EmptyProviders => ConfigFault::EmptyProviders,
            ConfigError::EmptyAllowedTargets => ConfigFault::EmptyAllowedTargets,
            ConfigError::EmptyTokenUrl { name } => ConfigFault::EmptyTokenUrl { name: name@ },
            ConfigError::InvalidTokenUrlScheme { name } => ConfigFault::InvalidTokenUrlScheme {
                name: name@,
            },
            ConfigError::EmptyClientId { name } => ConfigFault::EmptyClientId { name: name@ },
            ConfigError::InvalidTimeoutMs { name, timeout } => ConfigFault::InvalidTimeoutMs {
                name: name@,
                timeout: *timeout,
            },
        }
    }
}

/// The message of a fault, as operators read it.
pub open spec fn fault_message(fault: ConfigFault) -> Seq<char> {
    let provider = "credential.oauth-token-exchange: provider `"@;
    match fault {
        ConfigFault::InvalidJson(detail) =>
            "invalid credential.oauth-token-exchange config JSON: "@ + detail,
        ConfigFault::EmptyProviders =>
            "credential.oauth-token-exchange: providers must be non-empty (or set target_template)"@,
        ConfigFault::EmptyAllowedTargets =>
            "credential.oauth-token-exchange: target_template.allowed_targets must be non-empty"@,
        ConfigFault::EmptyTokenUrl { name } => provider + name + "` token_url is empty"@,
        ConfigFault::InvalidTokenUrlScheme { name } => provider + name
            + "` token_url must start with http:// or https://"@,
        ConfigFault::EmptyClientId { name } => provider + name + "` client_id is empty"@,
        ConfigFault::InvalidTimeoutMs { name, timeout } => provider + name + "` timeout_ms="@
            + crate::text::decimal_text(timeout as nat) + "; must be 100..=60_000"@,
    }
}

/// "provider `name`" with what is wrong with it.
fn about_provider(name: &str, wrong: &str) -> (text: String)
    ensures
        text@ == "credential.oauth-token-exchange: provider `"@ + name@ + wrong@,
{
    let mut text = "credential.oauth-token-exchange: provider `".to_owned();
    text.append(name);
    text.append(wrong);
    text
}

impl ConfigError {
    /// The message of the error.
    pub fn message(&self) -> (text: String)
        ensures
            text@ == fault_message(self@),
    {
        match self {
            ConfigError::InvalidJson(detail) => {
                let mut text = "invalid credential.oauth-token-exchange config JSON: ".to_owned();
                text.append(detail.as_str());
                text
            },
            ConfigError::EmptyProviders =>
                "credential.oauth-token-exchange: providers must be non-empty (or set target_template)".to_owned(),
            ConfigError::EmptyAllowedTargets =>
                "credential.oauth-token-exchange: target_template.allowed_targets must be non-empty".to_owned(),
            ConfigError::EmptyTokenUrl { name } => about_provider(
                name.as_str(),
                "` token_url is empty",
            ),
            ConfigError::InvalidTokenUrlScheme { name } => about_provider(
                name.as_str(),
                "` token_url must start with http:// or https://",
            ),
            ConfigError::EmptyClientId { name } => about_provider(
                name.as_str(),
                "` client_id is empty",
            ),
            ConfigError::InvalidTimeoutMs { name, timeout } => {
                let mut text = about_provider(name.as_str(), "` timeout_ms=");
                text.append(decimal(*timeout).as_str());
                text.append("; must be 100..=60_000");
                text
            },
        }
    }
}

/// The fault that a result reports, if it reports one.
pub open spec fn reported<T>(result: Result<T, ConfigError>) -> Option<ConfigFault> {
    match result {
        Ok(_) => None,
        Err(e) => Some(e@),
    }
}

/// Whether `url` starts with `http://` or `https://`.
pub open spec fn has_http_scheme(url: Seq<char>) -> bool {
    "http://"@.is_prefix_of(url) || "https://"@.is_prefix_of(url)
}

/// What is wrong with a provider, if anything is: the first rule it breaks, under `name`.
pub open spec fn provider_fault(name: Seq<char>, provider: Provider) -> Option<ConfigFault> {
    if crate::text::is_blank_text(provider.token_url) {
        Some(ConfigFault::EmptyTokenUrl { name })
    } else if !has_http_scheme(provider.token_url) {
        Some(ConfigFault::InvalidTokenUrlScheme { name })
    } else if crate::text::is_blank_text(provider.client_id) {
        Some(ConfigFault::EmptyClientId { name })
    } else if !(100 <= provider.timeout_ms <= 60_000) {
        Some(ConfigFault::InvalidTimeoutMs { name, timeout: provider.timeout_ms })
    } else {
        None
    }
}

/// Holds a provider to the rules: its URL and client ID are not blank, the URL has an HTTP
/// scheme, and the timeout is within range.
pub fn validate_provider(name: &str, provider: &ProviderConfig) -> (result: Result<(), ConfigError>)
    ensures
        reported(result) == provider_fault(name@, provider@),
        result is Ok ==> {
            &&& "http://"@.is_prefix_of(provider.token_url@) || "https://"@.is_prefix_of(
                provider.token_url@,
            )
            &&& 100 <= provider.timeout_ms <= 60_000
        },
{
    if is_blank(provider.token_url.as_str()) {
        return Err(ConfigError::EmptyTokenUrl { name: name.to_owned() });
    }
    if !starts_with(provider.token_url.as_str(), "http://") && !starts_with(
        provider.token_url.as_str(),
        "https://",
    ) {
        return Err(ConfigError::InvalidTokenUrlScheme { name: name.to_owned() });
    }
    if is_blank(provider.client_id.as_str()) {
        return Err(ConfigError::EmptyClientId { name: name.to_owned() });
    }
    if provider.timeout_ms < 100 || provider.timeout_ms > 60_000 {
        return Err(
            ConfigError::InvalidTimeoutMs { name: name.to_owned(), timeout: provider.timeout_ms },
        );
    }
    Ok(())
}

/// The configuration: named providers, a fleet template, or both.
#[derive(Debug, PartialEq)]
pub struct TokenExchangeConfig {
    /// Named token-exchange providers.
    pub providers: StrMap<ProviderConfig>,
    /// Derives a provider for any allowlisted target that has no entry in `providers`.
    pub target_template: Option<TokenExchangeTargetTemplate>,
}

/// What a [`TokenExchangeConfig`] holds, the providers in the order of their names.
pub struct Config {
    pub providers: Seq<(Seq<char>, Provider)>,
    pub target_template: Option<Template>,
}

impl View for TokenExchangeConfig {
    type V = Config;

    open spec fn view(&self) -> Config {
        Config {
            providers: self.providers.listing().map_values(
                |e: (Seq<char>, ProviderConfig)| (e.0, e.1@),
            ),
            target_template: match self.target_template {
                Some(t) => Some(t@),
                None => None,
            },
        }
    }
}

/// What is wrong with the first faulty provider of a listing, if one is faulty.
pub open spec fn listing_fault(providers: Seq<(Seq<char>, Provider)>) -> Option<ConfigFault>
    decreases providers.len(),
{
    if providers.len() == 0 {
        None
    } else if provider_fault(providers[0].0, providers[0].1) is Some {
        provider_fault(providers[0].0, providers[0].1)
    } else {
        listing_fault(providers.skip(1))
    }
}

impl Template {
    /// The target at which the template is held to the rules for providers: the first allowed
    /// target without the stars at its end.
    pub open spec fn probe(self) -> Seq<char> {
        crate::text::trimmed_end(self.allowed_targets[0], '*')
    }

    /// What is wrong with the template, if anything is.
    pub open spec fn fault(self) -> Option<ConfigFault> {
        if self.allowed_targets.len() == 0 {
            Some(ConfigFault::EmptyAllowedTargets)
        } else {
            provider_fault("target_template"@, self.expansion(self.probe()))
        }
    }
}

impl Config {
    /// What is wrong with the configuration, if anything is.
    pub open spec fn fault(self) -> Option<ConfigFault> {
        if self.providers.len() == 0 && self.target_template is None {
            Some(ConfigFault::EmptyProviders)
        } else if listing_fault(self.providers) is Some {
            listing_fault(self.providers)
        } else {
            match self.target_template {
                Some(t) => t.fault(),
                None => None,
            }
        }
    }
}

/// Why a configuration is not taken into use, if it is not.
pub open spec fn refusal_of(decoded: Result<TokenExchangeConfig, String>) -> Option<ConfigFault> {
    match decoded {
        Ok(config) => config@.fault(),
        Err(detail) => Some(ConfigFault::InvalidJson(detail@)),
    }
}

impl TokenExchangeConfig {
    /// Holds the providers to the rules, in the order of their names.
    fn validate_providers(&self) -> (result: Result<(), ConfigError>)
        ensures
            reported(result) == listing_fault(self@.providers),
            crate::str_map::ascending(self@.providers),
    {
        let n: usize = self.providers.len();
        let mut k: usize = 0;
        proof {
            assert(self@.providers.skip(0) =~= self@.providers);
            let listing = self.providers.listing();
            assert forall|i: int, j: int|
                0 <= i < j < self@.providers.len() implies crate::str_map::text_before(
                #[trigger] self@.providers[i].0,
                #[trigger] self@.providers[j].0,
            ) by {
                assert(crate::str_map::text_before(listing[i].0, listing[j].0));
            }
        }
        while k < n
            invariant
                k <= n == self.providers.listing().len(),
                listing_fault(self@.providers) == listing_fault(self@.providers.skip(k as int)),
                crate::str_map::ascending(self@.providers),
            decreases n - k,
        {
            let (name, provider) = self.providers.entry(k);
            validate_provider(name.as_str(), provider)?;
            assert(self@.providers.skip(k as int).skip(1) =~= self@.providers.skip(k + 1));
            k += 1;
        }
        Ok(())
    }

    /// Holds the configuration to its rules. Of several faulty providers the one whose name comes
    /// first is reported. The template is held to them through a representative expansion: what
    /// it expands to is exactly a provider, so that the rules for providers apply verbatim.
    pub fn validate(&self) -> (result: Result<(), ConfigError>)
        ensures
            reported(result) == self@.fault(),
            crate::str_map::ascending(self@.providers),
    {
        if self.providers.is_empty() && self.target_template.is_none() {
            return Err(ConfigError::EmptyProviders);
        }
        self.validate_providers()?;
        if let Some(template) = &self.target_template {
            if template.allowed_targets.len() == 0 {
                return Err(ConfigError::EmptyAllowedTargets);
            }
            let probe = trim_end_of(template.allowed_targets[0].as_str(), '*');
            validate_provider("target_template", &template.expanded(probe))?;
        }
        Ok(())
    }

    /// Takes a decoded configuration into use, or says why it is refused: what did not decode
    /// is refused with what the decoder said of it, and what breaks a rule with that rule.
    pub fn parse(decoded: Result<Self, String>) -> (result: Result<Self, ConfigError>)
        ensures
            reported(result) == refusal_of(decoded),
            decoded matches Err(detail) ==> reported(result) == Some(
                ConfigFault::InvalidJson(detail@),
            ),
            decoded matches Ok(config) ==> reported(result) == config@.fault(),
            decoded matches Ok(config) ==> (result matches Ok(taken) ==> taken == config),
    {
        match decoded {
            Ok(config) => {
                config.validate()?;
                Ok(config)
            },
            Err(detail) => Err(ConfigError::InvalidJson(detail)),
        }
    }

    /// The provider that serves `target`: the entry of that name, or else what the template
    /// expands to where it allows the target.
    pub fn resolve(&self, target: &str) -> (provider: Option<ProviderConfig>)
        ensures
            provider is Some <==> self@.resolution(target@) is Some,
            provider matches Some(p) ==> Some(p@) == self@.resolution(target@),
    {
        proof {
            viewed_listing(self.providers.listing());
        }
        match self.providers.get(target) {
            Some(provider) => Some(provider.clone()),
            None => match &self.target_template {
                Some(template) => template.expand(target),
                None => None,
            },
        }
    }
}

impl Clone for TokenExchangeConfig {
    fn clone(&self) -> (copy: Self)
        ensures
            copy@ == self@,
    {
        let copy = TokenExchangeConfig {
            providers: self.providers.clone(),
            target_template: match &self.target_template {
                Some(template) => Some(template.clone()),
                None => None,
            },
        };
        assert(copy@.providers =~= self@.providers);
        copy
    }
}

/// Viewing the values of a listing views the values of its map.
proof fn viewed_listing(listing: Seq<(Seq<char>, ProviderConfig)>)
    ensures
        ({
            let viewed = crate::str_map::as_map(listing.map_values(|e: (Seq<char>, ProviderConfig)| (e.0, e.1@)));
            &&& viewed.dom() == crate::str_map::as_map(listing).dom()
            &&& forall|k: Seq<char>| #[trigger]
                viewed.contains_key(k) ==> viewed[k] == crate::str_map::as_map(listing)[k]@
        }),
    decreases listing.len(),
{
    let view = |e: (Seq<char>, ProviderConfig)| (e.0, e.1@);
    if listing.len() > 0 {
        viewed_listing(listing.drop_last());
        assert(listing.map_values(view).drop_last() =~= listing.drop_last().map_values(view));
    }
}

impl Config {
    /// The provider that serves `target`, if one does.
    pub open spec fn resolution(self, target: Seq<char>) -> Option<Provider> {
        let named = crate::str_map::as_map(self.providers);
        if named.contains_key(target) {
            Some(named[target])
        } else {
            match self.target_template {
                Some(t) => if t.allows(target) {
                    Some(t.expansion(target))
                } else {
                    None
                },
                None => None,
            }
        }
    }
}

/// An exact `providers` entry always wins over the template.
pub proof fn exact_entry_wins(config: Config, target: Seq<char>)
    requires
        crate::str_map::as_map(config.providers).contains_key(target),
    ensures
        config.resolution(target) == Some(crate::str_map::as_map(config.providers)[target]),
        forall|template: Option<Template>|
            (#[trigger] (Config { target_template: template, ..config }).resolution(target))
                == config.resolution(target),
{
}

/// A target without an entry of its own fails closed unless the template allows it.
pub proof fn unlisted_target_fails_closed(config: Config, target: Seq<char>)
    requires
        !crate::str_map::as_map(config.providers).contains_key(target),
        config.target_template matches Some(t) ==> !t.allows(target),
    ensures
        config.resolution(target) is None,
{
}

/// Every value of a listing's map stands in the listing.
proof fn map_value_is_listed(listing: Seq<(Seq<char>, Provider)>, key: Seq<char>) -> (at: int)
    requires
        crate::str_map::as_map(listing).contains_key(key),
    ensures
        0 <= at < listing.len(),
        listing[at] == (key, crate::str_map::as_map(listing)[key]),
    decreases listing.len(),
{
    if listing.last().0 == key {
        listing.len() - 1
    } else {
        map_value_is_listed(listing.drop_last(), key)
    }
}

/// A listing has no faulty provider exactly where none of its providers is faulty; otherwise
/// the fault that is reported is that of the first faulty one.
pub proof fn first_faulty_provider_is_reported(providers: Seq<(Seq<char>, Provider)>, at: int)
    requires
        0 <= at < providers.len(),
    ensures
        listing_fault(providers) is None ==> provider_fault(
            providers[at].0,
            providers[at].1,
        ) is None,
        provider_fault(providers[at].0, providers[at].1) is Some && (forall|i: int|
            0 <= i < at ==> provider_fault(
                (#[trigger] providers[i]).0,
                providers[i].1,
            ) is None) ==> listing_fault(providers) == provider_fault(
            providers[at].0,
            providers[at].1,
        ),
    decreases at,
{
    if at > 0 {
        let rest = providers.skip(1);
        assert forall|i: int| 0 <= i < at implies (#[trigger] providers[i]) == if i == 0 {
            providers[0]
        } else {
            rest[i - 1]
        } by {}
        assert(rest[at - 1] == providers[at]);
        first_faulty_provider_is_reported(rest, at - 1);
        if forall|i: int|
            0 <= i < at ==> provider_fault((#[trigger] providers[i]).0, providers[i].1) is None {
            assert(provider_fault(providers[0].0, providers[0].1) is None);
            assert forall|i: int| 0 <= i < at - 1 implies provider_fault(
                (#[trigger] rest[i]).0,
                rest[i].1,
            ) is None by {
                assert(rest[i] == providers[i + 1]);
            }
        }
    }
}

/// Where providers are listed in the order of their names, the fault that is reported is that of
/// the faulty provider whose name comes first.
pub proof fn reported_provider_comes_first(providers: Seq<(Seq<char>, Provider)>)
    requires
        crate::str_map::ascending(providers),
        listing_fault(providers) is Some,
    ensures
        exists|at: int|
            {
                &&& 0 <= at < providers.len()
                &&& listing_fault(providers) == provider_fault(
                    (#[trigger] providers[at]).0,
                    providers[at].1,
                )
                &&& forall|i: int|
                    0 <= i < providers.len() && provider_fault(
                        (#[trigger] providers[i]).0,
                        providers[i].1,
                    ) is Some ==> i == at || crate::str_map::text_before(
                        providers[at].0,
                        providers[i].0,
                    )
            },
    decreases providers.len(),
{
    if provider_fault(providers[0].0, providers[0].1) is Some {
        assert(listing_fault(providers) == provider_fault(providers[0].0, providers[0].1));
    } else {
        let rest = providers.skip(1);
        assert forall|i: int, j: int| 0 <= i < j < rest.len() implies crate::str_map::text_before(
            #[trigger] rest[i].0,
            #[trigger] rest[j].0,
        ) by {
            assert(rest[i] == providers[i + 1] && rest[j] == providers[j + 1]);
        }
        reported_provider_comes_first(rest);
        let at = choose|at: int|
            {
                &&& 0 <= at < rest.len()
                &&& listing_fault(rest) == provider_fault((#[trigger] rest[at]).0, rest[at].1)
                &&& forall|i: int|
                    0 <= i < rest.len() && provider_fault(
                        (#[trigger] rest[i]).0,
                        rest[i].1,
                    ) is Some ==> i == at || crate::str_map::text_before(rest[at].0, rest[i].0)
            };
        assert(providers[at + 1] == rest[at]);
        assert forall|i: int|
            0 <= i < providers.len() && provider_fault(
                (#[trigger] providers[i]).0,
                providers[i].1,
            ) is Some implies i == at + 1 || crate::str_map::text_before(
            providers[at + 1].0,
            providers[i].0,
        ) by {
            assert(providers[i] == rest[i - 1]);
        }
    }
}

/// Whether a provider keeps every rule for providers.
pub open spec fn is_sound(provider: Provider) -> bool {
    &&& !crate::text::is_blank_text(provider.token_url)
    &&& has_http_scheme(provider.token_url)
    &&& !crate::text::is_blank_text(provider.client_id)
    &&& 100 <= provider.timeout_ms <= 60_000
}

/// A provider is free of fault exactly where it keeps every rule.
pub proof fn sound_providers_are_free_of_fault(name: Seq<char>, provider: Provider)
    ensures
        provider_fault(name, provider) is None <==> is_sound(provider),
{
}

/// A configuration without fault serves something, and its template, if it has one, names the
/// targets it may serve.
pub proof fn faultless_config_is_bounded(config: Config)
    requires
        config.fault() is None,
    ensures
        config.providers.len() > 0 || config.target_template is Some,
        config.target_template matches Some(t) ==> t.allowed_targets.len() > 0,
{
}

/// A configuration without fault resolves every target it serves, by name or by template, to a
/// provider that keeps the rules: probing the template at one target is enough.
pub proof fn faultless_config_resolves_to_sound_providers(config: Config, target: Seq<char>)
    requires
        config.fault() is None,
        config.resolution(target) is Some,
    ensures
        is_sound(config.resolution(target)->0),
{
    if crate::str_map::as_map(config.providers).contains_key(target) {
        let at = map_value_is_listed(config.providers, target);
        first_faulty_provider_is_reported(config.providers, at);
    }
}

/// The rules for providers judge a template alike at every target, so that it does not matter
/// at which one it is probed.
pub proof fn template_is_judged_alike_at_every_target(
    template: Template,
    name: Seq<char>,
    target: Seq<char>,
    other: Seq<char>,
)
    ensures
        provider_fault(name, template.expansion(target)) == provider_fault(
            name,
            template.expansion(other),
        ),
        template.allowed_targets.len() > 0 ==> template.fault() == provider_fault(
            "target_template"@,
            template.expansion(target),
        ),
{
}

/// A pattern with a star at its end matches exactly the names that extend what stands before
/// the star.
pub proof fn star_pattern_matches_extensions(prefix: Seq<char>, name: Seq<char>)
    ensures
        glob_matches(prefix.push('*'), name) <==> exists|rest: Seq<char>|
            name == #[trigger] (prefix + rest),
{
    assert(prefix.push('*').drop_last() =~= prefix);
    if prefix.is_prefix_of(name) {
        assert(name =~= prefix + name.skip(prefix.len() as int));
    }
    if exists|rest: Seq<char>| name == #[trigger] (prefix + rest) {
        let rest = choose|rest: Seq<char>| name == #[trigger] (prefix + rest);
        assert(name.subrange(0, prefix.len() as int) =~= prefix);
    }
}

/// A template in which `{target}` occurs once is filled by putting the target in its place.
pub proof fn template_is_filled_at_its_placeholder(
    before: Seq<char>,
    after: Seq<char>,
    target: Seq<char>,
)
    requires
        forall|i: int|
            0 <= i < before.len() ==> !"{target}"@.is_prefix_of(
                #[trigger] (before + "{target}"@ + after).skip(i),
            ),
        forall|i: int| 0 <= i < after.len() ==> !"{target}"@.is_prefix_of(#[trigger] after.skip(i)),
    ensures
        filled(Some(before + "{target}"@ + after), target) == Some(before + target + after),
{
    reveal_strlit("{target}");
    let hole = "{target}"@;
    let template = before + hole + after;
    let at = before.len() as int;
    assert(template.skip(at).subrange(0, hole.len() as int) =~= hole);
    crate::text::first_occurrence_is_replaced(template, hole, target, at);
    assert(template.take(at) =~= before);
    assert(template.skip(at + hole.len()) =~= after);
    crate::text::text_without_pattern_is_kept(after, hole, target);
}

} // verus!
