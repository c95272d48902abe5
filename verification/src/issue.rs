//! From a caller and a target to the request that goes to the token endpoint.
use vstd::prelude::*;

use crate::config::Config;
use crate::config::Provider;
use crate::config::ProviderConfig;
use crate::config::TokenExchangeConfig;
use crate::str_map::StrMap;
use crate::text::join;

verus! {

/// RFC 8693 section 2.1 grant type.
pub const GRANT_TYPE: &'static str = "urn:ietf:params:oauth:grant-type:token-exchange";

/// Identity attribute that carries the caller's raw subject token.
pub const SUBJECT_TOKEN_ATTR: &'static str = "subject_token";

/// Identity attribute that overrides the type of the subject token.
pub const SUBJECT_TOKEN_TYPE_ATTR: &'static str = "subject_token_type";

/// Why no credential is issued.
#[derive(Debug)]
pub enum CredentialError {
    /// The caller may not do this.
    NotAuthorized { reason: String },
    /// The configuration or the request is at fault; trying again does not help.
    Misconfigured { reason: String },
    /// The token endpoint asks to be called less often.
    Throttled { reason: String },
    /// The token endpoint is at fault; trying again may help.
    Backend { reason: String },
}

/// What a [`CredentialError`] says.
pub enum Refusal {
    NotAuthorized { reason: Seq<char> },
    Misconfigured { reason: Seq<char> },
    Throttled { reason: Seq<char> },
    Backend { reason: Seq<char> },
}

impl View for CredentialError {
    type V = Refusal;

    open spec fn view(&self) -> Refusal {
        match self {
            CredentialError::NotAuthorized { reason } => Refusal::NotAuthorized { reason: reason@ },
            CredentialError::Misconfigured { reason } => Refusal::Misconfigured { reason: reason@ },
            CredentialError::Throttled { reason } => Refusal::Throttled { reason: reason@ },
            CredentialError::Backend { reason } => Refusal::Backend { reason: reason@ },
        }
    }
}

/// What the issuer reads of the caller's resolved identity.
#[derive(Debug, PartialEq)]
pub struct CallerIdentity {
    /// The trust level, as the host names it.
    pub trust_level: String,
    /// Whether the host ranks that level as verified or higher.
    pub verified: bool,
    /// The attributes of the identity.
    pub attributes: StrMap<String>,
}

/// What a [`CallerIdentity`] holds.
pub struct Caller {
    pub trust_level: Seq<char>,
    pub verified: bool,
    pub attributes: Map<Seq<char>, Seq<char>>,
}

impl View for CallerIdentity {
    type V = Caller;

    open spec fn view(&self) -> Caller {
        Caller {
            trust_level: self.trust_level@,
            verified: self.verified,
            attributes: self.attributes@.map_values(|v: String| v@),
        }
    }
}

/// Per-call choice of the token's destination. The token endpoint is not part of it: that is
/// the operator's trust anchor.
#[derive(Debug, PartialEq)]
pub struct CallOverrides {
    pub audience: Option<String>,
    pub resource: Option<String>,
}

/// What a [`CallOverrides`] holds.
pub struct Overrides {
    pub audience: Option<Seq<char>>,
    pub resource: Option<Seq<char>>,
}

impl View for CallOverrides {
    type V = Overrides;

    open spec fn view(&self) -> Overrides {
        Overrides { audience: self.audience.deep_view(), resource: self.resource.deep_view() }
    }
}

impl Default for CallOverrides {
    fn default() -> (none: Self)
        ensures
            none@ == (Overrides { audience: None, resource: None }),
    {
        CallOverrides { audience: None, resource: None }
    }
}

/// The per-call issuer config as it reaches the issuer.
#[derive(Debug)]
pub enum CallConfig {
    /// The host gave none.
    Null,
    /// It decoded.
    Decoded(CallOverrides),
    /// It did not decode; holds what the decoder said of it.
    Undecodable(String),
}

/// The overrides that a per-call config asks for, or the refusal of one that does not decode.
pub open spec fn asked_overrides(config: CallConfig) -> Result<Overrides, Refusal> {
    match config {
        CallConfig::Null => Ok(Overrides { audience: None, resource: None }),
        CallConfig::Decoded(overrides) => Ok(overrides@),
        CallConfig::Undecodable(detail) => Err(
            Refusal::Misconfigured { reason: "invalid per-call issuer config: "@ + detail@ },
        ),
    }
}

/// `asked` where it holds text, and `present` otherwise.
pub open spec fn text_or(asked: Option<Seq<char>>, present: Option<Seq<char>>) -> Option<Seq<char>> {
    match asked {
        Some(text) if text.len() > 0 => asked,
        _ => present,
    }
}

/// `provider` with the audience and the resource that `overrides` names.
pub open spec fn overridden(provider: Provider, overrides: Overrides) -> Provider {
    Provider {
        audience: text_or(overrides.audience, provider.audience),
        resource: text_or(overrides.resource, provider.resource),
        ..provider
    }
}

impl CallOverrides {
    /// The overrides that a per-call config asks for.
    pub fn parse(config: CallConfig) -> (result: Result<Self, CredentialError>)
        ensures
            match (result, asked_overrides(config)) {
                (Ok(overrides), Ok(asked)) => overrides@ == asked,
                (Err(e), Err(refusal)) => e@ == refusal,
                _ => false,
            },
    {
        match config {
            CallConfig::Null => Ok(CallOverrides::default()),
            CallConfig::Decoded(overrides) => Ok(overrides),
            CallConfig::Undecodable(detail) => {
                let mut reason = "invalid per-call issuer config: ".to_owned();
                reason.append(detail.as_str());
                Err(CredentialError::Misconfigured { reason })
            },
        }
    }

    /// The provider with these overrides; an empty one changes nothing.
    pub fn apply(self, provider: ProviderConfig) -> (result: ProviderConfig)
        ensures
            result@ == overridden(provider@, self@),
            self.audience is None || self.audience->0@.len() == 0 ==> result.audience.deep_view()
                == provider.audience.deep_view(),
            self.audience matches Some(asked) ==> asked@.len() > 0 ==> result.audience.deep_view()
                == Some(asked@),
            self.resource is None || self.resource->0@.len() == 0 ==> result.resource.deep_view()
                == provider.resource.deep_view(),
            self.resource matches Some(asked) ==> asked@.len() > 0 ==> result.resource.deep_view()
                == Some(asked@),
            result.token_url@ == provider.token_url@,
            result.client_id@ == provider.client_id@,
            result.client_secret.deep_view() == provider.client_secret.deep_view(),
            result.scopes.deep_view() == provider.scopes.deep_view(),
            result.subject_token_type@ == provider.subject_token_type@,
            result.requested_token_type@ == provider.requested_token_type@,
            result.timeout_ms == provider.timeout_ms,
    {
        let mut provider = provider;
        if let Some(audience) = self.audience {
            if !audience.as_str().is_empty() {
                provider.audience = Some(audience);
            }
        }
        if let Some(resource) = self.resource {
            if !resource.as_str().is_empty() {
                provider.resource = Some(resource);
            }
        }
        provider
    }
}

/// A request to a token endpoint: the fields of a form, posted within a time limit.
#[derive(Debug)]
pub struct ExchangeRequest {
    pub token_url: String,
    pub timeout_ms: u64,
    pub form: Vec<(String, String)>,
}

/// What an [`ExchangeRequest`] holds.
pub struct Request {
    pub token_url: Seq<char>,
    pub timeout_ms: u64,
    pub form: Seq<(Seq<char>, Seq<char>)>,
}

impl View for ExchangeRequest {
    type V = Request;

    open spec fn view(&self) -> Request {
        Request {
            token_url: self.token_url@,
            timeout_ms: self.timeout_ms,
            form: self.form.deep_view(),
        }
    }
}

/// The field `name` where there is a value for it.
pub open spec fn optional_field(name: Seq<char>, value: Option<Seq<char>>) -> Seq<
    (Seq<char>, Seq<char>),
> {
    match value {
        Some(text) => seq![(name, text)],
        None => Seq::empty(),
    }
}

/// The form of RFC 8693 section 2.1 for a provider and a subject token.
pub open spec fn form_fields(
    provider: Provider,
    subject_token: Seq<char>,
    subject_token_type: Seq<char>,
) -> Seq<(Seq<char>, Seq<char>)> {
    let scope = if provider.scopes.len() > 0 {
        Some(crate::text::joined(provider.scopes, " "@))
    } else {
        None
    };
    seq![
        ("grant_type"@, GRANT_TYPE@),
        ("subject_token"@, subject_token),
        ("subject_token_type"@, subject_token_type),
        ("requested_token_type"@, provider.requested_token_type),
        ("client_id"@, provider.client_id),
    ] + optional_field("client_secret"@, text_or(provider.client_secret, None))
        + optional_field("scope"@, scope) + optional_field("audience"@, provider.audience)
        + optional_field("resource"@, provider.resource)
}

fn add_field(form: &mut Vec<(String, String)>, name: &str, value: &str)
    ensures
        final(form).deep_view() == old(form).deep_view().push((name@, value@)),
{
    form.push((name.to_owned(), value.to_owned()));
    assert(form.deep_view() =~= old(form).deep_view().push((name@, value@)));
}

/// The request that exchanges a subject token at a provider.
pub fn exchange_request(
    provider: &ProviderConfig,
    subject_token: &str,
    subject_token_type: &str,
) -> (request: ExchangeRequest)
    ensures
        request@ == (Request {
            token_url: provider@.token_url,
            timeout_ms: provider@.timeout_ms,
            form: form_fields(provider@, subject_token@, subject_token_type@),
        }),
{
    let mut form: Vec<(String, String)> = Vec::new();
    add_field(&mut form, "grant_type", GRANT_TYPE);
    add_field(&mut form, "subject_token", subject_token);
    add_field(&mut form, "subject_token_type", subject_token_type);
    add_field(&mut form, "requested_token_type", provider.requested_token_type.as_str());
    add_field(&mut form, "client_id", provider.client_id.as_str());
    if let Some(secret) = &provider.client_secret {
        if !secret.as_str().is_empty() {
            add_field(&mut form, "client_secret", secret.as_str());
        }
    }
    if provider.scopes.len() > 0 {
        add_field(&mut form, "scope", join(&provider.scopes, " ").as_str());
    }
    if let Some(audience) = &provider.audience {
        add_field(&mut form, "audience", audience.as_str());
    }
    if let Some(resource) = &provider.resource {
        add_field(&mut form, "resource", resource.as_str());
    }
    assert(form.deep_view() =~= form_fields(provider@, subject_token@, subject_token_type@));
    ExchangeRequest { token_url: provider.token_url.clone(), timeout_ms: provider.timeout_ms, form }
}

/// The caller's subject token, if there is one to exchange.
pub open spec fn subject_token(caller: Caller) -> Option<Seq<char>> {
    if caller.attributes.contains_key(SUBJECT_TOKEN_ATTR@)
        && caller.attributes[SUBJECT_TOKEN_ATTR@].len() > 0 {
        Some(caller.attributes[SUBJECT_TOKEN_ATTR@])
    } else {
        None
    }
}

/// The type of the caller's subject token: what the identity says, or else the provider's.
pub open spec fn subject_token_type(caller: Caller, provider: Provider) -> Seq<char> {
    if caller.attributes.contains_key(SUBJECT_TOKEN_TYPE_ATTR@) {
        caller.attributes[SUBJECT_TOKEN_TYPE_ATTR@]
    } else {
        provider.subject_token_type
    }
}

/// The request that a caller's wish for a token of `provider_name` leads to, or the refusal of
/// it. Nothing is exchanged for a caller who is not verified, at a provider that the
/// configuration does not resolve, with a per-call config that does not decode, or without a
/// subject token; the first of these that holds is the reason given.
pub open spec fn planned(
    config: Config,
    caller: Caller,
    provider_name: Seq<char>,
    call_config: CallConfig,
) -> Result<Request, Refusal> {
    if !caller.verified {
        Err(
            Refusal::NotAuthorized {
                reason: "token exchange for `"@ + provider_name
                    + "` requires a Verified caller; trust is `"@ + caller.trust_level + "`"@,
            },
        )
    } else {
        match (
            config.resolution(provider_name),
            asked_overrides(call_config),
            subject_token(caller),
        ) {
            (None, _, _) => Err(
                Refusal::Misconfigured {
                    reason: "unknown provider `"@ + provider_name
                        + "` (no exact entry; target_template absent or target not in allowed_targets)"@,
                },
            ),
            (_, Err(refusal), _) => Err(refusal),
            (_, _, None) => Err(
                Refusal::Misconfigured {
                    reason: "token exchange for `"@ + provider_name
                        + "` requires the caller's subject token in identity.attributes[\"subject_token\"]"@,
                },
            ),
            (Some(resolved), Ok(overrides), Some(token)) => {
                let provider = overridden(resolved, overrides);
                Ok(
                    Request {
                        token_url: provider.token_url,
                        timeout_ms: provider.timeout_ms,
                        form: form_fields(provider, token, subject_token_type(caller, provider)),
                    },
                )
            },
        }
    }
}

/// What a result of planning holds.
pub open spec fn plan_of(result: Result<ExchangeRequest, CredentialError>) -> Result<
    Request,
    Refusal,
> {
    match result {
        Ok(request) => Ok(request@),
        Err(e) => Err(e@),
    }
}

/// `before`, `name` and `after`, one behind the other.
fn around(before: &str, name: &str, after: &str) -> (text: String)
    ensures
        text@ == before@ + name@ + after@,
{
    let mut text = before.to_owned();
    text.append(name);
    text.append(after);
    text
}

/// Plans the exchange for a caller's wish for a token of `provider_name`.
///
/// Token exchange is on-behalf-of impersonation: it mints a downstream token from the caller's
/// own subject token. It is honoured only for a verified caller, whatever attributes the
/// identity carries.
pub fn plan_issue(
    config: &TokenExchangeConfig,
    identity: &CallerIdentity,
    provider_name: &str,
    call_config: CallConfig,
) -> (result: Result<ExchangeRequest, CredentialError>)
    ensures
        plan_of(result) == planned(config@, identity@, provider_name@, call_config),
        result matches Ok(request) ==> {
            &&& request.form@.len() >= 5
            &&& request.form@[1].0@ == "subject_token"@
            &&& identity.attributes@.contains_key("subject_token"@)
            &&& request.form@[1].1@ == identity.attributes@["subject_token"@]@
            &&& request.form@[2].0@ == "subject_token_type"@
            &&& request.form@[2].1@ == if identity.attributes@.contains_key("subject_token_type"@) {
                identity.attributes@["subject_token_type"@]@
            } else {
                config@.resolution(provider_name@)->0.subject_token_type
            }
        },
{
    if !identity.verified {
        let mut reason = around(
            "token exchange for `",
            provider_name,
            "` requires a Verified caller; trust is `",
        );
        reason.append(identity.trust_level.as_str());
        reason.append("`");
        return Err(CredentialError::NotAuthorized { reason });
    }
    let provider = match config.resolve(provider_name) {
        Some(provider) => provider,
        None => {
            let reason = around(
                "unknown provider `",
                provider_name,
                "` (no exact entry; target_template absent or target not in allowed_targets)",
            );
            return Err(CredentialError::Misconfigured { reason });
        },
    };
    let overrides = CallOverrides::parse(call_config)?;
    let provider = overrides.apply(provider);
    let token = match identity.attributes.get(SUBJECT_TOKEN_ATTR) {
        Some(token) if !token.as_str().is_empty() => token,
        _ => {
            let reason = around(
                "token exchange for `",
                provider_name,
                "` requires the caller's subject token in identity.attributes[\"subject_token\"]",
            );
            return Err(CredentialError::Misconfigured { reason });
        },
    };
    let token_type = match identity.attributes.get(SUBJECT_TOKEN_TYPE_ATTR) {
        Some(token_type) => token_type,
        None => &provider.subject_token_type,
    };
    let request = exchange_request(&provider, token.as_str(), token_type.as_str());
    assert(forall|i: int|
        0 <= i < request.form@.len() ==> #[trigger] request@.form[i] == (
            request.form@[i].0@,
            request.form@[i].1@,
        ));
    assert(request@.form[1] == ("subject_token"@, token@));
    assert(request@.form[2] == ("subject_token_type"@, token_type@));
    Ok(request)
}

/// Only a verified caller's token is ever exchanged.
pub proof fn only_verified_callers_exchange(
    config: Config,
    caller: Caller,
    provider_name: Seq<char>,
    call_config: CallConfig,
)
    ensures
        planned(config, caller, provider_name, call_config) is Ok ==> caller.verified,
        !caller.verified ==> planned(
            config,
            caller,
            provider_name,
            call_config,
        )->Err_0 is NotAuthorized,
{
}

/// No empty token is ever exchanged: a request carries the caller's own subject token, which
/// holds text.
pub proof fn request_carries_the_callers_token(
    config: Config,
    caller: Caller,
    provider_name: Seq<char>,
    call_config: CallConfig,
)
    requires
        planned(config, caller, provider_name, call_config) is Ok,
    ensures
        ({
            let form = planned(config, caller, provider_name, call_config)->Ok_0.form;
            &&& subject_token(caller) is Some
            &&& subject_token(caller)->0.len() > 0
            &&& form[1] == ("subject_token"@, subject_token(caller)->0)
        }),
{
}

/// Callers with different subject tokens never send the same request, so that no answer to one
/// is an answer to another.
pub proof fn different_tokens_make_different_requests(
    config: Config,
    caller: Caller,
    provider_name: Seq<char>,
    call_config: CallConfig,
    other_config: Config,
    other: Caller,
    other_name: Seq<char>,
    other_call: CallConfig,
)
    requires
        planned(config, caller, provider_name, call_config) is Ok,
        planned(other_config, other, other_name, other_call) is Ok,
        subject_token(caller) != subject_token(other),
    ensures
        planned(config, caller, provider_name, call_config) != planned(
            other_config,
            other,
            other_name,
            other_call,
        ),
{
    request_carries_the_callers_token(config, caller, provider_name, call_config);
    request_carries_the_callers_token(other_config, other, other_name, other_call);
}

/// The token endpoint, the time limit and the client are those of the provider that the
/// configuration resolves: no per-call config changes them.
pub proof fn endpoint_is_never_overridden(
    config: Config,
    caller: Caller,
    provider_name: Seq<char>,
    call_config: CallConfig,
)
    requires
        planned(config, caller, provider_name, call_config) is Ok,
    ensures
        ({
            let request = planned(config, caller, provider_name, call_config)->Ok_0;
            &&& config.resolution(provider_name) matches Some(provider)
            &&& request.token_url == provider.token_url
            &&& request.timeout_ms == provider.timeout_ms
            &&& request.form[3] == ("requested_token_type"@, provider.requested_token_type)
            &&& request.form[4] == ("client_id"@, provider.client_id)
        }),
{
}

/// Every request that a configuration without fault leads to goes to an HTTP endpoint, within a
/// time limit between a tenth of a second and a minute.
pub proof fn faultless_config_plans_sound_requests(
    config: Config,
    caller: Caller,
    provider_name: Seq<char>,
    call_config: CallConfig,
)
    requires
        config.fault() is None,
        planned(config, caller, provider_name, call_config) is Ok,
    ensures
        ({
            let request = planned(config, caller, provider_name, call_config)->Ok_0;
            &&& crate::config::has_http_scheme(request.token_url)
            &&& 100 <= request.timeout_ms <= 60_000
        }),
{
    crate::config::faultless_config_resolves_to_sound_providers(config, provider_name);
}

/// No refusal tells the subject token: callers who differ in nothing but the token they hold
/// are refused alike.
pub proof fn refusal_does_not_tell_the_token(
    config: Config,
    caller: Caller,
    token: Seq<char>,
    provider_name: Seq<char>,
    call_config: CallConfig,
)
    requires
        subject_token(caller) is Some,
        token.len() > 0,
        planned(config, caller, provider_name, call_config) is Err,
    ensures
        ({
            let attributes = caller.attributes.insert(SUBJECT_TOKEN_ATTR@, token);
            planned(config, Caller { attributes, ..caller }, provider_name, call_config) == planned(
                config,
                caller,
                provider_name,
                call_config,
            )
        }),
{
}

/// A per-call audience or resource that holds text is what goes out, whatever the provider has.
pub proof fn asked_destination_goes_out(
    config: Config,
    caller: Caller,
    provider_name: Seq<char>,
    overrides: CallOverrides,
)
    requires
        planned(config, caller, provider_name, CallConfig::Decoded(overrides)) is Ok,
    ensures
        ({
            let form = planned(
                config,
                caller,
                provider_name,
                CallConfig::Decoded(overrides),
            )->Ok_0.form;
            &&& overrides@.audience matches Some(audience) ==> audience.len() > 0
                ==> form.contains(("audience"@, audience))
            &&& overrides@.resource matches Some(resource) ==> resource.len() > 0
                ==> form.contains(("resource"@, resource))
        }),
{
    let provider = overridden(config.resolution(provider_name)->0, overrides@);
    let form = planned(config, caller, provider_name, CallConfig::Decoded(overrides))->Ok_0.form;
    let audience = optional_field("audience"@, provider.audience);
    let resource = optional_field("resource"@, provider.resource);
    if resource.len() > 0 {
        assert(form.last() == resource[0]);
    }
    if audience.len() > 0 {
        assert(form[form.len() - 1 - resource.len()] == audience[0]);
    }
}

/// Overrides that hold no text change nothing: the exchange is planned as without any.
pub proof fn empty_overrides_change_nothing(
    config: Config,
    caller: Caller,
    provider_name: Seq<char>,
    overrides: CallOverrides,
)
    requires
        overrides@.audience matches Some(audience) ==> audience.len() == 0,
        overrides@.resource matches Some(resource) ==> resource.len() == 0,
    ensures
        planned(config, caller, provider_name, CallConfig::Decoded(overrides)) == planned(
            config,
            caller,
            provider_name,
            CallConfig::Null,
        ),
{
}

} // verus!
