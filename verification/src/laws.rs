//! What the operations of the library are for, stated on what goes in and what comes out.
use vstd::prelude::*;

use crate::config::Config;
use crate::config::ConfigError;
use crate::config::ConfigFault;
use crate::config::Provider;
use crate::config::ProviderConfig;
use crate::config::Template;
use crate::config::TokenExchangeConfig;
use crate::config::TokenExchangeTargetTemplate;
use crate::issue::CallConfig;
use crate::issue::CallOverrides;
use crate::issue::Caller;
use crate::issue::CallerIdentity;
use crate::issue::CredentialError;
use crate::issue::ExchangeRequest;
use crate::issue::Overrides;
use crate::issue::Refusal;
use crate::plugin::Manifest;
use crate::reply::ExchangeReply;
use crate::reply::IssuedCredential;
use crate::reply::ReplyKind;
use crate::reply::TokenAnswer;
use crate::reply::TokenExchangeResponse;

verus! {

/// White space by code point: the twenty-five characters of the Unicode property, and no other.
pub proof fn white_space_by_code_point(c: char)
    ensures
        ({
            let point = c as int;
            crate::text::is_white_space(c) <==> {
                ||| 9 <= point <= 13
                ||| point == 32
                ||| point == 133
                ||| point == 160
                ||| point == 5760
                ||| 8192 <= point <= 8202
                ||| point == 8232 || point == 8233
                ||| point == 8239
                ||| point == 8287
                ||| point == 12288
            }
        }),
{
}

/// A text is blank where nothing but white space stands in it: the empty text is, and a text in
/// two parts is where both parts are.
pub proof fn blank_texts(a: Seq<char>, b: Seq<char>, c: char)
    ensures
        crate::text::is_blank_text(Seq::empty()),
        crate::text::is_blank_text(seq![c]) == crate::text::is_white_space(c),
        crate::text::is_blank_text(a + b) == (crate::text::is_blank_text(a)
            && crate::text::is_blank_text(b)),
{
    assert(seq![c][0] == c);
    let ab = a + b;
    if crate::text::is_blank_text(ab) {
        assert forall|i: int| 0 <= i < a.len() implies crate::text::is_white_space(
            #[trigger] a[i],
        ) by {
            assert(ab[i] == a[i]);
        }
        assert forall|i: int| 0 <= i < b.len() implies crate::text::is_white_space(
            #[trigger] b[i],
        ) by {
            assert(ab[a.len() + i] == b[i]);
        }
    }
}

/// Joining puts the separator between neighbours and nowhere else: joining two lists one after
/// the other joins each and puts one separator between them.
pub proof fn joined_in_two_parts(a: Seq<Seq<char>>, b: Seq<Seq<char>>, sep: Seq<char>)
    ensures
        crate::text::joined(Seq::empty(), sep) == Seq::<char>::empty(),
        a.len() == 1 ==> crate::text::joined(a, sep) == a[0],
        a.len() > 0 && b.len() > 0 ==> crate::text::joined(a + b, sep) == crate::text::joined(
            a,
            sep,
        ) + sep + crate::text::joined(b, sep),
    decreases b.len(),
{
    if a.len() > 0 && b.len() > 0 {
        let ab = a + b;
        assert(ab.last() == b.last());
        if b.len() == 1 {
            assert(ab.drop_last() =~= a);
        } else {
            assert(ab.drop_last() =~= a + b.drop_last());
            joined_in_two_parts(a, b.drop_last(), sep);
            assert(crate::text::joined(ab, sep) =~= crate::text::joined(a, sep) + sep
                + crate::text::joined(b, sep));
        }
    }
}

/// Trimming takes a run of the character off the end: what is kept starts the text and does not
/// end in the character, and what is taken off is the character alone.
pub proof fn trimming_takes_the_run_off(s: Seq<char>, c: char)
    ensures
        ({
            let kept = crate::text::trimmed_end(s, c);
            &&& kept.len() <= s.len()
            &&& kept == s.take(kept.len() as int)
            &&& kept.len() > 0 ==> kept.last() != c
            &&& forall|i: int| kept.len() <= i < s.len() ==> #[trigger] s[i] == c
        }),
    decreases s.len(),
{
    if s.len() > 0 && s.last() == c {
        trimming_takes_the_run_off(s.drop_last(), c);
        let kept = crate::text::trimmed_end(s, c);
        assert(s.take(kept.len() as int) =~= s.drop_last().take(kept.len() as int));
        assert forall|i: int| kept.len() <= i < s.len() implies #[trigger] s[i] == c by {
            if i < s.len() - 1 {
                assert(s.drop_last()[i] == s[i]);
            }
        }
    } else {
        assert(s.take(s.len() as int) =~= s);
    }
}

/// The number that a text of decimal digits writes.
pub open spec fn number_written(s: Seq<char>) -> int
    decreases s.len(),
{
    if s.len() == 0 {
        0
    } else {
        number_written(s.drop_last()) * 10 + (s.last() as int - '0' as int)
    }
}

/// The decimal notation of a number writes that number, in digits, without a leading zero.
pub proof fn decimal_notation_writes_the_number(n: nat)
    ensures
        ({
            let text = crate::text::decimal_text(n);
            &&& number_written(text) == n
            &&& text.len() > 0
            &&& text[0] == '0' ==> text.len() == 1
            &&& forall|i: int| 0 <= i < text.len() ==> '0' <= #[trigger] text[i] <= '9'
        }),
    decreases n,
{
    reveal_strlit("0123456789");
    let table = crate::text::digits();
    assert forall|k: int| 0 <= k < 10 implies (#[trigger] table[k]) as int == '0' as int + k by {
        assert(k == 0 || k == 1 || k == 2 || k == 3 || k == 4 || k == 5 || k == 6 || k == 7 || k
            == 8 || k == 9);
    }
    let text = crate::text::decimal_text(n);
    let last = table[(n % 10) as int];
    assert(last as int == '0' as int + n % 10);
    if n < 10 {
        assert(text =~= seq![last]);
        assert(text.drop_last() =~= Seq::empty());
        assert(number_written(text.drop_last()) == 0);
    } else {
        let front = crate::text::decimal_text(n / 10);
        decimal_notation_writes_the_number(n / 10);
        assert(text =~= front.push(last));
        assert(text.drop_last() =~= front);
        if front[0] == '0' {
            assert(front.drop_last() =~= Seq::empty());
            assert(number_written(front.drop_last()) == 0);
            assert(front.last() == front[0]);
            assert(number_written(front) == 0);
        }
    }
}

/// The order of texts is that of a dictionary: a text stands before every longer one that starts
/// with it, and where two texts first differ the smaller character comes first.
pub proof fn texts_are_in_dictionary_order(
    common: Seq<char>,
    x: char,
    y: char,
    a: Seq<char>,
    b: Seq<char>,
)
    ensures
        crate::str_map::text_before(common, common + seq![x] + a),
        x != y ==> (crate::str_map::text_before(common + seq![x] + a, common + seq![y] + b) <==> x
            < y),
    decreases common.len(),
{
    let one = common + seq![x] + a;
    let two = common + seq![y] + b;
    if common.len() > 0 {
        texts_are_in_dictionary_order(common.skip(1), x, y, a, b);
        assert(one.skip(1) =~= common.skip(1) + seq![x] + a);
        assert(two.skip(1) =~= common.skip(1) + seq![y] + b);
        assert(one[0] == common[0] && two[0] == common[0]);
    } else {
        assert(one[0] == x && two[0] == y);
    }
}

/// A pattern without a star at its end matches its own name and no other.
pub proof fn plain_pattern_matches_itself_alone(pattern: Seq<char>, name: Seq<char>)
    requires
        pattern.len() == 0 || pattern[pattern.len() - 1] != '*',
    ensures
        crate::config::glob_matches(pattern, name) <==> pattern == name,
{
}

/// A template allows what one of its patterns matches: without patterns nothing, with one what
/// that one matches, and with two lists of patterns what either allows.
pub proof fn allowlists_add_up(
    template: Template,
    first: Seq<Seq<char>>,
    second: Seq<Seq<char>>,
    pattern: Seq<char>,
    target: Seq<char>,
)
    ensures
        !(Template { allowed_targets: Seq::empty(), ..template }).allows(target),
        (Template { allowed_targets: seq![pattern], ..template }).allows(target)
            == crate::config::glob_matches(pattern, target),
        (Template { allowed_targets: first + second, ..template }).allows(target) == ((Template {
            allowed_targets: first,
            ..template
        }).allows(target) || (Template { allowed_targets: second, ..template }).allows(target)),
{
    let one = Template { allowed_targets: seq![pattern], ..template };
    assert(one.allowed_targets[0] == pattern);
    let a = Template { allowed_targets: first, ..template };
    let b = Template { allowed_targets: second, ..template };
    let both = Template { allowed_targets: first + second, ..template };
    if a.allows(target) {
        let i = choose|i: int|
            0 <= i < first.len() && crate::config::glob_matches(
                #[trigger] a.allowed_targets[i],
                target,
            );
        assert(both.allowed_targets[i] == a.allowed_targets[i]);
    }
    if b.allows(target) {
        let i = choose|i: int|
            0 <= i < second.len() && crate::config::glob_matches(
                #[trigger] b.allowed_targets[i],
                target,
            );
        assert(both.allowed_targets[first.len() + i] == b.allowed_targets[i]);
    }
    if both.allows(target) {
        let i = choose|i: int|
            0 <= i < both.allowed_targets.len() && crate::config::glob_matches(
                #[trigger] both.allowed_targets[i],
                target,
            );
        if i < first.len() {
            assert(a.allowed_targets[i] == both.allowed_targets[i]);
        } else {
            assert(b.allowed_targets[i - first.len()] == both.allowed_targets[i]);
        }
    }
}

/// Filling goes placeholder by placeholder: what stands before the first `{target}` is kept, the
/// target takes its place, and what stands behind is filled in the same way. A text without
/// `{target}` stays as it is, and where there is no template there is no text.
pub proof fn placeholders_are_filled_in_turn(
    before: Seq<char>,
    after: Seq<char>,
    plain: Seq<char>,
    target: Seq<char>,
)
    requires
        forall|i: int|
            0 <= i < before.len() ==> !"{target}"@.is_prefix_of(
                #[trigger] (before + "{target}"@ + after).skip(i),
            ),
        forall|i: int| 0 <= i < plain.len() ==> !"{target}"@.is_prefix_of(#[trigger] plain.skip(i)),
    ensures
        crate::config::filled(None, target) is None,
        crate::config::filled(Some(plain), target) == Some(plain),
        crate::config::filled(Some(after), target) is Some,
        crate::config::filled(Some(before + "{target}"@ + after), target) == Some(
            before + target + crate::config::filled(Some(after), target)->0,
        ),
{
    reveal_strlit("{target}");
    let hole = "{target}"@;
    let template = before + hole + after;
    let at = before.len() as int;
    assert(template.skip(at).subrange(0, hole.len() as int) =~= hole);
    crate::text::first_occurrence_is_replaced(template, hole, target, at);
    assert(template.take(at) =~= before);
    assert(template.skip(at + hole.len()) =~= after);
    crate::text::text_without_pattern_is_kept(plain, hole, target);
}

/// A template hands everything but the destination on to the provider as it stands: the endpoint,
/// the client with its secret, the scopes, both token types and the timeout. The destination is
/// the filled templates for audience and resource.
pub proof fn expansion_hands_the_template_on(template: Template, target: Seq<char>)
    ensures
        ({
            let provider = template.expansion(target);
            &&& provider.token_url == template.token_url
            &&& provider.client_id == template.client_id
            &&& provider.client_secret == template.client_secret
            &&& provider.scopes == template.scopes
            &&& provider.subject_token_type == template.subject_token_type
            &&& provider.requested_token_type == template.requested_token_type
            &&& provider.timeout_ms == template.timeout_ms
            &&& provider.audience == match template.audience_template {
                Some(t) => Some(crate::text::replaced(t, "{target}"@, target)),
                None => None,
            }
            &&& provider.resource == match template.resource_template {
                Some(t) => Some(crate::text::replaced(t, "{target}"@, target)),
                None => None,
            }
        }),
{
}

/// A provider is refused for the first rule it breaks, under its name: the URL holds more than
/// white space, then it starts with `http://` or `https://`, then the client ID holds more than
/// white space, then the timeout lies between 100 and 60000. Nothing else counts.
pub proof fn providers_are_judged_in_order(name: Seq<char>, provider: Provider)
    ensures
        ({
            let url = provider.token_url;
            let id = provider.client_id;
            let url_blank = forall|i: int|
                0 <= i < url.len() ==> crate::text::is_white_space(#[trigger] url[i]);
            let id_blank = forall|i: int|
                0 <= i < id.len() ==> crate::text::is_white_space(#[trigger] id[i]);
            let http = "http://"@.is_prefix_of(url) || "https://"@.is_prefix_of(url);
            let in_time = 100 <= provider.timeout_ms && provider.timeout_ms <= 60_000;
            let fault = crate::config::provider_fault(name, provider);
            &&& url_blank ==> fault == Some(ConfigFault::EmptyTokenUrl { name })
            &&& !url_blank && !http ==> fault == Some(ConfigFault::InvalidTokenUrlScheme { name })
            &&& !url_blank && http && id_blank ==> fault == Some(ConfigFault::EmptyClientId { name })
            &&& !url_blank && http && !id_blank && !in_time ==> fault == Some(
                ConfigFault::InvalidTimeoutMs { name, timeout: provider.timeout_ms },
            )
            &&& !url_blank && http && !id_blank && in_time ==> fault is None
        }),
{
}

/// A listing without a faulty provider has no fault.
proof fn faultless_listing(providers: Seq<(Seq<char>, Provider)>)
    requires
        forall|i: int|
            0 <= i < providers.len() ==> crate::config::provider_fault(
                (#[trigger] providers[i]).0,
                providers[i].1,
            ) is None,
    ensures
        crate::config::listing_fault(providers) is None,
    decreases providers.len(),
{
    if providers.len() > 0 {
        let rest = providers.skip(1);
        assert forall|i: int| 0 <= i < rest.len() implies crate::config::provider_fault(
            (#[trigger] rest[i]).0,
            rest[i].1,
        ) is None by {
            assert(rest[i] == providers[i + 1]);
        }
        assert(crate::config::provider_fault(providers[0].0, providers[0].1) is None);
        faultless_listing(rest);
    }
}

/// A configuration that holds nothing is refused as empty. Otherwise the first faulty provider of
/// its listing decides, then a template without allowed targets, then a template that breaks a
/// rule for providers, at whatever target; where none of these is found there is no fault.
pub proof fn configs_are_judged_in_order(config: Config, at: int, target: Seq<char>)
    ensures
        config.providers.len() == 0 && config.target_template is None ==> config.fault() == Some(
            ConfigFault::EmptyProviders,
        ),
        0 <= at < config.providers.len() && crate::config::provider_fault(
            config.providers[at].0,
            config.providers[at].1,
        ) is Some && (forall|i: int|
            0 <= i < at ==> crate::config::provider_fault(
                (#[trigger] config.providers[i]).0,
                config.providers[i].1,
            ) is None) ==> config.fault() == crate::config::provider_fault(
            config.providers[at].0,
            config.providers[at].1,
        ),
        (forall|i: int|
            0 <= i < config.providers.len() ==> crate::config::provider_fault(
                (#[trigger] config.providers[i]).0,
                config.providers[i].1,
            ) is None) ==> match config.target_template {
            Some(template) => if template.allowed_targets.len() == 0 {
                config.fault() == Some(ConfigFault::EmptyAllowedTargets)
            } else {
                config.fault() == crate::config::provider_fault(
                    "target_template"@,
                    template.expansion(target),
                )
            },
            None => config.providers.len() > 0 ==> config.fault() is None,
        },
{
    if 0 <= at < config.providers.len() {
        crate::config::first_faulty_provider_is_reported(config.providers, at);
    }
    if forall|i: int|
        0 <= i < config.providers.len() ==> crate::config::provider_fault(
            (#[trigger] config.providers[i]).0,
            config.providers[i].1,
        ) is None {
        faultless_listing(config.providers);
    }
    if let Some(template) = config.target_template {
        crate::config::template_is_judged_alike_at_every_target(
            template,
            "target_template"@,
            template.probe(),
            target,
        );
    }
}

/// A configuration resolves a name that it lists to the provider listed under it, any other name
/// that its template allows to what the template expands to, and no name besides.
pub proof fn targets_are_resolved_by_name_or_template(config: Config, at: int, target: Seq<char>)
    requires
        crate::str_map::ascending(config.providers),
    ensures
        0 <= at < config.providers.len() && config.providers[at].0 == target
            ==> config.resolution(target) == Some(config.providers[at].1),
        (forall|i: int|
            0 <= i < config.providers.len() ==> (#[trigger] config.providers[i]).0 != target)
            ==> match config.target_template {
            Some(template) => if exists|i: int|
                0 <= i < template.allowed_targets.len() && crate::config::glob_matches(
                    #[trigger] template.allowed_targets[i],
                    target,
                ) {
                config.resolution(target) == Some(template.expansion(target))
            } else {
                config.resolution(target) is None
            },
            None => config.resolution(target) is None,
        },
{
    crate::str_map::map_holds_listing(config.providers);
}

/// The messages of configuration errors: each names its kind, and where it concerns a provider
/// the provider, where it concerns the timeout the timeout.
pub proof fn messages_of_config_errors(detail: Seq<char>, name: Seq<char>, timeout: u64)
    ensures
        crate::config::fault_message(ConfigFault::InvalidJson(detail))
            == "invalid credential.oauth-token-exchange config JSON: "@ + detail,
        crate::config::fault_message(ConfigFault::EmptyProviders)
            == "credential.oauth-token-exchange: providers must be non-empty (or set target_template)"@,
        crate::config::fault_message(ConfigFault::EmptyAllowedTargets)
            == "credential.oauth-token-exchange: target_template.allowed_targets must be non-empty"@,
        crate::config::fault_message(ConfigFault::EmptyTokenUrl { name })
            == "credential.oauth-token-exchange: provider `"@ + name + "` token_url is empty"@,
        crate::config::fault_message(ConfigFault::InvalidTokenUrlScheme { name })
            == "credential.oauth-token-exchange: provider `"@ + name
            + "` token_url must start with http:// or https://"@,
        crate::config::fault_message(ConfigFault::EmptyClientId { name })
            == "credential.oauth-token-exchange: provider `"@ + name + "` client_id is empty"@,
        crate::config::fault_message(ConfigFault::InvalidTimeoutMs { name, timeout })
            == "credential.oauth-token-exchange: provider `"@ + name + "` timeout_ms="@
            + crate::text::decimal_text(timeout as nat) + "; must be 100..=60_000"@,
{
}

/// The two overrides are independent, and nothing else is overridden: an asked text that is not
/// empty replaces the audience, or the resource, and where none is asked the provider's own stays,
/// whatever is asked of the other.
pub proof fn overrides_are_independent(provider: Provider, overrides: Overrides)
    ensures
        ({
            let result = crate::issue::overridden(provider, overrides);
            &&& overrides.audience matches Some(a) ==> a.len() > 0 ==> result.audience == Some(a)
            &&& overrides.audience matches Some(a) ==> a.len() == 0 ==> result.audience
                == provider.audience
            &&& overrides.audience is None ==> result.audience == provider.audience
            &&& overrides.resource matches Some(r) ==> r.len() > 0 ==> result.resource == Some(r)
            &&& overrides.resource matches Some(r) ==> r.len() == 0 ==> result.resource
                == provider.resource
            &&& overrides.resource is None ==> result.resource == provider.resource
            &&& result.token_url == provider.token_url
            &&& result.client_id == provider.client_id
            &&& result.client_secret == provider.client_secret
            &&& result.scopes == provider.scopes
            &&& result.subject_token_type == provider.subject_token_type
            &&& result.requested_token_type == provider.requested_token_type
            &&& result.timeout_ms == provider.timeout_ms
        }),
{
}

/// A per-call config that is absent asks for nothing, one that decodes for what it holds, and one
/// that does not decode is refused in the decoder's words.
pub proof fn call_configs_are_read_as_they_stand(overrides: CallOverrides, detail: String)
    ensures
        crate::issue::asked_overrides(CallConfig::Null) matches Ok(asked) && asked.audience is None
            && asked.resource is None,
        crate::issue::asked_overrides(CallConfig::Decoded(overrides)) matches Ok(asked)
            && asked.audience == overrides.audience.deep_view() && asked.resource
            == overrides.resource.deep_view(),
        crate::issue::asked_overrides(CallConfig::Undecodable(detail)) == Err::<Overrides, Refusal>(
            Refusal::Misconfigured { reason: "invalid per-call issuer config: "@ + detail@ },
        ),
{
}

/// When an exchange is refused, and why. A caller who is not verified is not authorized. Of a
/// verified caller's wishes one for a provider that is not resolved is refused first, then one
/// with a per-call config that does not decode, then one without a token; all others are planned.
pub proof fn exchanges_are_refused_in_order(
    config: Config,
    caller: Caller,
    provider_name: Seq<char>,
    call_config: CallConfig,
)
    ensures
        ({
            let plan = crate::issue::planned(config, caller, provider_name, call_config);
            let known = config.resolution(provider_name) is Some;
            let held = caller.attributes.contains_key("subject_token"@)
                && caller.attributes["subject_token"@].len() > 0;
            &&& !caller.verified ==> plan == Err::<crate::issue::Request, Refusal>(
                Refusal::NotAuthorized {
                    reason: "token exchange for `"@ + provider_name
                        + "` requires a Verified caller; trust is `"@ + caller.trust_level + "`"@,
                },
            )
            &&& caller.verified && !known ==> plan == Err::<crate::issue::Request, Refusal>(
                Refusal::Misconfigured {
                    reason: "unknown provider `"@ + provider_name
                        + "` (no exact entry; target_template absent or target not in allowed_targets)"@,
                },
            )
            &&& caller.verified && known ==> (call_config matches CallConfig::Undecodable(detail)
                ==> plan == Err::<crate::issue::Request, Refusal>(
                Refusal::Misconfigured { reason: "invalid per-call issuer config: "@ + detail@ },
            ))
            &&& caller.verified && known && !(call_config is Undecodable) && !held ==> plan == Err::<
                crate::issue::Request,
                Refusal,
            >(
                Refusal::Misconfigured {
                    reason: "token exchange for `"@ + provider_name
                        + "` requires the caller's subject token in identity.attributes[\"subject_token\"]"@,
                },
            )
            &&& caller.verified && known && !(call_config is Undecodable) && held ==> plan is Ok
        }),
{
}

/// The type of the subject token goes out as the caller's attribute says where the caller has that
/// attribute, and otherwise as the resolved provider's own `subject_token_type` says.
pub proof fn token_type_is_the_callers_or_the_providers(
    config: Config,
    caller: Caller,
    provider_name: Seq<char>,
    call_config: CallConfig,
)
    requires
        crate::issue::planned(config, caller, provider_name, call_config) is Ok,
    ensures
        ({
            let form = crate::issue::planned(
                config,
                caller,
                provider_name,
                call_config,
            )->Ok_0.form;
            &&& form.len() > 2
            &&& form[2].0 == "subject_token_type"@
            &&& caller.attributes.contains_key("subject_token_type"@) ==> form[2].1
                == caller.attributes["subject_token_type"@]
            &&& !caller.attributes.contains_key("subject_token_type"@) ==> form[2].1
                == config.resolution(provider_name)->0.subject_token_type
        }),
{
}

/// What a planned request carries, field by field, on the resolved provider, the per-call config
/// and the caller's attributes: the five fields that every exchange has; the client secret where
/// the provider has one that is not empty; the scopes, with a space between them, where there are
/// any; the audience and the resource, each as asked per call with a text that is not empty, or
/// else as the provider has it; and nothing more. It goes to the provider's endpoint, within the
/// provider's timeout.
pub proof fn requests_field_by_field(
    config: Config,
    caller: Caller,
    provider_name: Seq<char>,
    call_config: CallConfig,
)
    requires
        crate::issue::planned(config, caller, provider_name, call_config) is Ok,
    ensures
        ({
            let request = crate::issue::planned(
                config,
                caller,
                provider_name,
                call_config,
            )->Ok_0;
            let form = request.form;
            let provider = config.resolution(provider_name)->0;
            let asked_audience = match call_config {
                CallConfig::Decoded(o) => o.audience.deep_view(),
                _ => None,
            };
            let asked_resource = match call_config {
                CallConfig::Decoded(o) => o.resource.deep_view(),
                _ => None,
            };
            let audience = if asked_audience is Some && asked_audience->0.len() > 0 {
                asked_audience
            } else {
                provider.audience
            };
            let resource = if asked_resource is Some && asked_resource->0.len() > 0 {
                asked_resource
            } else {
                provider.resource
            };
            let secrets: int = if provider.client_secret is Some
                && provider.client_secret->0.len() > 0 {
                1
            } else {
                0
            };
            let scopes: int = if provider.scopes.len() > 0 {
                1
            } else {
                0
            };
            let audiences: int = if audience is Some {
                1
            } else {
                0
            };
            let resources: int = if resource is Some {
                1
            } else {
                0
            };
            &&& config.resolution(provider_name) is Some
            &&& request.token_url == provider.token_url
            &&& request.timeout_ms == provider.timeout_ms
            &&& form.len() == 5 + secrets + scopes + audiences + resources
            &&& form[0] == ("grant_type"@, "urn:ietf:params:oauth:grant-type:token-exchange"@)
            &&& form[1] == ("subject_token"@, caller.attributes["subject_token"@])
            &&& form[2].0 == "subject_token_type"@
            &&& form[3] == ("requested_token_type"@, provider.requested_token_type)
            &&& form[4] == ("client_id"@, provider.client_id)
            &&& secrets == 1 ==> form[5] == ("client_secret"@, provider.client_secret->0)
            &&& scopes == 1 ==> form[5 + secrets] == (
                "scope"@,
                crate::text::joined(provider.scopes, " "@),
            )
            &&& audiences == 1 ==> form[5 + secrets + scopes] == ("audience"@, audience->0)
            &&& resources == 1 ==> form[5 + secrets + scopes + audiences] == (
                "resource"@,
                resource->0,
            )
        }),
{
}

/// How two exchanges at one provider relate: where the per-call configs ask for the same resource
/// the same resource goes out, whatever audience they ask for, and the other way round.
pub proof fn asking_for_one_leaves_the_other(
    provider: Provider,
    overrides: Overrides,
    others: Overrides,
)
    ensures
        overrides.resource == others.resource ==> crate::issue::overridden(
            provider,
            overrides,
        ).resource == crate::issue::overridden(provider, others).resource,
        overrides.audience == others.audience ==> crate::issue::overridden(
            provider,
            overrides,
        ).audience == crate::issue::overridden(provider, others).audience,
{
}

/// A credential lasts exactly as long as the endpoint says, or an hour where it does not say. It
/// holds the access token and the token type as they were answered, tells the token type and, if
/// the endpoint gave one, the issued type, and nothing besides; it has no lease.
pub proof fn credentials_field_by_field(answer: TokenAnswer, issued_at: Seq<char>, key: Seq<char>)
    ensures
        ({
            let credential = crate::reply::credential_of(answer, issued_at);
            &&& answer.expires_in matches Some(s) ==> credential.ttl_seconds == s
            &&& answer.expires_in is None ==> credential.ttl_seconds == 3600
            &&& credential.value == Some(answer.access_token)
            &&& credential.lease_id is None
            &&& credential.issued_at == issued_at
            &&& credential.parts.contains_key(key) <==> key == "access_token"@ || key
                == "token_type"@
            &&& credential.parts["access_token"@] == answer.access_token
            &&& credential.parts["token_type"@] == answer.token_type
            &&& credential.metadata.contains_key(key) <==> key == "oauth.token_type"@ || key
                == "oauth.issued_token_type"@ && answer.issued_token_type is Some
            &&& credential.metadata["oauth.token_type"@] == answer.token_type
            &&& answer.issued_token_type matches Some(issued)
                ==> credential.metadata["oauth.issued_token_type"@] == issued
        }),
{
    reveal_strlit("access_token");
    reveal_strlit("token_type");
    reveal_strlit("oauth.token_type");
    reveal_strlit("oauth.issued_token_type");
    assert("access_token"@.len() != "token_type"@.len());
    assert("oauth.token_type"@.len() != "oauth.issued_token_type"@.len());
}

/// The class of a refusal follows the status over its whole range: throttled for 429 alone,
/// misconfigured for every other status from 400 to 499, and a backend outage for all others. The
/// reason is kept as it is given.
pub proof fn refusals_are_classed_by_status(status: u16, reason: Seq<char>)
    ensures
        ({
            let refusal = crate::reply::refusal_for(status, reason);
            &&& refusal is Throttled <==> status == 429
            &&& refusal is Misconfigured <==> 400 <= status && status <= 499 && status != 429
            &&& refusal is Backend <==> status < 400 || status > 499
            &&& refusal matches Refusal::Throttled { reason: r } ==> r == reason
            &&& refusal matches Refusal::Misconfigured { reason: r } ==> r == reason
            &&& refusal matches Refusal::Backend { reason: r } ==> r == reason
        }),
{
}

/// The refusal of an answered exchange: its class follows the status, and its reason tells the
/// status, the provider and, where the body's `error` member is a standard code, that code.
pub proof fn answers_are_refused_by_status_and_code(
    provider_name: Seq<char>,
    status: u16,
    body: Option<Seq<char>>,
)
    ensures
        ({
            let refusal = crate::reply::refused(provider_name, status, body);
            let text = match body {
                Some(text) => text,
                None => "<unreadable>"@,
            };
            let members = crate::outside::json_members(text);
            let said = if members is Some && members->0.contains_key("error"@) {
                members->0["error"@]
            } else {
                None
            };
            let start = "token-exchange endpoint returned HTTP "@ + crate::outside::status_line(
                status,
            ) + " for `"@ + provider_name;
            let standard = said is Some && (said->0 == "invalid_request"@ || said->0
                == "invalid_client"@ || said->0 == "invalid_grant"@ || said->0
                == "unauthorized_client"@ || said->0 == "unsupported_grant_type"@ || said->0
                == "invalid_scope"@);
            let reason = if standard {
                start + "` (error: "@ + said->0 + ")"@
            } else {
                start + "`"@
            };
            &&& status == 429 ==> refusal == (Refusal::Throttled { reason })
            &&& 400 <= status && status <= 499 && status != 429 ==> refusal == (
            Refusal::Misconfigured { reason })
            &&& status < 400 || status > 499 ==> refusal == (Refusal::Backend { reason })
        }),
{
}

/// The code that is taken out of an error response is its `error` member, exactly where that is a
/// text and one of the six standard codes.
pub proof fn codes_are_the_standard_error_member(
    members: Map<Seq<char>, Option<Seq<char>>>,
    code: Seq<char>,
)
    ensures
        crate::reply::code_among(None) is None,
        crate::reply::code_among(Some(members)) == Some(code) <==> {
            &&& members.contains_key("error"@)
            &&& members["error"@] == Some(code)
            &&& code == "invalid_request"@ || code == "invalid_client"@ || code == "invalid_grant"@
                || code == "unauthorized_client"@ || code == "unsupported_grant_type"@ || code
                == "invalid_scope"@
        },
{
}

/// The reason of a refusal is what any of its kinds gives.
pub proof fn every_kind_of_refusal_gives_its_reason(reason: Seq<char>)
    ensures
        crate::reply::reason_of(Refusal::NotAuthorized { reason }) == reason,
        crate::reply::reason_of(Refusal::Misconfigured { reason }) == reason,
        crate::reply::reason_of(Refusal::Throttled { reason }) == reason,
        crate::reply::reason_of(Refusal::Backend { reason }) == reason,
{
}

/// The crate of a module path ends at the first `::`, or with the path where there is none.
pub proof fn crate_ends_at_the_first_separator(path: Seq<char>)
    ensures
        ({
            let name = crate::plugin::crate_of(path);
            &&& name.len() <= path.len()
            &&& name == path.take(name.len() as int)
            &&& forall|i: int|
                0 <= i < name.len() ==> !"::"@.is_prefix_of(#[trigger] path.skip(i))
            &&& name.len() < path.len() ==> "::"@.is_prefix_of(path.skip(name.len() as int))
        }),
    decreases path.len(),
{
    let name = crate::plugin::crate_of(path);
    assert(path.skip(0) =~= path);
    assert(path.take(0) =~= Seq::empty());
    if path.len() > 0 && !"::"@.is_prefix_of(path) {
        let rest = path.skip(1);
        crate_ends_at_the_first_separator(rest);
        let tail = crate::plugin::crate_of(rest);
        assert(name =~= path.take(name.len() as int));
        assert(rest.skip(tail.len() as int) =~= path.skip(name.len() as int));
        assert forall|i: int| 0 <= i < name.len() implies !"::"@.is_prefix_of(
            #[trigger] path.skip(i),
        ) by {
            if i > 0 {
                assert(path.skip(i) =~= rest.skip(i - 1));
            }
        }
    }
}

/// The manifest tells the same of every issuer but for its version and its crate.
pub proof fn manifest_field_by_field(version: Seq<char>, module: Seq<char>)
    ensures
        ({
            let manifest = crate::plugin::manifest_text(version, module);
            &&& manifest.id == "dev.mcpg.credential.oauth-token-exchange"@
            &&& manifest.version == version
            &&& manifest.name == "OAuth 2.0 Token Exchange Issuer"@
            &&& manifest.plugin_class is CredentialIssuer
            &&& manifest.protocol_version == "1.0"@
            &&& manifest.license is None
            &&& manifest.required_capabilities.len() == 0
            &&& manifest.tags.len() == 0
            &&& manifest.provides.len() == 0
            &&& manifest.provides_schemes.len() == 0
            &&& manifest.backend_profile is None
            &&& manifest.module_path_prefix == crate::plugin::crate_of(module)
        }),
{
}

/// A configuration that is not loaded is refused with its fault and the reason for not loading.
pub proof fn refusal_to_load_tells_the_fault(fault: ConfigFault)
    ensures
        crate::plugin::refusal_to_load(fault) == "oauth-token-exchange config parse failed: "@
            + crate::config::fault_message(fault)
            + ". A misconfigured credential issuer is a security hole; refusing to load."@,
{
}

/// What stands in a provider, a template, a configuration and its errors stands in what the
/// contracts say of them, every field under its own name.
pub proof fn config_views_hold_every_field(
    provider: ProviderConfig,
    template: TokenExchangeTargetTemplate,
    config: TokenExchangeConfig,
    at: int,
)
    ensures
        provider@.token_url == provider.token_url@,
        provider@.client_id == provider.client_id@,
        provider@.client_secret == provider.client_secret.deep_view(),
        provider@.scopes == provider.scopes.deep_view(),
        provider@.subject_token_type == provider.subject_token_type@,
        provider@.requested_token_type == provider.requested_token_type@,
        provider@.audience == provider.audience.deep_view(),
        provider@.resource == provider.resource.deep_view(),
        provider@.timeout_ms == provider.timeout_ms,
        template@.allowed_targets == template.allowed_targets.deep_view(),
        template@.token_url == template.token_url@,
        template@.client_id == template.client_id@,
        template@.client_secret == template.client_secret.deep_view(),
        template@.scopes == template.scopes.deep_view(),
        template@.subject_token_type == template.subject_token_type@,
        template@.requested_token_type == template.requested_token_type@,
        template@.audience_template == template.audience_template.deep_view(),
        template@.resource_template == template.resource_template.deep_view(),
        template@.timeout_ms == template.timeout_ms,
        config@.providers.len() == config.providers.listing().len(),
        0 <= at < config@.providers.len() ==> config@.providers[at] == (
            config.providers.listing()[at].0,
            config.providers.listing()[at].1@,
        ),
        config.target_template is None ==> config@.target_template is None,
        config.target_template matches Some(t) ==> config@.target_template == Some(t@),
{
}

/// What an error of the configuration or of an exchange says stands in what the contracts say of
/// it, and a result reports exactly the error it holds.
pub proof fn error_views_hold_every_field(name: String, timeout: u64)
    ensures
        ConfigError::InvalidJson(name)@ == ConfigFault::InvalidJson(name@),
        ConfigError::EmptyProviders@ == ConfigFault::EmptyProviders,
        ConfigError::EmptyAllowedTargets@ == ConfigFault::EmptyAllowedTargets,
        (ConfigError::EmptyTokenUrl { name })@ == (ConfigFault::EmptyTokenUrl { name: name@ }),
        (ConfigError::InvalidTokenUrlScheme { name })@ == (ConfigFault::InvalidTokenUrlScheme {
            name: name@,
        }),
        (ConfigError::EmptyClientId { name })@ == (ConfigFault::EmptyClientId { name: name@ }),
        (ConfigError::InvalidTimeoutMs { name, timeout })@ == (ConfigFault::InvalidTimeoutMs {
            name: name@,
            timeout,
        }),
        (CredentialError::NotAuthorized { reason: name })@ == (Refusal::NotAuthorized {
            reason: name@,
        }),
        (CredentialError::Misconfigured { reason: name })@ == (Refusal::Misconfigured {
            reason: name@,
        }),
        (CredentialError::Throttled { reason: name })@ == (Refusal::Throttled { reason: name@ }),
        (CredentialError::Backend { reason: name })@ == (Refusal::Backend { reason: name@ }),
{
}

/// A result reports a fault exactly where it is an error, and then the one that the error says.
pub proof fn results_report_their_errors(
    value: TokenExchangeConfig,
    error: ConfigError,
    request: ExchangeRequest,
    refusal: CredentialError,
)
    ensures
        crate::config::reported(Ok::<TokenExchangeConfig, ConfigError>(value)) is None,
        crate::config::reported(Ok::<(), ConfigError>(())) is None,
        crate::config::reported(Err::<TokenExchangeConfig, ConfigError>(error)) == Some(error@),
        crate::config::reported(Err::<(), ConfigError>(error)) == Some(error@),
        crate::issue::plan_of(Ok(request)) == Ok::<crate::issue::Request, Refusal>(request@),
        crate::issue::plan_of(Err(refusal)) == Err::<crate::issue::Request, Refusal>(refusal@),
{
}

/// What stands in a caller's identity, in overrides, in a request, in a token response and in a
/// credential stands in what the contracts say of them, every field under its own name.
pub proof fn exchange_views_hold_every_field(
    identity: CallerIdentity,
    overrides: CallOverrides,
    request: ExchangeRequest,
    response: TokenExchangeResponse,
    credential: IssuedCredential,
    key: Seq<char>,
)
    ensures
        identity@.trust_level == identity.trust_level@,
        identity@.verified == identity.verified,
        identity@.attributes.contains_key(key) == identity.attributes@.contains_key(key),
        identity.attributes@.contains_key(key) ==> identity@.attributes[key]
            == identity.attributes@[key]@,
        overrides@.audience == overrides.audience.deep_view(),
        overrides@.resource == overrides.resource.deep_view(),
        request@.token_url == request.token_url@,
        request@.timeout_ms == request.timeout_ms,
        request@.form == request.form.deep_view(),
        response@.access_token == response.access_token@,
        response@.token_type == response.token_type@,
        response@.expires_in == response.expires_in,
        response@.issued_token_type == response.issued_token_type.deep_view(),
        credential@.value == credential.value.deep_view(),
        credential@.parts.contains_key(key) == credential.parts@.contains_key(key),
        credential.parts@.contains_key(key) ==> credential@.parts[key] == credential.parts@[key]@,
        credential@.ttl_seconds == credential.ttl_seconds,
        credential@.lease_id == credential.lease_id.deep_view(),
        credential@.issued_at == credential.issued_at@,
        credential@.metadata.contains_key(key) == credential.metadata@.contains_key(key),
        credential.metadata@.contains_key(key) ==> credential@.metadata[key]
            == credential.metadata@[key]@,
{
}

/// An entry that is listed later takes the place of an earlier one of its key and leaves the
/// others as they are; where nothing is listed there is no key.
pub proof fn later_entries_count<V>(
    listing: Seq<(Seq<char>, V)>,
    key: Seq<char>,
    value: V,
    other: Seq<char>,
)
    ensures
        !crate::str_map::as_map(Seq::<(Seq<char>, V)>::empty()).contains_key(key),
        ({
            let before = crate::str_map::as_map(listing);
            let after = crate::str_map::as_map(listing.push((key, value)));
            &&& after.contains_key(key) && after[key] == value
            &&& other != key ==> after.contains_key(other) == before.contains_key(other)
            &&& other != key && before.contains_key(other) ==> after[other] == before[other]
        }),
{
    assert(listing.push((key, value)).drop_last() =~= listing);
}

/// Of the entries of one key the last one counts, and a key that is not listed is not there.
pub proof fn last_entry_of_a_key_counts<V>(
    listing: Seq<(Seq<char>, V)>,
    at: int,
    absent: Seq<char>,
)
    ensures
        0 <= at < listing.len() && (forall|i: int|
            at < i < listing.len() ==> (#[trigger] listing[i]).0 != listing[at].0)
            ==> crate::str_map::as_map(listing).contains_key(listing[at].0)
            && crate::str_map::as_map(listing)[listing[at].0] == listing[at].1,
        (forall|i: int| 0 <= i < listing.len() ==> (#[trigger] listing[i]).0 != absent)
            ==> !crate::str_map::as_map(listing).contains_key(absent),
    decreases listing.len(),
{
    if listing.len() > 0 {
        let front = listing.drop_last();
        last_entry_of_a_key_counts(front, at, absent);
        assert(forall|i: int| 0 <= i < front.len() ==> #[trigger] front[i] == listing[i]);
        assert(listing.last() == listing[listing.len() - 1]);
    }
}

/// The members that a list stands for: where there is no list there are none, and otherwise every
/// name that is listed has the text that the last member of that name has.
pub proof fn members_are_those_listed(
    list: Vec<(String, Option<String>)>,
    at: int,
    absent: Seq<char>,
)
    ensures
        crate::outside::members_listed(None) is None,
        crate::outside::members_listed(Some(list)) is Some,
        0 <= at < list@.len() && (forall|i: int|
            at < i < list@.len() ==> (#[trigger] list@[i]).0@ != list@[at].0@) ==> {
            let members = crate::outside::members_listed(Some(list))->0;
            members.contains_key(list@[at].0@) && members[list@[at].0@] == list@[at].1.deep_view()
        },
        (forall|i: int| 0 <= i < list@.len() ==> (#[trigger] list@[i]).0@ != absent)
            ==> !crate::outside::members_listed(Some(list))->0.contains_key(absent),
{
    let listing = list.deep_view();
    assert(forall|i: int|
        0 <= i < list@.len() ==> #[trigger] listing[i] == (list@[i].0@, list@[i].1.deep_view()));
    last_entry_of_a_key_counts(listing, at, absent);
}

/// What a map holds is what it lists: every listed key with the value beside it, in the order of
/// the keys, and no key besides.
pub proof fn maps_hold_what_they_list<V>(map: crate::str_map::StrMap<V>, i: int, j: int)
    requires
        map.wf(),
    ensures
        0 <= i < map.listing().len() ==> map@.contains_key(map.listing()[i].0)
            && map@[map.listing()[i].0] == map.listing()[i].1,
        0 <= i < j < map.listing().len() ==> crate::str_map::text_before(
            map.listing()[i].0,
            map.listing()[j].0,
        ),
        map@.dom().finite() && map@.len() == map.listing().len(),
{
    crate::str_map::map_holds_listing(map.listing());
}

/// Only what decodes and keeps its rules is taken into use; what does not decode is refused in
/// the decoder's words, and what breaks a rule with that rule.
pub proof fn only_faultless_configs_are_taken(config: TokenExchangeConfig, detail: String)
    ensures
        crate::config::refusal_of(Err(detail)) == Some(ConfigFault::InvalidJson(detail@)),
        crate::config::refusal_of(Ok(config)) is None <==> config@.fault() is None,
        config@.fault() is Some ==> crate::config::refusal_of(Ok(config)) == config@.fault(),
{
}

/// The form of an exchange, field by field, on the provider and the subject token: the five fields
/// that every exchange has, and behind them the client secret where it is not empty, the scopes
/// where there are any, the audience and the resource where the provider has them.
pub proof fn forms_field_by_field(provider: Provider, token: Seq<char>, token_type: Seq<char>)
    ensures
        ({
            let form = crate::issue::form_fields(provider, token, token_type);
            let secrets: int = if provider.client_secret is Some
                && provider.client_secret->0.len() > 0 {
                1
            } else {
                0
            };
            let scopes: int = if provider.scopes.len() > 0 {
                1
            } else {
                0
            };
            let audiences: int = if provider.audience is Some {
                1
            } else {
                0
            };
            let resources: int = if provider.resource is Some {
                1
            } else {
                0
            };
            &&& form.len() == 5 + secrets + scopes + audiences + resources
            &&& form[0] == ("grant_type"@, "urn:ietf:params:oauth:grant-type:token-exchange"@)
            &&& form[1] == ("subject_token"@, token)
            &&& form[2] == ("subject_token_type"@, token_type)
            &&& form[3] == ("requested_token_type"@, provider.requested_token_type)
            &&& form[4] == ("client_id"@, provider.client_id)
            &&& secrets == 1 ==> form[5] == ("client_secret"@, provider.client_secret->0)
            &&& scopes == 1 ==> form[5 + secrets] == (
                "scope"@,
                crate::text::joined(provider.scopes, " "@),
            )
            &&& audiences == 1 ==> form[5 + secrets + scopes] == (
                "audience"@,
                provider.audience->0,
            )
            &&& resources == 1 ==> form[5 + secrets + scopes + audiences] == (
                "resource"@,
                provider.resource->0,
            )
        }),
{
}

/// An answer carries a token where its status is from 200 to 299, and an error otherwise.
pub proof fn successes_carry_tokens(status: u16)
    ensures
        crate::reply::read_as(status) == ReplyKind::Token <==> 200 <= status && status <= 299,
        crate::reply::read_as(status) == ReplyKind::Error <==> status < 200 || status > 299,
{
}

/// The reason for a refused exchange tells the status and the provider as they are given, and the
/// code exactly where it is one of the six standard ones.
pub proof fn reasons_tell_standard_codes_alone(
    provider_name: Seq<char>,
    status_line: Seq<char>,
    code: Seq<char>,
)
    ensures
        ({
            let start = "token-exchange endpoint returned HTTP "@ + status_line + " for `"@
                + provider_name;
            let standard = code == "invalid_request"@ || code == "invalid_client"@ || code
                == "invalid_grant"@ || code == "unauthorized_client"@ || code
                == "unsupported_grant_type"@ || code == "invalid_scope"@;
            &&& crate::reply::is_standard_code(code) == standard
            &&& crate::reply::error_reason(provider_name, status_line, None) == start + "`"@
            &&& standard ==> crate::reply::error_reason(provider_name, status_line, Some(code))
                == start + "` (error: "@ + code + ")"@
            &&& !standard ==> crate::reply::error_reason(provider_name, status_line, Some(code))
                == start + "`"@
        }),
{
}

/// How an exchange ends: a token makes a credential that lasts as the endpoint says; a refused
/// exchange is classed by its status; an endpoint that was not reached, or whose token did not
/// decode, is at fault itself, in the words of the transport or the decoder.
pub proof fn exchanges_end_as_the_endpoint_says(
    provider_name: Seq<char>,
    response: TokenExchangeResponse,
    status: u16,
    body: Option<String>,
    detail: String,
    issued_at: Seq<char>,
)
    ensures
        crate::reply::concluded(provider_name, ExchangeReply::Token(response), issued_at) matches Ok(
            credential,
        ) && {
            &&& response.expires_in matches Some(s) ==> credential.ttl_seconds == s
            &&& response.expires_in is None ==> credential.ttl_seconds == 3600
            &&& credential.value == Some(response.access_token@)
            &&& credential.issued_at == issued_at
        },
        crate::reply::concluded(
            provider_name,
            ExchangeReply::Refused { status, body },
            issued_at,
        ) matches Err(refusal) && {
            &&& refusal is Throttled <==> status == 429
            &&& refusal is Misconfigured <==> 400 <= status && status <= 499 && status != 429
            &&& refusal is Backend <==> status < 400 || status > 499
        },
        crate::reply::concluded(provider_name, ExchangeReply::Unreachable(detail), issued_at)
            matches Err(refusal) && refusal == (Refusal::Backend {
            reason: "token-exchange endpoint unreachable for `"@ + provider_name + "`: "@ + detail@,
        }),
        crate::reply::concluded(provider_name, ExchangeReply::Undecodable(detail), issued_at)
            matches Err(refusal) && refusal == (Refusal::Backend {
            reason: "failed to parse token-exchange response for `"@ + provider_name + "`: "@
                + detail@,
        }),
{
}

/// What stands in a manifest stands in what the contracts say of it, every field under its own
/// name.
pub proof fn manifest_view_holds_every_field(manifest: Manifest)
    ensures
        manifest@.id == manifest.id@,
        manifest@.version == manifest.version@,
        manifest@.name == manifest.name@,
        manifest@.plugin_class == manifest.plugin_class,
        manifest@.protocol_version == manifest.protocol_version@,
        manifest@.license == manifest.license.deep_view(),
        manifest@.required_capabilities == manifest.required_capabilities.deep_view(),
        manifest@.tags == manifest.tags.deep_view(),
        manifest@.provides == manifest.provides.deep_view(),
        manifest@.provides_schemes == manifest.provides_schemes.deep_view(),
        manifest@.module_path_prefix == manifest.module_path_prefix@,
        manifest@.backend_profile == manifest.backend_profile.deep_view(),
{
}

} // verus!
