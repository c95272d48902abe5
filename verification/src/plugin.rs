//! The issuer as a host holds it: a validated configuration and what it tells of itself.
use vstd::prelude::*;

use crate::config::Config;
use crate::config::TokenExchangeConfig;
use crate::issue::plan_issue;
use crate::issue::CallConfig;
use crate::issue::CallerIdentity;
use crate::issue::CredentialError;
use crate::issue::ExchangeRequest;
use crate::text::chars_of;

verus! {

/// The identifier of the issuer.
pub const PLUGIN_ID: &'static str = "dev.mcpg.credential.oauth-token-exchange";

/// What a plugin is to its host.
#[derive(Debug, Clone, Copy, PartialEq, Eq, Structural)]
pub enum PluginClass {
    /// It issues credentials.
    CredentialIssuer,
}

/// What the issuer tells a host of itself.
#[derive(Debug, PartialEq)]
pub struct Manifest {
    pub id: String,
    pub version: String,
    pub name: String,
    pub plugin_class: PluginClass,
    pub protocol_version: String,
    pub license: Option<String>,
    pub required_capabilities: Vec<String>,
    pub tags: Vec<String>,
    pub provides: Vec<String>,
    pub provides_schemes: Vec<String>,
    pub module_path_prefix: String,
    pub backend_profile: Option<String>,
}

/// What a [`Manifest`] holds.
#[verifier::ext_equal]
pub struct ManifestText {
    pub id: Seq<char>,
    pub version: Seq<char>,
    pub name: Seq<char>,
    pub plugin_class: PluginClass,
    pub protocol_version: Seq<char>,
    pub license: Option<Seq<char>>,
    pub required_capabilities: Seq<Seq<char>>,
    pub tags: Seq<Seq<char>>,
    pub provides: Seq<Seq<char>>,
    pub provides_schemes: Seq<Seq<char>>,
    pub module_path_prefix: Seq<char>,
    pub backend_profile: Option<Seq<char>>,
}

impl View for Manifest {
    type V = ManifestText;

    open spec fn view(&self) -> ManifestText {
        ManifestText {
            id: self.id@,
            version: self.version@,
            name: self.name@,
            plugin_class: self.plugin_class,
            protocol_version: self.protocol_version@,
            license: self.license.deep_view(),
            required_capabilities: self.required_capabilities.deep_view(),
            tags: self.tags.deep_view(),
            provides: self.provides.deep_view(),
            provides_schemes: self.provides_schemes.deep_view(),
            module_path_prefix: self.module_path_prefix@,
            backend_profile: self.backend_profile.deep_view(),
        }
    }
}

/// The part of a module path before the first `::`.
pub open spec fn crate_of(path: Seq<char>) -> Seq<char>
    decreases path.len(),
{
    if path.len() == 0 || "::"@.is_prefix_of(path) {
        Seq::empty()
    } else {
        seq![path[0]] + crate_of(path.skip(1))
    }
}

fn first_segment(path: &str) -> (segment: &str)
    ensures
        segment@ == crate_of(path@),
{
    let chars = chars_of(path);
    let mut n: usize = 0;
    proof {
        reveal_strlit("::");
        assert(path@.skip(0) =~= path@);
    }
    while n < chars.len() && !(chars[n] == ':' && n + 1 < chars.len() && chars[n + 1] == ':')
        invariant
            chars@ == path@,
            n <= chars@.len(),
            "::"@.len() == 2,
            "::"@[0] == ':',
            "::"@[1] == ':',
            crate_of(path@) =~= path@.take(n as int) + crate_of(path@.skip(n as int)),
        decreases chars@.len() - n,
    {
        let ghost rest = path@.skip(n as int);
        assert(!"::"@.is_prefix_of(rest)) by {
            if "::"@.is_prefix_of(rest) {
                assert(rest.subrange(0, 2)[0] == ':' && rest.subrange(0, 2)[1] == ':');
            }
        }
        assert(rest.skip(1) =~= path@.skip(n + 1));
        assert(path@.take(n + 1) =~= path@.take(n as int) + seq![rest[0]]);
        n += 1;
    }
    proof {
        let rest = path@.skip(n as int);
        if n < chars@.len() {
            assert("::"@ =~= rest.subrange(0, 2));
        }
        assert(path@.subrange(0, n as int) =~= path@.take(n as int));
    }
    path.substring_char(0, n)
}

/// The issuer.
#[derive(Debug)]
pub struct OAuthTokenExchangePlugin {
    manifest: Manifest,
    config: TokenExchangeConfig,
}

impl OAuthTokenExchangePlugin {
    /// What the issuer tells of itself.
    pub closed spec fn told(&self) -> ManifestText {
        self.manifest@
    }

    /// The configuration that the issuer works with.
    pub closed spec fn configured(&self) -> Config {
        self.config@
    }

    /// The configuration keeps its rules.
    #[verifier::type_invariant]
    pub open spec fn wf(self) -> bool {
        self.configured().fault() is None
    }
}

/// The manifest of this issuer, in a version and from a module.
pub open spec fn manifest_text(version: Seq<char>, module: Seq<char>) -> ManifestText {
    ManifestText {
        id: PLUGIN_ID@,
        version,
        name: "OAuth 2.0 Token Exchange Issuer"@,
        plugin_class: PluginClass::CredentialIssuer,
        protocol_version: "1.0"@,
        license: None,
        required_capabilities: Seq::empty(),
        tags: Seq::empty(),
        provides: Seq::empty(),
        provides_schemes: Seq::empty(),
        module_path_prefix: crate_of(module),
        backend_profile: None,
    }
}

/// What is said when a configuration is refused.
pub open spec fn refusal_to_load(fault: crate::config::ConfigFault) -> Seq<char> {
    "oauth-token-exchange config parse failed: "@ + crate::config::fault_message(fault)
        + ". A misconfigured credential issuer is a security hole; refusing to load."@
}

impl OAuthTokenExchangePlugin {
    /// The issuer for a decoded configuration, or what to say when it must not be loaded.
    pub fn from_config_json(
        decoded: Result<TokenExchangeConfig, String>,
        version: &str,
        module: &str,
    ) -> (result: Result<Self, String>)
        ensures
            result is Ok <==> crate::config::refusal_of(decoded) is None,
            result matches Err(said) ==> said@ == refusal_to_load(
                crate::config::refusal_of(decoded)->0,
            ),
            decoded matches Err(detail) ==> (result matches Err(said) && said@ == refusal_to_load(
                crate::config::ConfigFault::InvalidJson(detail@),
            )),
            decoded matches Ok(config) ==> match config@.fault() {
                Some(fault) => result matches Err(said) && said@ == refusal_to_load(fault),
                None => {
                    &&& result matches Ok(plugin)
                    &&& plugin.configured() == config@
                    &&& plugin.told() == manifest_text(version@, module@)
                },
            },
    {
        match TokenExchangeConfig::parse(decoded) {
            Ok(config) => Ok(Self::from_validated_config(config, version, module)),
            Err(error) => {
                let mut said = "oauth-token-exchange config parse failed: ".to_owned();
                said.append(error.message().as_str());
                said.append(
                    ". A misconfigured credential issuer is a security hole; refusing to load.",
                );
                Err(said)
            },
        }
    }

    /// The issuer for a configuration that keeps its rules.
    pub fn from_validated_config(
        config: TokenExchangeConfig,
        version: &str,
        module: &str,
    ) -> (plugin: Self)
        requires
            config@.fault() is None,
        ensures
            plugin.configured() == config@,
            plugin.told() == manifest_text(version@, module@),
            plugin.wf(),
    {
        let manifest = Manifest {
            id: PLUGIN_ID.to_owned(),
            version: version.to_owned(),
            name: "OAuth 2.0 Token Exchange Issuer".to_owned(),
            plugin_class: PluginClass::CredentialIssuer,
            protocol_version: "1.0".to_owned(),
            license: None,
            required_capabilities: Vec::new(),
            tags: Vec::new(),
            provides: Vec::new(),
            provides_schemes: Vec::new(),
            module_path_prefix: first_segment(module).to_owned(),
            backend_profile: None,
        };
        assert(manifest@ =~= manifest_text(version@, module@));
        OAuthTokenExchangePlugin { manifest, config }
    }

    /// What the issuer tells of itself.
    pub fn manifest(&self) -> (manifest: &Manifest)
        ensures
            manifest@ == self.told(),
    {
        &self.manifest
    }

    /// The configuration that the issuer works with.
    pub fn config(&self) -> (config: &TokenExchangeConfig)
        ensures
            config@ == self.configured(),
            config@.fault() is None,
    {
        proof {
            use_type_invariant(self);
        }
        &self.config
    }

    /// Plans the exchange for a caller's wish for a token of `target`. What is planned goes to an
    /// HTTP endpoint, within a time limit between a tenth of a second and a minute.
    pub fn plan(
        &self,
        identity: &CallerIdentity,
        target: &str,
        call_config: CallConfig,
    ) -> (result: Result<ExchangeRequest, CredentialError>)
        ensures
            crate::issue::plan_of(result) == crate::issue::planned(
                self.configured(),
                identity@,
                target@,
                call_config,
            ),
            result matches Ok(request) ==> {
                &&& crate::config::has_http_scheme(request@.token_url)
                &&& 100 <= request@.timeout_ms <= 60_000
            },
    {
        let result = plan_issue(&self.config, identity, target, call_config);
        proof {
            use_type_invariant(self);
            if result is Ok {
                crate::issue::faultless_config_plans_sound_requests(
                    self.configured(),
                    identity@,
                    target@,
                    call_config,
                );
            }
        }
        result
    }
}

/// The prefix of a module path holds no `::`.
pub proof fn crate_name_holds_no_separator(path: Seq<char>, at: int)
    requires
        0 <= at < crate_of(path).len(),
    ensures
        !"::"@.is_prefix_of(crate_of(path).skip(at)),
    decreases path.len(),
{
    reveal_strlit("::");
    let name = crate_of(path);
    let rest = crate_of(path.skip(1));
    assert(name.skip(1) =~= rest);
    if at > 0 {
        crate_name_holds_no_separator(path.skip(1), at - 1);
        assert(name.skip(at) =~= rest.skip(at - 1));
    } else if "::"@.is_prefix_of(name.skip(0)) {
        assert(name.skip(0) =~= name);
        assert(name.subrange(0, 2)[0] == ':' && name.subrange(0, 2)[1] == ':');
        assert(rest[0] == path.skip(1)[0]);
        assert(path[0] == ':' && path[1] == ':');
        assert("::"@ =~= path.subrange(0, 2));
    }
}

} // verus!
