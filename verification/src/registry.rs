//! Resolving model roles to fully configured models.
use vstd::prelude::*;
use vstd::string::{StrSliceExecFns, StringExecFns};

use crate::config::{ModelEntry, ProviderEntry, TomlConfig};
use crate::manifest::{ModelConfig, Provider, Temperature};
use crate::strmap::Env;
use crate::text::{chars_of, find, find_from, parse_u32, push_char, spec_parse_u32, str_eq};

verus! {

// ── Built-in defaults ─────────────────────────────────────────────────────────

/// The built-in temperature of a role: 1.0 for `thinker`, 0.0 for `worker`,
/// 0.8 for `default` (as `f64` bit patterns), none for other roles.
pub open spec fn spec_role_default_temperature(role: Seq<char>) -> Option<Temperature> {
    if role == "thinker"@ {
        Some(Temperature { bits: 0x3ff0_0000_0000_0000 })
    } else if role == "worker"@ {
        Some(Temperature { bits: 0 })
    } else if role == "default"@ {
        Some(Temperature { bits: 0x3fe9_9999_9999_999a })
    } else {
        None
    }
}

/// The built-in temperature of a role.
pub fn role_default_temperature(role: &str) -> (r: Option<Temperature>)
    ensures
        r == spec_role_default_temperature(role@),
{
    proof {
        reveal_strlit("thinker");
        reveal_strlit("worker");
        reveal_strlit("default");
    }
    if str_eq(role, "thinker") {
        Some(Temperature { bits: 0x3ff0_0000_0000_0000 })
    } else if str_eq(role, "worker") {
        Some(Temperature { bits: 0 })
    } else if str_eq(role, "default") {
        Some(Temperature { bits: 0x3fe9_9999_9999_999a })
    } else {
        None
    }
}

/// Which role a pattern uses when no `model:` is set: `react` uses
/// `thinker`, every other pattern `worker` (a role that is not defined
/// falls back to `default` when the model is resolved).
pub open spec fn spec_pattern_default_role(pattern: Seq<char>) -> Seq<char> {
    if pattern == "react"@ {
        "thinker"@
    } else {
        "worker"@
    }
}

/// Pattern default role: which role to use when no `model:` is set in frontmatter.
pub fn pattern_default_role(pattern: &str) -> (r: &'static str)
    ensures
        r@ == spec_pattern_default_role(pattern@),
{
    if str_eq(pattern, "react") {
        "thinker"
    } else {
        "worker"
    }
}

/// The environment variable that holds a provider's API key.
pub open spec fn spec_provider_api_key_env(p: Provider) -> Seq<char> {
    match p {
        Provider::Anthropic => "ANTHROPIC_API_KEY"@,
        Provider::OpenAi => "OPENAI_API_KEY"@,
        Provider::Google => "GEMINI_API_KEY"@,
        Provider::Ollama => Seq::empty(),
    }
}

/// The environment variable that holds a provider's API key. Ollama needs none.
pub fn provider_api_key_env(provider: &Provider) -> (r: &'static str)
    requires
        *provider != Provider::Ollama,
    ensures
        r@ == spec_provider_api_key_env(*provider),
{
    match provider {
        Provider::Anthropic => "ANTHROPIC_API_KEY",
        Provider::OpenAi => "OPENAI_API_KEY",
        Provider::Google => "GEMINI_API_KEY",
        Provider::Ollama => "",
    }
}

/// A provider's name in upper case, as used in environment variable names.
pub open spec fn spec_provider_upper(p: Provider) -> Seq<char> {
    match p {
        Provider::Anthropic => "ANTHROPIC"@,
        Provider::OpenAi => "OPENAI"@,
        Provider::Google => "GOOGLE"@,
        Provider::Ollama => "OLLAMA"@,
    }
}

fn provider_upper(p: Provider) -> (r: &'static str)
    ensures
        r@ == spec_provider_upper(p),
{
    match p {
        Provider::Anthropic => "ANTHROPIC",
        Provider::OpenAi => "OPENAI",
        Provider::Google => "GOOGLE",
        Provider::Ollama => "OLLAMA",
    }
}

// ── Model specs ───────────────────────────────────────────────────────────────

/// Why a `provider:model` spec is rejected.
#[derive(Debug, Clone, PartialEq, Eq)]
pub enum ModelSpecError {
    /// No `:` in the spec.
    MissingColon(String),
    /// Nothing after the `:`.
    EmptyModel(String),
    /// The part before the `:` names no provider.
    UnknownProvider(String),
}

impl ModelSpecError {
    /// The message the error is reported with.
    pub open spec fn spec_message(&self) -> Seq<char> {
        match self {
            ModelSpecError::MissingColon(s) => "invalid model spec '"@ + s@
                + "': expected 'provider:model'"@,
            ModelSpecError::EmptyModel(s) => "model name cannot be empty in '"@ + s@ + "'"@,
            ModelSpecError::UnknownProvider(p) => "unknown provider '"@ + p@
                + "': supported providers: anthropic, openai, google, ollama"@,
        }
    }

    /// The message the error is reported with.
    pub fn message(&self) -> (m: String)
        ensures
            m@ == self.spec_message(),
    {
        match self {
            ModelSpecError::MissingColon(s) => {
                let mut m = String::from_str("invalid model spec '");
                m.append(s.as_str());
                m.append("': expected 'provider:model'");
                m
            },
            ModelSpecError::EmptyModel(s) => {
                let mut m = String::from_str("model name cannot be empty in '");
                m.append(s.as_str());
                m.append("'");
                m
            },
            ModelSpecError::UnknownProvider(p) => {
                let mut m = String::from_str("unknown provider '");
                m.append(p.as_str());
                m.append("': supported providers: anthropic, openai, google, ollama");
                m
            },
        }
    }
}

/// The provider a name stands for.
pub open spec fn provider_named(s: Seq<char>) -> Option<Provider> {
    if s == "anthropic"@ {
        Some(Provider::Anthropic)
    } else if s == "openai"@ {
        Some(Provider::OpenAi)
    } else if s == "google"@ {
        Some(Provider::Google)
    } else if s == "ollama"@ {
        Some(Provider::Ollama)
    } else {
        None
    }
}

/// The mathematical value of a model-spec error.
pub ghost enum ModelSpecErrorV {
    MissingColon(Seq<char>),
    EmptyModel(Seq<char>),
    UnknownProvider(Seq<char>),
}

impl View for ModelSpecError {
    type V = ModelSpecErrorV;

    open spec fn view(&self) -> ModelSpecErrorV {
        match self {
            ModelSpecError::MissingColon(s) => ModelSpecErrorV::MissingColon(s@),
            ModelSpecError::EmptyModel(s) => ModelSpecErrorV::EmptyModel(s@),
            ModelSpecError::UnknownProvider(s) => ModelSpecErrorV::UnknownProvider(s@),
        }
    }
}

/// `provider:model` split at the first `:`. The model may itself contain
/// colons (`ollama:qwen2.5:14b` is model `qwen2.5:14b`).
pub open spec fn spec_parse_provider_model(s: Seq<char>) -> Result<
    (Provider, Seq<char>),
    ModelSpecErrorV,
> {
    match find(s, seq![':']) {
        None => Err(ModelSpecErrorV::MissingColon(s)),
        Some(i) => {
            let model = s.skip(i + 1);
            if model.len() == 0 {
                Err(ModelSpecErrorV::EmptyModel(s))
            } else {
                match provider_named(s.take(i)) {
                    Some(p) => Ok((p, model)),
                    None => Err(ModelSpecErrorV::UnknownProvider(s.take(i))),
                }
            }
        },
    }
}

/// Parses `provider:model-name` into the provider and the bare model name.
pub fn parse_provider_model(s: &str) -> (r: Result<(Provider, String), ModelSpecError>)
    ensures
        match r {
            Ok((p, m)) => spec_parse_provider_model(s@) == Ok::<
                (Provider, Seq<char>),
                ModelSpecErrorV,
            >((p, m@)),
            Err(e) => spec_parse_provider_model(s@) == Err::<(Provider, Seq<char>), ModelSpecErrorV>(
                e@,
            ),
        },
{
    let v = chars_of(s);
    let colon = vec![':'];
    assert(colon@ =~= seq![':']);
    assert(v@.skip(0) =~= v@);
    match find_from(&v, &colon, 0) {
        None => Err(ModelSpecError::MissingColon(s.to_owned())),
        Some(i) => {
            proof {
                crate::text::lemma_find_matches(v@, seq![':']);
            }
            let provider_str = s.substring_char(0, i);
            let model = s.substring_char(i + 1, v.len());
            assert(model@ =~= s@.skip(i + 1));
            assert(provider_str@ =~= s@.take(i as int));
            if model.unicode_len() == 0 {
                return Err(ModelSpecError::EmptyModel(s.to_owned()));
            }
            proof {
                reveal_strlit("anthropic");
                reveal_strlit("openai");
                reveal_strlit("google");
                reveal_strlit("ollama");
            }
            let provider = if str_eq(provider_str, "anthropic") {
                Provider::Anthropic
            } else if str_eq(provider_str, "openai") {
                Provider::OpenAi
            } else if str_eq(provider_str, "google") {
                Provider::Google
            } else if str_eq(provider_str, "ollama") {
                Provider::Ollama
            } else {
                return Err(ModelSpecError::UnknownProvider(provider_str.to_owned()));
            };
            Ok((provider, model.to_owned()))
        },
    }
}

// ── Environment names ─────────────────────────────────────────────────────────

/// What `str::to_uppercase` gives for a text.
pub uninterp spec fn uppercase(s: Seq<char>) -> Seq<char>;

/// Calls `str::to_uppercase`; the result is named, not described.
#[verifier::external_body]
pub(crate) fn to_uppercase(s: &str) -> (r: String)
    ensures
        r@ == uppercase(s@),
{
    s.to_uppercase()
}

/// `s` with every `-` replaced by `_`.
pub open spec fn dashes_to_underscores(s: Seq<char>) -> Seq<char> {
    s.map_values(|c: char| if c == '-' { '_' } else { c })
}

/// The upper-case form of a role used in environment variable names
/// (`my-role` becomes `MY_ROLE`).
pub open spec fn spec_role_upper(role: Seq<char>) -> Seq<char> {
    dashes_to_underscores(uppercase(role))
}

/// The upper-case form of a role used in environment variable names.
pub fn role_upper(role: &str) -> (r: String)
    ensures
        r@ == spec_role_upper(role@),
{
    let up = to_uppercase(role);
    let v = chars_of(up.as_str());
    let mut r = String::new();
    let mut i: usize = 0;
    while i < v.len()
        invariant
            i <= v.len(),
            v@ == uppercase(role@),
            r@ == dashes_to_underscores(v@.take(i as int)),
        decreases v.len() - i,
    {
        let c = v[i];
        if c == '-' {
            push_char(&mut r, '_');
        } else {
            push_char(&mut r, c);
        }
        i += 1;
        assert(r@ =~= dashes_to_underscores(v@.take(i as int)));
    }
    assert(v@.take(v.len() as int) =~= v@);
    r
}

/// `TAMA_MODEL_{ROLE}_{SUFFIX}`.
pub open spec fn role_var(upper: Seq<char>, suffix: Seq<char>) -> Seq<char> {
    "TAMA_MODEL_"@ + upper + "_"@ + suffix
}

/// Builds `TAMA_MODEL_{ROLE}_{SUFFIX}` from the upper-case role.
pub fn role_var_name(upper: &str, suffix: &str) -> (r: String)
    ensures
        r@ == role_var(upper@, suffix@),
{
    let mut r = String::from_str("TAMA_MODEL_");
    r.append(upper);
    r.append("_");
    r.append(suffix);
    r
}

/// `TAMA_PROVIDER_{PROVIDER}_{SUFFIX}`.
pub open spec fn provider_var(p: Provider, suffix: Seq<char>) -> Seq<char> {
    "TAMA_PROVIDER_"@ + spec_provider_upper(p) + "_"@ + suffix
}

fn provider_var_name(p: Provider, suffix: &str) -> (r: String)
    ensures
        r@ == provider_var(p, suffix@),
{
    let mut r = String::from_str("TAMA_PROVIDER_");
    r.append(provider_upper(p));
    r.append("_");
    r.append(suffix);
    r
}

/// The value of a variable in an environment snapshot.
pub open spec fn env_value(env: Map<Seq<char>, Seq<char>>, name: Seq<char>) -> Option<Seq<char>> {
    if env.contains_key(name) {
        Some(env[name])
    } else {
        None
    }
}

/// The views of an optional string.
pub open spec fn opt_view(o: Option<String>) -> Option<Seq<char>> {
    match o {
        Some(s) => Some(s@),
        None => None,
    }
}

/// The first of two optional values that is present.
pub open spec fn or_else<T>(a: Option<T>, b: Option<T>) -> Option<T> {
    match a {
        Some(x) => Some(x),
        None => b,
    }
}

// ── Resolved models ───────────────────────────────────────────────────────────

/// Fully resolved, immutable model config, ready to build an LLM client.
#[derive(Debug)]
pub struct ResolvedModel {
    pub role: String,
    pub provider: Provider,
    /// Bare model name passed to the LLM provider (no prefix).
    pub model_name: String,
    pub temperature: Option<Temperature>,
    pub max_tokens: Option<u32>,
    /// API key (always present; Ollama uses the dummy value "ollama").
    pub api_key: String,
    /// Custom base URL for self-hosted / proxy endpoints. None = provider default.
    pub base_url: Option<String>,
}

/// The mathematical value of a resolved model.
pub ghost struct ResolvedModelV {
    pub role: Seq<char>,
    pub provider: Provider,
    pub model_name: Seq<char>,
    pub temperature: Option<Temperature>,
    pub max_tokens: Option<u32>,
    pub api_key: Seq<char>,
    pub base_url: Option<Seq<char>>,
}

impl View for ResolvedModel {
    type V = ResolvedModelV;

    open spec fn view(&self) -> ResolvedModelV {
        ResolvedModelV {
            role: self.role@,
            provider: self.provider,
            model_name: self.model_name@,
            temperature: self.temperature,
            max_tokens: self.max_tokens,
            api_key: self.api_key@,
            base_url: opt_view(self.base_url),
        }
    }
}

fn clone_opt_string(o: &Option<String>) -> (r: Option<String>)
    ensures
        opt_view(r) == opt_view(*o),
{
    match o {
        Some(s) => Some(s.clone()),
        None => None,
    }
}

impl ResolvedModel {
    /// A copy of the model.
    pub fn duplicate(&self) -> (r: ResolvedModel)
        ensures
            r@ == self@,
    {
        ResolvedModel {
            role: self.role.clone(),
            provider: self.provider,
            model_name: self.model_name.clone(),
            temperature: self.temperature,
            max_tokens: self.max_tokens,
            api_key: self.api_key.clone(),
            base_url: clone_opt_string(&self.base_url),
        }
    }
}

/// Why a role of `[models]` cannot be configured.
#[derive(Debug, Clone, PartialEq, Eq)]
pub enum RoleError {
    /// The role's model spec is malformed.
    InvalidSpec { spec: String, cause: ModelSpecError },
    /// No API key for the role's provider; `upper` is the role in upper case.
    MissingApiKey { role: String, upper: String, provider: Provider },
}

/// The mathematical value of a role error.
pub ghost enum RoleErrorV {
    InvalidSpec { spec: Seq<char>, cause: ModelSpecErrorV },
    MissingApiKey { role: Seq<char>, upper: Seq<char>, provider: Provider },
}

impl View for RoleError {
    type V = RoleErrorV;

    open spec fn view(&self) -> RoleErrorV {
        match self {
            RoleError::InvalidSpec { spec, cause } => RoleErrorV::InvalidSpec {
                spec: spec@,
                cause: cause@,
            },
            RoleError::MissingApiKey { role, upper, provider } => RoleErrorV::MissingApiKey {
                role: role@,
                upper: upper@,
                provider: *provider,
            },
        }
    }
}

/// The API key of a role: none needed for Ollama; otherwise the role's own
/// `TAMA_MODEL_{ROLE}_API_KEY`, then the provider's standard variable.
pub open spec fn role_api_key(
    env: Map<Seq<char>, Seq<char>>,
    upper: Seq<char>,
    p: Provider,
) -> Option<Seq<char>> {
    if p == Provider::Ollama {
        Some("ollama"@)
    } else {
        or_else(
            env_value(env, role_var(upper, "API_KEY"@)),
            env_value(env, spec_provider_api_key_env(p)),
        )
    }
}

/// The base URL of a role, by priority: the role's own variable, the
/// provider-wide variable, the entry, the provider's table in `tama.toml`.
pub open spec fn role_base_url(
    env: Map<Seq<char>, Seq<char>>,
    upper: Seq<char>,
    p: Provider,
    entry_base_url: Option<Seq<char>>,
    providers: Seq<(String, ProviderEntry)>,
) -> Option<Seq<char>> {
    or_else(
        env_value(env, role_var(upper, "BASE_URL"@)),
        or_else(
            env_value(env, provider_var(p, "BASE_URL"@)),
            or_else(entry_base_url, provider_base_url(providers, p.spec_name())),
        ),
    )
}

/// The `base_url` of the first `[providers]` entry with the given name.
pub open spec fn provider_base_url(providers: Seq<(String, ProviderEntry)>, name: Seq<char>) -> Option<
    Seq<char>,
>
    decreases providers.len(),
{
    if providers.len() == 0 {
        None
    } else if providers[0].0@ == name {
        opt_view(providers[0].1.base_url)
    } else {
        provider_base_url(providers.skip(1), name)
    }
}

/// How a role of `[models]` resolves. Model name: environment, then entry.
/// Temperature: environment (parsed by the caller), entry, role default.
/// Token limit: environment, then entry.
pub open spec fn spec_resolve_role(
    role: Seq<char>,
    entry_name: Seq<char>,
    entry_temperature: Option<Temperature>,
    entry_max_tokens: Option<u32>,
    entry_base_url: Option<Seq<char>>,
    providers: Seq<(String, ProviderEntry)>,
    env: Map<Seq<char>, Seq<char>>,
    env_temperature: Option<Temperature>,
) -> Result<ResolvedModelV, RoleErrorV> {
    let upper = spec_role_upper(role);
    let name_str = match env_value(env, role_var(upper, "NAME"@)) {
        Some(n) => n,
        None => entry_name,
    };
    match spec_parse_provider_model(name_str) {
        Err(e) => Err(RoleErrorV::InvalidSpec { spec: name_str, cause: e }),
        Ok((p, model_name)) => {
            let env_max = match env_value(env, role_var(upper, "MAX_TOKENS"@)) {
                Some(t) => spec_parse_u32(t),
                None => None,
            };
            match role_api_key(env, upper, p) {
                None => Err(RoleErrorV::MissingApiKey { role, upper, provider: p }),
                Some(key) => Ok(
                    ResolvedModelV {
                        role,
                        provider: p,
                        model_name,
                        temperature: or_else(
                            env_temperature,
                            or_else(entry_temperature, spec_role_default_temperature(role)),
                        ),
                        max_tokens: or_else(env_max, entry_max_tokens),
                        api_key: key,
                        base_url: role_base_url(env, upper, p, entry_base_url, providers),
                    },
                ),
            }
        },
    }
}

fn env_get(env: &Env, name: &str) -> (r: Option<String>)
    ensures
        opt_view(r) == env_value(env@, name@),
{
    env.get(name)
}

fn providers_base_url(providers: &Vec<(String, ProviderEntry)>, name: &str) -> (r: Option<String>)
    ensures
        opt_view(r) == provider_base_url(providers@, name@),
{
    let mut i: usize = 0;
    assert(providers@.skip(0) =~= providers@);
    while i < providers.len()
        invariant
            i <= providers.len(),
            provider_base_url(providers@, name@) == provider_base_url(
                providers@.skip(i as int),
                name@,
            ),
        decreases providers.len() - i,
    {
        assert(providers@.skip(i as int).skip(1) =~= providers@.skip(i + 1));
        assert(providers@.skip(i as int)[0] == providers@[i as int]);
        if str_eq(providers[i].0.as_str(), name) {
            return clone_opt_string(&providers[i].1.base_url);
        }
        i += 1;
    }
    None
}

/// Resolves one role of `[models]` against the environment.
/// `env_temperature` is the role's `TAMA_MODEL_{ROLE}_TEMPERATURE` variable
/// read as a number by the caller (`None` when unset or not a number).
pub fn resolve_role(
    role: &str,
    entry_name: &str,
    entry_temperature: Option<Temperature>,
    entry_max_tokens: Option<u32>,
    entry_base_url: Option<&str>,
    providers: &Vec<(String, ProviderEntry)>,
    env: &Env,
    env_temperature: Option<Temperature>,
) -> (r: Result<ResolvedModel, RoleError>)
    ensures
        match r {
            Ok(m) => spec_resolve_role(
                role@,
                entry_name@,
                entry_temperature,
                entry_max_tokens,
                match entry_base_url {
                    Some(u) => Some(u@),
                    None => None,
                },
                providers@,
                env@,
                env_temperature,
            ) == Ok::<ResolvedModelV, RoleErrorV>(m@),
            Err(e) => spec_resolve_role(
                role@,
                entry_name@,
                entry_temperature,
                entry_max_tokens,
                match entry_base_url {
                    Some(u) => Some(u@),
                    None => None,
                },
                providers@,
                env@,
                env_temperature,
            ) == Err::<ResolvedModelV, RoleErrorV>(e@),
        },
{
    let upper = role_upper(role);
    let name_var = role_var_name(upper.as_str(), "NAME");
    let name_str = match env_get(env, name_var.as_str()) {
        Some(n) => n,
        None => entry_name.to_owned(),
    };
    let (provider, model_name) = match parse_provider_model(name_str.as_str()) {
        Ok(pm) => pm,
        Err(e) => {
            return Err(RoleError::InvalidSpec { spec: name_str, cause: e });
        },
    };
    let temperature = match env_temperature {
        Some(t) => Some(t),
        None => match entry_temperature {
            Some(t) => Some(t),
            None => role_default_temperature(role),
        },
    };
    let max_var = role_var_name(upper.as_str(), "MAX_TOKENS");
    let env_max = match env_get(env, max_var.as_str()) {
        Some(t) => parse_u32(t.as_str()),
        None => None,
    };
    let max_tokens = match env_max {
        Some(m) => Some(m),
        None => entry_max_tokens,
    };
    let api_key = if provider == Provider::Ollama {
        proof {
            reveal_strlit("ollama");
        }
        String::from_str("ollama")
    } else {
        let key_var = role_var_name(upper.as_str(), "API_KEY");
        match env_get(env, key_var.as_str()) {
            Some(k) => k,
            None => match env_get(env, provider_api_key_env(&provider)) {
                Some(k) => k,
                None => {
                    return Err(
                        RoleError::MissingApiKey { role: role.to_owned(), upper, provider },
                    );
                },
            },
        }
    };
    let url_var = role_var_name(upper.as_str(), "BASE_URL");
    let provider_url_var = provider_var_name(provider, "BASE_URL");
    let base_url = match env_get(env, url_var.as_str()) {
        Some(u) => Some(u),
        None => match env_get(env, provider_url_var.as_str()) {
            Some(u) => Some(u),
            None => match entry_base_url {
                Some(u) => Some(u.to_owned()),
                None => providers_base_url(providers, provider.name()),
            },
        },
    };
    Ok(
        ResolvedModel {
            role: role.to_owned(),
            provider,
            model_name,
            temperature,
            max_tokens,
            api_key,
            base_url,
        },
    )
}


impl RoleError {
    /// The message the error is reported with.
    pub open spec fn spec_message(&self) -> Seq<char> {
        match self {
            RoleError::InvalidSpec { spec, .. } => "invalid model spec '"@ + spec@ + "'"@,
            RoleError::MissingApiKey { role, upper, provider } => "model role '"@ + role@
                + "' (provider: "@ + provider.spec_name() + ") is missing an API key.\n  Set "@
                + role_var(upper@, "API_KEY"@) + " or "@ + spec_provider_api_key_env(*provider)
                + "."@,
        }
    }

    /// The message the error is reported with (the cause of an invalid spec
    /// is reported under it).
    pub fn message(&self) -> (m: String)
        ensures
            m@ == self.spec_message(),
    {
        match self {
            RoleError::InvalidSpec { spec, .. } => {
                let mut m = String::from_str("invalid model spec '");
                m.append(spec.as_str());
                m.append("'");
                m
            },
            RoleError::MissingApiKey { role, upper, provider } => {
                let mut m = String::from_str("model role '");
                m.append(role.as_str());
                m.append("' (provider: ");
                m.append(provider.name());
                m.append(") is missing an API key.\n  Set ");
                let var = role_var_name(upper.as_str(), "API_KEY");
                m.append(var.as_str());
                m.append(" or ");
                if *provider != Provider::Ollama {
                    m.append(provider_api_key_env(provider));
                }
                m.append(".");
                m
            },
        }
    }
}

/// Why a direct `model: name:` spec cannot be used.
#[derive(Debug, Clone, PartialEq, Eq)]
pub enum DirectSpecError {
    InvalidSpec(ModelSpecError),
    MissingApiKey { name: String, provider: Provider },
}

/// The mathematical value of a direct-spec error.
pub ghost enum DirectSpecErrorV {
    InvalidSpec(ModelSpecErrorV),
    MissingApiKey { name: Seq<char>, provider: Provider },
}

impl View for DirectSpecError {
    type V = DirectSpecErrorV;

    open spec fn view(&self) -> DirectSpecErrorV {
        match self {
            DirectSpecError::InvalidSpec(e) => DirectSpecErrorV::InvalidSpec(e@),
            DirectSpecError::MissingApiKey { name, provider } => DirectSpecErrorV::MissingApiKey {
                name: name@,
                provider: *provider,
            },
        }
    }
}

impl DirectSpecError {
    /// The message the error is reported with.
    pub open spec fn spec_message(&self) -> Seq<char> {
        match self {
            DirectSpecError::InvalidSpec(e) => e.spec_message(),
            DirectSpecError::MissingApiKey { name, provider } => "direct model spec '"@ + name@
                + "' is missing an API key.\n  Set "@ + spec_provider_api_key_env(*provider) + "."@,
        }
    }

    /// The message the error is reported with.
    pub fn message(&self) -> (m: String)
        ensures
            m@ == self.spec_message(),
    {
        match self {
            DirectSpecError::InvalidSpec(e) => e.message(),
            DirectSpecError::MissingApiKey { name, provider } => {
                let mut m = String::from_str("direct model spec '");
                m.append(name.as_str());
                m.append("' is missing an API key.\n  Set ");
                if *provider != Provider::Ollama {
                    m.append(provider_api_key_env(provider));
                }
                m.append(".");
                m
            },
        }
    }
}

/// How a direct `provider:model` spec from frontmatter resolves: no role,
/// no role-specific variables, the provider's standard key and base URL.
pub open spec fn spec_resolve_direct_spec(name: Seq<char>, env: Map<Seq<char>, Seq<char>>) -> Result<
    ResolvedModelV,
    DirectSpecErrorV,
> {
    match spec_parse_provider_model(name) {
        Err(e) => Err(DirectSpecErrorV::InvalidSpec(e)),
        Ok((p, model_name)) => {
            let key = if p == Provider::Ollama {
                Some("ollama"@)
            } else {
                or_else(
                    env_value(env, provider_var(p, "API_KEY"@)),
                    env_value(env, spec_provider_api_key_env(p)),
                )
            };
            match key {
                None => Err(DirectSpecErrorV::MissingApiKey { name, provider: p }),
                Some(k) => Ok(
                    ResolvedModelV {
                        role: Seq::empty(),
                        provider: p,
                        model_name,
                        temperature: None,
                        max_tokens: None,
                        api_key: k,
                        base_url: env_value(env, provider_var(p, "BASE_URL"@)),
                    },
                ),
            }
        },
    }
}

/// Resolves a direct `name: provider:model` spec (used in agent/step frontmatter).
pub fn resolve_direct_spec(name: &str, env: &Env) -> (r: Result<ResolvedModel, DirectSpecError>)
    ensures
        match r {
            Ok(m) => spec_resolve_direct_spec(name@, env@) == Ok::<
                ResolvedModelV,
                DirectSpecErrorV,
            >(m@),
            Err(e) => spec_resolve_direct_spec(name@, env@) == Err::<
                ResolvedModelV,
                DirectSpecErrorV,
            >(e@),
        },
{
    let (provider, model_name) = match parse_provider_model(name) {
        Ok(pm) => pm,
        Err(e) => {
            return Err(DirectSpecError::InvalidSpec(e));
        },
    };
    let api_key = if provider == Provider::Ollama {
        proof {
            reveal_strlit("ollama");
        }
        String::from_str("ollama")
    } else {
        let key_var = provider_var_name(provider, "API_KEY");
        match env_get(env, key_var.as_str()) {
            Some(k) => k,
            None => match env_get(env, provider_api_key_env(&provider)) {
                Some(k) => k,
                None => {
                    return Err(DirectSpecError::MissingApiKey { name: name.to_owned(), provider });
                },
            },
        }
    };
    let url_var = provider_var_name(provider, "BASE_URL");
    let base_url = env_get(env, url_var.as_str());
    Ok(
        ResolvedModel {
            role: String::new(),
            provider,
            model_name,
            temperature: None,
            max_tokens: None,
            api_key,
            base_url,
        },
    )
}

// ── The registry ──────────────────────────────────────────────────────────────

/// Why a model cannot be had from the registry.
#[derive(Debug, Clone, PartialEq, Eq)]
pub enum RegistryError {
    /// A role of `[models]` cannot be configured.
    Role { role: String, cause: RoleError },
    /// The role is not in the registry.
    UndefinedRole(String),
    /// Neither the role nor `default` is in the registry.
    NoDefault { role: String, upper: String },
    /// A direct `model: name:` spec cannot be used.
    Direct { name: String, cause: DirectSpecError },
}

/// The mathematical value of a registry error.
pub ghost enum RegistryErrorV {
    Role { role: Seq<char>, cause: RoleErrorV },
    UndefinedRole(Seq<char>),
    NoDefault { role: Seq<char>, upper: Seq<char> },
    Direct { name: Seq<char>, cause: DirectSpecErrorV },
}

impl View for RegistryError {
    type V = RegistryErrorV;

    open spec fn view(&self) -> RegistryErrorV {
        match self {
            RegistryError::Role { role, cause } => RegistryErrorV::Role {
                role: role@,
                cause: cause@,
            },
            RegistryError::UndefinedRole(r) => RegistryErrorV::UndefinedRole(r@),
            RegistryError::NoDefault { role, upper } => RegistryErrorV::NoDefault {
                role: role@,
                upper: upper@,
            },
            RegistryError::Direct { name, cause } => RegistryErrorV::Direct {
                name: name@,
                cause: cause@,
            },
        }
    }
}

impl RegistryError {
    /// The message the error is reported with.
    pub open spec fn spec_message(&self) -> Seq<char> {
        match self {
            RegistryError::Role { role, .. } => "failed to configure model role '"@ + role@ + "'"@,
            RegistryError::UndefinedRole(r) => "model role '"@ + r@
                + "' is not defined in tama.toml [models]"@,
            RegistryError::NoDefault { role, upper } => "model role '"@ + role@
                + "' is not defined in tama.toml [models], and no 'default' role is defined.\n  Add a [models] section to tama.toml or set "@
                + role_var(upper@, "NAME"@) + "."@,
            RegistryError::Direct { name, .. } => "in model: name: '"@ + name@ + "'"@,
        }
    }

    /// The message the error is reported with; the cause, where there is
    /// one, is reported under it.
    pub fn message(&self) -> (m: String)
        ensures
            m@ == self.spec_message(),
    {
        match self {
            RegistryError::Role { role, .. } => {
                let mut m = String::from_str("failed to configure model role '");
                m.append(role.as_str());
                m.append("'");
                m
            },
            RegistryError::UndefinedRole(r) => {
                let mut m = String::from_str("model role '");
                m.append(r.as_str());
                m.append("' is not defined in tama.toml [models]");
                m
            },
            RegistryError::NoDefault { role, upper } => {
                let mut m = String::from_str("model role '");
                m.append(role.as_str());
                m.append(
                    "' is not defined in tama.toml [models], and no 'default' role is defined.\n  Add a [models] section to tama.toml or set ",
                );
                let var = role_var_name(upper.as_str(), "NAME");
                m.append(var.as_str());
                m.append(".");
                m
            },
            RegistryError::Direct { name, .. } => {
                let mut m = String::from_str("in model: name: '");
                m.append(name.as_str());
                m.append("'");
                m
            },
        }
    }
}

/// The model registered under a role: the first with that role.
pub open spec fn model_for(models: Seq<ResolvedModel>, role: Seq<char>) -> Option<ResolvedModelV>
    decreases models.len(),
{
    if models.len() == 0 {
        None
    } else if models[0].role@ == role {
        Some(models[0]@)
    } else {
        model_for(models.skip(1), role)
    }
}

/// The model found for a role carries that role.
proof fn lemma_model_for_role(models: Seq<ResolvedModel>, role: Seq<char>)
    ensures
        model_for(models, role) matches Some(m) ==> m.role == role,
    decreases models.len(),
{
    if models.len() > 0 && models[0].role@ != role {
        lemma_model_for_role(models.skip(1), role);
    }
}

impl ModelRegistry {
    /// Every model of the registry is registered under its own role.
    pub proof fn lemma_models_carry_their_role(&self)
        ensures
            forall|k: Seq<char>| #[trigger] self@.contains_key(k) ==> self@[k].role == k,
    {
        assert forall|k: Seq<char>| #[trigger] self@.contains_key(k) implies self@[k].role == k by {
            lemma_model_for_role(self.models@, k);
        }
    }
}

/// Immutable registry of resolved models, by role. Built once at startup;
/// validates all roles before any LLM call is made.
pub struct ModelRegistry {
    models: Vec<ResolvedModel>,
}

impl View for ModelRegistry {
    type V = Map<Seq<char>, ResolvedModelV>;

    closed spec fn view(&self) -> Map<Seq<char>, ResolvedModelV> {
        Map::new(
            |k: Seq<char>| model_for(self.models@, k) is Some,
            |k: Seq<char>| model_for(self.models@, k)->Some_0,
        )
    }
}

/// The views of the optional base URL of an entry.
pub open spec fn entry_url(e: ModelEntry) -> Option<Seq<char>> {
    e.spec_base_url()
}

/// What building the registry from the first `n` roles gives: the resolved
/// models by role, or the first role (in the order given) that fails.
pub open spec fn spec_build(
    models: Seq<(String, ModelEntry)>,
    providers: Seq<(String, ProviderEntry)>,
    env: Map<Seq<char>, Seq<char>>,
    temps: Seq<Option<Temperature>>,
    n: int,
) -> Result<Map<Seq<char>, ResolvedModelV>, (Seq<char>, RoleErrorV)>
    decreases n,
{
    if n <= 0 {
        Ok(Map::empty())
    } else {
        match spec_build(models, providers, env, temps, n - 1) {
            Err(e) => Err(e),
            Ok(m) => {
                let (role, entry) = models[n - 1];
                match spec_resolve_role(
                    role@,
                    entry.spec_name(),
                    entry.spec_temperature(),
                    entry.spec_max_tokens(),
                    entry.spec_base_url(),
                    providers,
                    env,
                    temps[n - 1],
                ) {
                    Err(e) => Err((role@, e)),
                    Ok(r) => Ok(m.insert(role@, r)),
                }
            },
        }
    }
}

impl ModelRegistry {
    /// Index of the model registered under `role`.
    fn position(&self, role: &str) -> (r: Option<usize>)
        ensures
            match r {
                Some(i) => i < self.models.len() && self@.contains_key(role@) && self@[role@]
                    == self.models@[i as int]@ && self.models@[i as int].role@ == role@ && forall|
                    j: int,
                | 0 <= j < i ==> (#[trigger] self.models@[j]).role@ != role@,
                None => !self@.contains_key(role@),
            },
    {
        let mut i: usize = 0;
        assert(self.models@.skip(0) =~= self.models@);
        while i < self.models.len()
            invariant
                i <= self.models.len(),
                model_for(self.models@, role@) == model_for(self.models@.skip(i as int), role@),
                forall|j: int| 0 <= j < i ==> (#[trigger] self.models@[j]).role@ != role@,
            decreases self.models.len() - i,
        {
            assert(self.models@.skip(i as int).skip(1) =~= self.models@.skip(i + 1));
            assert(self.models@.skip(i as int)[0] == self.models@[i as int]);
            if str_eq(self.models[i].role.as_str(), role) {
                return Some(i);
            }
            i += 1;
        }
        None
    }

    /// Registers `m` under its role, replacing any model with that role.
    fn insert(&mut self, m: ResolvedModel)
        ensures
            final(self)@ == old(self)@.insert(m.role@, m@),
    {
        let ghost old_models = self.models@;
        let ghost mv = m@;
        match self.position(m.role.as_str()) {
            Some(i) => {
                self.models.set(i, m);
                proof {
                    assert forall|k: Seq<char>| #![auto] model_for(self.models@, k) == (if k
                        == mv.role {
                        Some(mv)
                    } else {
                        model_for(old_models, k)
                    }) by {
                        lemma_model_for_update(old_models, self.models@, k, i as int);
                    }
                    assert(self@ =~= old(self)@.insert(mv.role, mv));
                }
            },
            None => {
                self.models.push(m);
                proof {
                    assert forall|k: Seq<char>| #![auto] model_for(self.models@, k) == (if k
                        == mv.role {
                        Some(mv)
                    } else {
                        model_for(old_models, k)
                    }) by {
                        lemma_model_for_push(old_models, self.models@.last(), k);
                        assert(self.models@ == old_models.push(self.models@.last()));
                    }
                    assert(self@ =~= old(self)@.insert(mv.role, mv));
                }
            },
        }
    }

    /// Builds the registry from the config and the environment. Fails on the
    /// first role, in the order of `config.models`, that cannot be fully resolved.
    /// `env_temperatures[i]` is the `TAMA_MODEL_{ROLE}_TEMPERATURE` variable of
    /// `config.models[i]`, read as a number by the caller.
    pub fn build(config: &TomlConfig, env: &Env, env_temperatures: &Vec<Option<Temperature>>) -> (r:
        Result<Self, RegistryError>)
        requires
            env_temperatures.len() == config.models.len(),
        ensures
            match r {
                Ok(reg) => spec_build(
                    config.models@,
                    config.providers@,
                    env@,
                    env_temperatures@,
                    config.models.len() as int,
                ) == Ok::<Map<Seq<char>, ResolvedModelV>, (Seq<char>, RoleErrorV)>(reg@),
                Err(RegistryError::Role { role, cause }) => spec_build(
                    config.models@,
                    config.providers@,
                    env@,
                    env_temperatures@,
                    config.models.len() as int,
                ) == Err::<Map<Seq<char>, ResolvedModelV>, (Seq<char>, RoleErrorV)>(
                    (role@, cause@),
                ),
                Err(_) => false,
            },
    {
        let mut reg = ModelRegistry { models: Vec::new() };
        assert(reg@ =~= Map::<Seq<char>, ResolvedModelV>::empty());
        let mut i: usize = 0;
        while i < config.models.len()
            invariant
                i <= config.models.len(),
                env_temperatures.len() == config.models.len(),
                spec_build(
                    config.models@,
                    config.providers@,
                    env@,
                    env_temperatures@,
                    i as int,
                ) == Ok::<Map<Seq<char>, ResolvedModelV>, (Seq<char>, RoleErrorV)>(reg@),
            decreases config.models.len() - i,
        {
            let (role, entry) = &config.models[i];
            match resolve_role(
                role.as_str(),
                entry.name(),
                entry.temperature(),
                entry.max_tokens(),
                entry.base_url(),
                &config.providers,
                env,
                env_temperatures[i],
            ) {
                Ok(m) => {
                    reg.insert(m);
                },
                Err(e) => {
                    proof {
                        lemma_build_err_stable(
                            config.models@,
                            config.providers@,
                            env@,
                            env_temperatures@,
                            i + 1,
                            config.models.len() as int,
                        );
                    }
                    return Err(RegistryError::Role { role: role.clone(), cause: e });
                },
            }
            i += 1;
        }
        Ok(reg)
    }

    /// The model of a role. Fails when the role is not in the registry.
    pub fn get(&self, role: &str) -> (r: Result<&ResolvedModel, RegistryError>)
        ensures
            match r {
                Ok(m) => self@.contains_key(role@) && m@ == self@[role@] && m.role@ == role@,
                Err(e) => !self@.contains_key(role@) && e@ == RegistryErrorV::UndefinedRole(
                    role@,
                ),
            },
    {
        match self.position(role) {
            Some(i) => Ok(&self.models[i]),
            None => Err(RegistryError::UndefinedRole(role.to_owned())),
        }
    }

    /// Looks up a role; falls back to `default`; fails when neither exists.
    fn get_or_default(&self, role: &str) -> (r: Result<&ResolvedModel, RegistryError>)
        ensures
            match r {
                Ok(m) => if self@.contains_key(role@) {
                    m@ == self@[role@]
                } else {
                    self@.contains_key("default"@) && m@ == self@["default"@]
                },
                Err(e) => !self@.contains_key(role@) && !self@.contains_key("default"@) && e@
                    == RegistryErrorV::NoDefault { role: role@, upper: spec_role_upper(role@) },
            },
    {
        if let Some(i) = self.position(role) {
            return Ok(&self.models[i]);
        }
        if let Some(i) = self.position("default") {
            return Ok(&self.models[i]);
        }
        Err(RegistryError::NoDefault { role: role.to_owned(), upper: role_upper(role) })
    }

    /// Resolves the model for an agent or step call.
    ///
    /// Resolution order:
    /// 1. `model_config.name`: direct provider:model spec
    /// 2. `model_config.role`: named role lookup in the registry
    /// 3. neither: the pattern's default role (`react` → `thinker`,
    ///    everything else → `worker`)
    ///
    /// Roles fall back to `default` when not defined. Local
    /// `temperature`/`max_tokens` overrides in `model_config` are applied on
    /// top, whichever way the model was found.
    pub fn resolve(&self, model_config: Option<&ModelConfig>, pattern: &str, env: &Env) -> (r:
        Result<ResolvedModel, RegistryError>)
        ensures
            match r {
                Ok(m) => spec_resolve(self@, model_config, pattern@, env@) == Ok::<
                    ResolvedModelV,
                    RegistryErrorV,
                >(m@),
                Err(e) => spec_resolve(self@, model_config, pattern@, env@) == Err::<
                    ResolvedModelV,
                    RegistryErrorV,
                >(e@),
            },
    {
        let (mut resolved, local_temp, local_max_tokens) = match model_config {
            Some(mc) if mc.name.is_some() => {
                let name = match &mc.name {
                    Some(n) => n,
                    None => {
                        return Err(RegistryError::UndefinedRole(String::new()));
                    },
                };
                let r = match resolve_direct_spec(name.as_str(), env) {
                    Ok(r) => r,
                    Err(e) => {
                        return Err(RegistryError::Direct { name: name.clone(), cause: e });
                    },
                };
                (r, mc.temperature, mc.max_tokens)
            },
            Some(mc) if mc.role.is_some() => {
                let role = match &mc.role {
                    Some(n) => n,
                    None => {
                        return Err(RegistryError::UndefinedRole(String::new()));
                    },
                };
                let r = self.get_or_default(role.as_str())?;
                (r.duplicate(), mc.temperature, mc.max_tokens)
            },
            Some(mc) => {
                let default_role = pattern_default_role(pattern);
                let r = self.get_or_default(default_role)?;
                (r.duplicate(), mc.temperature, mc.max_tokens)
            },
            None => {
                let default_role = pattern_default_role(pattern);
                let r = self.get_or_default(default_role)?;
                (r.duplicate(), None, None)
            },
        };
        if let Some(t) = local_temp {
            resolved.temperature = Some(t);
        }
        if let Some(mt) = local_max_tokens {
            resolved.max_tokens = Some(mt);
        }
        Ok(resolved)
    }
}

/// The model of a role, or of `default` when the role is not registered.
pub open spec fn role_or_default(reg: Map<Seq<char>, ResolvedModelV>, role: Seq<char>) -> Result<
    ResolvedModelV,
    RegistryErrorV,
> {
    if reg.contains_key(role) {
        Ok(reg[role])
    } else if reg.contains_key("default"@) {
        Ok(reg["default"@])
    } else {
        Err(RegistryErrorV::NoDefault { role, upper: spec_role_upper(role) })
    }
}

/// A model with the local overrides of a `model:` block applied.
pub open spec fn with_overrides(
    m: ResolvedModelV,
    temperature: Option<Temperature>,
    max_tokens: Option<u32>,
) -> ResolvedModelV {
    ResolvedModelV {
        temperature: or_else(temperature, m.temperature),
        max_tokens: or_else(max_tokens, m.max_tokens),
        ..m
    }
}

/// How the model of a call resolves.
pub open spec fn spec_resolve(
    reg: Map<Seq<char>, ResolvedModelV>,
    mc: Option<&ModelConfig>,
    pattern: Seq<char>,
    env: Map<Seq<char>, Seq<char>>,
) -> Result<ResolvedModelV, RegistryErrorV> {
    match mc {
        Some(c) => if c.name is Some {
            let name = c.name->Some_0@;
            match spec_resolve_direct_spec(name, env) {
                Ok(m) => Ok(with_overrides(m, c.temperature, c.max_tokens)),
                Err(e) => Err(RegistryErrorV::Direct { name, cause: e }),
            }
        } else if c.role is Some {
            match role_or_default(reg, c.role->Some_0@) {
                Ok(m) => Ok(with_overrides(m, c.temperature, c.max_tokens)),
                Err(e) => Err(e),
            }
        } else {
            match role_or_default(reg, spec_pattern_default_role(pattern)) {
                Ok(m) => Ok(with_overrides(m, c.temperature, c.max_tokens)),
                Err(e) => Err(e),
            }
        },
        None => role_or_default(reg, spec_pattern_default_role(pattern)),
    }
}

proof fn lemma_build_err_stable(
    models: Seq<(String, ModelEntry)>,
    providers: Seq<(String, ProviderEntry)>,
    env: Map<Seq<char>, Seq<char>>,
    temps: Seq<Option<Temperature>>,
    n: int,
    m: int,
)
    requires
        0 <= n <= m,
        spec_build(models, providers, env, temps, n) is Err,
    ensures
        spec_build(models, providers, env, temps, m) == spec_build(models, providers, env, temps, n),
    decreases m - n,
{
    if n < m {
        lemma_build_err_stable(models, providers, env, temps, n, m - 1);
    }
}

proof fn lemma_model_for_push(models: Seq<ResolvedModel>, m: ResolvedModel, k: Seq<char>)
    ensures
        model_for(models.push(m), k) == match model_for(models, k) {
            Some(v) => Some(v),
            None => if k == m.role@ {
                Some(m@)
            } else {
                None
            },
        },
    decreases models.len(),
{
    let p = models.push(m);
    if models.len() == 0 {
        assert(p.skip(1).len() == 0);
    } else {
        assert(p[0] == models[0]);
        assert(p.skip(1) =~= models.skip(1).push(m));
        lemma_model_for_push(models.skip(1), m, k);
    }
}

proof fn lemma_model_for_update(a: Seq<ResolvedModel>, b: Seq<ResolvedModel>, k: Seq<char>, i: int)
    requires
        a.len() == b.len(),
        0 <= i < a.len(),
        a[i].role@ == b[i].role@,
        forall|j: int| 0 <= j < i ==> (#[trigger] a[j]).role@ != a[i].role@,
        forall|j: int| 0 <= j < a.len() && j != i ==> a[j] == b[j],
    ensures
        model_for(b, k) == if k == b[i].role@ {
            Some(b[i]@)
        } else {
            model_for(a, k)
        },
    decreases a.len(),
{
    if i == 0 {
        assert(a.skip(1) =~= b.skip(1));
    } else {
        assert(a[0] == b[0]);
        assert forall|j: int| 0 <= j < i - 1 implies (#[trigger] a.skip(1)[j]).role@ != a.skip(
            1,
        )[i - 1].role@ by {
            assert(a.skip(1)[j] == a[j + 1]);
        }
        lemma_model_for_update(a.skip(1), b.skip(1), k, i - 1);
    }
}

/// Writing a model spec and reading it back agree: for every provider and
/// every non-empty model name (colons included), parsing
/// `provider:model` gives that provider and that model name.
pub proof fn law_model_spec_round_trip(p: Provider, model: Seq<char>)
    requires
        model.len() > 0,
    ensures
        spec_parse_provider_model(p.spec_name() + ":"@ + model) == Ok::<
            (Provider, Seq<char>),
            ModelSpecErrorV,
        >((p, model)),
{
    reveal_strlit("anthropic");
    reveal_strlit("openai");
    reveal_strlit("google");
    reveal_strlit("ollama");
    reveal_strlit(":");
    let name = p.spec_name();
    let s = name + ":"@ + model;
    let c = seq![':'];
    assert(":"@ =~= c);
    assert forall|j: int| 0 <= j < name.len() implies !crate::text::matches_at(s, c, j) by {
        assert(s.subrange(j, j + 1)[0] == name[j]);
    }
    assert(s.subrange(name.len() as int, name.len() as int + 1) =~= c);
    crate::text::lemma_find_first(s, c, name.len() as int);
    assert(s.skip(name.len() as int + 1) =~= model);
    assert(s.take(name.len() as int) =~= name);
    assert(provider_named(name) == Some(p)) by {
        match p {
            Provider::Anthropic => {},
            Provider::OpenAi => {
                assert("openai"@.len() != "anthropic"@.len());
            },
            Provider::Google => {
                assert("google"@.len() != "anthropic"@.len());
                assert("google"@[0] != "openai"@[0]);
            },
            Provider::Ollama => {
                assert("ollama"@.len() != "anthropic"@.len());
                assert("ollama"@[1] != "openai"@[1]);
                assert("ollama"@[0] != "google"@[0]);
            },
        }
    }
}

/// Building validates every role up front: when the registry builds from
/// the first `n` roles of the config, each of those roles resolves, and each
/// is in the registry.
pub proof fn law_built_registry_has_every_role(
    models: Seq<(String, ModelEntry)>,
    providers: Seq<(String, ProviderEntry)>,
    env: Map<Seq<char>, Seq<char>>,
    temps: Seq<Option<Temperature>>,
    n: int,
)
    requires
        0 <= n <= models.len(),
        spec_build(models, providers, env, temps, n) is Ok,
    ensures
        forall|i: int|
            0 <= i < n ==> spec_build(models, providers, env, temps, n)->Ok_0.contains_key(
                (#[trigger] models[i]).0@,
            ) && spec_resolve_role(
                models[i].0@,
                models[i].1.spec_name(),
                models[i].1.spec_temperature(),
                models[i].1.spec_max_tokens(),
                models[i].1.spec_base_url(),
                providers,
                env,
                temps[i],
            ) is Ok,
    decreases n,
{
    if n > 0 {
        law_built_registry_has_every_role(models, providers, env, temps, n - 1);
        let prev = spec_build(models, providers, env, temps, n - 1);
        assert(prev is Ok);
    }
}

/// The local settings of a `model:` block win: whichever way the model was
/// found (a direct `name:`, a `role:`, or the pattern's default role), a
/// temperature or token limit that the block sets is the resolved model's.
pub proof fn law_resolve_applies_local_overrides(
    reg: Map<Seq<char>, ResolvedModelV>,
    c: ModelConfig,
    pattern: Seq<char>,
    env: Map<Seq<char>, Seq<char>>,
)
    ensures
        spec_resolve(reg, Some(&c), pattern, env) matches Ok(m) ==> {
            &&& (c.temperature matches Some(t) ==> m.temperature == Some(t))
            &&& (c.max_tokens matches Some(x) ==> m.max_tokens == Some(x))
            &&& (c.temperature is None ==> m.temperature == match c.name {
                Some(n) => spec_resolve_direct_spec(n@, env)->Ok_0.temperature,
                None => match c.role {
                    Some(r) => (if reg.contains_key(r@) { reg[r@] } else { reg["default"@] }).temperature,
                    None => (if reg.contains_key(if pattern == "react"@ { "thinker"@ } else { "worker"@ }) {
                        reg[if pattern == "react"@ { "thinker"@ } else { "worker"@ }]
                    } else {
                        reg["default"@]
                    }).temperature,
                },
            })
        },
{
}

/// Without a `model:` block the pattern picks the role: `react` runs on the
/// `thinker` model, every other pattern on the `worker` model, and a role that
/// is not registered falls back to `default`; the model is taken as registered.
pub proof fn law_resolve_without_block_uses_pattern_role(
    reg: Map<Seq<char>, ResolvedModelV>,
    pattern: Seq<char>,
    env: Map<Seq<char>, Seq<char>>,
)
    ensures
        ({
            let role = if pattern == "react"@ { "thinker"@ } else { "worker"@ };
            &&& reg.contains_key(role) ==> spec_resolve(reg, None, pattern, env) == Ok::<
                ResolvedModelV,
                RegistryErrorV,
            >(reg[role])
            &&& !reg.contains_key(role) && reg.contains_key("default"@) ==> spec_resolve(
                reg,
                None,
                pattern,
                env,
            ) == Ok::<ResolvedModelV, RegistryErrorV>(reg["default"@])
            &&& !reg.contains_key(role) && !reg.contains_key("default"@) ==> spec_resolve(
                reg,
                None,
                pattern,
                env,
            ) is Err
        }),
{
}

/// How each setting of a `[models]` role is found. The role keeps its name.
/// Temperature: the environment's, else the entry's, else the role's default.
/// Token limit: the entry's unless `TAMA_MODEL_{ROLE}_MAX_TOKENS` is set.
/// API key: `"ollama"` for Ollama, else `TAMA_MODEL_{ROLE}_API_KEY` when set.
/// Base URL: `TAMA_MODEL_{ROLE}_BASE_URL`, else `TAMA_PROVIDER_{P}_BASE_URL`,
/// else the entry's `base_url`, else the provider's table in `tama.toml`.
pub proof fn law_resolve_role_settings(
    role: Seq<char>,
    entry_name: Seq<char>,
    entry_temperature: Option<Temperature>,
    entry_max_tokens: Option<u32>,
    entry_base_url: Option<Seq<char>>,
    providers: Seq<(String, ProviderEntry)>,
    env: Map<Seq<char>, Seq<char>>,
    env_temperature: Option<Temperature>,
)
    ensures
        spec_resolve_role(
            role,
            entry_name,
            entry_temperature,
            entry_max_tokens,
            entry_base_url,
            providers,
            env,
            env_temperature,
        ) matches Ok(m) ==> {
            let role_url = "TAMA_MODEL_"@ + spec_role_upper(role) + "_BASE_URL"@;
            let provider_url = "TAMA_PROVIDER_"@ + spec_provider_upper(m.provider) + "_BASE_URL"@;
            &&& m.role == role
            &&& m.temperature == match env_temperature {
                Some(t) => Some(t),
                None => match entry_temperature {
                    Some(t) => Some(t),
                    None => spec_role_default_temperature(role),
                },
            }
            &&& !env.contains_key("TAMA_MODEL_"@ + spec_role_upper(role) + "_MAX_TOKENS"@)
                ==> m.max_tokens == entry_max_tokens
            &&& m.provider == Provider::Ollama ==> m.api_key == "ollama"@
            &&& m.provider != Provider::Ollama && env.contains_key(
                "TAMA_MODEL_"@ + spec_role_upper(role) + "_API_KEY"@,
            ) ==> m.api_key == env["TAMA_MODEL_"@ + spec_role_upper(role) + "_API_KEY"@]
            &&& env.contains_key(role_url) ==> m.base_url == Some(env[role_url])
            &&& !env.contains_key(role_url) && env.contains_key(provider_url) ==> m.base_url == Some(
                env[provider_url],
            )
            &&& !env.contains_key(role_url) && !env.contains_key(provider_url) ==> m.base_url == match entry_base_url {
                Some(u) => Some(u),
                None => provider_base_url(providers, m.provider.spec_name()),
            }
        },
{
    let upper = spec_role_upper(role);
    reveal_strlit("_");
    reveal_strlit("BASE_URL");
    reveal_strlit("_BASE_URL");
    reveal_strlit("MAX_TOKENS");
    reveal_strlit("_MAX_TOKENS");
    reveal_strlit("API_KEY");
    reveal_strlit("_API_KEY");
    assert(role_var(upper, "BASE_URL"@) =~= "TAMA_MODEL_"@ + upper + "_BASE_URL"@);
    assert(role_var(upper, "MAX_TOKENS"@) =~= "TAMA_MODEL_"@ + upper + "_MAX_TOKENS"@);
    assert(role_var(upper, "API_KEY"@) =~= "TAMA_MODEL_"@ + upper + "_API_KEY"@);
    if spec_resolve_role(
        role,
        entry_name,
        entry_temperature,
        entry_max_tokens,
        entry_base_url,
        providers,
        env,
        env_temperature,
    ) is Ok {
        let m = spec_resolve_role(
            role,
            entry_name,
            entry_temperature,
            entry_max_tokens,
            entry_base_url,
            providers,
            env,
            env_temperature,
        )->Ok_0;
        assert(provider_var(m.provider, "BASE_URL"@) =~= "TAMA_PROVIDER_"@ + spec_provider_upper(
            m.provider,
        ) + "_BASE_URL"@);
    }
}

} // verus!
