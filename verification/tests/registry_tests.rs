use tama::config::{ModelEntry, ModelEntryConfig, ProjectConfig, ProviderEntry, TomlConfig};
use tama::manifest::{ModelConfig, Provider, Temperature};
use tama::registry::{
    parse_provider_model, pattern_default_role, provider_api_key_env, resolve_direct_spec,
    resolve_role, role_default_temperature, role_upper, DirectSpecError, ModelRegistry,
    ModelSpecError, RegistryError, RoleError,
};
use tama::strmap::Env;

fn t(x: f64) -> Temperature {
    Temperature { bits: x.to_bits() }
}

fn config(models: Vec<(&str, ModelEntry)>) -> TomlConfig {
    TomlConfig {
        project: ProjectConfig::default(),
        models: models.into_iter().map(|(k, v)| (k.to_string(), v)).collect(),
        providers: vec![],
    }
}

fn short(s: &str) -> ModelEntry {
    ModelEntry::Shorthand(s.to_string())
}

fn no_temps(n: usize) -> Vec<Option<Temperature>> {
    vec![None; n]
}

#[test]
fn default_temperatures_of_roles() {
    assert_eq!(role_default_temperature("thinker"), Some(t(1.0)));
    assert_eq!(role_default_temperature("worker"), Some(t(0.0)));
    assert_eq!(role_default_temperature("default"), Some(t(0.8)));
    assert_eq!(role_default_temperature("other"), None);
}

#[test]
fn default_roles_of_patterns() {
    assert_eq!(pattern_default_role("react"), "thinker");
    assert_eq!(pattern_default_role("oneshot"), "worker");
    assert_eq!(pattern_default_role("critic"), "worker");
    assert_eq!(pattern_default_role("agent"), "worker");
}

#[test]
fn provider_key_variables() {
    assert_eq!(provider_api_key_env(&Provider::Anthropic), "ANTHROPIC_API_KEY");
    assert_eq!(provider_api_key_env(&Provider::OpenAi), "OPENAI_API_KEY");
    assert_eq!(provider_api_key_env(&Provider::Google), "GEMINI_API_KEY");
}

#[test]
fn parse_provider_model_ok_and_errors() {
    assert_eq!(
        parse_provider_model("anthropic:big-model-4"),
        Ok((Provider::Anthropic, "big-model-4".to_string()))
    );
    assert_eq!(
        parse_provider_model("ollama:qwen2.5:14b"),
        Ok((Provider::Ollama, "qwen2.5:14b".to_string()))
    );
    assert_eq!(
        parse_provider_model("nocolon"),
        Err(ModelSpecError::MissingColon("nocolon".to_string()))
    );
    assert_eq!(
        parse_provider_model("openai:"),
        Err(ModelSpecError::EmptyModel("openai:".to_string()))
    );
    let e = parse_provider_model("acme:x").unwrap_err();
    assert_eq!(e, ModelSpecError::UnknownProvider("acme".to_string()));
    assert_eq!(
        e.message(),
        "unknown provider 'acme': supported providers: anthropic, openai, google, ollama"
    );
}

#[test]
fn role_upper_replaces_dashes() {
    assert_eq!(role_upper("my-role"), "MY_ROLE");
}

#[test]
fn resolve_role_uses_entry_and_defaults() {
    let mut env = Env::new();
    env.set("ANTHROPIC_API_KEY", "k1");
    let m = resolve_role("thinker", "anthropic:opus", None, None, None, &vec![], &env, None)
        .unwrap();
    assert_eq!(m.role, "thinker");
    assert_eq!(m.provider, Provider::Anthropic);
    assert_eq!(m.model_name, "opus");
    assert_eq!(m.temperature, Some(t(1.0)));
    assert_eq!(m.api_key, "k1");
    assert_eq!(m.base_url, None);
}

#[test]
fn resolve_role_environment_overrides() {
    let mut env = Env::new();
    env.set("TAMA_MODEL_MY_ROLE_NAME", "openai:gpt");
    env.set("TAMA_MODEL_MY_ROLE_API_KEY", "role-key");
    env.set("OPENAI_API_KEY", "provider-key");
    env.set("TAMA_MODEL_MY_ROLE_MAX_TOKENS", "77");
    env.set("TAMA_PROVIDER_OPENAI_BASE_URL", "http://proxy");
    let m = resolve_role(
        "my-role",
        "anthropic:ignored",
        Some(t(0.5)),
        Some(10),
        Some("http://entry"),
        &vec![],
        &env,
        Some(t(0.3)),
    )
    .unwrap();
    assert_eq!(m.provider, Provider::OpenAi);
    assert_eq!(m.model_name, "gpt");
    assert_eq!(m.api_key, "role-key");
    assert_eq!(m.max_tokens, Some(77));
    assert_eq!(m.temperature, Some(t(0.3)));
    assert_eq!(m.base_url.as_deref(), Some("http://proxy"));
}

#[test]
fn resolve_role_base_url_from_providers_table() {
    let env = Env::new();
    let providers = vec![(
        "ollama".to_string(),
        ProviderEntry { base_url: Some("http://localhost:11434".to_string()) },
    )];
    let m = resolve_role("local", "ollama:llama3", None, None, None, &providers, &env, None)
        .unwrap();
    assert_eq!(m.api_key, "ollama");
    assert_eq!(m.temperature, None);
    assert_eq!(m.base_url.as_deref(), Some("http://localhost:11434"));
}

#[test]
fn resolve_role_missing_key_error() {
    let env = Env::new();
    let e = resolve_role("worker", "google:gemini", None, None, None, &vec![], &env, None)
        .unwrap_err();
    match &e {
        RoleError::MissingApiKey { role, upper, provider } => {
            assert_eq!(role, "worker");
            assert_eq!(upper, "WORKER");
            assert_eq!(*provider, Provider::Google);
        }
        other => panic!("unexpected {:?}", other),
    }
    assert!(e.message().contains("TAMA_MODEL_WORKER_API_KEY"));
    assert!(e.message().contains("GEMINI_API_KEY"));
}

#[test]
fn resolve_role_invalid_spec_error() {
    let env = Env::new();
    let e = resolve_role("r", "bad", None, None, None, &vec![], &env, None).unwrap_err();
    assert_eq!(
        e,
        RoleError::InvalidSpec {
            spec: "bad".to_string(),
            cause: ModelSpecError::MissingColon("bad".to_string())
        }
    );
    assert_eq!(e.message(), "invalid model spec 'bad'");
}

#[test]
fn direct_spec_resolution() {
    let mut env = Env::new();
    env.set("TAMA_PROVIDER_ANTHROPIC_API_KEY", "tk");
    let m = resolve_direct_spec("anthropic:sonnet", &env).unwrap();
    assert_eq!(m.role, "");
    assert_eq!(m.api_key, "tk");
    assert_eq!(m.model_name, "sonnet");
    let e = resolve_direct_spec("openai:gpt", &Env::new()).unwrap_err();
    assert_eq!(
        e,
        DirectSpecError::MissingApiKey { name: "openai:gpt".to_string(), provider: Provider::OpenAi }
    );
    assert_eq!(e.message(), "direct model spec 'openai:gpt' is missing an API key.\n  Set OPENAI_API_KEY.");
}

#[test]
fn registry_builds_and_resolves_roles() {
    let mut env = Env::new();
    env.set("ANTHROPIC_API_KEY", "k");
    let cfg = config(vec![
        ("thinker", short("anthropic:opus")),
        (
            "worker",
            ModelEntry::Extended(ModelEntryConfig {
                name: "anthropic:sonnet".to_string(),
                temperature: Some(t(0.2)),
                max_tokens: Some(100),
                base_url: None,
            }),
        ),
    ]);
    let reg = ModelRegistry::build(&cfg, &env, &no_temps(2)).unwrap();
    assert_eq!(reg.get("worker").unwrap().model_name, "sonnet");
    assert_eq!(reg.get("worker").unwrap().temperature, Some(t(0.2)));
    assert!(matches!(reg.get("nope"), Err(RegistryError::UndefinedRole(_))));

    // No model block: the pattern's role.
    let m = reg.resolve(None, "react", &env).unwrap();
    assert_eq!(m.model_name, "opus");

    // A role block with a local override.
    let mc = ModelConfig {
        name: None,
        role: Some("worker".to_string()),
        temperature: Some(t(0.9)),
        max_tokens: None,
    };
    let m = reg.resolve(Some(&mc), "react", &env).unwrap();
    assert_eq!(m.model_name, "sonnet");
    assert_eq!(m.temperature, Some(t(0.9)));
    assert_eq!(m.max_tokens, Some(100));

    // A direct name.
    let mc = ModelConfig {
        name: Some("anthropic:haiku".to_string()),
        role: None,
        temperature: None,
        max_tokens: Some(5),
    };
    let m = reg.resolve(Some(&mc), "react", &env).unwrap();
    assert_eq!(m.model_name, "haiku");
    assert_eq!(m.max_tokens, Some(5));
}

#[test]
fn resolve_applies_local_overrides_to_the_pattern_role() {
    let mut env = Env::new();
    env.set("ANTHROPIC_API_KEY", "k");
    let cfg = config(vec![(
        "thinker",
        ModelEntry::Extended(ModelEntryConfig {
            name: "anthropic:opus".to_string(),
            temperature: Some(t(0.7)),
            max_tokens: Some(50),
            base_url: None,
        }),
    )]);
    let reg = ModelRegistry::build(&cfg, &env, &no_temps(1)).unwrap();
    let mc = ModelConfig { name: None, role: None, temperature: Some(t(0.3)), max_tokens: Some(100) };
    let m = reg.resolve(Some(&mc), "react", &env).unwrap();
    assert_eq!(m.role, "thinker");
    assert_eq!(m.model_name, "opus");
    assert_eq!(m.temperature, Some(t(0.3)));
    assert_eq!(m.max_tokens, Some(100));
}

#[test]
fn registry_falls_back_to_default_role() {
    let mut env = Env::new();
    env.set("OPENAI_API_KEY", "k");
    let cfg = config(vec![("default", short("openai:gpt"))]);
    let reg = ModelRegistry::build(&cfg, &env, &no_temps(1)).unwrap();
    let m = reg.resolve(None, "react", &env).unwrap();
    assert_eq!(m.role, "default");
    let empty = ModelRegistry::build(&config(vec![]), &env, &no_temps(0)).unwrap();
    let e = empty.resolve(None, "critic", &env).unwrap_err();
    assert_eq!(
        e,
        RegistryError::NoDefault { role: "worker".to_string(), upper: "WORKER".to_string() }
    );
}

#[test]
fn registry_build_fails_on_first_bad_role() {
    let env = Env::new();
    let cfg = config(vec![("a", short("ollama:x")), ("b", short("broken")), ("c", short("x"))]);
    match ModelRegistry::build(&cfg, &env, &no_temps(3)) {
        Err(RegistryError::Role { role, cause }) => {
            assert_eq!(role, "b");
            assert_eq!(
                cause,
                RoleError::InvalidSpec {
                    spec: "broken".to_string(),
                    cause: ModelSpecError::MissingColon("broken".to_string())
                }
            );
        }
        other => panic!("unexpected {:?}", other.map(|_| ())),
    }
}

#[test]
fn registry_later_entry_of_same_role_wins() {
    let env = Env::new();
    let cfg = config(vec![("r", short("ollama:first")), ("r", short("ollama:second"))]);
    let reg = ModelRegistry::build(&cfg, &env, &no_temps(2)).unwrap();
    assert_eq!(reg.get("r").unwrap().model_name, "second");
}

#[test]
fn registry_env_temperature_wins() {
    let env = Env::new();
    let cfg = config(vec![("thinker", short("ollama:m"))]);
    let reg = ModelRegistry::build(&cfg, &env, &vec![Some(t(0.1))]).unwrap();
    assert_eq!(reg.get("thinker").unwrap().temperature, Some(t(0.1)));
}

#[test]
fn registry_error_messages() {
    let env = Env::new();
    let reg = ModelRegistry::build(&config(vec![]), &env, &no_temps(0)).unwrap();
    let e = reg.get("fast").unwrap_err();
    assert_eq!(e, RegistryError::UndefinedRole("fast".to_string()));
    assert_eq!(e.message(), "model role 'fast' is not defined in tama.toml [models]");

    let mc = ModelConfig { name: Some("bad".to_string()), role: None, temperature: None, max_tokens: None };
    let e = reg.resolve(Some(&mc), "react", &env).unwrap_err();
    assert_eq!(
        e,
        RegistryError::Direct {
            name: "bad".to_string(),
            cause: DirectSpecError::InvalidSpec(ModelSpecError::MissingColon("bad".to_string()))
        }
    );
    assert_eq!(e.message(), "in model: name: 'bad'");

    let mc = ModelConfig { name: None, role: Some("my-role".to_string()), temperature: None, max_tokens: None };
    let e = reg.resolve(Some(&mc), "react", &env).unwrap_err();
    assert_eq!(
        e.message(),
        "model role 'my-role' is not defined in tama.toml [models], and no 'default' role is defined.\n  Add a [models] section to tama.toml or set TAMA_MODEL_MY_ROLE_NAME."
    );
    assert_eq!(
        ModelSpecError::EmptyModel("openai:".to_string()).message(),
        "model name cannot be empty in 'openai:'"
    );
}
