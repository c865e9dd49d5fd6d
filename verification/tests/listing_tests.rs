use tama::listing::{display_name, listed_providers, provider_models, ModelListing};

fn listing(name: &str, provider: Option<&str>, mode: Option<&str>) -> ModelListing {
    ModelListing {
        name: name.to_string(),
        provider: provider.map(|s| s.to_string()),
        mode: mode.map(|s| s.to_string()),
    }
}

#[test]
fn chat_models_sorted_per_provider() {
    let listings = vec![
        listing("sample_spec", Some("openai"), Some("chat")),
        listing("gpt-b", Some("openai"), Some("chat")),
        listing("text-embed", Some("openai"), Some("embedding")),
        listing("gpt-a", Some("openai"), Some("chat")),
        listing("opus", Some("anthropic"), Some("chat")),
        listing("Zeta", Some("openai"), Some("chat")),
        listing("odd", None, Some("chat")),
    ];
    assert_eq!(provider_models(&listings, "openai"), vec!["Zeta", "gpt-a", "gpt-b"]);
    assert_eq!(provider_models(&listings, "anthropic"), vec!["opus"]);
    assert!(provider_models(&listings, "gemini").is_empty());
}

#[test]
fn providers_and_display_names() {
    assert_eq!(
        listed_providers(),
        vec![("Anthropic", "anthropic"), ("OpenAI", "openai"), ("Gemini", "gemini")]
    );
    assert_eq!(display_name("gemini/gemini-pro", "gemini"), "gemini-pro");
    assert_eq!(display_name("gemini-pro", "gemini"), "gemini-pro");
    assert_eq!(display_name("anthropicx/m", "anthropic"), "anthropicx/m");
}
