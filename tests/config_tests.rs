use git_automessage::config::{Config, ConfigError, EnvPresence, LLMConfig, LLMProvider};

#[test]
fn providers_by_display_name() {
    let all = LLMProvider::list_providers();
    assert_eq!(all.len(), 5);
    for p in &all {
        assert_eq!(LLMProvider::from_name(p.get_name()), Some(*p));
    }
    assert_eq!(LLMProvider::from_name("Kimi"), Some(LLMProvider::Kimi));
    assert_eq!(LLMProvider::from_name("kimi"), None);
    assert_eq!(LLMProvider::Anthropic.get_name(), "Anthropic");
}

#[test]
fn llm_config_from_key() {
    let c = LLMConfig::from_name("deepseek", None, Some("k"), None);
    assert_eq!(c.provider, LLMProvider::DeepSeek);
    assert_eq!(c.base_url, "default_baseurl");
    assert_eq!(c.api_key, "k");
    assert_eq!(c.model, "");
    let c = LLMConfig::from_name("custom", Some("http://x"), None, Some("m"));
    assert_eq!(c.provider, LLMProvider::OpenAI);
    assert_eq!(c.base_url, "http://x");
    assert_eq!(c.api_key, "");
    assert_eq!(c.model, "m");
    let c = LLMConfig::from_name("custom", None, None, None);
    assert_eq!(c.base_url, "");
}

#[test]
fn with_provider_defaults() {
    let c = Config::with_provider("ollama", "secret");
    assert_eq!(c.llm.provider, LLMProvider::Ollama);
    assert_eq!(c.llm.api_key, "secret");
    assert_eq!(c.language, "zh-CN");
    assert!(c.prompt.is_none());
    assert!(!c.emoji && !c.multi_line);
}

#[test]
fn validation_names_the_missing_part() {
    let mut c = Config::with_provider("openai", "");
    c.llm.model = "gpt".to_string();
    assert!(matches!(c.validate(false), Err(ConfigError::MissingApiKey)));
    c.llm.api_key = "ENV".to_string();
    assert!(matches!(c.validate(false), Err(ConfigError::MissingApiKey)));
    assert!(c.validate(true).is_ok());
    c.llm.base_url = String::new();
    assert!(matches!(c.validate(true), Err(ConfigError::MissingBaseUrl)));
    c.llm.base_url = "u".to_string();
    c.llm.model = String::new();
    assert!(matches!(c.validate(true), Err(ConfigError::MissingModel)));
}

#[test]
fn set_config_items() {
    let mut c = Config::with_provider("openai", "k");
    assert!(c.set_config("llm.provider", "Kimi").is_ok());
    assert_eq!(c.llm.provider, LLMProvider::Kimi);
    assert!(matches!(c.set_config("llm.provider", "kimi"), Err(ConfigError::InvalidValue(v)) if v == "kimi"));
    assert_eq!(c.llm.provider, LLMProvider::Kimi);
    assert!(c.set_config("llm.model", "m1").is_ok());
    assert_eq!(c.llm.model, "m1");
    assert!(c.set_config("prompt", "be brief").is_ok());
    assert_eq!(c.prompt.as_deref(), Some("be brief"));
    assert!(c.set_config("emoji", "true").is_ok());
    assert!(c.emoji);
    assert!(matches!(c.set_config("multi_line", "yes"), Err(ConfigError::InvalidValue(_))));
    assert!(!c.multi_line);
    assert!(matches!(c.set_config("colour", "red"), Err(ConfigError::UnknownKey(k)) if k == "colour"));
    assert!(c.set_config("language", "en").is_ok());
    assert_eq!(c.language, "en");
}

#[test]
fn llm_config_from_environment() {
    let all = EnvPresence { base_url: true, api_key: true, model: true };
    let c = LLMConfig::from_name_in_env("kimi", None, None, None, all);
    assert_eq!(c.provider, LLMProvider::Kimi);
    assert_eq!((c.base_url.as_str(), c.api_key.as_str(), c.model.as_str()), ("ENV", "ENV", "ENV"));
    let c = LLMConfig::from_name_in_env("kimi", Some("http://x"), Some("k"), Some("m"), all);
    assert_eq!((c.base_url.as_str(), c.api_key.as_str(), c.model.as_str()), ("http://x", "k", "m"));
    let none = EnvPresence { base_url: false, api_key: false, model: false };
    let c = LLMConfig::from_name_in_env("kimi", None, None, None, none);
    assert_eq!((c.base_url.as_str(), c.api_key.as_str(), c.model.as_str()), ("default_baseurl", "", ""));
    let only_key = EnvPresence { base_url: false, api_key: true, model: false };
    let c = LLMConfig::from_name_in_env("custom", None, None, None, only_key);
    assert_eq!((c.base_url.as_str(), c.api_key.as_str(), c.model.as_str()), ("", "ENV", ""));
}
