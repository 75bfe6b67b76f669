//! The configuration: the generation service, the language and the switches.

use vstd::prelude::*;

use crate::text::same_text;

verus! {

/// The text-generation services that the configuration names.
#[derive(PartialEq, Eq, Structural, Clone, Copy, Debug)]
pub enum LLMProvider {
    OpenAI,
    DeepSeek,
    Kimi,
    Anthropic,
    Ollama,
}

impl LLMProvider {
    /// The display name of a provider.
    pub open spec fn name_spec(self) -> Seq<char> {
        match self {
            LLMProvider::OpenAI => "OpenAI"@,
            LLMProvider::DeepSeek => "DeepSeek"@,
            LLMProvider::Kimi => "Kimi"@,
            LLMProvider::Anthropic => "Anthropic"@,
            LLMProvider::Ollama => "Ollama"@,
        }
    }

    /// The provider whose display name is `name`.
    pub open spec fn named(name: Seq<char>) -> Option<LLMProvider> {
        if name == "OpenAI"@ {
            Some(LLMProvider::OpenAI)
        } else if name == "DeepSeek"@ {
            Some(LLMProvider::DeepSeek)
        } else if name == "Kimi"@ {
            Some(LLMProvider::Kimi)
        } else if name == "Anthropic"@ {
            Some(LLMProvider::Anthropic)
        } else if name == "Ollama"@ {
            Some(LLMProvider::Ollama)
        } else {
            None
        }
    }

    /// Every provider, in the order in which they are offered.
    pub fn list_providers() -> (r: Vec<LLMProvider>)
        ensures
            r@ == seq![
                LLMProvider::OpenAI,
                LLMProvider::DeepSeek,
                LLMProvider::Kimi,
                LLMProvider::Anthropic,
                LLMProvider::Ollama,
            ],
    {
        let r = vec![
            LLMProvider::OpenAI,
            LLMProvider::DeepSeek,
            LLMProvider::Kimi,
            LLMProvider::Anthropic,
            LLMProvider::Ollama,
        ];
        assert(r@ =~= seq![
            LLMProvider::OpenAI,
            LLMProvider::DeepSeek,
            LLMProvider::Kimi,
            LLMProvider::Anthropic,
            LLMProvider::Ollama,
        ]);
        r
    }

    /// The provider with the display name `name`, if there is one.
    pub fn from_name(name: &str) -> (r: Option<LLMProvider>)
        ensures
            r == LLMProvider::named(name@),
    {
        if same_text(name, "OpenAI") {
            Some(LLMProvider::OpenAI)
        } else if same_text(name, "DeepSeek") {
            Some(LLMProvider::DeepSeek)
        } else if same_text(name, "Kimi") {
            Some(LLMProvider::Kimi)
        } else if same_text(name, "Anthropic") {
            Some(LLMProvider::Anthropic)
        } else if same_text(name, "Ollama") {
            Some(LLMProvider::Ollama)
        } else {
            None
        }
    }

    /// The display name of the provider.
    pub fn get_name(&self) -> (r: &'static str)
        ensures
            r@ == self.name_spec(),
    {
        match self {
            LLMProvider::OpenAI => "OpenAI",
            LLMProvider::DeepSeek => "DeepSeek",
            LLMProvider::Kimi => "Kimi",
            LLMProvider::Anthropic => "Anthropic",
            LLMProvider::Ollama => "Ollama",
        }
    }
}

/// The provider that a lower-case configuration key names; an unknown key means OpenAI.
pub open spec fn provider_for_key(name: Seq<char>) -> LLMProvider {
    if name == "deepseek"@ {
        LLMProvider::DeepSeek
    } else if name == "kimi"@ {
        LLMProvider::Kimi
    } else if name == "anthropic"@ {
        LLMProvider::Anthropic
    } else if name == "ollama"@ {
        LLMProvider::Ollama
    } else {
        LLMProvider::OpenAI
    }
}

/// A configuration key that names a provider.
pub open spec fn is_known_key(name: Seq<char>) -> bool {
    name == "openai"@ || name == "deepseek"@ || name == "kimi"@ || name == "anthropic"@ || name
        == "ollama"@
}

/// Where a provider's endpoint is to be taken from its own defaults.
pub open spec fn default_base_url() -> Seq<char> {
    "default_baseurl"@
}

/// The settings of the text-generation service.
#[derive(Debug, Clone)]
pub struct LLMConfig {
    pub provider: LLMProvider,
    pub base_url: String,
    pub api_key: String,
    pub model: String,
}

/// Which of `GAM_BASE_URL`, `GAM_API_KEY` and `GAM_MODEL` the environment sets.
#[derive(Debug, Clone, Copy)]
pub struct EnvPresence {
    pub base_url: bool,
    pub api_key: bool,
    pub model: bool,
}

/// The marker for a value that is read from the environment when it is used.
pub open spec fn env_marker() -> Seq<char> {
    "ENV"@
}

/// A setting: the value given, else the environment marker where the environment sets
/// it, else `fallback`.
pub open spec fn setting(given: Option<&str>, env_set: bool, fallback: Seq<char>) -> Seq<char> {
    match given {
        Some(v) => v@,
        None => if env_set {
            env_marker()
        } else {
            fallback
        },
    }
}

fn setting_exec(given: Option<&str>, env_set: bool, fallback: &str) -> (r: String)
    ensures
        r@ == setting(given, env_set, fallback@),
{
    match given {
        Some(v) => v.to_string(),
        None => if env_set {
            "ENV".to_string()
        } else {
            fallback.to_string()
        },
    }
}

impl LLMConfig {
    /// The settings for the provider with configuration key `name`, from the values
    /// given and the environment. A value that is not given is the environment marker
    /// where the environment sets it; otherwise it stays empty, for the user to supply,
    /// except the base URL of a known provider, which is the marker for the provider's
    /// default endpoint.
    pub fn from_name_in_env(
        name: &str,
        base_url: Option<&str>,
        api_key: Option<&str>,
        model: Option<&str>,
        env: EnvPresence,
    ) -> (r: Self)
        ensures
            r.provider == provider_for_key(name@),
            r.base_url@ == setting(
                base_url,
                env.base_url,
                if is_known_key(name@) {
                    default_base_url()
                } else {
                    Seq::empty()
                },
            ),
            r.api_key@ == setting(api_key, env.api_key, Seq::empty()),
            r.model@ == setting(model, env.model, Seq::empty()),
    {
        let known = same_text(name, "openai") || same_text(name, "deepseek") || same_text(
            name,
            "kimi",
        ) || same_text(name, "anthropic") || same_text(name, "ollama");
        let provider = if same_text(name, "deepseek") {
            LLMProvider::DeepSeek
        } else if same_text(name, "kimi") {
            LLMProvider::Kimi
        } else if same_text(name, "anthropic") {
            LLMProvider::Anthropic
        } else if same_text(name, "ollama") {
            LLMProvider::Ollama
        } else {
            LLMProvider::OpenAI
        };
        let fallback = if known {
            "default_baseurl"
        } else {
            ""
        };
        proof {
            reveal_strlit("");
        }
        LLMConfig {
            provider,
            base_url: setting_exec(base_url, env.base_url, fallback),
            api_key: setting_exec(api_key, env.api_key, ""),
            model: setting_exec(model, env.model, ""),
        }
    }

    /// The settings for the provider with configuration key `name`, where the
    /// environment sets none of the three values.
    pub fn from_name(
        name: &str,
        base_url: Option<&str>,
        api_key: Option<&str>,
        model: Option<&str>,
    ) -> (r: Self)
        ensures
            r.provider == provider_for_key(name@),
            r.base_url@ == match base_url {
                Some(u) => u@,
                None => if is_known_key(name@) {
                    default_base_url()
                } else {
                    Seq::empty()
                },
            },
            r.api_key@ == match api_key {
                Some(k) => k@,
                None => Seq::empty(),
            },
            r.model@ == match model {
                Some(m) => m@,
                None => Seq::empty(),
            },
    {
        Self::from_name_in_env(
            name,
            base_url,
            api_key,
            model,
            EnvPresence { base_url: false, api_key: false, model: false },
        )
    }
}

/// The whole configuration, as plain values.
pub struct ConfigModel {
    pub provider: LLMProvider,
    pub base_url: Seq<char>,
    pub api_key: Seq<char>,
    pub model: Seq<char>,
    pub language: Seq<char>,
    pub prompt: Option<Seq<char>>,
    pub emoji: bool,
    pub multi_line: bool,
}

/// The configuration: the generation service, the language of the messages, an optional
/// instruction that replaces the default one, and two presentation switches.
#[derive(Debug, Clone)]
pub struct Config {
    pub llm: LLMConfig,
    pub language: String,
    pub prompt: Option<String>,
    pub emoji: bool,
    pub multi_line: bool,
}

impl View for Config {
    type V = ConfigModel;

    open spec fn view(&self) -> ConfigModel {
        ConfigModel {
            provider: self.llm.provider,
            base_url: self.llm.base_url@,
            api_key: self.llm.api_key@,
            model: self.llm.model@,
            language: self.language@,
            prompt: match self.prompt {
                Some(p) => Some(p@),
                None => None,
            },
            emoji: self.emoji,
            multi_line: self.multi_line,
        }
    }
}

/// Why a configuration is refused.
#[derive(Debug)]
pub enum ConfigError {
    MissingApiKey,
    MissingBaseUrl,
    MissingModel,
    UnknownKey(String),
    InvalidValue(String),
}

/// A switch written `true` or `false`.
pub open spec fn parse_bool_spec(v: Seq<char>) -> Option<bool> {
    if v == "true"@ {
        Some(true)
    } else if v == "false"@ {
        Some(false)
    } else {
        None
    }
}

fn parse_bool(v: &str) -> (r: Option<bool>)
    ensures
        r == parse_bool_spec(v@),
{
    if same_text(v, "true") {
        Some(true)
    } else if same_text(v, "false") {
        Some(false)
    } else {
        None
    }
}

/// The keys that `set_config` knows.
pub open spec fn is_config_key(key: Seq<char>) -> bool {
    key == "llm.provider"@ || key == "llm.base_url"@ || key == "llm.api_key"@ || key
        == "llm.model"@ || key == "language"@ || key == "prompt"@ || key == "emoji"@ || key
        == "multi_line"@
}

/// The configuration after setting `key` to `value`, or none where the key is unknown or
/// the value does not suit it.
pub open spec fn set_spec(c: ConfigModel, key: Seq<char>, value: Seq<char>) -> Option<ConfigModel> {
    if key == "llm.provider"@ {
        match LLMProvider::named(value) {
            Some(p) => Some(ConfigModel { provider: p, ..c }),
            None => None,
        }
    } else if key == "llm.base_url"@ {
        Some(ConfigModel { base_url: value, ..c })
    } else if key == "llm.api_key"@ {
        Some(ConfigModel { api_key: value, ..c })
    } else if key == "llm.model"@ {
        Some(ConfigModel { model: value, ..c })
    } else if key == "language"@ {
        Some(ConfigModel { language: value, ..c })
    } else if key == "prompt"@ {
        Some(ConfigModel { prompt: Some(value), ..c })
    } else if key == "emoji"@ {
        match parse_bool_spec(value) {
            Some(b) => Some(ConfigModel { emoji: b, ..c }),
            None => None,
        }
    } else if key == "multi_line"@ {
        match parse_bool_spec(value) {
            Some(b) => Some(ConfigModel { multi_line: b, ..c }),
            None => None,
        }
    } else {
        None
    }
}

/// What `validate` answers: the first missing part, in the order key, base URL, model.
/// An API key of `ENV` stands for one in the environment.
pub open spec fn validate_spec(c: ConfigModel, api_key_env_set: bool) -> Result<(), ConfigError> {
    if (c.api_key == "ENV"@ && !api_key_env_set) || c.api_key.len() == 0 {
        Err(ConfigError::MissingApiKey)
    } else if c.base_url.len() == 0 {
        Err(ConfigError::MissingBaseUrl)
    } else if c.model.len() == 0 {
        Err(ConfigError::MissingModel)
    } else {
        Ok(())
    }
}

impl Config {
    /// A configuration for the provider with configuration key `provider`, in Chinese,
    /// with the default instruction and both switches off.
    pub fn with_provider(provider: &str, api_key: &str) -> (r: Self)
        ensures
            r@.provider == provider_for_key(provider@),
            r@.base_url == (if is_known_key(provider@) {
                default_base_url()
            } else {
                Seq::empty()
            }),
            r@.api_key == api_key@,
            r@.model == Seq::<char>::empty(),
            r@.language == "zh-CN"@,
            r@.prompt is None,
            !r@.emoji,
            !r@.multi_line,
    {
        Config {
            llm: LLMConfig::from_name(provider, None, Some(api_key), None),
            language: "zh-CN".to_string(),
            prompt: None,
            emoji: false,
            multi_line: false,
        }
    }

    /// Checks that the configuration names an API key, a base URL and a model.
    pub fn validate(&self, api_key_env_set: bool) -> (r: Result<(), ConfigError>)
        ensures
            match (r, validate_spec(self@, api_key_env_set)) {
                (Ok(()), Ok(())) => true,
                (Err(ConfigError::MissingApiKey), Err(ConfigError::MissingApiKey)) => true,
                (Err(ConfigError::MissingBaseUrl), Err(ConfigError::MissingBaseUrl)) => true,
                (Err(ConfigError::MissingModel), Err(ConfigError::MissingModel)) => true,
                _ => false,
            },
    {
        let key = self.llm.api_key.as_str();
        if (same_text(key, "ENV") && !api_key_env_set) || key.unicode_len() == 0 {
            return Err(ConfigError::MissingApiKey);
        }
        if self.llm.base_url.unicode_len() == 0 {
            return Err(ConfigError::MissingBaseUrl);
        }
        if self.llm.model.unicode_len() == 0 {
            return Err(ConfigError::MissingModel);
        }
        Ok(())
    }

    /// Sets one configuration item, named by its key, from its text.
    pub fn set_config(&mut self, key: &str, value: &str) -> (r: Result<(), ConfigError>)
        ensures
            r is Ok <==> set_spec(old(self)@, key@, value@) is Some,
            r is Ok ==> final(self)@ == set_spec(old(self)@, key@, value@)->0,
            r is Err ==> final(self)@ == old(self)@,
            r matches Err(ConfigError::UnknownKey(k)) <==> !is_config_key(key@),
            r matches Err(ConfigError::UnknownKey(k)) ==> k@ == key@,
            r matches Err(ConfigError::InvalidValue(v)) ==> v@ == value@,
            r is Err ==> (r matches Err(ConfigError::UnknownKey(_)) || r matches Err(
                ConfigError::InvalidValue(_),
            )),
    {
        if same_text(key, "llm.provider") {
            match LLMProvider::from_name(value) {
                Some(p) => {
                    self.llm.provider = p;
                    Ok(())
                },
                None => Err(ConfigError::InvalidValue(value.to_string())),
            }
        } else if same_text(key, "llm.base_url") {
            self.llm.base_url = value.to_string();
            Ok(())
        } else if same_text(key, "llm.api_key") {
            self.llm.api_key = value.to_string();
            Ok(())
        } else if same_text(key, "llm.model") {
            self.llm.model = value.to_string();
            Ok(())
        } else if same_text(key, "language") {
            self.language = value.to_string();
            Ok(())
        } else if same_text(key, "prompt") {
            self.prompt = Some(value.to_string());
            Ok(())
        } else if same_text(key, "emoji") {
            match parse_bool(value) {
                Some(b) => {
                    self.emoji = b;
                    Ok(())
                },
                None => Err(ConfigError::InvalidValue(value.to_string())),
            }
        } else if same_text(key, "multi_line") {
            match parse_bool(value) {
                Some(b) => {
                    self.multi_line = b;
                    Ok(())
                },
                None => Err(ConfigError::InvalidValue(value.to_string())),
            }
        } else {
            Err(ConfigError::UnknownKey(key.to_string()))
        }
    }
}

} // verus!
