//! The settings of the command-line application and their validation.

use crate::anthropic::has_placeholder;
use crate::text::{contains_chars, from_chars, starts_with, starts_with_chars, to_chars};
use vstd::prelude::*;

verus! {

/// The prompt template used where the user gave none.
pub const DEFAULT_PROMPT_TEMPLATE: &'static str =
    "Refine and improve the following prompt to be more clear, concise, and effective:\n\n{clipboard_text}\n\nProvide only the refined prompt without explanation.";

/// The default modifiers of the hotkey.
pub fn default_modifiers() -> (r: String)
    ensures
        r@ == "cmd+shift"@,
{
    from_chars(&to_chars("cmd+shift"))
}

/// The default key of the hotkey.
pub fn default_key() -> (r: String)
    ensures
        r@ == "BracketRight"@,
{
    from_chars(&to_chars("BracketRight"))
}

/// The default time allowed for a remote call, in seconds.
pub fn default_timeout() -> (r: u64)
    ensures
        r == 30,
{
    30
}

/// The default name of the file that holds the prompt template.
pub fn default_template_file() -> (r: String)
    ensures
        r@ == "prompt_template.txt"@,
{
    from_chars(&to_chars("prompt_template.txt"))
}

/// The hotkey section of the settings file.
#[derive(Debug)]
pub struct HotkeyConfig {
    pub modifiers: String,
    pub key: String,
}

/// The section of the settings file about the remote service.
#[derive(Debug)]
pub struct ApiConfig {
    /// The model that requests name; where there is none, the host's choice.
    pub model: Option<String>,
    pub timeout_seconds: u64,
}

/// The prompt section of the settings file.
#[derive(Debug)]
pub struct PromptConfig {
    pub template_file: String,
}

/// The settings file.
#[derive(Debug)]
pub struct TomlConfig {
    pub hotkey: HotkeyConfig,
    pub api: ApiConfig,
    pub prompt: PromptConfig,
}

impl Default for HotkeyConfig {
    fn default() -> (r: HotkeyConfig)
        ensures
            r.modifiers@ == "cmd+shift"@,
            r.key@ == "BracketRight"@,
    {
        HotkeyConfig { modifiers: default_modifiers(), key: default_key() }
    }
}

impl Default for ApiConfig {
    fn default() -> (r: ApiConfig)
        ensures
            r.model is None,
            r.timeout_seconds == 30,
    {
        ApiConfig { model: None, timeout_seconds: default_timeout() }
    }
}

impl Default for PromptConfig {
    fn default() -> (r: PromptConfig)
        ensures
            r.template_file@ == "prompt_template.txt"@,
    {
        PromptConfig { template_file: default_template_file() }
    }
}

impl Default for TomlConfig {
    fn default() -> (r: TomlConfig)
        ensures
            r.hotkey.modifiers@ == "cmd+shift"@,
            r.hotkey.key@ == "BracketRight"@,
            r.api.model is None,
            r.api.timeout_seconds == 30,
            r.prompt.template_file@ == "prompt_template.txt"@,
    {
        TomlConfig {
            hotkey: HotkeyConfig::default(),
            api: ApiConfig::default(),
            prompt: PromptConfig::default(),
        }
    }
}

/// The settings that the application runs with.
#[derive(Debug)]
pub struct Config {
    pub api_key: String,
    pub prompt_template: String,
    /// The model that requests name; where there is none, the host's choice.
    pub model: Option<String>,
    pub timeout_seconds: u64,
    pub hotkey_modifiers: String,
    pub hotkey_key: String,
}

/// What is wrong with a key and a template, if anything: the key must not be
/// empty and must begin with `sk-`, and the template must hold the
/// placeholder. The first fault found is reported.
pub open spec fn fault(api_key: Seq<char>, prompt_template: Seq<char>) -> Option<Seq<char>> {
    if api_key.len() == 0 {
        Some("API key is empty"@)
    } else if !starts_with(api_key, "sk-"@) {
        Some("API key should start with 'sk-'"@)
    } else if !has_placeholder(prompt_template) {
        Some("Prompt template must contain {clipboard_text} placeholder"@)
    } else {
        None
    }
}

impl Config {
    /// The settings made of the key, the settings file and the prompt
    /// template read from the file that it names; the default template where
    /// there is none.
    pub fn from_settings(api_key: String, settings: TomlConfig, prompt_template: Option<String>)
        -> (r: Config)
        ensures
            r.api_key == api_key,
            r.model == settings.api.model,
            r.timeout_seconds == settings.api.timeout_seconds,
            r.hotkey_modifiers == settings.hotkey.modifiers,
            r.hotkey_key == settings.hotkey.key,
            r.prompt_template@ == match prompt_template {
                Some(t) => t@,
                None => DEFAULT_PROMPT_TEMPLATE@,
            },
    {
        let prompt_template = match prompt_template {
            Some(t) => t,
            None => from_chars(&to_chars(DEFAULT_PROMPT_TEMPLATE)),
        };
        Config {
            api_key,
            prompt_template,
            model: settings.api.model,
            timeout_seconds: settings.api.timeout_seconds,
            hotkey_modifiers: settings.hotkey.modifiers,
            hotkey_key: settings.hotkey.key,
        }
    }

    /// Checks that the settings are usable, and says what is wrong if not.
    pub fn validate(&self) -> (r: Result<(), String>)
        ensures
            match fault(self.api_key@, self.prompt_template@) {
                None => r is Ok,
                Some(words) => r matches Err(e) && e@ == words,
            },
    {
        let key = to_chars(self.api_key.as_str());
        if key.len() == 0 {
            return Err(from_chars(&to_chars("API key is empty")));
        }
        if !starts_with_chars(&key, &to_chars("sk-")) {
            return Err(from_chars(&to_chars("API key should start with 'sk-'")));
        }
        let template = to_chars(self.prompt_template.as_str());
        if !contains_chars(&template, &to_chars("{clipboard_text}")) {
            return Err(
                from_chars(&to_chars("Prompt template must contain {clipboard_text} placeholder")),
            );
        }
        Ok(())
    }
}

} // verus!
