//! The settings that the naming engine and the watcher read.
//!
//! The settings are kept as the user wrote them, as text. The two axes that
//! code branches on, the provider and the naming style, are read off into
//! closed enums here, so that every table over them is total.

use vstd::prelude::*;
use crate::text::{chars_of, is_str, owned, same_str};

verus! {

/// The settings of the application.
#[derive(Clone, Debug, PartialEq, Eq)]
pub struct AppConfig {
    pub provider: String,
    pub ollama_url: String,
    pub ollama_model: String,
    pub openai_key: String,
    pub openai_model: String,
    pub openai_base_url: String,
    pub custom_rules: String,
    pub naming_style: String,
    pub include_date: bool,
    pub watch_folder: String,
    pub watch_extensions: String,
    pub name_template: String,
    pub default_dest_folder: String,
    pub auto_categorize: bool,
    pub vlm_enabled: bool,
    pub vlm_same_as_llm: bool,
    pub vlm_base_url: String,
    pub vlm_key: String,
    pub vlm_model: String,
}

/// The naming style of a fresh configuration.
pub fn default_naming_style() -> (r: String)
    ensures
        r@ == "kebab-case"@,
{
    owned("kebab-case")
}

/// The watched extensions of a fresh configuration.
pub fn default_watch_extensions() -> (r: String)
    ensures
        r@ == "pdf"@,
{
    owned("pdf")
}

/// The address of the hosted provider in a fresh configuration.
pub fn default_openai_base_url() -> (r: String)
    ensures
        r@ == "https://api.openai.com/v1"@,
{
    owned("https://api.openai.com/v1")
}

impl Default for AppConfig {
    /// A fresh configuration: the local provider at its usual address, kebab
    /// case, no dates, PDFs watched, the vision model off and sharing the
    /// settings of the language model.
    fn default() -> (c: AppConfig)
        ensures
            c.provider@ == "ollama"@,
            c.ollama_url@ == "http://localhost:11434"@,
            c.ollama_model@ == "llama3.2"@,
            c.openai_key@ == ""@,
            c.openai_model@ == "gpt-4o-mini"@,
            c.openai_base_url@ == "https://api.openai.com/v1"@,
            c.custom_rules@ == ""@,
            c.naming_style@ == "kebab-case"@,
            !c.include_date,
            c.watch_folder@ == ""@,
            c.watch_extensions@ == "pdf"@,
            c.name_template@ == ""@,
            c.default_dest_folder@ == ""@,
            !c.auto_categorize,
            !c.vlm_enabled,
            c.vlm_same_as_llm,
            c.vlm_base_url@ == ""@,
            c.vlm_key@ == ""@,
            c.vlm_model@ == ""@,
    {
        AppConfig {
            provider: owned("ollama"),
            ollama_url: owned("http://localhost:11434"),
            ollama_model: owned("llama3.2"),
            openai_key: owned(""),
            openai_model: owned("gpt-4o-mini"),
            openai_base_url: default_openai_base_url(),
            custom_rules: owned(""),
            naming_style: default_naming_style(),
            include_date: false,
            watch_folder: owned(""),
            watch_extensions: default_watch_extensions(),
            name_template: owned(""),
            default_dest_folder: owned(""),
            auto_categorize: false,
            vlm_enabled: false,
            vlm_same_as_llm: true,
            vlm_base_url: owned(""),
            vlm_key: owned(""),
            vlm_model: owned(""),
        }
    }
}

/// The two kinds of provider.
#[derive(Clone, Copy, Debug, PartialEq, Eq, Structural)]
pub enum Provider {
    /// A chat endpoint on the local network.
    Local,
    /// A hosted chat-completion endpoint.
    Hosted,
}

/// The provider that a setting names: the hosted one for `openai`, the local
/// one for anything else.
pub open spec fn provider_named(name: Seq<char>) -> Provider {
    if name == "openai"@ {
        Provider::Hosted
    } else {
        Provider::Local
    }
}

/// The naming styles.
#[derive(Clone, Copy, Debug, PartialEq, Eq, Structural)]
pub enum NamingStyle {
    Kebab,
    Camel,
    Pascal,
    Snake,
    Train,
    Localized,
}

/// The style that a setting names: kebab case for anything unknown.
pub open spec fn style_named(name: Seq<char>) -> NamingStyle {
    if name == "camelCase"@ {
        NamingStyle::Camel
    } else if name == "PascalCase"@ {
        NamingStyle::Pascal
    } else if name == "snake_case"@ {
        NamingStyle::Snake
    } else if name == "Train-Case"@ {
        NamingStyle::Train
    } else if name == "chinese"@ {
        NamingStyle::Localized
    } else {
        NamingStyle::Kebab
    }
}

/// The style that the setting `name` names.
pub fn naming_style(name: &str) -> (r: NamingStyle)
    ensures
        r == style_named(name@),
{
    let chars = chars_of(name);
    if is_str(&chars, "camelCase") {
        NamingStyle::Camel
    } else if is_str(&chars, "PascalCase") {
        NamingStyle::Pascal
    } else if is_str(&chars, "snake_case") {
        NamingStyle::Snake
    } else if is_str(&chars, "Train-Case") {
        NamingStyle::Train
    } else if is_str(&chars, "chinese") {
        NamingStyle::Localized
    } else {
        NamingStyle::Kebab
    }
}

impl AppConfig {
    /// The provider that the configuration selects.
    pub fn provider(&self) -> (r: Provider)
        ensures
            r == provider_named(self.provider@),
    {
        if same_str(self.provider.as_str(), "openai") {
            Provider::Hosted
        } else {
            Provider::Local
        }
    }

    /// The naming style that the configuration selects.
    pub fn style(&self) -> (r: NamingStyle)
        ensures
            r == style_named(self.naming_style@),
    {
        naming_style(self.naming_style.as_str())
    }
}

} // verus!
