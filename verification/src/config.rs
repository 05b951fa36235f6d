//! The settings that the bot needs before it can serve.

use vstd::prelude::*;
use vstd::string::*;

verus! {

/// One of the settings, each read from the environment variable of its
/// name.
#[derive(Debug, Clone, Copy, PartialEq, Eq, Structural)]
pub enum Setting {
    /// The key to the chat platform.
    BotKey,
    /// The address of the translation endpoint.
    TranslateUrl,
    /// The API key sent to both endpoints.
    TranslateKey,
    /// The address of the detection endpoint.
    DetectUrl,
}

/// The settings, all present.
#[derive(Debug, Clone, PartialEq, Eq)]
pub struct Config {
    pub bot_key: String,
    pub translate_url: String,
    pub translate_key: String,
    pub detect_url: String,
}

/// The mathematical value of a [`Config`].
pub struct ConfigView {
    pub bot_key: Seq<char>,
    pub translate_url: Seq<char>,
    pub translate_key: Seq<char>,
    pub detect_url: Seq<char>,
}

impl View for Config {
    type V = ConfigView;

    open spec fn view(&self) -> ConfigView {
        ConfigView {
            bot_key: self.bot_key@,
            translate_url: self.translate_url@,
            translate_key: self.translate_key@,
            detect_url: self.detect_url@,
        }
    }
}

/// A setting is missing.
#[derive(Debug, Clone, Copy, PartialEq, Eq, Structural)]
pub struct ConfigError {
    /// The first setting that is missing.
    pub missing: Setting,
}

/// The name of the environment variable that holds a setting.
pub open spec fn variable(setting: Setting) -> Seq<char> {
    match setting {
        Setting::BotKey => "TELEGRAM_BOT_KEY"@,
        Setting::TranslateUrl => "API_TRANSLATE_URL"@,
        Setting::TranslateKey => "API_TRANSLATE_KEY"@,
        Setting::DetectUrl => "API_DETECT_URL"@,
    }
}

/// The first of the settings that is absent, in the order in which they are
/// asked for, if any is.
pub open spec fn first_missing(
    bot_key: Option<Seq<char>>,
    translate_url: Option<Seq<char>>,
    translate_key: Option<Seq<char>>,
    detect_url: Option<Seq<char>>,
) -> Option<Setting> {
    if bot_key is None {
        Some(Setting::BotKey)
    } else if translate_url is None {
        Some(Setting::TranslateUrl)
    } else if translate_key is None {
        Some(Setting::TranslateKey)
    } else if detect_url is None {
        Some(Setting::DetectUrl)
    } else {
        None
    }
}

impl Setting {
    /// The name of the environment variable that holds the setting.
    pub fn variable(&self) -> (name: &'static str)
        ensures
            name@ == variable(*self),
    {
        match self {
            Setting::BotKey => "TELEGRAM_BOT_KEY",
            Setting::TranslateUrl => "API_TRANSLATE_URL",
            Setting::TranslateKey => "API_TRANSLATE_KEY",
            Setting::DetectUrl => "API_DETECT_URL",
        }
    }
}

impl ConfigError {
    /// The error in words: the name of the variable, then ` not found`.
    pub fn description(&self) -> (text: String)
        ensures
            text@ == variable(self.missing) + " not found"@,
    {
        let mut text = String::from_str(self.missing.variable());
        text.append(" not found");
        text
    }
}

impl Config {
    /// Puts the settings together from what the environment held for each.
    /// All four must be present; the error names the first that is not.
    pub fn load(
        bot_key: Option<String>,
        translate_url: Option<String>,
        translate_key: Option<String>,
        detect_url: Option<String>,
    ) -> (r: Result<Config, ConfigError>)
        ensures
            match r {
                Ok(config) => {
                    &&& first_missing(
                        bot_key.deep_view(),
                        translate_url.deep_view(),
                        translate_key.deep_view(),
                        detect_url.deep_view(),
                    ) is None
                    &&& Some(config@.bot_key) == bot_key.deep_view()
                    &&& Some(config@.translate_url) == translate_url.deep_view()
                    &&& Some(config@.translate_key) == translate_key.deep_view()
                    &&& Some(config@.detect_url) == detect_url.deep_view()
                },
                Err(error) => first_missing(
                    bot_key.deep_view(),
                    translate_url.deep_view(),
                    translate_key.deep_view(),
                    detect_url.deep_view(),
                ) == Some(error.missing),
            },
    {
        match bot_key {
            None => Err(ConfigError { missing: Setting::BotKey }),
            Some(bot_key) => match translate_url {
                None => Err(ConfigError { missing: Setting::TranslateUrl }),
                Some(translate_url) => match translate_key {
                    None => Err(ConfigError { missing: Setting::TranslateKey }),
                    Some(translate_key) => match detect_url {
                        None => Err(ConfigError { missing: Setting::DetectUrl }),
                        Some(detect_url) => Ok(
                            Config { bot_key, translate_url, translate_key, detect_url },
                        ),
                    },
                },
            },
        }
    }
}

} // verus!
