//! Errors of configuration loading.

use vstd::prelude::*;

use crate::text::concat2;

verus! {

broadcast use vstd::string::group_string_axioms;

/// Why a configuration could not be loaded.
#[derive(Debug)]
pub enum ConfigError {
    FileNotFound(String),
    FileReadError(String),
    FileWriteError(String),
    JsonParseError(String),
    EnvVariableNotFound(String),
    ValidationError(String),
    SerializationError(String),
    IoError(String),
}

/// Mathematical value of a configuration error.
pub enum ConfigErrorView {
    FileNotFound(Seq<char>),
    FileReadError(Seq<char>),
    FileWriteError(Seq<char>),
    JsonParseError(Seq<char>),
    EnvVariableNotFound(Seq<char>),
    ValidationError(Seq<char>),
    SerializationError(Seq<char>),
    IoError(Seq<char>),
}

impl View for ConfigError {
    type V = ConfigErrorView;

    open spec fn view(&self) -> ConfigErrorView {
        match self {
            ConfigError::FileNotFound(s) => ConfigErrorView::FileNotFound(s@),
            ConfigError::FileReadError(s) => ConfigErrorView::FileReadError(s@),
            ConfigError::FileWriteError(s) => ConfigErrorView::FileWriteError(s@),
            ConfigError::JsonParseError(s) => ConfigErrorView::JsonParseError(s@),
            ConfigError::EnvVariableNotFound(s) => ConfigErrorView::EnvVariableNotFound(s@),
            ConfigError::ValidationError(s) => ConfigErrorView::ValidationError(s@),
            ConfigError::SerializationError(s) => ConfigErrorView::SerializationError(s@),
            ConfigError::IoError(s) => ConfigErrorView::IoError(s@),
        }
    }
}

/// The message of a configuration error.
pub open spec fn config_error_message(e: ConfigErrorView) -> Seq<char> {
    match e {
        ConfigErrorView::FileNotFound(s) => "Config file not found: "@ + s,
        ConfigErrorView::FileReadError(s) => "Failed to read config file: "@ + s,
        ConfigErrorView::FileWriteError(s) => "Failed to write config file: "@ + s,
        ConfigErrorView::JsonParseError(s) => "Invalid JSON in config file: "@ + s,
        ConfigErrorView::EnvVariableNotFound(s) => "Environment variable not found: "@ + s,
        ConfigErrorView::ValidationError(s) => "Validation error: "@ + s,
        ConfigErrorView::SerializationError(s) => "Serialization error: "@ + s,
        ConfigErrorView::IoError(s) => "IO error: "@ + s,
    }
}

impl ConfigError {
    /// The error message, e.g. "Config file not found: <path>".
    pub fn message(&self) -> (m: String)
        ensures
            m@ == config_error_message(self@),
    {
        match self {
            ConfigError::FileNotFound(s) => concat2("Config file not found: ", s.as_str()),
            ConfigError::FileReadError(s) => concat2("Failed to read config file: ", s.as_str()),
            ConfigError::FileWriteError(s) => concat2("Failed to write config file: ", s.as_str()),
            ConfigError::JsonParseError(s) => concat2("Invalid JSON in config file: ", s.as_str()),
            ConfigError::EnvVariableNotFound(s) => concat2("Environment variable not found: ", s.as_str()),
            ConfigError::ValidationError(s) => concat2("Validation error: ", s.as_str()),
            ConfigError::SerializationError(s) => concat2("Serialization error: ", s.as_str()),
            ConfigError::IoError(s) => concat2("IO error: ", s.as_str()),
        }
    }
}

} // verus!
