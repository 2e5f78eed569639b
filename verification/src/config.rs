//! The settings read from the Hermes configuration file, and what the wizard takes from them.
use vstd::prelude::*;
use crate::text::{opt_view, text_of};

verus! {

/// The `model` section of the configuration.
#[derive(Debug)]
pub struct ModelConfig {
    pub default: Option<String>,
    pub base_url: Option<String>,
    pub provider: Option<String>,
}

/// The `logging` section of the configuration.
#[derive(Debug)]
pub struct LoggingConfig {
    pub level: Option<String>,
}

/// The Hermes configuration.
#[derive(Debug)]
pub struct HermesConfig {
    pub model: Option<ModelConfig>,
    pub logging: Option<LoggingConfig>,
    pub toolsets: Option<Vec<String>>,
}

/// The service address that the configuration names, if it names one.
pub open spec fn configured_base_url(c: Option<HermesConfig>) -> Option<Seq<char>> {
    match c {
        Some(cfg) => match cfg.model {
            Some(m) => opt_view(m.base_url),
            None => None,
        },
        None => None,
    }
}

/// The default model that the configuration names, if it names one.
pub open spec fn configured_model(c: Option<HermesConfig>) -> Option<Seq<char>> {
    match c {
        Some(cfg) => match cfg.model {
            Some(m) => opt_view(m.default),
            None => None,
        },
        None => None,
    }
}

/// The service address used when the configuration names none.
pub open spec fn fallback_base_url() -> Seq<char> {
    "http://localhost:11434/v1"@
}

/// The model used when the configuration names none.
pub open spec fn fallback_model() -> Seq<char> {
    "qwen3.5:4b"@
}

/// The value of `o`, or `d` where there is none.
pub open spec fn or_else(o: Option<Seq<char>>, d: Seq<char>) -> Seq<char> {
    match o {
        Some(s) => s,
        None => d,
    }
}

/// A copy of an optional text setting.
pub fn copy_opt(o: &Option<String>) -> (r: Option<String>)
    ensures
        opt_view(r) == opt_view(*o),
{
    match o {
        Some(s) => Some(s.clone()),
        None => None,
    }
}

/// The service address to talk to: the configured one, else the local default.
pub fn base_url_of(config: &Option<HermesConfig>) -> (u: String)
    ensures
        u@ == or_else(configured_base_url(*config), fallback_base_url()),
{
    if let Some(cfg) = config {
        if let Some(m) = &cfg.model {
            if let Some(u) = &m.base_url {
                return u.clone();
            }
        }
    }
    text_of("http://localhost:11434/v1")
}

/// The model to ask: the configured default, else the built-in one.
pub fn model_of(config: &Option<HermesConfig>) -> (m: String)
    ensures
        m@ == or_else(configured_model(*config), fallback_model()),
{
    if let Some(cfg) = config {
        if let Some(m) = &cfg.model {
            if let Some(d) = &m.default {
                return d.clone();
            }
        }
    }
    text_of("qwen3.5:4b")
}

} // verus!
