//! Where the services are that the program talks to.
use vstd::prelude::*;

verus! {

/// The search index.
#[derive(Clone, Debug)]
pub struct AzureSearchConfig {
    pub url: String,
    pub api_version: String,
    pub key: String,
}

/// The language model.
#[derive(Clone, Debug)]
pub struct OpenAiConfig {
    pub url: String,
    pub api_version: String,
    pub key: String,
    pub model: String,
}

/// The configuration of the whole program.
#[derive(Clone, Debug)]
pub struct Config {
    pub front_end_url: String,
    pub azure_search: AzureSearchConfig,
    pub open_ai: OpenAiConfig,
}

} // verus!
