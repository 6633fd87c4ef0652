//! Turning the options of one invocation into settings and a generator.

use vstd::prelude::*;

use crate::error::GenerationError;
use crate::generator::{
    create_generator, is_chat_model, string_or, text_or, Generator, OllamaProvider, DEFAULT_PROFILE,
    DEFAULT_REGION,
};
use crate::model_alias::{alias_named, get_model_name_from_alias, model_alias_from_str, model_name_of};
use crate::provider::{provider_from_str, provider_named, Provider};

verus! {

/// The token limit used when none is given.
pub const DEFAULT_MAX_TOKEN: u32 = 100;

/// The model alias used when none is given.
pub const DEFAULT_MODEL: &'static str = "haiku";

/// The provider used when none is given.
pub const DEFAULT_PROVIDER: &'static str = "bedrock";

/// The inference server's address used when none is given.
pub const DEFAULT_ENDPOINT: &'static str = "http://localhost:11434";

/// Everything a request needs but its prompt and temperature.
pub struct GenerateSettings {
    pub region: String,
    pub profile: String,
    pub max_token: u32,
    pub model: String,
    pub provider: Provider,
    pub endpoint: String,
}

/// The settings for the options given, each missing one taken from its
/// default. Fails when the provider's name is not a known provider's.
pub fn resolve_settings(
    region: Option<String>,
    profile: Option<String>,
    max_token: Option<u32>,
    model: Option<String>,
    provider: Option<String>,
    endpoint: Option<String>,
) -> (r: Result<GenerateSettings, GenerationError>)
    ensures
        r is Err <==> provider_named(text_or(provider, DEFAULT_PROVIDER@)) is None,
        r matches Err(e) ==> e is ProviderNotFoundError,
        r matches Ok(s) ==> {
            &&& s.region@ == text_or(region, DEFAULT_REGION@)
            &&& s.profile@ == text_or(profile, DEFAULT_PROFILE@)
            &&& s.max_token == match max_token {
                Some(n) => n,
                None => DEFAULT_MAX_TOKEN,
            }
            &&& s.model@ == text_or(model, DEFAULT_MODEL@)
            &&& provider_named(text_or(provider, DEFAULT_PROVIDER@)) == Some(s.provider)
            &&& s.endpoint@ == text_or(endpoint, DEFAULT_ENDPOINT@)
        },
{
    let provider_name = string_or(provider, DEFAULT_PROVIDER);
    let provider = match provider_from_str(provider_name.as_str()) {
        Some(p) => p,
        None => {
            return Err(GenerationError::ProviderNotFoundError);
        },
    };
    let max_token = match max_token {
        Some(n) => n,
        None => DEFAULT_MAX_TOKEN,
    };
    Ok(
        GenerateSettings {
            region: string_or(region, DEFAULT_REGION),
            profile: string_or(profile, DEFAULT_PROFILE),
            max_token,
            model: string_or(model, DEFAULT_MODEL),
            provider,
            endpoint: string_or(endpoint, DEFAULT_ENDPOINT),
        },
    )
}

/// The generator for the settings. With the hosted service the model must be
/// a known alias, and its backend model picks the chat-style or the
/// completion-style generator; the inference server takes the model as named.
pub fn select_generator<F>(settings: GenerateSettings, temperature: Option<F>) -> (r: Result<
    Generator<F>,
    GenerationError,
>)
    ensures
        r is Err <==> (settings.provider is Bedrock && alias_named(settings.model@) is None),
        r matches Err(e) ==> e is ModelNotFoundError,
        settings.provider is Ollama ==> (r matches Ok(Generator::Ollama(g)) && g.endpoint
            == settings.endpoint && g.model == settings.model && g.maxtoken == Some(
            settings.max_token,
        ) && g.temperature == temperature),
        (settings.provider is Bedrock && alias_named(settings.model@) is Some && is_chat_model(
            model_name_of(alias_named(settings.model@)->Some_0),
        )) ==> (r matches Ok(Generator::Claude(g))
            && g.region@ == settings.region@ && g.profile@ == settings.profile@ && g.max_token == Some(
            settings.max_token,
        ) && g.temperature == temperature && g.model == Some(
            model_name_of(alias_named(settings.model@)->Some_0),
        )),
        (settings.provider is Bedrock && alias_named(settings.model@) is Some && !is_chat_model(
            model_name_of(alias_named(settings.model@)->Some_0),
        )) ==> (r matches Ok(Generator::Mistral(g))
            && g.region@ == settings.region@ && g.profile@ == settings.profile@ && g.max_tokens
            == Some(settings.max_token) && g.temperature == temperature && g.model_name == Some(
            model_name_of(alias_named(settings.model@)->Some_0),
        )),
{
    match settings.provider {
        Provider::Bedrock => {
            let alias = match model_alias_from_str(settings.model.as_str()) {
                Some(a) => a,
                None => {
                    return Err(GenerationError::ModelNotFoundError);
                },
            };
            let model_name = match get_model_name_from_alias(alias) {
                Ok(n) => n,
                Err(e) => {
                    return Err(e);
                },
            };
            Ok(
                create_generator(
                    model_name,
                    Some(settings.region),
                    Some(settings.profile),
                    Some(settings.max_token),
                    temperature,
                ),
            )
        },
        Provider::Ollama => Ok(
            Generator::Ollama(
                OllamaProvider::new(
                    settings.endpoint,
                    settings.model,
                    Some(settings.max_token),
                    temperature,
                ),
            ),
        ),
    }
}

} // verus!
