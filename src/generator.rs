//! The three kinds of generator, and the choice among them.
//!
//! A generator holds what one request needs. The sampling temperature is
//! carried as the backend takes it (`F`) and only handed on.

use hiramu::bedrock::ModelName;
use vstd::prelude::*;

use crate::model_alias::{bedrock_model_id, model_id};

verus! {

/// The region used when none is given.
pub const DEFAULT_REGION: &'static str = "us-west-2";

/// The credential profile used when none is given.
pub const DEFAULT_PROFILE: &'static str = "bedrock";

/// The text, or its default.
pub open spec fn text_or(s: Option<String>, default: Seq<char>) -> Seq<char> {
    match s {
        Some(t) => t@,
        None => default,
    }
}

/// The string, or a copy of the default.
pub(crate) fn string_or(s: Option<String>, default: &str) -> (r: String)
    ensures
        r@ == text_or(s, default@),
{
    match s {
        Some(t) => t,
        None => String::from_str(default),
    }
}

/// Chat-style requests to the hosted service.
pub struct ClaudeGenerator<F> {
    pub region: String,
    pub profile: String,
    pub max_token: Option<u32>,
    pub temperature: Option<F>,
    pub model: Option<ModelName>,
}

impl<F> ClaudeGenerator<F> {
    /// A generator with the default region and profile where none is given.
    pub fn new(
        region: Option<String>,
        profile: Option<String>,
        max_token: Option<u32>,
        temperature: Option<F>,
        model: Option<ModelName>,
    ) -> (r: ClaudeGenerator<F>)
        ensures
            r.region@ == text_or(region, DEFAULT_REGION@),
            r.profile@ == text_or(profile, DEFAULT_PROFILE@),
            r.max_token == max_token,
            r.temperature == temperature,
            r.model == model,
    {
        ClaudeGenerator {
            region: string_or(region, DEFAULT_REGION),
            profile: string_or(profile, DEFAULT_PROFILE),
            max_token,
            temperature,
            model,
        }
    }

    /// The model asked for: the one given, else the Haiku chat model.
    pub open spec fn chosen_model(&self) -> ModelName {
        match self.model {
            Some(m) => m,
            None => ModelName::AnthropicClaudeHaiku1x,
        }
    }

    /// The identifier of the model asked for.
    pub fn model_id(&self) -> (r: String)
        ensures
            r@ == bedrock_model_id(self.chosen_model()),
    {
        match &self.model {
            Some(m) => model_id(m),
            None => model_id(&ModelName::AnthropicClaudeHaiku1x),
        }
    }
}

/// The text that opens an instruction for the completion-style models.
pub const INSTRUCTION_OPEN: &'static str = "[inst]";

/// The text that closes an instruction for the completion-style models.
pub const INSTRUCTION_CLOSE: &'static str = "[/inst]";

/// The texts at which a completion-style response stops, in order.
pub open spec fn stop_texts() -> Seq<Seq<char>> {
    seq!["[/inst]"@, "[/resp]"@, "[/ans]"@, "[/out]"@, "[/sol]"@]
}

/// Completion-style requests to the hosted service.
pub struct MistralGenerator<F> {
    pub region: String,
    pub profile: String,
    pub max_tokens: Option<u32>,
    pub temperature: Option<F>,
    pub model_name: Option<ModelName>,
}

impl<F> MistralGenerator<F> {
    /// A generator with the default region and profile where none is given.
    pub fn new(
        region: Option<String>,
        profile: Option<String>,
        max_tokens: Option<u32>,
        temperature: Option<F>,
        model_name: Option<ModelName>,
    ) -> (r: MistralGenerator<F>)
        ensures
            r.region@ == text_or(region, DEFAULT_REGION@),
            r.profile@ == text_or(profile, DEFAULT_PROFILE@),
            r.max_tokens == max_tokens,
            r.temperature == temperature,
            r.model_name == model_name,
    {
        MistralGenerator {
            region: string_or(region, DEFAULT_REGION),
            profile: string_or(profile, DEFAULT_PROFILE),
            max_tokens,
            temperature,
            model_name,
        }
    }

    /// The model asked for: the one given, else Mixtral 8x7B.
    pub open spec fn chosen_model(&self) -> ModelName {
        match self.model_name {
            Some(m) => m,
            None => ModelName::MistralMixtral8X7BInstruct0x,
        }
    }

    /// The identifier of the model asked for.
    pub fn model_id(&self) -> (r: String)
        ensures
            r@ == bedrock_model_id(self.chosen_model()),
    {
        match &self.model_name {
            Some(m) => model_id(m),
            None => model_id(&ModelName::MistralMixtral8X7BInstruct0x),
        }
    }

    /// The prompt wrapped in the instruction delimiters.
    pub fn instruction(&self, prompt: &str) -> (r: String)
        ensures
            r@ == INSTRUCTION_OPEN@ + prompt@ + INSTRUCTION_CLOSE@,
    {
        let mut r = String::from_str(INSTRUCTION_OPEN);
        r.append(prompt);
        r.append(INSTRUCTION_CLOSE);
        r
    }

    /// The stop sequences sent with every request.
    pub fn stop_sequences(&self) -> (r: Vec<String>)
        ensures
            r@.len() == stop_texts().len(),
            forall|i: int| 0 <= i < r@.len() ==> #[trigger] r@[i]@ == stop_texts()[i],
    {
        let r = vec![
            String::from_str("[/inst]"),
            String::from_str("[/resp]"),
            String::from_str("[/ans]"),
            String::from_str("[/out]"),
            String::from_str("[/sol]"),
        ];
        r
    }
}

/// Requests to an inference server at `endpoint`.
pub struct OllamaProvider<F> {
    pub endpoint: String,
    pub model: String,
    pub maxtoken: Option<u32>,
    pub temperature: Option<F>,
}

impl<F> OllamaProvider<F> {
    /// A provider for `model` at `endpoint`.
    pub fn new(endpoint: String, model: String, maxtoken: Option<u32>, temperature: Option<F>) -> (r:
        OllamaProvider<F>)
        ensures
            r.endpoint == endpoint,
            r.model == model,
            r.maxtoken == maxtoken,
            r.temperature == temperature,
    {
        OllamaProvider { endpoint, model, maxtoken, temperature }
    }
}

/// One generator of any kind.
pub enum Generator<F> {
    Claude(ClaudeGenerator<F>),
    Mistral(MistralGenerator<F>),
    Ollama(OllamaProvider<F>),
}

/// Whether a model is one of the chat-style models: Haiku, Sonnet or Opus.
pub open spec fn is_chat_model(name: ModelName) -> bool {
    name is AnthropicClaudeHaiku1x || name is AnthropicClaudeSonnet1x
        || name is AnthropicClaudeOpus1x
}

/// The generator for a hosted model: chat-style for Haiku, Sonnet and Opus,
/// completion-style for every other.
pub fn create_generator<F>(
    model_name: ModelName,
    region: Option<String>,
    profile: Option<String>,
    max_token: Option<u32>,
    temperature: Option<F>,
) -> (r: Generator<F>)
    ensures
        is_chat_model(model_name) ==> (r matches Generator::Claude(g) && g.region@ == text_or(
            region,
            DEFAULT_REGION@,
        ) && g.profile@ == text_or(profile, DEFAULT_PROFILE@) && g.max_token == max_token
            && g.temperature == temperature && g.model == Some(model_name)),
        !is_chat_model(model_name) ==> (r matches Generator::Mistral(g) && g.region@ == text_or(
            region,
            DEFAULT_REGION@,
        ) && g.profile@ == text_or(profile, DEFAULT_PROFILE@) && g.max_tokens == max_token
            && g.temperature == temperature && g.model_name == Some(model_name)),
{
    match model_name {
        ModelName::AnthropicClaudeHaiku1x
        | ModelName::AnthropicClaudeSonnet1x
        | ModelName::AnthropicClaudeOpus1x => Generator::Claude(
            ClaudeGenerator::new(region, profile, max_token, temperature, Some(model_name)),
        ),
        _ => Generator::Mistral(
            MistralGenerator::new(region, profile, max_token, temperature, Some(model_name)),
        ),
    }
}

} // verus!
