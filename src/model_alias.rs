//! The closed set of model aliases and the backend model each one names.

use hiramu::bedrock::{ModelInfo, ModelName};
use vstd::prelude::*;

use crate::error::GenerationError;
use crate::text::same_text;

verus! {

/// hiramu's `ModelName`: a fieldless enum of the hosted models, whose
/// variants the contracts below match on.
#[verifier::external_type_specification]
pub struct ExModelName(ModelName);

/// A short, user-facing name for a hosted model.
#[derive(Debug, Clone, Copy, PartialEq, Eq, Structural)]
pub enum ModelAlias {
    Haiku,
    Sonnet,
    Opus,
    Mistral8x7b,
    Mistral7b,
    MistralLarge,
}

/// The text a user types to pick an alias.
pub open spec fn alias_text(a: ModelAlias) -> Seq<char> {
    match a {
        ModelAlias::Haiku => "haiku"@,
        ModelAlias::Sonnet => "sonnet"@,
        ModelAlias::Opus => "opus"@,
        ModelAlias::Mistral8x7b => "mistral8x7b"@,
        ModelAlias::Mistral7b => "mistral7b"@,
        ModelAlias::MistralLarge => "mistral-large"@,
    }
}

/// The backend model that an alias stands for.
pub open spec fn model_name_of(a: ModelAlias) -> ModelName {
    match a {
        ModelAlias::Haiku => ModelName::AnthropicClaudeHaiku1x,
        ModelAlias::Sonnet => ModelName::AnthropicClaudeSonnet1x,
        ModelAlias::Opus => ModelName::AnthropicClaudeOpus1x,
        ModelAlias::Mistral8x7b => ModelName::MistralMixtral8X7BInstruct0x,
        ModelAlias::Mistral7b => ModelName::MistralMistral7BInstruct0x,
        ModelAlias::MistralLarge => ModelName::MistralLarge,
    }
}

/// The alias whose text is `s`, if there is one.
pub open spec fn alias_named(s: Seq<char>) -> Option<ModelAlias> {
    if s == alias_text(ModelAlias::Haiku) {
        Some(ModelAlias::Haiku)
    } else if s == alias_text(ModelAlias::Sonnet) {
        Some(ModelAlias::Sonnet)
    } else if s == alias_text(ModelAlias::Opus) {
        Some(ModelAlias::Opus)
    } else if s == alias_text(ModelAlias::Mistral8x7b) {
        Some(ModelAlias::Mistral8x7b)
    } else if s == alias_text(ModelAlias::Mistral7b) {
        Some(ModelAlias::Mistral7b)
    } else if s == alias_text(ModelAlias::MistralLarge) {
        Some(ModelAlias::MistralLarge)
    } else {
        None
    }
}

/// Looks up the alias spelled exactly `s`.
pub fn model_alias_from_str(s: &str) -> (r: Option<ModelAlias>)
    ensures
        r == alias_named(s@),
{
    if same_text(s, "haiku") {
        Some(ModelAlias::Haiku)
    } else if same_text(s, "sonnet") {
        Some(ModelAlias::Sonnet)
    } else if same_text(s, "opus") {
        Some(ModelAlias::Opus)
    } else if same_text(s, "mistral8x7b") {
        Some(ModelAlias::Mistral8x7b)
    } else if same_text(s, "mistral7b") {
        Some(ModelAlias::Mistral7b)
    } else if same_text(s, "mistral-large") {
        Some(ModelAlias::MistralLarge)
    } else {
        None
    }
}

/// The backend model that `alias` stands for. Every alias has one.
pub fn get_model_name_from_alias(model_alias: ModelAlias) -> (r: Result<ModelName, GenerationError>)
    ensures
        r matches Ok(name) && name == model_name_of(model_alias),
{
    match model_alias {
        ModelAlias::Haiku => Ok(ModelName::AnthropicClaudeHaiku1x),
        ModelAlias::Sonnet => Ok(ModelName::AnthropicClaudeSonnet1x),
        ModelAlias::Opus => Ok(ModelName::AnthropicClaudeOpus1x),
        ModelAlias::Mistral7b => Ok(ModelName::MistralMistral7BInstruct0x),
        ModelAlias::Mistral8x7b => Ok(ModelName::MistralMixtral8X7BInstruct0x),
        ModelAlias::MistralLarge => Ok(ModelName::MistralLarge),
    }
}

/// Every alias, in the order they are listed to users.
pub open spec fn alias_order() -> Seq<ModelAlias> {
    seq![
        ModelAlias::Haiku,
        ModelAlias::Sonnet,
        ModelAlias::Opus,
        ModelAlias::Mistral8x7b,
        ModelAlias::Mistral7b,
        ModelAlias::MistralLarge,
    ]
}

/// The text of every alias, in listing order.
pub fn model_aliases() -> (r: Vec<&'static str>)
    ensures
        r@.len() == alias_order().len(),
        forall|i: int| 0 <= i < r@.len() ==> r@[i]@ == alias_text(#[trigger] alias_order()[i]),
{
    vec!["haiku", "sonnet", "opus", "mistral8x7b", "mistral7b", "mistral-large"]
}

/// The identifier under which the hosted service knows a model, as hiramu's
/// table of models records it.
pub uninterp spec fn bedrock_model_id(name: ModelName) -> Seq<char>;

/// Relies on hiramu's `ModelInfo::from_model_name`, which looks the model up
/// in hiramu's fixed table of models (every model has an entry, so it does not
/// panic) and returns its identifier text.
#[verifier::external_body]
pub(crate) fn model_id(name: &ModelName) -> (r: String)
    ensures
        r@ == bedrock_model_id(*name),
{
    ModelInfo::from_model_name(name.clone())
}

/// Resolving aliases: each alias is found under its own text, two different
/// aliases name two different backend models, and a text that is no alias's
/// text names no alias.
pub proof fn lemma_alias_resolution(a: ModelAlias, b: ModelAlias, s: Seq<char>)
    ensures
        alias_named(alias_text(a)) == Some(a),
        a != b ==> model_name_of(a) != model_name_of(b),
        (forall|c: ModelAlias| alias_text(c) != s) ==> alias_named(s) is None,
{
    reveal_strlit("haiku");
    reveal_strlit("sonnet");
    reveal_strlit("opus");
    reveal_strlit("mistral8x7b");
    reveal_strlit("mistral7b");
    reveal_strlit("mistral-large");
    assert(alias_text(ModelAlias::Haiku).len() == 5);
    assert(alias_text(ModelAlias::Sonnet).len() == 6);
    assert(alias_text(ModelAlias::Opus).len() == 4);
    assert(alias_text(ModelAlias::Mistral8x7b).len() == 11);
    assert(alias_text(ModelAlias::Mistral7b).len() == 9);
    assert(alias_text(ModelAlias::MistralLarge).len() == 13);
}

} // verus!
