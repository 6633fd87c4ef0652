use hiramu::bedrock::ModelName;
use hiramu_cli::generator::{ClaudeGenerator, MistralGenerator};
use hiramu_cli::model_alias::{
    get_model_name_from_alias, model_alias_from_str, model_aliases, ModelAlias,
};

#[test]
fn every_alias_resolves_to_its_own_model() {
    let expected = [
        ("haiku", ModelAlias::Haiku, ModelName::AnthropicClaudeHaiku1x),
        ("sonnet", ModelAlias::Sonnet, ModelName::AnthropicClaudeSonnet1x),
        ("opus", ModelAlias::Opus, ModelName::AnthropicClaudeOpus1x),
        ("mistral7b", ModelAlias::Mistral7b, ModelName::MistralMistral7BInstruct0x),
        ("mistral8x7b", ModelAlias::Mistral8x7b, ModelName::MistralMixtral8X7BInstruct0x),
        ("mistral-large", ModelAlias::MistralLarge, ModelName::MistralLarge),
    ];
    for (text, alias, name) in expected {
        let found = model_alias_from_str(text);
        assert_eq!(found, Some(alias));
        assert_eq!(get_model_name_from_alias(found.unwrap()).unwrap(), name);
    }
}

#[test]
fn alias_identifiers_are_distinct() {
    let mut ids: Vec<String> = Vec::new();
    for text in model_aliases() {
        let name = get_model_name_from_alias(model_alias_from_str(text).unwrap()).unwrap();
        let id = match text {
            "haiku" | "sonnet" | "opus" => {
                ClaudeGenerator::<f32>::new(None, None, None, None, Some(name)).model_id()
            }
            _ => MistralGenerator::<f32>::new(None, None, None, None, Some(name)).model_id(),
        };
        assert!(!ids.contains(&id));
        ids.push(id);
    }
    assert_eq!(ids.len(), 6);
}

#[test]
fn unknown_alias_text_is_not_found() {
    for text in ["", "Haiku", "HAIKU", "mistral", "mitral-large", "haiku ", "gpt4", "opus2"] {
        assert_eq!(model_alias_from_str(text), None);
    }
}

#[test]
fn alias_list_names_every_alias_once() {
    assert_eq!(
        model_aliases(),
        vec!["haiku", "sonnet", "opus", "mistral8x7b", "mistral7b", "mistral-large"]
    );
    for text in model_aliases() {
        assert!(model_alias_from_str(text).is_some());
    }
}

#[test]
fn model_ids_come_from_the_backend_table() {
    let claude = ClaudeGenerator::<f32>::new(None, None, None, None, None);
    assert!(claude.model_id().ends_with("-3-haiku-20240307-v1:0"));
    let opus = ClaudeGenerator::<f32>::new(None, None, None, None, Some(ModelName::AnthropicClaudeOpus1x));
    assert!(opus.model_id().ends_with("-3-opus-20240229-v1:0"));
    let mistral = MistralGenerator::<f32>::new(None, None, None, None, None);
    assert_eq!(mistral.model_id(), "mistral.mixtral-8x7b-instruct-v0:1");
    let large = MistralGenerator::<f32>::new(None, None, None, None, Some(ModelName::MistralLarge));
    assert_eq!(large.model_id(), "mistral.mistral-large-2402-v1:0");
}
