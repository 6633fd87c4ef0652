use hiramu::bedrock::ModelName;
use hiramu_cli::error::GenerationError;
use hiramu_cli::generator::{create_generator, Generator};
use hiramu_cli::provider::{provider_from_str, Provider};
use hiramu_cli::settings::{resolve_settings, select_generator};

#[test]
fn defaults_apply_when_no_option_is_given() {
    let s = resolve_settings(None, None, None, None, None, None).unwrap();
    assert_eq!(s.region, "us-west-2");
    assert_eq!(s.profile, "bedrock");
    assert_eq!(s.max_token, 100);
    assert_eq!(s.model, "haiku");
    assert_eq!(s.provider, Provider::Bedrock);
    assert_eq!(s.endpoint, "http://localhost:11434");
    match select_generator(s, Some(0.7f32)).unwrap() {
        Generator::Claude(g) => {
            assert_eq!(g.region, "us-west-2");
            assert_eq!(g.profile, "bedrock");
            assert_eq!(g.max_token, Some(100));
            assert_eq!(g.temperature, Some(0.7f32));
            assert_eq!(g.model, Some(ModelName::AnthropicClaudeHaiku1x));
        }
        _ => panic!("expected the chat-style generator"),
    }
}

#[test]
fn given_options_win_over_defaults() {
    let s = resolve_settings(
        Some("eu-central-1".to_string()),
        Some("work".to_string()),
        Some(512),
        Some("mistral-large".to_string()),
        Some("bedrock".to_string()),
        Some("http://example.test:1".to_string()),
    )
    .unwrap();
    assert_eq!(s.region, "eu-central-1");
    assert_eq!(s.profile, "work");
    assert_eq!(s.max_token, 512);
    match select_generator(s, None::<f32>).unwrap() {
        Generator::Mistral(g) => {
            assert_eq!(g.region, "eu-central-1");
            assert_eq!(g.profile, "work");
            assert_eq!(g.max_tokens, Some(512));
            assert_eq!(g.temperature, None);
            assert_eq!(g.model_name, Some(ModelName::MistralLarge));
        }
        _ => panic!("expected the completion-style generator"),
    }
}

#[test]
fn unknown_provider_is_an_error() {
    for name in ["", "Bedrock", "openai", "ollama "] {
        let r = resolve_settings(None, None, None, None, Some(name.to_string()), None);
        assert!(matches!(r, Err(GenerationError::ProviderNotFoundError)));
    }
    assert_eq!(provider_from_str("ollama"), Some(Provider::Ollama));
    assert_eq!(provider_from_str("bedrock"), Some(Provider::Bedrock));
    assert_eq!(Provider::Ollama.name(), "ollama");
}

#[test]
fn unknown_model_alias_is_an_error_for_the_hosted_service() {
    let s = resolve_settings(None, None, None, Some("gpt4".to_string()), None, None).unwrap();
    let r = select_generator(s, Some(0.2f32));
    assert!(matches!(r, Err(GenerationError::ModelNotFoundError)));
}

#[test]
fn local_server_takes_any_model_name() {
    let s = resolve_settings(
        None,
        None,
        Some(7),
        Some("llama3".to_string()),
        Some("ollama".to_string()),
        None,
    )
    .unwrap();
    match select_generator(s, Some(0.5f32)).unwrap() {
        Generator::Ollama(g) => {
            assert_eq!(g.endpoint, "http://localhost:11434");
            assert_eq!(g.model, "llama3");
            assert_eq!(g.maxtoken, Some(7));
            assert_eq!(g.temperature, Some(0.5f32));
        }
        _ => panic!("expected the local-server generator"),
    }
}

#[test]
fn claude_models_get_the_chat_generator() {
    for name in [
        ModelName::AnthropicClaudeHaiku1x,
        ModelName::AnthropicClaudeSonnet1x,
        ModelName::AnthropicClaudeOpus1x,
    ] {
        let g = create_generator::<f32>(name.clone(), None, None, None, None);
        assert!(matches!(g, Generator::Claude(ref c) if c.model == Some(name.clone())));
    }
    let g = create_generator::<f32>(ModelName::MistralMistral7BInstruct0x, None, None, Some(3), None);
    match g {
        Generator::Mistral(m) => {
            assert_eq!(m.region, "us-west-2");
            assert_eq!(m.profile, "bedrock");
            assert_eq!(m.max_tokens, Some(3));
        }
        _ => panic!("expected the completion-style generator"),
    }
}
