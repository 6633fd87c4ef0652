use hiramu_cli::generator::{MistralGenerator, OllamaProvider};

#[test]
fn instruction_wraps_the_prompt() {
    let g = MistralGenerator::<f32>::new(None, None, None, None, None);
    assert_eq!(g.instruction("Hello"), "[inst]Hello[/inst]");
    assert_eq!(g.instruction(""), "[inst][/inst]");
}

#[test]
fn stop_sequences_are_fixed() {
    let g = MistralGenerator::<f32>::new(None, None, Some(10), Some(0.1), None);
    assert_eq!(
        g.stop_sequences(),
        vec!["[/inst]", "[/resp]", "[/ans]", "[/out]", "[/sol]"]
    );
}

#[test]
fn local_server_keeps_what_it_is_given() {
    let p = OllamaProvider::new("http://h:1".to_string(), "m".to_string(), None, Some(0.9f32));
    assert_eq!(p.endpoint, "http://h:1");
    assert_eq!(p.model, "m");
    assert_eq!(p.maxtoken, None);
    assert_eq!(p.temperature, Some(0.9f32));
}
