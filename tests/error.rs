use hiramu_cli::error::GenerationError;

#[test]
fn every_error_has_a_message() {
    assert_eq!(GenerationError::ModelNotFoundError.message(), "Model not found");
    assert_eq!(GenerationError::ProviderNotFoundError.message(), "Provider not found");
    let io = std::io::Error::new(std::io::ErrorKind::Other, "closed");
    assert_eq!(GenerationError::StdinReadError(io).message(), "Failed to read from stdin");
    assert_eq!(
        GenerationError::TransportError("timed out".to_string()).message(),
        "Generation failed: timed out"
    );
}
