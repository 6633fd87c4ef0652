//! The errors a run can end with.

use vstd::prelude::*;

verus! {

/// The standard library's I/O error, carried without being looked into.
#[verifier::external_type_specification]
#[verifier::external_body]
pub struct ExIoError(std::io::Error);

/// toml's parse error, carried without being looked into.
#[verifier::external_type_specification]
#[verifier::external_body]
pub struct ExTomlDeError(toml::de::Error);

/// Why a run stopped before or during generation.
#[derive(Debug)]
pub enum GenerationError {
    /// Standard input could not be read while filling the prompt.
    StdinReadError(std::io::Error),
    /// The model alias is not one of the known aliases.
    ModelNotFoundError,
    /// The provider name is not one of the known providers.
    ProviderNotFoundError,
    /// The package manifest could not be parsed.
    CargoTomlParseError(toml::de::Error),
    /// The backend failed while opening or streaming a response.
    TransportError(String),
}

impl GenerationError {
    /// A one-line description of the error, for the error stream.
    pub fn message(&self) -> (r: String)
        ensures
            self is ModelNotFoundError ==> r@ == "Model not found"@,
            self is ProviderNotFoundError ==> r@ == "Provider not found"@,
            self is StdinReadError ==> r@ == "Failed to read from stdin"@,
            self is CargoTomlParseError ==> r@ == "Failed to parse Cargo.toml"@,
            self is TransportError ==> r@ == "Generation failed: "@ + self->TransportError_0@,
    {
        match self {
            GenerationError::StdinReadError(_) => String::from_str("Failed to read from stdin"),
            GenerationError::ModelNotFoundError => String::from_str("Model not found"),
            GenerationError::ProviderNotFoundError => String::from_str("Provider not found"),
            GenerationError::CargoTomlParseError(_) => String::from_str("Failed to parse Cargo.toml"),
            GenerationError::TransportError(detail) => {
                let mut r = String::from_str("Generation failed: ");
                r.append(detail.as_str());
                r
            },
        }
    }
}

} // verus!
