//! The backend family a request goes to.

use vstd::prelude::*;

use crate::text::same_text;

verus! {

/// A hosted inference service, or an inference server reached over HTTP.
#[derive(Debug, Clone, Copy, PartialEq, Eq, Structural)]
pub enum Provider {
    Bedrock,
    Ollama,
}

/// The name under which a provider is chosen.
pub open spec fn provider_text(p: Provider) -> Seq<char> {
    match p {
        Provider::Bedrock => "bedrock"@,
        Provider::Ollama => "ollama"@,
    }
}

/// The provider whose name is `s`, if there is one.
pub open spec fn provider_named(s: Seq<char>) -> Option<Provider> {
    if s == provider_text(Provider::Bedrock) {
        Some(Provider::Bedrock)
    } else if s == provider_text(Provider::Ollama) {
        Some(Provider::Ollama)
    } else {
        None
    }
}

/// Looks up the provider named exactly `s`.
pub fn provider_from_str(s: &str) -> (r: Option<Provider>)
    ensures
        r == provider_named(s@),
{
    if same_text(s, "bedrock") {
        Some(Provider::Bedrock)
    } else if same_text(s, "ollama") {
        Some(Provider::Ollama)
    } else {
        None
    }
}

impl Provider {
    /// The provider's name.
    pub fn name(&self) -> (r: &'static str)
        ensures
            r@ == provider_text(*self),
    {
        match self {
            Provider::Bedrock => "bedrock",
            Provider::Ollama => "ollama",
        }
    }
}

/// Each provider is found under its own name, and no other text names one.
pub proof fn lemma_provider_names(p: Provider, s: Seq<char>)
    ensures
        provider_named(provider_text(p)) == Some(p),
        (forall|q: Provider| provider_text(q) != s) ==> provider_named(s) is None,
{
    reveal_strlit("bedrock");
    reveal_strlit("ollama");
    assert(provider_text(Provider::Bedrock).len() != provider_text(Provider::Ollama).len());
}

} // verus!
