//! Embedding providers: which backend a configuration selects, and the
//! disabled backend.
use vstd::prelude::*;

use crate::text::{chars_of, eq_str, string_from_str, to_lowercase, lowercase};

verus! {

/// The backend that embeds nothing.
pub struct NoneEmbedding;

impl NoneEmbedding {
    /// Its vectors have no components.
    pub fn dimension(&self) -> (r: usize)
        ensures
            r == 0,
    {
        0
    }

    /// It is never enabled.
    pub fn is_enabled(&self) -> (r: bool)
        ensures
            !r,
    {
        false
    }
}

/// The embedding backend a configuration selects.
pub enum EmbeddingBackend {
    /// An OpenAI-style service at `base_url` with a key.
    OpenAi { api_key: String, base_url: String },
    /// An Ollama server.
    Ollama,
    /// Embeddings are disabled.
    Disabled,
}

/// The base URL of the OpenAI API.
pub const OPENAI_BASE_URL: &'static str = "https://api.openai.com/v1";

/// The base URL of the OpenRouter API.
pub const OPENROUTER_BASE_URL: &'static str = "https://openrouter.ai/api/v1";

/// The plain values of a backend: its kind (0 OpenAI-style, 1 Ollama,
/// 2 disabled), and the key and base URL of an OpenAI-style one.
pub open spec fn backend_view(b: EmbeddingBackend) -> (nat, Seq<char>, Seq<char>) {
    match b {
        EmbeddingBackend::OpenAi { api_key, base_url } => (0, api_key@, base_url@),
        EmbeddingBackend::Ollama => (1, Seq::empty(), Seq::empty()),
        EmbeddingBackend::Disabled => (2, Seq::empty(), Seq::empty()),
    }
}

/// The backend a provider name selects (ignoring case): OpenAI or
/// OpenRouter when its key is given (disabled otherwise), Ollama, or
/// disabled for any other name.
pub open spec fn backend_spec(provider: Seq<char>, openai_key: Option<Seq<char>>, openrouter_key: Option<Seq<char>>) -> (nat, Seq<char>, Seq<char>) {
    let p = lowercase(provider);
    if p == "openai"@ {
        match openai_key {
            Some(k) => (0, k, OPENAI_BASE_URL@),
            None => (2, Seq::empty(), Seq::empty()),
        }
    } else if p == "openrouter"@ {
        match openrouter_key {
            Some(k) => (0, k, OPENROUTER_BASE_URL@),
            None => (2, Seq::empty(), Seq::empty()),
        }
    } else if p == "ollama"@ {
        (1, Seq::empty(), Seq::empty())
    } else {
        (2, Seq::empty(), Seq::empty())
    }
}

/// Selects the embedding backend of a configuration.
pub fn choose_embedding_backend(provider: &str, openai_key: Option<String>, openrouter_key: Option<String>) -> (r: EmbeddingBackend)
    ensures
        backend_view(r) == backend_spec(provider@, crate::text::opt_view(openai_key), crate::text::opt_view(openrouter_key)),
{
    let l = to_lowercase(provider);
    let p = chars_of(l.as_str());
    if eq_str(&p, "openai") {
        match openai_key {
            Some(k) => EmbeddingBackend::OpenAi { api_key: k, base_url: string_from_str(OPENAI_BASE_URL) },
            None => EmbeddingBackend::Disabled,
        }
    } else if eq_str(&p, "openrouter") {
        match openrouter_key {
            Some(k) => EmbeddingBackend::OpenAi { api_key: k, base_url: string_from_str(OPENROUTER_BASE_URL) },
            None => EmbeddingBackend::Disabled,
        }
    } else if eq_str(&p, "ollama") {
        EmbeddingBackend::Ollama
    } else {
        EmbeddingBackend::Disabled
    }
}

} // verus!
