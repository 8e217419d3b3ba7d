//! Request shapes of the SQL-generation feature: plain data, no behavior.

use vstd::prelude::*;

verus! {

/// The backend that generates SQL from a prompt.
#[derive(Debug, Clone, Copy, PartialEq, Eq, Structural)]
pub enum AiProvider {
    Claude,
    Ollama,
}

/// A request to generate SQL for `prompt` against the schema described in
/// `schema_context`.
#[derive(Debug, Clone)]
pub struct GenerateSqlRequest {
    pub prompt: String,
    pub schema_context: String,
    pub provider: AiProvider,
    pub api_key: Option<String>,
    pub ollama_base_url: Option<String>,
    pub ollama_model: Option<String>,
}

} // verus!
