//! Settings of the embedding service.

use vstd::prelude::*;
use vstd::string::StringExecFns;

verus! {

#[derive(Debug, Clone)]
pub struct EmbeddingConfig {
    pub model_name: String,
    /// Largest number of tokens taken from one text.
    pub max_length: usize,
    pub normalize_embeddings: bool,
    pub show_download_progress: bool,
}

impl Default for EmbeddingConfig {
    /// The built-in term-frequency model with up to 512 tokens, normalised.
    fn default() -> (r: Self)
        ensures
            r.model_name@ == "simple-tfidf"@,
            r.max_length == 512,
            r.normalize_embeddings,
            !r.show_download_progress,
    {
        EmbeddingConfig {
            model_name: String::from_str("simple-tfidf"),
            max_length: 512,
            normalize_embeddings: true,
            show_download_progress: false,
        }
    }
}

/// Whether a cleaned word is long enough to be a token: more than two
/// characters.
pub fn is_token(word_len: usize) -> (r: bool)
    ensures
        r == (word_len > 2),
{
    word_len > 2
}

} // verus!
