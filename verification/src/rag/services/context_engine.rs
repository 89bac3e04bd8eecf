//! What a conversation is about.

use crate::text::{contains, occurs_in, same_text};
use vstd::prelude::*;
use vstd::string::StrSliceExecFns;

verus! {

/// Topics, entities, keywords and intent found in a conversation.
#[derive(Debug, Clone)]
pub struct ConversationContext {
    pub topics: Vec<String>,
    pub entities: Vec<String>,
    pub keywords: Vec<String>,
    pub intent: String,
}

/// How far the embedding of a document has come.
#[derive(Debug, Clone, Copy, PartialEq, Eq, Structural)]
pub enum EmbeddingStatus {
    Pending,
    Processing,
    Ready,
    Failed,
}

/// How documents enter the context of a chat.
#[derive(Debug, Clone, Copy, PartialEq, Eq, Structural)]
pub enum ContextMode {
    Auto,
    Manual,
    Search,
    All,
    /// No document enters the context.
    Disabled,
}

/// One message of a conversation.
#[derive(Debug, Clone)]
pub struct ConversationMessage {
    pub role: String,
    pub content: String,
}

/// The words that carry no topic.
pub open spec fn stop_words() -> Seq<Seq<char>> {
    seq![
        "the"@,
        "and"@,
        "or"@,
        "but"@,
        "in"@,
        "on"@,
        "at"@,
        "to"@,
        "for"@,
        "of"@,
        "with"@,
        "by"@,
        "is"@,
        "are"@,
        "was"@,
        "were"@,
        "be"@,
        "been"@,
        "have"@,
        "has"@,
        "had"@,
        "do"@,
        "does"@,
        "did"@,
        "will"@,
        "would"@,
        "could"@,
        "should"@,
        "can"@,
        "may"@,
        "must"@,
        "shall"@,
        "this"@,
        "that"@,
        "these"@,
        "those"@,
        "a"@,
        "an"@,
    ]
}

/// Whether a word, given in lower case, carries no topic.
pub fn is_stop_word(word: &str) -> (r: bool)
    ensures
        r == stop_words().contains(word@),
{
    let words: [&str; 38] = [
        "the",
        "and",
        "or",
        "but",
        "in",
        "on",
        "at",
        "to",
        "for",
        "of",
        "with",
        "by",
        "is",
        "are",
        "was",
        "were",
        "be",
        "been",
        "have",
        "has",
        "had",
        "do",
        "does",
        "did",
        "will",
        "would",
        "could",
        "should",
        "can",
        "may",
        "must",
        "shall",
        "this",
        "that",
        "these",
        "those",
        "a",
        "an",
    ];
    assert(words@.len() == 38);
    assert(stop_words().len() == 38);
    assert(forall|k: int| 0 <= k < 38 ==> (#[trigger] words@[k])@ == stop_words()[k]);
    let mut i: usize = 0;
    while i < 38
        invariant
            i <= 38,
            words@.len() == 38,
            stop_words().len() == 38,
            forall|k: int| 0 <= k < 38 ==> (#[trigger] words@[k])@ == stop_words()[k],
            forall|k: int| 0 <= k < i ==> stop_words()[k] != word@,
        decreases 38 - i,
    {
        if same_text(words[i], word) {
            assert(stop_words()[i as int] == word@);
            return true;
        }
        i += 1;
    }
    false
}

/// What a conversation is after, from the words that occur in it: a
/// question before an implementation before troubleshooting, and otherwise
/// nothing in particular.
pub open spec fn spec_intent(text: Seq<char>) -> Seq<char> {
    if occurs_in("how"@, text) || occurs_in("what"@, text) {
        "question"@
    } else if occurs_in("implement"@, text) || occurs_in("create"@, text) {
        "implementation"@
    } else if occurs_in("error"@, text) || occurs_in("problem"@, text) {
        "troubleshooting"@
    } else {
        "general"@
    }
}

/// What a conversation is after.
pub fn detect_intent(text: &str) -> (r: &'static str)
    ensures
        r@ == spec_intent(text@),
{
    if contains(text, "how") || contains(text, "what") {
        "question"
    } else if contains(text, "implement") || contains(text, "create") {
        "implementation"
    } else if contains(text, "error") || contains(text, "problem") {
        "troubleshooting"
    } else {
        "general"
    }
}

/// Whether a cleaned word counts as a keyword: more than three characters
/// and no stop word.
pub open spec fn spec_is_keyword(word: Seq<char>) -> bool {
    word.len() > 3 && !stop_words().contains(word)
}

/// Whether a cleaned word counts as a topic: a keyword of more than five
/// characters.
pub open spec fn spec_is_topic(word: Seq<char>) -> bool {
    word.len() > 5 && !stop_words().contains(word)
}

/// Whether a cleaned word counts as a keyword.
pub fn is_keyword(word: &str) -> (r: bool)
    ensures
        r == spec_is_keyword(word@),
{
    word.unicode_len() > 3 && !is_stop_word(word)
}

/// Whether a cleaned word counts as a topic.
pub fn is_topic(word: &str) -> (r: bool)
    ensures
        r == spec_is_topic(word@),
{
    word.unicode_len() > 5 && !is_stop_word(word)
}

} // verus!
