use vstd::prelude::*;

verus! {

/// One story of the ranked list, as the story API returns it.
#[derive(Debug, Clone, PartialEq, Eq)]
pub struct StoryItem {
    pub id: u64,
    pub title: String,
    pub score: u64,
    pub by: String,
    /// Seconds since the Unix epoch.
    pub time: u64,
    /// Identifiers of the story's top-level comments, in source order.
    pub kids: Vec<u64>,
}

impl StoryItem {
    /// The number of child comment identifiers of the story.
    pub open spec fn kid_count(&self) -> nat {
        self.kids@.len()
    }
}

/// One reply to a story.
#[derive(Debug, Clone, PartialEq, Eq)]
pub struct Comment {
    pub id: u64,
    pub by: String,
    /// Seconds since the Unix epoch.
    pub time: u64,
    /// Body text; it comes from a trusted source and is shown as HTML verbatim.
    pub text: String,
}

/// The comments of exactly one story, flattened to one ordered list.
#[derive(Debug, Clone, PartialEq, Eq)]
pub struct StoryData {
    pub comments: Vec<Comment>,
}

/// Why a fetch from the story API failed. Every kind is recoverable.
#[derive(Debug, Clone, PartialEq, Eq)]
pub enum FetchError {
    /// The transport failed; the text says how.
    NetworkError(String),
    /// The response could not be decoded; the text says why.
    DecodeError(String),
    /// The story or comment with this identifier does not exist.
    NotFound(u64),
}

} // verus!
