#![allow(non_snake_case)]

use vstd::prelude::*;
use vstd::string::StringExecFns;
use crate::model::{Comment, FetchError, StoryItem};
use crate::view_state::CommentsState;

verus! {

/// One comment as the pane draws it: author and time in a header, the body
/// as trusted HTML.
#[derive(Debug, Clone, PartialEq, Eq)]
pub struct CommentFragment {
    pub by: String,
    pub time: u64,
    pub html: String,
}

/// What the comment pane draws for a state.
#[derive(Debug, Clone, PartialEq, Eq)]
pub enum CommentsFragment {
    /// Nothing at all.
    Empty,
    /// A loading indicator with this text.
    LoadingIndicator(String),
    /// A visible notice of why the comments could not be fetched.
    ErrorNotice(FetchError),
    /// One child fragment per comment, in order.
    List(Vec<CommentFragment>),
}

/// One entry of the story list: title, then "score points by author time",
/// then a link that selects the story and tells how many comments it has.
#[derive(Debug, Clone, PartialEq, Eq)]
pub struct StoryEntry {
    pub id: u64,
    pub title: String,
    pub score: u64,
    pub by: String,
    pub time: u64,
    pub comment_count: usize,
}

/// What the story list draws for the one-shot fetch of the top stories.
#[derive(Debug, Clone, PartialEq, Eq)]
pub enum StoriesFragment {
    /// The fetch is pending: a loading indicator with this text.
    LoadingIndicator(String),
    /// The fetch failed: a heading with this text, then the error.
    ErrorNotice(String, FetchError),
    /// The fetch succeeded: one entry per story, in ranking order.
    List(Vec<StoryEntry>),
}

pub open spec fn comment_fragment(c: Comment) -> CommentFragment {
    CommentFragment { by: c.by, time: c.time, html: c.text }
}

pub open spec fn story_entry(s: StoryItem) -> StoryEntry {
    StoryEntry {
        id: s.id,
        title: s.title,
        score: s.score,
        by: s.by,
        time: s.time,
        comment_count: s.kids@.len() as usize,
    }
}

pub open spec fn loading_comments_text() -> Seq<char> {
    "Loading comments..."@
}

pub open spec fn loading_stories_text() -> Seq<char> {
    "Loading stories..."@
}

pub open spec fn stories_failed_text() -> Seq<char> {
    "Failed to fetch stories"@
}

/// A copy of `e`, field by field.
pub fn copy_error(e: &FetchError) -> (r: FetchError)
    ensures
        r == *e,
{
    match e {
        FetchError::NetworkError(m) => FetchError::NetworkError(m.clone()),
        FetchError::DecodeError(m) => FetchError::DecodeError(m.clone()),
        FetchError::NotFound(id) => FetchError::NotFound(*id),
    }
}

/// The fragment of one comment.
pub fn StoryComment(comment: &Comment) -> (r: CommentFragment)
    ensures
        r == comment_fragment(*comment),
{
    CommentFragment { by: comment.by.clone(), time: comment.time, html: comment.text.clone() }
}

/// What the comment pane draws for `state`: nothing when no story is
/// selected, a non-empty loading indicator while loading, the error when the
/// fetch failed, and exactly one fragment per comment, in order, once loaded.
pub fn Comments(state: &CommentsState) -> (r: CommentsFragment)
    ensures
        (*state is Unset) <==> (r is Empty),
        *state is Loading ==> (r matches CommentsFragment::LoadingIndicator(text)
            && text@ == loading_comments_text() && text@.len() > 0),
        *state matches CommentsState::Failed(e) ==> r == CommentsFragment::ErrorNotice(e),
        *state matches CommentsState::Loaded(data) ==> (r matches CommentsFragment::List(items)
            && items@.len() == data.comments@.len()
            && forall|i: int| 0 <= i < items@.len() ==> items@[i] == comment_fragment(data.comments@[i])),
{
    match state {
        CommentsState::Unset => CommentsFragment::Empty,
        CommentsState::Loading => {
            proof {
                reveal_strlit("Loading comments...");
            }
            CommentsFragment::LoadingIndicator(String::from_str("Loading comments..."))
        },
        CommentsState::Failed(e) => CommentsFragment::ErrorNotice(copy_error(e)),
        CommentsState::Loaded(data) => {
            let mut items: Vec<CommentFragment> = Vec::new();
            let mut i: usize = 0;
            while i < data.comments.len()
                invariant
                    i <= data.comments@.len(),
                    items@.len() == i,
                    forall|j: int| 0 <= j < i ==> items@[j] == comment_fragment(data.comments@[j]),
                decreases data.comments@.len() - i,
            {
                items.push(StoryComment(&data.comments[i]));
                i = i + 1;
            }
            CommentsFragment::List(items)
        },
    }
}

/// The list entry of one story.
pub fn StoryItem(story: &StoryItem) -> (r: StoryEntry)
    ensures
        r == story_entry(*story),
{
    StoryEntry {
        id: story.id,
        title: story.title.clone(),
        score: story.score,
        by: story.by.clone(),
        time: story.time,
        comment_count: story.kids.len(),
    }
}

/// What the story list draws for the fetch of the top stories: a loading
/// indicator while it is pending (`None`), a heading and the error when it
/// failed, and one entry per story, in ranking order, when it succeeded.
pub fn Stories(outcome: &Option<Result<Vec<StoryItem>, FetchError>>) -> (r: StoriesFragment)
    ensures
        *outcome is None ==> (r matches StoriesFragment::LoadingIndicator(text)
            && text@ == loading_stories_text() && text@.len() > 0),
        *outcome matches Some(Err(e)) ==> (r matches StoriesFragment::ErrorNotice(heading, err)
            && heading@ == stories_failed_text() && err == e),
        *outcome matches Some(Ok(stories)) ==> (r matches StoriesFragment::List(entries)
            && entries@.len() == stories@.len()
            && forall|i: int| 0 <= i < entries@.len() ==> entries@[i] == story_entry(stories@[i])),
{
    match outcome {
        None => {
            proof {
                reveal_strlit("Loading stories...");
            }
            StoriesFragment::LoadingIndicator(String::from_str("Loading stories..."))
        },
        Some(Err(e)) => StoriesFragment::ErrorNotice(String::from_str("Failed to fetch stories"), copy_error(e)),
        Some(Ok(stories)) => {
            let mut entries: Vec<StoryEntry> = Vec::new();
            let mut i: usize = 0;
            while i < stories.len()
                invariant
                    i <= stories@.len(),
                    entries@.len() == i,
                    forall|j: int| 0 <= j < i ==> entries@[j] == story_entry(stories@[j]),
                decreases stories@.len() - i,
            {
                entries.push(StoryItem(&stories[i]));
                i = i + 1;
            }
            StoriesFragment::List(entries)
        },
    }
}

} // verus!
