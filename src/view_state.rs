use vstd::prelude::*;
use crate::model::{FetchError, StoryData, StoryItem};

verus! {

/// What the comment pane shows: exactly one variant is active at a time.
#[derive(Debug, Clone)]
pub enum CommentsState {
    /// No story has been selected.
    Unset,
    /// A fetch is in flight for the most recently selected story.
    Loading,
    /// The fetch for the most recently selected story succeeded.
    Loaded(StoryData),
    /// The fetch for the most recently selected story failed.
    Failed(FetchError),
}

/// Handed out by a selection: names the fetch that the selection started.
/// Its completion is applied only while no newer selection has been made.
#[derive(Debug, Clone, Copy, PartialEq, Eq)]
pub struct FetchTicket {
    pub generation: u64,
    pub story_id: u64,
}

/// The outcome of one fetch of a story's comments, with the ticket it ran under.
pub type Completion = (FetchTicket, Result<StoryData, FetchError>);

/// The abstract value of a controller: what the pane shows, and the
/// generation of the latest selection (0 before the first one).
pub struct PaneModel {
    pub state: CommentsState,
    pub generation: nat,
}

/// The state that a fetch result settles into.
pub open spec fn settled(result: Result<StoryData, FetchError>) -> CommentsState {
    match result {
        Ok(data) => CommentsState::Loaded(data),
        Err(e) => CommentsState::Failed(e),
    }
}

impl PaneModel {
    /// Whether a completion for `ticket` would be applied now: it belongs to
    /// the latest selection, and nothing has settled that selection yet.
    pub open spec fn accepts(self, ticket: FetchTicket) -> bool {
        ticket.generation == self.generation && self.state is Loading
    }

    /// The ticket that selecting `story` hands out.
    pub open spec fn ticket_for_select(self, story: StoryItem) -> FetchTicket {
        FetchTicket { generation: (self.generation + 1) as u64, story_id: story.id }
    }

    /// The model after selecting a story.
    pub open spec fn after_select(self) -> PaneModel {
        PaneModel { state: CommentsState::Loading, generation: self.generation + 1 }
    }

    /// The model after the fetch named by `ticket` delivered `result`.
    pub open spec fn after_complete(self, ticket: FetchTicket, result: Result<StoryData, FetchError>) -> PaneModel {
        if self.accepts(ticket) {
            PaneModel { state: settled(result), generation: self.generation }
        } else {
            self
        }
    }

    /// The model after selecting each story of `stories` in turn.
    pub open spec fn after_selects(self, stories: Seq<StoryItem>) -> PaneModel
        decreases stories.len(),
    {
        if stories.len() == 0 {
            self
        } else {
            self.after_selects(stories.drop_last()).after_select()
        }
    }

    /// The ticket handed out by the `i`-th selection of `after_selects(stories)`.
    pub open spec fn ticket_of(self, stories: Seq<StoryItem>, i: int) -> FetchTicket {
        FetchTicket { generation: (self.generation + i + 1) as u64, story_id: stories[i].id }
    }

    /// The model after the completions of `completions`, in that order.
    pub open spec fn after_completions(self, completions: Seq<Completion>) -> PaneModel
        decreases completions.len(),
    {
        if completions.len() == 0 {
            self
        } else {
            let (ticket, result) = completions.last();
            self.after_completions(completions.drop_last()).after_complete(ticket, result)
        }
    }
}

/// The single shared comment-pane state, with the generation counter that
/// tags each fetch so that a stale completion is discarded.
pub struct ViewStateController {
    state: CommentsState,
    generation: u64,
}

impl View for ViewStateController {
    type V = PaneModel;

    closed spec fn view(&self) -> PaneModel {
        PaneModel { state: self.state, generation: self.generation as nat }
    }
}

impl ViewStateController {
    /// The controller as it is created at start-up: nothing selected.
    pub fn new() -> (r: Self)
        ensures
            r@ == (PaneModel { state: CommentsState::Unset, generation: 0 }),
    {
        ViewStateController { state: CommentsState::Unset, generation: 0 }
    }

    /// Reads the current state; nothing changes, so reads with no selection or
    /// completion between them give the same value.
    pub fn current_state(&self) -> (r: &CommentsState)
        ensures
            *r == self@.state,
    {
        &self.state
    }

    /// The generation of the latest selection.
    pub fn generation(&self) -> (r: u64)
        ensures
            r as nat == self@.generation,
    {
        self.generation
    }

    /// Selects `story`: from any state the pane turns to `Loading`, and every
    /// fetch started earlier is superseded. The returned ticket names the new
    /// fetch, which the caller runs and hands back to `complete`.
    pub fn select(&mut self, story: &StoryItem) -> (ticket: FetchTicket)
        requires
            old(self)@.generation < u64::MAX,
        ensures
            final(self)@ == old(self)@.after_select(),
            ticket == old(self)@.ticket_for_select(*story),
    {
        self.generation = self.generation + 1;
        self.state = CommentsState::Loading;
        FetchTicket { generation: self.generation, story_id: story.id }
    }

    /// Applies the outcome of the fetch named by `ticket`, if that fetch is
    /// still the current one and nothing has settled it yet; otherwise the
    /// outcome is discarded. Returns whether it was applied.
    pub fn complete(&mut self, ticket: FetchTicket, result: Result<StoryData, FetchError>) -> (applied: bool)
        ensures
            applied == old(self)@.accepts(ticket),
            final(self)@ == old(self)@.after_complete(ticket, result),
    {
        let current = ticket.generation == self.generation && matches!(self.state, CommentsState::Loading);
        if current {
            self.state = match result {
                Ok(data) => CommentsState::Loaded(data),
                Err(e) => CommentsState::Failed(e),
            };
        }
        current
    }
}

/// Selecting stories one after another leaves the pane loading, with the
/// generation advanced once per selection.
pub proof fn lemma_selects_leave_loading(m: PaneModel, stories: Seq<StoryItem>)
    ensures
        m.after_selects(stories).generation == m.generation + stories.len(),
        stories.len() > 0 ==> m.after_selects(stories).state is Loading,
    decreases stories.len(),
{
    if stories.len() > 0 {
        lemma_selects_leave_loading(m, stories.drop_last());
    }
}

/// The completions of a loading pane settle it on the first outcome delivered
/// under its latest generation, and on no other; while none is delivered it
/// stays loading.
proof fn lemma_first_current_completion_settles(m: PaneModel, completions: Seq<Completion>)
    requires
        m.state is Loading,
    ensures
        m.after_completions(completions).generation == m.generation,
        (forall|k: int| 0 <= k < completions.len() ==> completions[k].0.generation != m.generation)
            ==> m.after_completions(completions).state is Loading,
        forall|k: int|
            0 <= k < completions.len() && completions[k].0.generation == m.generation
                && (forall|j: int| 0 <= j < k ==> completions[j].0.generation != m.generation)
                ==> m.after_completions(completions).state == settled(completions[k].1),
    decreases completions.len(),
{
    if completions.len() > 0 {
        let prefix = completions.drop_last();
        lemma_first_current_completion_settles(m, prefix);
        assert forall|k: int|
            0 <= k < completions.len() && completions[k].0.generation == m.generation
                && (forall|j: int| 0 <= j < k ==> completions[j].0.generation != m.generation)
            implies m.after_completions(completions).state == settled(completions[k].1) by {
            if k < prefix.len() {
                assert(prefix[k] == completions[k]);
                assert forall|j: int| 0 <= j < k implies prefix[j].0.generation != m.generation by {
                    assert(prefix[j] == completions[j]);
                }
            } else {
                assert forall|j: int| 0 <= j < prefix.len() implies prefix[j].0.generation != m.generation by {
                    assert(prefix[j] == completions[j]);
                }
            }
        }
        if forall|k: int| 0 <= k < completions.len() ==> completions[k].0.generation != m.generation {
            assert forall|j: int| 0 <= j < prefix.len() implies prefix[j].0.generation != m.generation by {
                assert(prefix[j] == completions[j]);
            }
            assert(completions[completions.len() - 1].0.generation != m.generation);
        }
    }
}

/// Last selection wins: select `stories` in turn (the `i`-th selection hands
/// out `ticket_of(stories, i)`), then let their fetches complete in any order. The pane shows the outcome of the last selection's
/// fetch once it arrives, and until then keeps loading; no earlier fetch's
/// outcome is ever shown, however late it arrives.
pub proof fn lemma_last_selection_wins(m: PaneModel, stories: Seq<StoryItem>, completions: Seq<Completion>)
    requires
        stories.len() > 0,
        m.generation + stories.len() <= u64::MAX,
        forall|k: int| #![trigger completions[k]] 0 <= k < completions.len()
            ==> exists|i: int| 0 <= i < stories.len() && completions[k].0 == #[trigger] m.ticket_of(stories, i),
    ensures
        forall|i: int| 0 <= i < stories.len()
            ==> #[trigger] m.ticket_of(stories, i) == m.after_selects(stories.take(i)).ticket_for_select(stories[i]),
        ({
            let last = m.ticket_of(stories, stories.len() - 1);
            let shown = m.after_selects(stories).after_completions(completions).state;
            &&& (forall|k: int| 0 <= k < completions.len() ==> completions[k].0 != last) ==> shown is Loading
            &&& forall|k: int|
                0 <= k < completions.len() && completions[k].0 == last
                    && (forall|j: int| 0 <= j < k ==> completions[j].0 != last)
                    ==> shown == settled(completions[k].1)
        }),
{
    let n = stories.len();
    let last = m.ticket_of(stories, n - 1);
    let selected = m.after_selects(stories);
    lemma_selects_leave_loading(m, stories);
    assert forall|i: int| 0 <= i < n
        implies #[trigger] m.ticket_of(stories, i) == m.after_selects(stories.take(i)).ticket_for_select(stories[i]) by {
        lemma_selects_leave_loading(m, stories.take(i));
    }
    lemma_first_current_completion_settles(selected, completions);
    assert forall|k: int| 0 <= k < completions.len()
        implies (completions[k].0 == last <==> completions[k].0.generation == selected.generation) by {
        let i = choose|i: int| 0 <= i < n && completions[k].0 == #[trigger] m.ticket_of(stories, i);
        if i < n - 1 {
            assert(completions[k].0.generation < selected.generation);
        }
    }
}

} // verus!
