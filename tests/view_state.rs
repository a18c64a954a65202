use hackernews::model::{Comment, FetchError, StoryData, StoryItem};
use hackernews::render::{Comments, CommentsFragment};
use hackernews::fetch::story_comments;
use hackernews::view_state::{CommentsState, ViewStateController};

fn story(id: u64, kids: Vec<u64>) -> StoryItem {
    StoryItem {
        id,
        title: format!("story {}", id),
        score: 10,
        by: "alice".to_string(),
        time: 1_700_000_000,
        kids,
    }
}

fn comment(id: u64, by: &str, text: &str) -> Comment {
    Comment { id, by: by.to_string(), time: 1_700_000_100 + id, text: text.to_string() }
}

fn comment_ids(state: &CommentsState) -> Option<Vec<u64>> {
    match state {
        CommentsState::Loaded(data) => Some(data.comments.iter().map(|c| c.id).collect()),
        _ => None,
    }
}

#[test]
fn starts_unset() {
    let c = ViewStateController::new();
    assert!(matches!(c.current_state(), CommentsState::Unset));
    assert_eq!(c.generation(), 0);
}

#[test]
fn select_turns_loading_and_hands_out_ticket() {
    let mut c = ViewStateController::new();
    let t = c.select(&story(7, vec![1]));
    assert!(matches!(c.current_state(), CommentsState::Loading));
    assert_eq!(t.generation, 1);
    assert_eq!(t.story_id, 7);
    assert_eq!(c.generation(), 1);
}

#[test]
fn repeated_reads_agree() {
    let mut c = ViewStateController::new();
    let s = story(3, vec![31]);
    let t = c.select(&s);
    c.complete(t, Ok(StoryData { comments: vec![comment(31, "bob", "<p>hi</p>")] }));
    let first = comment_ids(c.current_state());
    let second = comment_ids(c.current_state());
    assert_eq!(first, Some(vec![31]));
    assert_eq!(first, second);
}

#[test]
fn two_comments_load_in_source_order() {
    let mut c = ViewStateController::new();
    let s = story(1, vec![11, 12]);
    let t = c.select(&s);
    let c1 = comment(11, "carol", "<p>first</p>");
    let c2 = comment(12, "dave", "<p>second</p>");
    let data = story_comments(&s, vec![Ok(c1.clone()), Ok(c2.clone())]).unwrap();
    assert!(c.complete(t, Ok(data)));
    match c.current_state() {
        CommentsState::Loaded(d) => assert_eq!(d.comments, vec![c1, c2]),
        other => panic!("unexpected state {:?}", other),
    }
    match Comments(c.current_state()) {
        CommentsFragment::List(items) => {
            assert_eq!(items.len(), 2);
            assert_eq!(items[0].by, "carol");
            assert_eq!(items[0].html, "<p>first</p>");
            assert_eq!(items[1].by, "dave");
            assert_eq!(items[1].html, "<p>second</p>");
        }
        other => panic!("unexpected fragment {:?}", other),
    }
}

#[test]
fn later_selection_wins_over_late_completion() {
    let mut c = ViewStateController::new();
    let a = story(100, vec![101]);
    let b = story(200, vec![201]);
    let ta = c.select(&a);
    let tb = c.select(&b);
    assert!(c.complete(tb, Ok(StoryData { comments: vec![comment(201, "b", "B")] })));
    assert!(!c.complete(ta, Ok(StoryData { comments: vec![comment(101, "a", "A")] })));
    assert_eq!(comment_ids(c.current_state()), Some(vec![201]));
}

#[test]
fn stale_completion_before_current_keeps_loading() {
    let mut c = ViewStateController::new();
    let ta = c.select(&story(1, vec![]));
    let tb = c.select(&story(2, vec![]));
    assert!(!c.complete(ta, Ok(StoryData { comments: vec![comment(5, "a", "A")] })));
    assert!(matches!(c.current_state(), CommentsState::Loading));
    assert!(c.complete(tb, Ok(StoryData { comments: vec![] })));
    assert_eq!(comment_ids(c.current_state()), Some(vec![]));
}

#[test]
fn many_selections_out_of_order_completions() {
    let mut c = ViewStateController::new();
    let tickets: Vec<_> = (1..=5u64).map(|i| c.select(&story(i, vec![i * 10]))).collect();
    for (i, t) in tickets.iter().enumerate().rev() {
        let applied = c.complete(*t, Ok(StoryData { comments: vec![comment((i as u64 + 1) * 10, "x", "y")] }));
        assert_eq!(applied, i == 4);
    }
    assert_eq!(comment_ids(c.current_state()), Some(vec![50]));
}

#[test]
fn failure_is_shown_not_hung() {
    let mut c = ViewStateController::new();
    let t = c.select(&story(9, vec![90]));
    assert!(c.complete(t, Err(FetchError::NetworkError("timed out".to_string()))));
    match c.current_state() {
        CommentsState::Failed(e) => assert_eq!(*e, FetchError::NetworkError("timed out".to_string())),
        other => panic!("unexpected state {:?}", other),
    }
}

#[test]
fn completion_applies_once() {
    let mut c = ViewStateController::new();
    let t = c.select(&story(4, vec![41]));
    assert!(c.complete(t, Ok(StoryData { comments: vec![comment(41, "a", "A")] })));
    assert!(!c.complete(t, Err(FetchError::NotFound(41))));
    assert_eq!(comment_ids(c.current_state()), Some(vec![41]));
}

#[test]
fn reselecting_after_loaded_goes_back_to_loading() {
    let mut c = ViewStateController::new();
    let t = c.select(&story(4, vec![]));
    c.complete(t, Ok(StoryData { comments: vec![] }));
    let t2 = c.select(&story(4, vec![]));
    assert_eq!(t2.generation, 2);
    assert!(matches!(c.current_state(), CommentsState::Loading));
}
