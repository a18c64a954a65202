//! View-state synchronisation for a reader of Hacker News stories: the
//! records fetched from the story API, the comment pane's state machine with
//! its generation guard, and the pure functions that map each state to the
//! fragment a host UI framework draws.

pub mod model;
pub mod view_state;
pub mod fetch;
pub mod render;
