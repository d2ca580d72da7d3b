//! The remove command, as a state machine: the alias must be stored, the
//! user must say yes, and only then does the profile go.

use vstd::prelude::*;
use crate::config::{Config, ServerProfile};
use crate::error::{DownloaderError, Failure};
use crate::text::{affirmative, is_affirmative};

verus! {

/// Where the removal of a profile stands. Each state says what the
/// application does next.
#[derive(Debug, PartialEq, Eq)]
pub enum Removal {
    /// Ask whether the profile stored under `alias` is to be removed.
    Confirm { alias: String },
    /// The profile is out of the store: persist the store; nothing follows.
    Removed { alias: String },
    /// The user did not say yes; nothing follows.
    Cancelled,
    /// The command failed; nothing follows.
    Failed(DownloaderError),
}

/// The mathematical form of a `Removal`.
pub enum RemovalView {
    Confirm { alias: Seq<char> },
    Removed { alias: Seq<char> },
    Cancelled,
    Failed(Failure),
}

impl View for Removal {
    type V = RemovalView;

    open spec fn view(&self) -> RemovalView {
        match self {
            Removal::Confirm { alias } => RemovalView::Confirm { alias: alias@ },
            Removal::Removed { alias } => RemovalView::Removed { alias: alias@ },
            Removal::Cancelled => RemovalView::Cancelled,
            Removal::Failed(failure) => RemovalView::Failed(failure@),
        }
    }
}

/// The state in which the removal of `alias` begins: it fails at once where
/// the store holds no such alias.
pub open spec fn first_removal(store: Map<Seq<char>, ServerProfile>, alias: Seq<char>) -> RemovalView {
    if store.contains_key(alias) {
        RemovalView::Confirm { alias }
    } else {
        RemovalView::Failed(Failure::ServerNotFound(alias))
    }
}

/// The state that follows `state` on the user's answer, and the store as it
/// is afterwards. Only a yes to the confirmation changes the store.
pub open spec fn after_answer(
    state: RemovalView,
    store: Map<Seq<char>, ServerProfile>,
    answer: Seq<char>,
) -> (RemovalView, Map<Seq<char>, ServerProfile>) {
    match state {
        RemovalView::Confirm { alias } => if !affirmative(answer) {
            (RemovalView::Cancelled, store)
        } else if store.contains_key(alias) {
            (RemovalView::Removed { alias }, store.remove(alias))
        } else {
            (RemovalView::Failed(Failure::ServerNotFound(alias)), store)
        },
        _ => (state, store),
    }
}

/// Begins the removal of the profile stored under `alias`.
pub fn remove_server(store: &Config, alias: String) -> (state: Removal)
    ensures
        state@ == first_removal(store@, alias@),
{
    if store.contains_key(alias.as_str()) {
        Removal::Confirm { alias }
    } else {
        Removal::Failed(DownloaderError::ServerNotFound(alias))
    }
}

impl Removal {
    /// Moves the removal on by the user's answer to the confirmation.
    pub fn answer(self, store: &mut Config, answer: &str) -> (next: Removal)
        ensures
            next@ == after_answer(self@, old(store)@, answer@).0,
            final(store)@ == after_answer(self@, old(store)@, answer@).1,
    {
        match self {
            Removal::Confirm { alias } => {
                if !is_affirmative(answer) {
                    Removal::Cancelled
                } else {
                    match store.remove_server(alias.as_str()) {
                        Ok(()) => Removal::Removed { alias },
                        Err(failure) => Removal::Failed(failure),
                    }
                }
            },
            Removal::Removed { alias } => Removal::Removed { alias },
            Removal::Cancelled => Removal::Cancelled,
            Removal::Failed(failure) => Removal::Failed(failure),
        }
    }
}

/// Without a yes, the store stays as it is.
pub proof fn lemma_no_removal_without_consent(
    state: RemovalView,
    store: Map<Seq<char>, ServerProfile>,
    answer: Seq<char>,
)
    requires
        !affirmative(answer),
    ensures
        after_answer(state, store, answer).1 == store,
        !(after_answer(state, store, answer).0 is Removed) || state is Removed,
{
}

} // verus!
