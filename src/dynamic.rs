//! Dynamic composition: the state holds its store behind a shared handle to
//! any implementation, so one state type and one set of handlers serve all.
use crate::handlers::{index_outcome, index_page_of, outcome, show_outcome, show_page_of, HandlerError};
use crate::store::{lists_exactly, named_pairs};
use crate::trait_static;
use crate::view::Templates;
use std::sync::Arc;
use vstd::prelude::*;

pub use crate::store::{MemoryDB, DB};

verus! {

/// The state of a service whose store is chosen at start-up; services share
/// it behind an `Arc`.
pub struct AppState {
    pub templates: Templates,
    pub db: Arc<dyn DB>,
}

/// `GET /`: the listing of every item of the state's store, in the order
/// the store lists them.
pub fn index(state: &AppState) -> (r: Result<String, HandlerError>)
    ensures
        outcome(r) == index_outcome(state.db.listing(), state.templates@),
        exists|listed: Seq<(u128, String)>|
            lists_exactly(listed, state.db.items()) && #[trigger] named_pairs(listed) == state.db.listing(),
{
    index_page_of(&*state.db, &state.templates)
}

/// `GET /item/{id}`: the page of the item whose identifier is `id`.
pub fn show(id: &str, state: &AppState) -> (r: Result<String, HandlerError>)
    ensures
        outcome(r) == show_outcome(id@, state.db.items(), state.templates@),
{
    show_page_of(id, &*state.db, &state.templates)
}

/// Wired either way, a service gives the same answer to the same request when
/// its store holds the same table and its templates are the same: byte for
/// byte for an item's page, and for the listing when the two stores list their
/// pairs in the same order (the order of a listing is not promised).
pub proof fn lemma_strategies_agree<S: trait_static::AppState>(
    fixed: &S,
    shared: &AppState,
    raw_id: Seq<char>,
)
    requires
        fixed.store().items() == shared.db.items(),
        fixed.page_templates() == shared.templates@,
    ensures
        show_outcome(raw_id, fixed.store().items(), fixed.page_templates()) == show_outcome(
            raw_id,
            shared.db.items(),
            shared.templates@,
        ),
        fixed.store().listing() == shared.db.listing() ==> index_outcome(
            fixed.store().listing(),
            fixed.page_templates(),
        ) == index_outcome(shared.db.listing(), shared.templates@),
{
}

} // verus!
