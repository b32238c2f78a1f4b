//! Static composition: the state names its store type, so each store type
//! gets its own handlers, specialised at build time.
use crate::handlers::{index_outcome, index_page_of, outcome, show_outcome, show_page_of, HandlerError};
use crate::store::{lists_exactly, named_pairs};
use crate::view::{Templates, TemplatesView};
use vstd::prelude::*;

pub use crate::store::{MemoryDB, DB};

verus! {

/// What the handlers need from the application state.
pub trait AppState: Clone + Send + Sync + 'static {
    /// The concrete store type, fixed at build time.
    type D: DB;

    /// The store that `db` hands out.
    spec fn store(&self) -> Self::D;

    /// The templates that `templates` hands out.
    spec fn page_templates(&self) -> TemplatesView;

    fn db(&self) -> (r: &Self::D)
        ensures
            *r == self.store(),
    ;

    fn templates(&self) -> (r: &Templates)
        ensures
            r@ == self.page_templates(),
    ;
}

/// The state of the service that serves the in-memory store.
#[derive(Clone)]
pub struct RegularAppState {
    pub templates: Templates,
    pub db: MemoryDB,
}

impl AppState for RegularAppState {
    type D = MemoryDB;

    open spec fn store(&self) -> MemoryDB {
        self.db
    }

    open spec fn page_templates(&self) -> TemplatesView {
        self.templates@
    }

    fn db(&self) -> (r: &MemoryDB) {
        &self.db
    }

    fn templates(&self) -> (r: &Templates) {
        &self.templates
    }
}

/// `GET /`: the listing of every item of the state's store, in the order
/// the store lists them.
pub fn index<S: AppState>(state: &S) -> (r: Result<String, HandlerError>)
    ensures
        outcome(r) == index_outcome(state.store().listing(), state.page_templates()),
        exists|listed: Seq<(u128, String)>|
            lists_exactly(listed, state.store().items()) && #[trigger] named_pairs(listed) == state.store().listing(),
{
    index_page_of(state.db(), state.templates())
}

/// `GET /item/{id}`: the page of the item whose identifier is `id`.
pub fn show<S: AppState>(id: &str, state: &S) -> (r: Result<String, HandlerError>)
    ensures
        outcome(r) == show_outcome(id@, state.store().items(), state.page_templates()),
{
    show_page_of(id, state.db(), state.templates())
}

} // verus!
