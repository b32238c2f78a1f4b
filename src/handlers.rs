//! Request handling shared by both ways of wiring a store: build the view
//! model from the store, then render it.
use crate::ids::{hyphenated, item_id_text, parse_item_id, uuid_value};
use crate::store::{lists_exactly, named_pairs, DB};
use crate::view::{renderable, rendered, render_template, ItemViewModel, PageView, Templates, TemplatesView, ViewModel};
use vstd::prelude::*;

verus! {

/// Why a request produced no page.
#[derive(Clone, Copy, Debug, PartialEq, Eq, Structural)]
pub enum HandlerError {
    /// The identifier is well formed, but no item has it.
    ItemNotFound,
    /// The path segment is not an identifier.
    InvalidIdentifier,
    /// The template did not render.
    RenderFailure,
}

impl HandlerError {
    /// The HTTP status that reports this error.
    pub fn status(&self) -> (r: u16)
        ensures
            r == match self {
                HandlerError::ItemNotFound => 404u16,
                HandlerError::InvalidIdentifier => 400u16,
                HandlerError::RenderFailure => 500u16,
            },
    {
        match self {
            HandlerError::ItemNotFound => 404,
            HandlerError::InvalidIdentifier => 400,
            HandlerError::RenderFailure => 500,
        }
    }
}

/// The title of the listing page.
pub const INDEX_TITLE: &'static str = "All Items";

/// A request's result as text.
pub open spec fn outcome(r: Result<String, HandlerError>) -> Result<Seq<char>, HandlerError> {
    match r {
        Ok(html) => Ok(html@),
        Err(e) => Err(e),
    }
}

/// Rendering `page` with `template`: its HTML, or a render failure.
pub open spec fn render_outcome(template: Seq<char>, page: PageView) -> Result<Seq<char>, HandlerError> {
    match rendered(template, page) {
        Some(html) => Ok(html),
        None => Err(HandlerError::RenderFailure),
    }
}

/// The listing view of the pairs, in their order.
pub open spec fn index_page(listed: Seq<(u128, Seq<char>)>) -> PageView {
    PageView::Index {
        title: INDEX_TITLE@,
        items: listed.map_values(|p: (u128, Seq<char>)| (p.1, hyphenated(p.0))),
    }
}

/// The single item view of `id` named `name`.
pub open spec fn show_page(id: u128, name: Seq<char>) -> PageView {
    PageView::Show { name, uuid: hyphenated(id) }
}

/// The listing page's outcome for pairs listed in this order.
pub open spec fn index_outcome(listed: Seq<(u128, Seq<char>)>, t: TemplatesView) -> Result<Seq<char>, HandlerError> {
    render_outcome(t.index, index_page(listed))
}

/// The single item page's outcome for the path segment `raw` against a
/// store holding `items`.
pub open spec fn show_outcome(raw: Seq<char>, items: Map<u128, String>, t: TemplatesView) -> Result<Seq<char>, HandlerError> {
    match uuid_value(raw) {
        None => Err(HandlerError::InvalidIdentifier),
        Some(id) => if items.contains_key(id) {
            render_outcome(t.show, show_page(id, items[id]@))
        } else {
            Err(HandlerError::ItemNotFound)
        },
    }
}

/// The view model of one item.
pub fn item_view(id: u128, name: String) -> (r: ItemViewModel)
    ensures
        r@ == (name@, hyphenated(id)),
{
    ItemViewModel { name, uuid: item_id_text(id) }
}

/// The listing view model of the pairs, in their order, titled "All Items".
pub fn index_view(listed: &Vec<(u128, String)>) -> (r: ViewModel)
    ensures
        r@ == index_page(named_pairs(listed@)),
{
    let mut items: Vec<ItemViewModel> = Vec::new();
    let mut i: usize = 0;
    while i < listed.len()
        invariant
            i <= listed@.len(),
            items@.len() == i,
            forall|j: int|
                #![trigger items@[j]]
                0 <= j < i ==> items@[j]@ == (listed@[j].1@, hyphenated(listed@[j].0)),
        decreases listed@.len() - i,
    {
        items.push(item_view(listed[i].0, listed[i].1.clone()));
        i = i + 1;
    }
    let r = ViewModel::Index { title: INDEX_TITLE.to_string(), items };
    proof {
        assert(items@.map_values(|v: ItemViewModel| v@) =~= named_pairs(listed@).map_values(
            |p: (u128, Seq<char>)| (p.1, hyphenated(p.0)),
        ));
    }
    r
}

/// Renders `view` with the template source `template`.
pub(crate) fn render_page(template: &String, view: &ViewModel) -> (r: Result<String, HandlerError>)
    requires
        renderable(template@),
    ensures
        outcome(r) == render_outcome(template@, view@),
{
    match render_template(template.as_str(), view) {
        Some(html) => Ok(html),
        None => Err(HandlerError::RenderFailure),
    }
}

/// The listing page for pairs listed in this order.
pub fn index_from_listing(listed: &Vec<(u128, String)>, templates: &Templates) -> (r: Result<String, HandlerError>)
    ensures
        outcome(r) == index_outcome(named_pairs(listed@), templates@),
{
    let view = index_view(listed);
    render_page(templates.index(), &view)
}

/// The single item page, given what parsing the path segment gave and what
/// the store held under that identifier.
pub fn show_from_lookup(parsed: Option<u128>, found: Option<String>, templates: &Templates) -> (r: Result<String, HandlerError>)
    ensures
        outcome(r) == match parsed {
            None => Err(HandlerError::InvalidIdentifier),
            Some(id) => match found {
                None => Err(HandlerError::ItemNotFound),
                Some(name) => render_outcome(templates@.show, show_page(id, name@)),
            },
        },
{
    match parsed {
        None => Err(HandlerError::InvalidIdentifier),
        Some(id) => match found {
            None => Err(HandlerError::ItemNotFound),
            Some(name) => {
                let view = ViewModel::Show(item_view(id, name));
                render_page(templates.show(), &view)
            },
        },
    }
}

/// The listing page of every item of `db`, in the order the store lists them.
pub fn index_page_of<D: DB + ?Sized>(db: &D, templates: &Templates) -> (r: Result<String, HandlerError>)
    ensures
        outcome(r) == index_outcome(db.listing(), templates@),
        exists|listed: Seq<(u128, String)>|
            lists_exactly(listed, db.items()) && #[trigger] named_pairs(listed) == db.listing(),
{
    let listed = db.all_items();
    proof {
        assert(lists_exactly(listed@, db.items()) && named_pairs(listed@) == db.listing());
    }
    index_from_listing(&listed, templates)
}

/// The page of the item whose identifier is the path segment `raw_id`; the
/// store is not read where `raw_id` is no identifier.
pub fn show_page_of<D: DB + ?Sized>(raw_id: &str, db: &D, templates: &Templates) -> (r: Result<String, HandlerError>)
    ensures
        outcome(r) == show_outcome(raw_id@, db.items(), templates@),
{
    let parsed = parse_item_id(raw_id);
    match parsed {
        None => show_from_lookup(None, None, templates),
        Some(id) => {
            let found = db.get_item(&id);
            show_from_lookup(parsed, found, templates)
        },
    }
}

} // verus!
