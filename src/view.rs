//! View models and their rendering into HTML through Handlebars templates.
use handlebars::JsonValue;
use vstd::prelude::*;
use vstd::std_specs::iter::IteratorSpec;

verus! {

broadcast use vstd::string::group_string_axioms;

/// One item as a page shows it: its display name and its identifier's text.
pub struct ItemViewModel {
    pub name: String,
    pub uuid: String,
}

/// What a template is rendered with.
pub enum ViewModel {
    /// The listing page: a title and every item.
    Index { title: String, items: Vec<ItemViewModel> },
    /// The page of a single item.
    Show(ItemViewModel),
}

/// The mathematical content of a view model.
pub enum PageView {
    Index { title: Seq<char>, items: Seq<(Seq<char>, Seq<char>)> },
    Show { name: Seq<char>, uuid: Seq<char> },
}

impl View for ItemViewModel {
    type V = (Seq<char>, Seq<char>);

    /// The pair (name, identifier text).
    open spec fn view(&self) -> (Seq<char>, Seq<char>) {
        (self.name@, self.uuid@)
    }
}

impl View for ViewModel {
    type V = PageView;

    open spec fn view(&self) -> PageView {
        match self {
            ViewModel::Index { title, items } => PageView::Index {
                title: title@,
                items: items@.map_values(|i: ItemViewModel| i@),
            },
            ViewModel::Show(item) => PageView::Show { name: item.name@, uuid: item.uuid@ },
        }
    }
}

/// The characters that may stand between `{{` and the `>` of a partial tag:
/// whitespace, the whitespace trimmer `~` and the block mark `#`.
pub open spec fn tag_gap(c: char) -> bool {
    c == ' ' || c == '\t' || c == '\n' || c == '\r' || c == '~' || c == '#'
}

/// A partial tag (`{{> name}}`, `{{#> name}}`, `{{~ > name}}`, ...) opens at `i`.
pub open spec fn partial_tag_at(t: Seq<char>, i: int) -> bool {
    &&& 0 <= i && i + 1 < t.len()
    &&& t[i] == '{' && t[i + 1] == '{'
    &&& exists|j: int|
        i + 2 <= j < t.len() && t[j] == '>' && forall|k: int| i + 2 <= k < j ==> tag_gap(t[k])
}

/// The longest template source accepted, in characters.
pub const MAX_TEMPLATE_LEN: usize = 1024;

/// A template source that renders without unbounded recursion: it includes
/// no partial (an inline partial can include itself without end), and it is
/// short, which bounds how deep its blocks and expressions can nest.
pub open spec fn renderable(t: Seq<char>) -> bool {
    &&& t.len() <= MAX_TEMPLATE_LEN
    &&& forall|i: int| !#[trigger] partial_tag_at(t, i)
}

fn is_tag_gap(c: char) -> (r: bool)
    ensures
        r == tag_gap(c),
{
    c == ' ' || c == '\t' || c == '\n' || c == '\r' || c == '~' || c == '#'
}

/// The characters of `s`, in order.
fn chars_of(s: &str) -> (r: Vec<char>)
    ensures
        r@ == s@,
{
    let mut v: Vec<char> = Vec::new();
    let ghost text = s@;
    for c in it: s.chars()
        invariant
            it.seq() == text,
            v@.len() <= text.len(),
            v@ == text.take(v@.len() as int),
            v@.len() == it.index(),
    {
        proof {
            assert(text.take((v@.len() + 1) as int) =~= v@.push(c));
        }
        v.push(c);
    }
    proof {
        assert(text.take(v@.len() as int) =~= text);
    }
    v
}

/// Whether `t` is a source that the renderer is given.
pub fn is_renderable(t: &str) -> (r: bool)
    ensures
        r == renderable(t@),
{
    let chars = chars_of(t);
    let n = chars.len();
    if n > MAX_TEMPLATE_LEN {
        return false;
    }
    let mut i: usize = 0;
    while i + 1 < n
        invariant
            n == chars@.len(),
            chars@ == t@,
            n <= MAX_TEMPLATE_LEN,
            i <= n,
            forall|p: int| 0 <= p < i ==> !#[trigger] partial_tag_at(t@, p),
        decreases n - i,
    {
        if chars[i] == '{' && chars[i + 1] == '{' {
            let mut j: usize = i + 2;
            while j < n && is_tag_gap(chars[j])
                invariant
                    n == chars@.len(),
                    i + 2 <= j <= n,
                    forall|k: int| i + 2 <= k < j ==> tag_gap(chars@[k]),
                decreases n - j,
            {
                j = j + 1;
            }
            if j < n && chars[j] == '>' {
                proof {
                    assert(partial_tag_at(t@, i as int));
                }
                return false;
            }
            proof {
                assert(!partial_tag_at(t@, i as int)) by {
                    if partial_tag_at(t@, i as int) {
                        let w = choose|w: int|
                            i + 2 <= w < t@.len() && t@[w] == '>' && forall|k: int|
                                i + 2 <= k < w ==> tag_gap(t@[k]);
                        if w < j {
                            assert(tag_gap(t@[w]));
                        } else if w > j {
                            assert(tag_gap(t@[j as int]));
                        }
                    }
                }
            }
        }
        i = i + 1;
    }
    true
}

/// The template sources of the two pages; both are renderable.
pub struct Templates {
    index: String,
    show: String,
}

/// The template sources as text.
pub struct TemplatesView {
    pub index: Seq<char>,
    pub show: Seq<char>,
}

impl View for Templates {
    type V = TemplatesView;

    closed spec fn view(&self) -> TemplatesView {
        TemplatesView { index: self.index@, show: self.show@ }
    }
}

impl Templates {
    #[verifier::type_invariant]
    spec fn inv(&self) -> bool {
        renderable(self.index@) && renderable(self.show@)
    }

    /// Templates from the given sources, for the listing and the single item;
    /// `None` where either source is not renderable.
    pub fn new(index: String, show: String) -> (r: Option<Self>)
        ensures
            r is Some <==> renderable(index@) && renderable(show@),
            r matches Some(t) ==> t@ == (TemplatesView { index: index@, show: show@ }),
    {
        if is_renderable(index.as_str()) && is_renderable(show.as_str()) {
            Some(Templates { index, show })
        } else {
            None
        }
    }

    /// The source of the listing page's template.
    pub fn index(&self) -> (r: &String)
        ensures
            r@ == self@.index,
            renderable(r@),
    {
        proof {
            use_type_invariant(self);
        }
        &self.index
    }

    /// The source of the single item page's template.
    pub fn show(&self) -> (r: &String)
        ensures
            r@ == self@.show,
            renderable(r@),
    {
        proof {
            use_type_invariant(self);
        }
        &self.show
    }
}

impl Clone for Templates {
    /// The same sources.
    fn clone(&self) -> (r: Self)
        ensures
            r@ == self@,
    {
        proof {
            use_type_invariant(self);
        }
        Templates { index: self.index.clone(), show: self.show.clone() }
    }
}

/// The listing page: a heading with the title, then one link per item.
pub const INDEX_TEMPLATE: &'static str = "<h1>{{title}}</h1>\n<ul>\n{{#each items}}  <li><a href=\"/item/{{uuid}}\">{{name}}</a></li>\n{{/each}}</ul>\n";

/// The single item page: its name, then its identifier.
pub const SHOW_TEMPLATE: &'static str = "<h1>{{name}}</h1>\n<p>{{uuid}}</p>\n";

/// The templates that the services render with, once checked renderable.
pub fn build_templates() -> (r: Option<Templates>)
    ensures
        r is Some <==> renderable(INDEX_TEMPLATE@) && renderable(SHOW_TEMPLATE@),
        r matches Some(t) ==> t@ == (TemplatesView { index: INDEX_TEMPLATE@, show: SHOW_TEMPLATE@ }),
{
    Templates::new(INDEX_TEMPLATE.to_string(), SHOW_TEMPLATE.to_string())
}

/// What Handlebars makes of a template source and a view model: the HTML,
/// or `None` where the template does not parse or does not render.
pub uninterp spec fn rendered(template: Seq<char>, page: PageView) -> Option<Seq<char>>;

/// Relies on `handlebars::Handlebars::render_template` on a registry fresh from
/// `Handlebars::new` (default escaping, no strict mode, built-in helpers only):
/// the output depends on the template source and the data alone. A source
/// with a partial may recurse without end, hence the precondition.
#[verifier::external_body]
pub(crate) fn render_template(template: &str, view: &ViewModel) -> (r: Option<String>)
    requires
        renderable(template@),
    ensures
        r matches Some(html) ==> rendered(template@, view@) == Some(html@),
        r is None ==> rendered(template@, view@) is None,
{
    let data: JsonValue = match view {
        ViewModel::Index { title, items } => JsonValue::from_iter([
            ("title", JsonValue::from(title.as_str())),
            ("items", items.iter().map(|i| JsonValue::from_iter([("name", i.name.as_str()), ("uuid", i.uuid.as_str())])).collect()),
        ]),
        ViewModel::Show(i) => JsonValue::from_iter([("name", i.name.as_str()), ("uuid", i.uuid.as_str())]),
    };
    handlebars::Handlebars::new().render_template(template, &data).ok()
}

} // verus!
