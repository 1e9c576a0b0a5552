//! Reading HTML documents, done by the `scraper` crate.
use vstd::prelude::*;

verus! {

/// An element of a document: its inner HTML, its text, and the values of
/// the attributes that were asked for (`None` for one it does not carry).
pub struct SelectedElement {
    pub inner_html: String,
    pub text: String,
    pub attributes: Vec<Option<String>>,
}

impl View for SelectedElement {
    type V = (Seq<char>, Seq<char>, Seq<Option<Seq<char>>>);

    open spec fn view(&self) -> (Seq<char>, Seq<char>, Seq<Option<Seq<char>>>) {
        (self.inner_html@, self.text@, self.attributes.deep_view())
    }
}

/// What an element is known to be, whatever the parse: its text and the
/// values of its attributes. Its inner HTML writes the attributes of its
/// descendants in an order that changes from one parse to the next, so it
/// is left out.
pub open spec fn settled(e: (Seq<char>, Seq<char>, Seq<Option<Seq<char>>>)) -> (Seq<char>, Seq<Option<Seq<char>>>) {
    (e.1, e.2)
}

pub open spec fn opt_view(o: Option<SelectedElement>) -> Option<(Seq<char>, Seq<char>, Seq<Option<Seq<char>>>)> {
    match o {
        Some(e) => Some(e@),
        None => None,
    }
}

pub open spec fn settled_opt(o: Option<(Seq<char>, Seq<char>, Seq<Option<Seq<char>>>)>) -> Option<(Seq<char>, Seq<Option<Seq<char>>>)> {
    match o {
        Some(e) => Some(settled(e)),
        None => None,
    }
}

/// The views of a list of elements that may be missing.
pub open spec fn parts_view(v: Seq<Option<SelectedElement>>) -> Seq<Option<(Seq<char>, Seq<char>, Seq<Option<Seq<char>>>)>> {
    v.map_values(|o: Option<SelectedElement>| opt_view(o))
}

/// For every element of the document `html` that the CSS selector `css`
/// matches, in document order: its text and the values of the attributes
/// named in `attributes`, in that order. Empty where `css` does not parse.
pub uninterp spec fn selected_elements(html: Seq<char>, css: Seq<char>, attributes: Seq<Seq<char>>) -> Seq<(Seq<char>, Seq<Option<Seq<char>>>)>;

/// Parses `html` with `scraper::Html::parse_document` and lists the elements
/// that `scraper::Selector::parse(css)` matches, with `ElementRef::inner_html`,
/// the pieces of `ElementRef::text` put together, and `Element::attr` for each
/// name of `attributes`. The contract names the text and the attribute values
/// (`selected_elements`); of the inner HTML it claims nothing, as scraper
/// writes attributes in the order of a randomly seeded hash map.
#[verifier::external_body]
pub fn select_elements(html: &str, css: &str, attributes: &Vec<String>) -> (res: Vec<SelectedElement>)
    ensures
        res@.map_values(|e: SelectedElement| settled(e@)) == selected_elements(html@, css@, attributes.deep_view()),
{
    let document = scraper::Html::parse_document(html);
    let mut res = Vec::new();
    if let Ok(selector) = scraper::Selector::parse(css) {
        for e in document.select(&selector) {
            res.push(SelectedElement {
                inner_html: e.inner_html(),
                text: e.text().collect(),
                attributes: attributes.iter().map(|a| e.value().attr(a).map(String::from)).collect(),
            });
        }
    }
    res
}

/// For every element of the document `html` that `item_css` matches, in
/// document order: the first of its descendants that `part_css` matches,
/// with its text and the values of the attributes named in `attributes`;
/// `None` where no descendant matches or `part_css` does not parse.
pub uninterp spec fn selected_parts(html: Seq<char>, item_css: Seq<char>, part_css: Seq<char>, attributes: Seq<Seq<char>>) -> Seq<Option<(Seq<char>, Seq<Option<Seq<char>>>)>>;

/// Parses `html` with `scraper::Html::parse_document`, and in each element
/// that `item_css` matches takes the first descendant that `part_css`
/// matches (`ElementRef::select`), as `select_elements` describes an
/// element. The contract names the texts and attribute values
/// (`selected_parts`), claims one entry per element that `item_css`
/// matches, and claims nothing of the inner HTML.
#[verifier::external_body]
pub fn select_item_parts(html: &str, item_css: &str, part_css: &str, attributes: &Vec<String>) -> (res: Vec<Option<SelectedElement>>)
    ensures
        res@.map_values(|o: Option<SelectedElement>| settled_opt(opt_view(o))) == selected_parts(html@, item_css@, part_css@, attributes.deep_view()),
        res.len() == selected_elements(html@, item_css@, seq![]).len(),
{
    let document = scraper::Html::parse_document(html);
    let part = scraper::Selector::parse(part_css).ok();
    let mut res = Vec::new();
    if let Ok(items) = scraper::Selector::parse(item_css) {
        for item in document.select(&items) {
            let found = part.as_ref().and_then(|p| item.select(p).next());
            res.push(found.map(|e| SelectedElement {
                inner_html: e.inner_html(),
                text: e.text().collect(),
                attributes: attributes.iter().map(|a| e.value().attr(a).map(String::from)).collect(),
            }));
        }
    }
    res
}

/// The first attribute asked for of an element that may be missing.
pub open spec fn first_attribute_of(e: Option<(Seq<char>, Seq<char>, Seq<Option<Seq<char>>>)>) -> Option<Seq<char>> {
    match e {
        Some(x) => if x.2.len() > 0 {
            x.2[0]
        } else {
            None
        },
        None => None,
    }
}

/// Whether `css` matches anything in `html`.
pub open spec fn has_match(html: Seq<char>, css: Seq<char>) -> bool {
    selected_elements(html, css, seq![]).len() > 0
}

/// Whether `css` matches anything in `html`.
pub fn select_any(html: &str, css: &str) -> (res: bool)
    ensures
        res == has_match(html@, css@),
{
    let none: Vec<String> = Vec::new();
    proof {
        assert(none.deep_view() =~= seq![]);
    }
    let found = select_elements(html, css, &none);
    found.len() > 0
}

/// The first element that `css` matches in `html`, with no attribute asked
/// for; `None` where nothing matches.
pub fn select_first(html: &str, css: &str) -> (res: Option<SelectedElement>)
    ensures
        match res {
            Some(e) => has_match(html@, css@) && settled(e@) == selected_elements(html@, css@, seq![])[0],
            None => !has_match(html@, css@),
        },
{
    let none: Vec<String> = Vec::new();
    proof {
        assert(none.deep_view() =~= seq![]);
    }
    let mut found = select_elements(html, css, &none);
    if found.len() > 0 {
        let ghost all = found@;
        let e = found.remove(0);
        proof {
            assert(all.map_values(|e: SelectedElement| settled(e@))[0] == settled(all[0]@));
        }
        Some(e)
    } else {
        None
    }
}

/// The views of the parts that `select_item_parts` found.
pub fn parts_of_items(html: &str, item_css: &str, part_css: &str, attribute: Option<&str>) -> (res: Vec<Option<SelectedElement>>)
    ensures
        parts_view(res@).map_values(|o: Option<(Seq<char>, Seq<char>, Seq<Option<Seq<char>>>)>| settled_opt(o))
            == selected_parts(
            html@,
            item_css@,
            part_css@,
            match attribute {
                Some(a) => seq![a@],
                None => seq![],
            },
        ),
        res.len() == selected_elements(html@, item_css@, seq![]).len(),
{
    let mut names: Vec<String> = Vec::new();
    match attribute {
        Some(a) => names.push(String::from_str(a)),
        None => {},
    }
    proof {
        match attribute {
            Some(a) => assert(names.deep_view() =~= seq![a@]),
            None => assert(names.deep_view() =~= seq![]),
        }
    }
    let res = select_item_parts(html, item_css, part_css, &names);
    proof {
        assert(parts_view(res@).map_values(|o: Option<(Seq<char>, Seq<char>, Seq<Option<Seq<char>>>)>| settled_opt(o))
            =~= res@.map_values(|o: Option<SelectedElement>| settled_opt(opt_view(o))));
    }
    res
}

} // verus!
