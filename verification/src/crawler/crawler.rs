//! Decisions shared by the crawlers of all shops.
use vstd::prelude::*;
use crate::db::entity::source::SourceName;
use crate::inflection::{snake_case, to_snake_case_text};
use crate::pattern::{capture_texts, regex_capture_texts};
use crate::crawler::columns::{collect, opt_seq, select};
use crate::document::{has_match, select_any, select_elements, select_first, selected_elements, settled, SelectedElement};
use crate::text::{trim, trim_text};

verus! {

/// A product as a catalog page lists it: its title, the text its price is
/// read from, whether it can be bought, and its external id.
pub struct ListedProduct {
    pub title: String,
    pub price_text: String,
    pub available: bool,
    pub external_id: String,
}

impl View for ListedProduct {
    type V = (Seq<char>, Seq<char>, bool, Seq<char>);

    open spec fn view(&self) -> (Seq<char>, Seq<char>, bool, Seq<char>) {
        (self.title@, self.price_text@, self.available, self.external_id@)
    }
}

/// Whether a product can be bought, from the presence of its buy button and
/// of its "unavailable" button: unknown where neither is found.
pub open spec fn availability_of(available_found: bool, unavailable_found: bool) -> Option<bool> {
    if !available_found && !unavailable_found {
        None
    } else {
        Some(available_found && !unavailable_found)
    }
}

/// Whether a product can be bought, from the presence of its buy button and
/// of its "unavailable" button; `None` where neither is found.
pub fn availability(available_found: bool, unavailable_found: bool) -> (res: Option<bool>)
    ensures
        res == availability_of(available_found, unavailable_found),
{
    if !available_found && !unavailable_found {
        None
    } else {
        Some(available_found && !unavailable_found)
    }
}

/// Whether the nodes found for a product suffice to read it: its id, title
/// and price, and one of its two buttons.
pub fn product_nodes_complete(
    id_found: bool,
    title_found: bool,
    price_found: bool,
    available_found: bool,
    unavailable_found: bool,
) -> (res: bool)
    ensures
        res == (id_found && title_found && price_found && (available_found || unavailable_found)),
{
    let mut valid = true;
    if !id_found {
        valid = false;
    }
    if !title_found {
        valid = false;
    }
    if !price_found {
        valid = false;
    }
    if !available_found && !unavailable_found {
        valid = false;
    }
    valid
}

/// The address of an image: its `src` attribute, else its lazy-loading
/// attribute; `None` where it has neither.
pub fn image_url_of(src: Option<&str>, lazy: Option<&str>) -> (res: Option<String>)
    ensures
        match res {
            Some(u) => match src {
                Some(s) => u@ == s@,
                None => lazy is Some && u@ == lazy.unwrap()@,
            },
            None => src is None && lazy is None,
        },
{
    match src {
        Some(s) => Some(String::from_str(s)),
        None => match lazy {
            Some(l) => Some(String::from_str(l)),
            None => None,
        },
    }
}

/// Where an image of a product of `source` is stored in the cloud.
pub open spec fn image_file_path_of(source: SourceName, image_url: Seq<char>) -> Seq<char> {
    "product_images/"@ + snake_case(source.display_name()) + image_url
}

/// Where an image of a product of `source` is stored in the cloud:
/// `product_images/`, the shop's name in snake case, then the image's path.
pub fn image_file_path(source: SourceName, image_url: &str) -> (res: String)
    ensures
        res@ == image_file_path_of(source, image_url@),
{
    let mut res = String::from_str("product_images/");
    let name = to_snake_case_text(source.name());
    res.append(name.as_str());
    res.append(image_url);
    res
}

/// The address an image is downloaded from.
pub fn image_download_url(base: &str, image_url: &str) -> (res: String)
    ensures
        res@ == base@ + image_url@,
{
    let mut res = String::from_str(base);
    res.append(image_url);
    res
}

/// The concatenation of the texts in `pieces`.
pub open spec fn concat_all(pieces: Seq<Seq<char>>) -> Seq<char>
    decreases pieces.len(),
{
    if pieces.len() == 0 {
        seq![]
    } else {
        concat_all(pieces.drop_last()) + pieces.last()
    }
}

/// The description of a product: the matched paragraphs, headings and lists,
/// put together; where nothing matched, the whole trimmed text as one
/// paragraph.
pub open spec fn description_of(description: Seq<char>, matches: Seq<Seq<char>>) -> Seq<char> {
    if matches.len() == 0 {
        "<p>"@ + trim(description) + "<\\p>"@
    } else {
        concat_all(matches)
    }
}

/// Puts the description of a product together from the parts of its HTML
/// that the description pattern matched.
pub fn description_from_matches(description: &str, matches: &Vec<String>) -> (res: String)
    ensures
        res@ == description_of(description@, matches.deep_view()),
{
    if matches.len() == 0 {
        let mut res = String::from_str("<p>");
        res.append(trim_text(description));
        res.append("<\\p>");
        return res;
    }
    let ghost ms = matches.deep_view();
    let mut res = String::new();
    let mut i: usize = 0;
    proof {
        assert(ms.take(0) =~= seq![]);
    }
    while i < matches.len()
        invariant
            ms == matches.deep_view(),
            i <= matches.len(),
            res@ == concat_all(ms.take(i as int)),
        decreases matches.len() - i,
    {
        res.append(matches[i].as_str());
        proof {
            assert(ms.take(i + 1).drop_last() =~= ms.take(i as int));
            assert(matches[i as int]@ == ms[i as int]);
        }
        i = i + 1;
    }
    proof {
        assert(ms.take(matches.len() as int) =~= ms);
    }
    res
}

/// The description of a product from the inner HTML of its description node:
/// every match of `pattern`, put together.
pub fn extract_description(description: &str, pattern: &str) -> (res: String)
    ensures
        res@ == description_of(description@, regex_capture_texts(pattern@, description@)),
{
    let matches = capture_texts(pattern, description);
    description_from_matches(description, &matches)
}

/// The address of an image from its attributes `src` and the lazy-loading
/// one, in that order.
pub open spec fn image_url_from(attributes: Seq<Option<Seq<char>>>) -> Option<Seq<char>> {
    let src = if attributes.len() > 0 {
        attributes[0]
    } else {
        None
    };
    let lazy = if attributes.len() > 1 {
        attributes[1]
    } else {
        None
    };
    match src {
        Some(s) => Some(s),
        None => lazy,
    }
}

/// The addresses of the images that `css` selects in `page`, in document
/// order; an image without either attribute is skipped.
pub open spec fn image_urls_of(page: Seq<char>, css: Seq<char>, lazy_attribute: Seq<char>) -> Seq<Seq<char>> {
    let images = selected_elements(page, css, seq!["src"@, lazy_attribute]);
    collect(images.len() as int, |i: int| opt_seq(image_url_from(images[i].1)))
}

/// The addresses of the images that `css` selects in a product page: each
/// image's `src`, else its `lazy_attribute`.
pub fn extract_image_urls(page: &str, css: &str, lazy_attribute: &str) -> (res: Vec<String>)
    ensures
        res.deep_view() == image_urls_of(page@, css@, lazy_attribute@),
{
    let mut names: Vec<String> = Vec::new();
    names.push(String::from_str("src"));
    names.push(String::from_str(lazy_attribute));
    proof {
        reveal_strlit("src");
        assert(names.deep_view() =~= seq!["src"@, lazy_attribute@]);
    }
    let images = select_elements(page, css, &names);
    let ghost imgs = images@.map_values(|e: SelectedElement| settled(e@));
    let ghost f = |i: int| opt_seq(image_url_from(imgs[i].1));
    let mut urls: Vec<String> = Vec::new();
    let mut i: usize = 0;
    while i < images.len()
        invariant
            imgs == images@.map_values(|e: SelectedElement| settled(e@)),
            f == (|i: int| opt_seq(image_url_from(imgs[i].1))),
            i <= images.len(),
            urls.deep_view() == collect(i as int, f),
        decreases images.len() - i,
    {
        let attributes = &images[i].attributes;
        proof {
            assert(imgs[i as int].1 == attributes.deep_view());
        }
        let src: Option<&str> = if attributes.len() > 0 {
            match &attributes[0] {
                Some(v) => Some(v.as_str()),
                None => None,
            }
        } else {
            None
        };
        let lazy: Option<&str> = if attributes.len() > 1 {
            match &attributes[1] {
                Some(v) => Some(v.as_str()),
                None => None,
            }
        } else {
            None
        };
        proof {
            if attributes.len() > 0 {
                assert(attributes.deep_view()[0] == attributes[0].deep_view());
            }
            if attributes.len() > 1 {
                assert(attributes.deep_view()[1] == attributes[1].deep_view());
            }
        }
        let ghost prev = urls.deep_view();
        match image_url_of(src, lazy) {
            Some(url) => {
                urls.push(url);
                proof {
                    assert(urls.deep_view() =~= prev + f(i as int));
                }
            },
            None => {
                proof {
                    assert(prev + f(i as int) =~= prev);
                }
            },
        }
        i = i + 1;
    }
    urls
}

/// The images whose upload succeeded, whose paths are kept, and those whose
/// upload failed, which are put on the queue for later; each in order.
pub fn split_uploads(succeeded: &Vec<bool>) -> (res: (Vec<usize>, Vec<usize>))
    ensures
        res.0@ == select(succeeded.len() as int, |i: int| succeeded@[i]),
        res.1@ == select(succeeded.len() as int, |i: int| !succeeded@[i]),
{
    let ghost p = |i: int| succeeded@[i];
    let ghost q = |i: int| !succeeded@[i];
    let mut kept: Vec<usize> = Vec::new();
    let mut later: Vec<usize> = Vec::new();
    let mut i: usize = 0;
    while i < succeeded.len()
        invariant
            p == (|i: int| succeeded@[i]),
            q == (|i: int| !succeeded@[i]),
            i <= succeeded.len(),
            kept@ == select(i as int, p),
            later@ == select(i as int, q),
        decreases succeeded.len() - i,
    {
        if succeeded[i] {
            kept.push(i);
        } else {
            later.push(i);
        }
        i = i + 1;
    }
    (kept, later)
}

/// Whether a product can be bought, from its product page: its buy button
/// and its "unavailable" button are looked for with the two selectors.
pub fn parse_availability(page: &str, available_css: &str, unavailable_css: &str) -> (res: Option<bool>)
    ensures
        res == availability_of(has_match(page@, available_css@), has_match(page@, unavailable_css@)),
{
    availability(select_any(page, available_css), select_any(page, unavailable_css))
}

/// The description of a product from its product page: the one that
/// `extract_description` puts together from the inner HTML of the first node
/// that `node_css` selects; `None` where there is no such node. Which inner
/// HTML the parse gives is not stated (see `select_elements`).
pub fn extract_page_description(page: &str, node_css: &str, pattern: &str) -> (res: Option<String>)
    ensures
        res is None <==> !has_match(page@, node_css@),
        res matches Some(d) ==> exists|h: Seq<char>|
            #[trigger] description_of(h, regex_capture_texts(pattern@, h)) == d@,
{
    match select_first(page, node_css) {
        Some(node) => {
            let d = extract_description(node.inner_html.as_str(), pattern);
            proof {
                let h = node.inner_html@;
                assert(description_of(h, regex_capture_texts(pattern@, h)) == d@);
            }
            Some(d)
        },
        None => None,
    }
}

} // verus!
