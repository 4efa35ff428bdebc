//! Access to parsed HTML through the `scraper` crate.
//!
//! A CSS query hands back plain [`RawElem`] records; everything the
//! extraction logic later does with them is verified. The queries
//! themselves are trusted wrappers, and their results are named by
//! uninterpreted functions of the document text, so extraction as a
//! whole is a function of the fetched document.

use vstd::prelude::*;
use scraper::Element;
use crate::text;

verus! {

/// What the extraction logic reads of one matched element: its serialized
/// HTML (for nested queries), its attributes in document order, its parsed
/// class list, and its descendant text nodes in document order.
pub struct RawElem {
    pub html: String,
    pub attrs: Vec<(String, String)>,
    pub classes: Vec<String>,
    pub texts: Vec<String>,
}

/// The mathematical shape of a [`RawElem`].
pub struct RawElemV {
    pub html: Seq<char>,
    pub attrs: Seq<(Seq<char>, Seq<char>)>,
    pub classes: Seq<Seq<char>>,
    pub texts: Seq<Seq<char>>,
}

impl View for RawElem {
    type V = RawElemV;

    open spec fn view(&self) -> RawElemV {
        RawElemV {
            html: self.html@,
            attrs: self.attrs.deep_view(),
            classes: self.classes.deep_view(),
            texts: self.texts.deep_view(),
        }
    }
}

impl DeepView for RawElem {
    type V = RawElemV;

    open spec fn deep_view(&self) -> RawElemV {
        self@
    }
}

/// The elements of `html`, parsed as a full document, that match the
/// CSS selector `sel`, in document order.
pub uninterp spec fn doc_elems(html: Seq<char>, sel: Seq<char>) -> Seq<RawElemV>;

/// The elements of `html`, parsed as a fragment, that match the CSS
/// selector `sel`, in document order.
pub uninterp spec fn frag_elems(html: Seq<char>, sel: Seq<char>) -> Seq<RawElemV>;

/// For each element of the fragment `html` matching `sel`, its next
/// sibling element, if it has one.
pub uninterp spec fn frag_next_elems(html: Seq<char>, sel: Seq<char>) -> Seq<Option<RawElemV>>;

/// Scraper's handle to one element of a parsed document.
#[verifier::external_type_specification]
#[verifier::external_body]
pub struct ExElementRef<'a>(scraper::ElementRef<'a>);

/// Relies on `ElementRef::html`, `ElementRef::text`, `Element::attrs`
/// and `Element::classes`: the plain record of one element — its
/// serialized HTML, attributes (in document order, fixed by scraper's
/// `deterministic` feature), sorted and deduplicated class list, and
/// descendant text nodes in document order.
#[verifier::external_body]
fn raw_elem_of(el: scraper::ElementRef<'_>) -> RawElem {
    RawElem {
        html: el.html(),
        attrs: el.value().attrs().map(|(k, v)| (k.to_string(), v.to_string())).collect(),
        classes: el.value().classes().map(|c| c.to_string()).collect(),
        texts: el.text().map(|t| t.to_string()).collect(),
    }
}

/// Relies on scraper: `Html::parse_document`, `Selector::parse` and
/// `Html::select`. Parsing and matching are functions of the two
/// arguments alone; an unparsable selector yields no matches.
#[verifier::external_body]
pub fn doc_select(html: &str, sel: &str) -> (r: Vec<RawElem>)
    ensures
        r.deep_view() == doc_elems(html@, sel@),
{
    let doc = scraper::Html::parse_document(html);
    match scraper::Selector::parse(sel) {
        Ok(parsed) => doc.select(&parsed).map(raw_elem_of).collect(),
        Err(_) => Vec::new(),
    }
}

/// Relies on scraper: as `doc_select`, but over `Html::parse_fragment`
/// for the serialized HTML of an already matched element, selecting
/// with `ElementRef::select` from that element so that, as in a query
/// on the original element, only its descendants can match.
#[verifier::external_body]
pub fn frag_select(html: &str, sel: &str) -> (r: Vec<RawElem>)
    ensures
        r.deep_view() == frag_elems(html@, sel@),
{
    let doc = scraper::Html::parse_fragment(html);
    let root = doc.root_element().children().find_map(scraper::ElementRef::wrap);
    match (scraper::Selector::parse(sel), root) {
        (Ok(parsed), Some(root)) => root.select(&parsed).map(raw_elem_of).collect(),
        _ => Vec::new(),
    }
}

/// Relies on scraper: as `frag_select`, but reading each match's
/// `next_sibling_element`; one entry per match of `sel`.
#[verifier::external_body]
pub fn frag_select_next(html: &str, sel: &str) -> (r: Vec<Option<RawElem>>)
    ensures
        r.deep_view() == frag_next_elems(html@, sel@),
        r@.len() == frag_elems(html@, sel@).len(),
{
    let doc = scraper::Html::parse_fragment(html);
    let root = doc.root_element().children().find_map(scraper::ElementRef::wrap);
    match (scraper::Selector::parse(sel), root) {
        (Ok(parsed), Some(root)) => root.select(&parsed).map(
            |el| el.next_sibling_element().map(raw_elem_of),
        ).collect(),
        _ => Vec::new(),
    }
}

/// The first descendant text node of an element; empty when it has none.
pub open spec fn spec_first_text(e: RawElemV) -> Seq<char> {
    if e.texts.len() == 0 {
        Seq::empty()
    } else {
        e.texts.first()
    }
}

/// All descendant text nodes of an element, joined.
pub open spec fn spec_join_text(e: RawElemV) -> Seq<char> {
    text::concat_spec(e.texts)
}

/// The value of the attribute named `n`, if the element has it.
pub open spec fn spec_attr(attrs: Seq<(Seq<char>, Seq<char>)>, n: Seq<char>) -> Option<Seq<char>>
    decreases attrs.len(),
{
    if attrs.len() == 0 {
        None
    } else if attrs.first().0 == n {
        Some(attrs.first().1)
    } else {
        spec_attr(attrs.drop_first(), n)
    }
}

/// The attribute's value, or empty when absent.
pub open spec fn spec_attr_or_empty(e: RawElemV, n: Seq<char>) -> Seq<char> {
    match spec_attr(e.attrs, n) {
        Some(v) => v,
        None => Seq::empty(),
    }
}

/// Whether two characters are equal up to ASCII case.
pub open spec fn char_eq_ascii_ci(a: char, b: char) -> bool {
    a == b || ('A' <= a <= 'Z' && b as u32 == a as u32 + 32) || ('A' <= b <= 'Z' && a as u32 == b
        as u32 + 32)
}

/// Whether two strings are equal up to ASCII case.
pub open spec fn str_eq_ascii_ci(a: Seq<char>, b: Seq<char>) -> bool {
    a.len() == b.len() && forall|i: int| 0 <= i < a.len() ==> char_eq_ascii_ci(a[i], b[i])
}

/// Whether the element carries the class, compared exactly or up to
/// ASCII case.
pub open spec fn spec_has_class(e: RawElemV, class: Seq<char>, ascii_ci: bool) -> bool {
    exists|i: int|
        0 <= i < e.classes.len() && (if ascii_ci {
            str_eq_ascii_ci(#[trigger] e.classes[i], class)
        } else {
            e.classes[i] == class
        })
}

/// The last `/`-separated piece of the element's `href` attribute.
pub open spec fn spec_href_last_part(e: RawElemV) -> Seq<char> {
    text::last_segment_spec(spec_attr_or_empty(e, "href"@), '/')
}

fn chars_eq_ascii_ci(a: &Vec<char>, b: &Vec<char>) -> (r: bool)
    ensures
        r == str_eq_ascii_ci(a@, b@),
{
    if a.len() != b.len() {
        return false;
    }
    let mut i: usize = 0;
    while i < a.len()
        invariant
            a@.len() == b@.len(),
            0 <= i <= a@.len(),
            forall|j: int| 0 <= j < i ==> char_eq_ascii_ci(a@[j], b@[j]),
        decreases a@.len() - i,
    {
        let x = a[i];
        let y = b[i];
        let xu = x as u32;
        let yu = y as u32;
        let same = x == y || ('A' <= x && x <= 'Z' && yu == xu + 32) || ('A' <= y && y <= 'Z' && xu
            == yu + 32);
        if !same {
            assert(!char_eq_ascii_ci(a@[i as int], b@[i as int]));
            return false;
        }
        i = i + 1;
    }
    true
}

impl RawElem {
    /// The first descendant text node, the way a header or a label is
    /// read; empty when the element has no text.
    pub fn first_text(&self) -> (r: String)
        ensures
            r@ == spec_first_text(self@),
    {
        if self.texts.len() == 0 {
            let r = String::new();
            r
        } else {
            let r = self.texts[0].clone();
            assert(self@.texts[0] == self.texts@[0]@);
            r
        }
    }

    /// All descendant text nodes joined into one string.
    pub fn join_text(&self) -> (r: String)
        ensures
            r@ == spec_join_text(self@),
    {
        text::concat_all(&self.texts)
    }

    /// The value of the attribute named `name`, if present.
    pub fn attr(&self, name: &str) -> (r: Option<String>)
        ensures
            r.deep_view() == spec_attr(self@.attrs, name@),
    {
        let mut i: usize = 0;
        proof {
            assert(self@.attrs.skip(0) =~= self@.attrs);
        }
        while i < self.attrs.len()
            invariant
                0 <= i <= self.attrs@.len(),
                self@.attrs.len() == self.attrs@.len(),
                spec_attr(self@.attrs, name@) == spec_attr(self@.attrs.skip(i as int), name@),
            decreases self.attrs@.len() - i,
        {
            proof {
                assert(self@.attrs.skip(i as int).first() == self@.attrs[i as int]);
                assert(self@.attrs[i as int] == (self.attrs@[i as int].0@, self.attrs@[
                    i as int].1@));
                assert(self@.attrs.skip(i as int).drop_first() =~= self@.attrs.skip(i + 1));
            }
            if text::str_eq(self.attrs[i].0.as_str(), name) {
                let r = Some(self.attrs[i].1.clone());
                return r;
            }
            i = i + 1;
        }
        assert(self@.attrs.skip(i as int) =~= Seq::<(Seq<char>, Seq<char>)>::empty());
        None
    }

    /// The attribute's value, or an empty string when absent.
    pub fn attr_or_empty(&self, name: &str) -> (r: String)
        ensures
            r@ == spec_attr_or_empty(self@, name@),
    {
        match self.attr(name) {
            Some(v) => v,
            None => {
                let r = String::new();
                r
            },
        }
    }

    /// Whether the element carries the class; `ascii_ci` folds ASCII
    /// case, as the flag-icon class tests do.
    pub fn has_class(&self, class: &str, ascii_ci: bool) -> (r: bool)
        ensures
            r == spec_has_class(self@, class@, ascii_ci),
    {
        let cls = text::chars_of(class);
        let mut i: usize = 0;
        while i < self.classes.len()
            invariant
                0 <= i <= self.classes@.len(),
                self@.classes.len() == self.classes@.len(),
                cls@ == class@,
                forall|j: int|
                    0 <= j < i ==> !(if ascii_ci {
                        str_eq_ascii_ci(#[trigger] self@.classes[j], class@)
                    } else {
                        self@.classes[j] == class@
                    }),
            decreases self.classes@.len() - i,
        {
            proof {
                assert(self@.classes[i as int] == self.classes@[i as int]@);
            }
            let hit = if ascii_ci {
                let c = text::chars_of(self.classes[i].as_str());
                chars_eq_ascii_ci(&c, &cls)
            } else {
                text::str_eq(self.classes[i].as_str(), class)
            };
            if hit {
                return true;
            }
            i = i + 1;
        }
        false
    }

    /// The last `/`-separated piece of the element's `href` attribute,
    /// the way a cross-reference id is read out of a link.
    pub fn href_last_part(&self) -> (r: String)
        ensures
            r@ == spec_href_last_part(self@),
    {
        let href = self.attr_or_empty("href");
        let v = text::chars_of(href.as_str());
        let seg = text::last_segment(&v, '/');
        text::string_of(&seg)
    }
}

/// The first element's first text node; empty when the list is empty,
/// so an absent optional region reads as an empty field.
pub open spec fn spec_list_first_text(es: Seq<RawElemV>) -> Seq<char> {
    if es.len() == 0 {
        Seq::empty()
    } else {
        spec_first_text(es.first())
    }
}

/// The first element's joined text; empty when the list is empty.
pub open spec fn spec_list_first_joined(es: Seq<RawElemV>) -> Seq<char> {
    if es.len() == 0 {
        Seq::empty()
    } else {
        spec_join_text(es.first())
    }
}

/// The first element's value for the attribute; empty when the list is
/// empty or the attribute absent.
pub open spec fn spec_list_first_attr(es: Seq<RawElemV>, name: Seq<char>) -> Seq<char> {
    if es.len() == 0 {
        Seq::empty()
    } else {
        spec_attr_or_empty(es.first(), name)
    }
}

/// The first element's first text node, or empty.
pub fn first_text_of(list: &Vec<RawElem>) -> (r: String)
    ensures
        r@ == spec_list_first_text(list.deep_view()),
{
    if list.len() == 0 {
        let r = String::new();
        r
    } else {
        proof {
            assert(list.deep_view().first() == list@[0].deep_view());
        }
        list[0].first_text()
    }
}

/// The first element's joined text, or empty.
pub fn first_joined_of(list: &Vec<RawElem>) -> (r: String)
    ensures
        r@ == spec_list_first_joined(list.deep_view()),
{
    if list.len() == 0 {
        let r = String::new();
        r
    } else {
        proof {
            assert(list.deep_view().first() == list@[0].deep_view());
        }
        list[0].join_text()
    }
}

/// The first element's value for the attribute, or empty.
pub fn first_attr_of(list: &Vec<RawElem>, name: &str) -> (r: String)
    ensures
        r@ == spec_list_first_attr(list.deep_view(), name@),
{
    if list.len() == 0 {
        let r = String::new();
        r
    } else {
        proof {
            assert(list.deep_view().first() == list@[0].deep_view());
        }
        list[0].attr_or_empty(name)
    }
}

/// A CSS selector out of the fixed selector table, by its source text.
pub struct Css(pub &'static str);

impl Css {
    /// The selector's text.
    pub fn as_str(&self) -> (r: &'static str)
        ensures
            r@ == self.0@,
    {
        self.0
    }

    /// The first text of the selector's first match within the element;
    /// empty when nothing matches.
    pub fn first_text(self, el: &RawElem) -> (r: String)
        ensures
            r@ == spec_list_first_text(frag_elems(el@.html, self.0@)),
    {
        let els = frag_select(el.html.as_str(), self.0);
        first_text_of(&els)
    }
}

/// Text access shared by element records.
pub trait CssUtils {
    fn first_text(&self) -> String;

    fn join_text(&self) -> String;
}

impl CssUtils for RawElem {
    fn first_text(&self) -> String {
        RawElem::first_text(self)
    }

    fn join_text(&self) -> String {
        RawElem::join_text(self)
    }
}

/// Attribute access shared by element records.
pub trait AttrUtils {
    fn href_last_part(&self) -> String;
}

impl AttrUtils for RawElem {
    fn href_last_part(&self) -> String {
        RawElem::href_last_part(self)
    }
}

} // verus!
