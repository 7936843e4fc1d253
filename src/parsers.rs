//! The three content parsers that resolution rules use: a CSS-selector parser over HTML
//! (scraper, and tl where a rule walks raw nodes), an XML feed converter (xmltojson), and a
//! JSON navigator (serde_json). The parsing crates are reached only through this module.
use vstd::prelude::*;
use crate::text::{chars_of, contains, str_contains};

verus! {

/// For each element of the HTML document `doc` that the CSS selector `selector` matches, in
/// the order that scraper's `Html::select` yields them, the value of its attribute `attr`
/// where it has one; `None` where `selector` does not parse.
pub uninterp spec fn markup_attributes(doc: Seq<char>, selector: Seq<char>, attr: Seq<char>) -> Option<
    Seq<Option<Seq<char>>>,
>;

/// For each element of the HTML document `doc` that `selector` matches, in the order that
/// scraper's `Html::select` yields them, its descendant text nodes in document order; `None`
/// where `selector` does not parse.
pub uninterp spec fn markup_texts(doc: Seq<char>, selector: Seq<char>) -> Option<Seq<Seq<Seq<char>>>>;

/// For each node of `doc` as tl lays them out, the value of its `class` attribute where it is
/// a tag with a valued one; `None` where tl rejects `doc`.
pub uninterp spec fn node_classes(doc: Seq<char>) -> Option<Seq<Option<Seq<char>>>>;

/// For each node below node `node` of `doc` as tl lays them out: `None` where it is no tag with
/// an `href` attribute, else that attribute's value if it has one; `None` overall where tl
/// rejects `doc` or node `node` is no tag.
pub uninterp spec fn descendant_hrefs(doc: Seq<char>, node: nat) -> Option<
    Seq<Option<Option<Seq<char>>>>,
>;

/// The string that the JSON pointer `pointer` reaches in the JSON document `doc`; `None` where
/// `doc` is no JSON, the pointer reaches nothing, or what it reaches is no string.
pub uninterp spec fn json_string_at(doc: Seq<char>, pointer: Seq<char>) -> Option<Seq<char>>;

/// The string that the JSON pointer `pointer` reaches in the JSON form (by xmltojson) of the
/// XML document `doc`; `None` where the conversion fails, the pointer reaches nothing, or
/// what it reaches is no string.
pub uninterp spec fn xml_string_at(doc: Seq<char>, pointer: Seq<char>) -> Option<Seq<char>>;

/// Relies on `scraper::Selector::parse`, `Html::parse_document`, `Html::select` and
/// `Element::attr`: the value of attribute `attr` on each element that `selector` matches.
#[verifier::external_body]
pub(crate) fn select_attributes(doc: &str, selector: &str, attr: &str) -> (r: Option<Vec<Option<String>>>)
    ensures
        r matches Some(v) ==> markup_attributes(doc@, selector@, attr@) == Some(v.deep_view()),
        r is None ==> markup_attributes(doc@, selector@, attr@) is None,
{
    let sel = scraper::Selector::parse(selector).ok()?;
    let html = scraper::Html::parse_document(doc);
    Some(html.select(&sel).map(|e| e.value().attr(attr).map(String::from)).collect())
}

/// Relies on `scraper::Selector::parse`, `Html::parse_document`, `Html::select` and
/// `ElementRef::text`: the text nodes of each element that `selector` matches.
#[verifier::external_body]
pub(crate) fn select_texts(doc: &str, selector: &str) -> (r: Option<Vec<Vec<String>>>)
    ensures
        r matches Some(v) ==> markup_texts(doc@, selector@) == Some(v.deep_view()),
        r is None ==> markup_texts(doc@, selector@) is None,
{
    let sel = scraper::Selector::parse(selector).ok()?;
    let html = scraper::Html::parse_document(doc);
    Some(html.select(&sel).map(|e| e.text().map(String::from).collect()).collect())
}

/// Relies on `tl::parse`, `VDom::nodes`, `HTMLTag::attributes` and `Bytes::as_utf8_str`: the
/// `class` value of each node.
#[verifier::external_body]
pub(crate) fn class_of_nodes(doc: &str) -> (r: Option<Vec<Option<String>>>)
    ensures
        r matches Some(v) ==> node_classes(doc@) == Some(v.deep_view()),
        r is None ==> node_classes(doc@) is None,
{
    let dom = tl::parse(doc, tl::ParserOptions::default()).ok()?;
    Some(
        dom.nodes().iter().map(
            |n| n.as_tag().and_then(|t| t.attributes().get("class").flatten()).map(|b| b.as_utf8_str().into_owned()),
        ).collect(),
    )
}

/// Relies on `tl::parse`, `VDom::nodes`, `Children::all` and `HTMLTag::attributes`: the `href`
/// attribute of each node below node `node`.
#[verifier::external_body]
pub(crate) fn hrefs_below_node(doc: &str, node: usize) -> (r: Option<Vec<Option<Option<String>>>>)
    ensures
        r matches Some(v) ==> descendant_hrefs(doc@, node as nat) == Some(v.deep_view()),
        r is None ==> descendant_hrefs(doc@, node as nat) is None,
{
    let dom = tl::parse(doc, tl::ParserOptions::default()).ok()?;
    let tag = dom.nodes().get(node)?.as_tag()?;
    let below = tag.children().all(dom.parser());
    Some(
        below.iter().map(
            |n| n.as_tag().and_then(|t| t.attributes().get("href")).map(|v| v.map(|b| b.as_utf8_str().into_owned())),
        ).collect(),
    )
}

/// Relies on `serde_json::from_str`, `Value::pointer` and `Value::as_str`: the string that
/// the JSON pointer `pointer` reaches in the JSON document `doc`.
#[verifier::external_body]
pub(crate) fn json_text_at(doc: &str, pointer: &str) -> (r: Option<String>)
    ensures
        r.deep_view() == json_string_at(doc@, pointer@),
{
    let value: serde_json::Value = serde_json::from_str(doc).ok()?;
    value.pointer(pointer)?.as_str().map(String::from)
}

/// The most start tags that a document handed to xmltojson may hold. Its converter recurses
/// once per nesting level, and a document nests no deeper than it has start tags.
pub const MAX_XML_START_TAGS: usize = 1024;

/// The number of `<` in `s` that are not followed by `/`: every start tag opens with one.
pub open spec fn tag_openings(s: Seq<char>) -> nat
    decreases s.len(),
{
    if s.len() == 0 {
        0
    } else {
        let rest = tag_openings(s.drop_first());
        if s[0] == '<' && !(s.len() > 1 && s[1] == '/') {
            rest + 1
        } else {
            rest
        }
    }
}

/// xmltojson converts `doc` without panicking: it has no element named `#cdata` (whose value
/// the converter would take for a CDATA string) and few enough start tags to bound the
/// converter's recursion.
pub open spec fn xml_convertible(doc: Seq<char>) -> bool {
    !contains(doc, "<#cdata"@) && tag_openings(doc) <= MAX_XML_START_TAGS
}

/// Whether xmltojson may be handed `doc`.
pub fn is_xml_convertible(doc: &str) -> (r: bool)
    ensures
        r == xml_convertible(doc@),
{
    if str_contains(doc, "<#cdata") {
        return false;
    }
    let sv = chars_of(doc);
    let n = sv.len();
    let mut count: usize = 0;
    let mut i: usize = n;
    assert(doc@.subrange(n as int, n as int) =~= Seq::<char>::empty());
    while i > 0
        invariant
            sv@ == doc@,
            n == doc@.len(),
            i <= n,
            count == tag_openings(doc@.subrange(i as int, n as int)),
            count <= MAX_XML_START_TAGS,
        decreases i,
    {
        let ghost tail = doc@.subrange(i - 1, n as int);
        assert(tail.drop_first() =~= doc@.subrange(i as int, n as int));
        if sv[i - 1] == '<' && !(i < n && sv[i] == '/') {
            assert(tail[0] == '<');
            assert(tail.len() > 1 ==> tail[1] == sv@[i as int]);
            if count == MAX_XML_START_TAGS {
                proof {
                    lemma_tag_openings_prefix(doc@, i - 1);
                }
                return false;
            }
            count = count + 1;
        } else {
            assert(tail[0] == sv@[i - 1]);
            assert(tail.len() > 1 ==> tail[1] == sv@[i as int]);
        }
        i = i - 1;
    }
    assert(doc@.subrange(0, n as int) =~= doc@);
    true
}

proof fn lemma_tag_openings_prefix(s: Seq<char>, i: int)
    requires
        0 <= i <= s.len(),
    ensures
        tag_openings(s) >= tag_openings(s.subrange(i, s.len() as int)),
    decreases i,
{
    if i > 0 {
        lemma_tag_openings_prefix(s, i - 1);
        assert(s.subrange(i - 1, s.len() as int).drop_first() =~= s.subrange(i, s.len() as int));
    } else {
        assert(s.subrange(0, s.len() as int) =~= s);
    }
}

/// Relies on `xmltojson::to_json`, `Value::pointer` and `Value::as_str`: the string that the
/// JSON pointer `pointer` reaches in the JSON form of the XML document `doc`.
#[verifier::external_body]
pub(crate) fn xml_text_at(doc: &str, pointer: &str) -> (r: Option<String>)
    requires
        xml_convertible(doc@),
    ensures
        r.deep_view() == xml_string_at(doc@, pointer@),
{
    let value = xmltojson::to_json(doc).ok()?;
    value.pointer(pointer)?.as_str().map(String::from)
}

} // verus!
