//! A mathematical model of a parsed HTML tree, and the calls into `scraper`
//! that read one.
//!
//! `scraper` keeps a document as a tree of nodes and hands out `ElementRef`
//! handles into it. Verus cannot look inside either, so this module gives the
//! tree a model ([`DomNode`]) and states, for every call the crate makes, what
//! the call returns in terms of that model. Everything above this module is
//! proved against these statements.

use vstd::prelude::*;

verus! {

/// `scraper::Html`, a parsed document. Nothing inside it is visible here.
#[verifier::external_type_specification]
#[verifier::external_body]
pub struct ExHtml(scraper::Html);

/// `scraper::ElementRef`, a handle on one element of a parsed document.
/// Nothing inside it is visible here.
#[verifier::external_type_specification]
#[verifier::external_body]
pub struct ExElementRef<'a>(scraper::ElementRef<'a>);

/// One node of a parsed tree, with everything below it.
pub struct DomNode {
    /// The local tag name when the node is an element; `None` for text,
    /// comments and every other kind of node.
    pub name: Option<Seq<char>>,
    /// The attributes of an element as `Element::attr` finds them: each value
    /// under the attribute's name.
    pub attrs: Map<Seq<char>, Seq<char>>,
    /// The serialized markup of the element's content.
    pub inner_html: Seq<char>,
    /// The child nodes, in document order.
    pub children: Seq<DomNode>,
}

/// The tree that a document holds: a nameless top node whose children are the
/// nodes without a parent (the document node among them).
pub uninterp spec fn html_tree(doc: scraper::Html) -> DomNode;

/// The tree that `Html::parse_document` builds from a text.
pub uninterp spec fn parsed_tree(text: Seq<char>) -> DomNode;

/// What `Html::select` finds first in a document, for every selector that
/// finds anything: the child indices that lead from the top of the tree to
/// that element. `Html::select` takes the nodes in the order in which they
/// were made, which need not be their order in the tree, so this is held
/// beside the tree and is no function of it.
pub uninterp spec fn html_matches(doc: scraper::Html) -> Map<Seq<char>, Seq<int>>;

/// The same for the document that `Html::parse_document` builds from a text.
pub uninterp spec fn parsed_matches(text: Seq<char>) -> Map<Seq<char>, Seq<int>>;

/// A document as the library sees it: its tree, and for each selector that
/// matches anything where its first match stands.
pub struct Page {
    pub tree: DomNode,
    pub matches: Map<Seq<char>, Seq<int>>,
}

/// What a parsed document holds.
pub open spec fn html_page(doc: scraper::Html) -> Page {
    Page { tree: html_tree(doc), matches: html_matches(doc) }
}

/// What the document parsed from a text holds.
pub open spec fn parsed_page(text: Seq<char>) -> Page {
    Page { tree: parsed_tree(text), matches: parsed_matches(text) }
}

/// Where the first match of a selector stands in a page, if it has one.
pub open spec fn page_match(page: Page, selector: Seq<char>) -> Option<Seq<int>> {
    if page.matches.contains_key(selector) {
        Some(page.matches[selector])
    } else {
        None
    }
}

/// The whole tree that a handle points into.
pub uninterp spec fn element_root(e: scraper::ElementRef) -> DomNode;

/// The child indices that lead from the top of that tree to the handle's node.
pub uninterp spec fn element_path(e: scraper::ElementRef) -> Seq<int>;

/// The node reached from `t` by following child indices.
pub open spec fn descend(t: DomNode, path: Seq<int>) -> DomNode
    decreases path.len(),
{
    if path.len() == 0 {
        t
    } else {
        descend(t.children[path[0]], path.skip(1))
    }
}

/// The node a handle stands for.
pub open spec fn element_tree(e: scraper::ElementRef) -> DomNode {
    descend(element_root(e), element_path(e))
}

/// `d` stands in the same tree as `e`, at `rel` below it.
pub open spec fn stands_below(d: scraper::ElementRef, e: scraper::ElementRef, rel: Seq<int>) -> bool {
    &&& element_root(d) == element_root(e)
    &&& element_path(d) == element_path(e) + rel
}

/// The node is an element with the given tag name.
pub open spec fn is_named(n: DomNode, tag: Seq<char>) -> bool {
    n.name == Some(tag)
}

/// A lower-case ASCII letter or a digit.
pub open spec fn is_lower_or_digit(c: char) -> bool {
    ('a' <= c && c <= 'z') || ('0' <= c && c <= '9')
}

/// A bare tag name: lower-case ASCII letters and digits, starting with a letter.
pub open spec fn is_tag_name(tag: Seq<char>) -> bool {
    &&& tag.len() > 0
    &&& 'a' <= tag[0] && tag[0] <= 'z'
    &&& forall|k: int| 0 <= k < tag.len() ==> is_lower_or_digit(#[trigger] tag[k])
}

/// Depth-first search, in document order, through everything below the
/// children `i..` of `t` and those children themselves: the path, relative to
/// `t`, of the first element named `tag`.
pub open spec fn find_from(t: DomNode, i: int, tag: Seq<char>) -> Option<Seq<int>>
    decreases t, t.children.len() - i,
{
    if i < 0 || i >= t.children.len() {
        None
    } else if is_named(t.children[i], tag) {
        Some(seq![i])
    } else {
        match find_from(t.children[i], 0, tag) {
            Some(p) => Some(seq![i] + p),
            None => find_from(t, i + 1, tag),
        }
    }
}

/// The first element named `tag` strictly below `t`, in document order.
pub open spec fn first_named(t: DomNode, tag: Seq<char>) -> Option<DomNode> {
    match find_from(t, 0, tag) {
        Some(p) => Some(descend(t, p)),
        None => None,
    }
}

/// Following `p` and then `q` is following `p + q`.
pub proof fn lemma_descend_concat(t: DomNode, p: Seq<int>, q: Seq<int>)
    ensures
        descend(t, p + q) == descend(descend(t, p), q),
    decreases p.len(),
{
    if p.len() == 0 {
        assert(p + q =~= q);
    } else {
        assert((p + q).skip(1) =~= p.skip(1) + q);
        assert((p + q)[0] == p[0]);
        lemma_descend_concat(t.children[p[0]], p.skip(1), q);
    }
}

/// One step down is the child itself.
pub proof fn lemma_descend_child(t: DomNode, i: int)
    ensures
        descend(t, seq![i]) == t.children[i],
{
    assert(seq![i].skip(1) =~= Seq::<int>::empty());
    assert(descend(t.children[i], Seq::<int>::empty()) == t.children[i]);
}

/// What the search finds is a named element strictly below where it started.
pub proof fn lemma_find_from_found(t: DomNode, i: int, tag: Seq<char>)
    ensures
        find_from(t, i, tag) matches Some(p) ==> {
            &&& p.len() > 0
            &&& is_named(descend(t, p), tag)
            &&& decreases_to!(t => descend(t, p))
        },
    decreases t, t.children.len() - i,
{
    if i < 0 || i >= t.children.len() {
    } else if is_named(t.children[i], tag) {
        lemma_descend_child(t, i);
    } else {
        match find_from(t.children[i], 0, tag) {
            Some(p) => {
                lemma_find_from_found(t.children[i], 0, tag);
                lemma_descend_child(t, i);
                lemma_descend_concat(t, seq![i], p);
            },
            None => {
                lemma_find_from_found(t, i + 1, tag);
            },
        }
    }
}

/// `Html::parse_document`: the document's tree and its first matches are
/// those named for the text. Parsing never fails; malformed markup gives a
/// smaller tree.
#[verifier::external_body]
pub(crate) fn parse_document(text: &str) -> (doc: scraper::Html)
    ensures
        html_tree(doc) == parsed_tree(text@),
        html_matches(doc) == parsed_matches(text@),
{
    scraper::Html::parse_document(text)
}

/// `Selector::parse`, then the first item of `Html::select`. The handle that
/// comes back points into the document's tree at the place that the document
/// holds for the selector; `None` comes back when nothing matches or the
/// selector is no selector, and the document then holds no place for it.
#[verifier::external_body]
pub(crate) fn select_in_document<'a>(doc: &'a scraper::Html, selector: &str) -> (r: Option<
    scraper::ElementRef<'a>,
>)
    ensures
        match r {
            Some(e) => element_root(e) == html_tree(*doc) && html_matches(*doc).contains_key(
                selector@,
            ) && html_matches(*doc)[selector@] == element_path(e),
            None => !html_matches(*doc).contains_key(selector@),
        },
{
    scraper::Selector::parse(selector).ok().and_then(|s| doc.select(&s).next())
}

/// `NodeRef::parent`, kept only if `ElementRef::wrap` takes it: the node one
/// step up, when that node is an element. (Every node stands at least one step
/// below the nameless top of its tree.)
#[verifier::external_body]
pub(crate) fn parent_element<'a>(e: scraper::ElementRef<'a>) -> (r: Option<scraper::ElementRef<'a>>)
    ensures
        match r {
            Some(p) => stands_below(e, p, seq![element_path(e).last()]) && element_tree(p).name
                is Some,
            None => descend(element_root(e), element_path(e).drop_last()).name is None,
        },
{
    e.parent().and_then(scraper::ElementRef::wrap)
}

/// `NodeRef::children`, each child passed through `ElementRef::wrap`: one
/// entry per child node, in order, holding a handle where the child is an
/// element.
#[verifier::external_body]
pub(crate) fn child_nodes<'a>(e: scraper::ElementRef<'a>) -> (r: Vec<Option<scraper::ElementRef<'a>>>)
    ensures
        r@.len() == descend(element_root(e), element_path(e)).children.len(),
        forall|i: int|
            0 <= i < r@.len() ==> match #[trigger] r@[i] {
                Some(c) => stands_below(c, e, seq![i]) && element_tree(c).name is Some,
                None => element_tree(e).children[i].name is None,
            },
{
    e.children().map(scraper::ElementRef::wrap).collect()
}

/// `Selector::parse` on a bare tag name, then the first item of
/// `ElementRef::select`: the first element with that name strictly below `e`,
/// in document order.
#[verifier::external_body]
pub(crate) fn first_descendant<'a>(e: scraper::ElementRef<'a>, tag: &str) -> (r: Option<
    scraper::ElementRef<'a>,
>)
    ensures
        is_tag_name(tag@) ==> match r {
            Some(d) => find_from(element_tree(e), 0, tag@) matches Some(rel) && stands_below(
                d,
                e,
                rel,
            ),
            None => find_from(element_tree(e), 0, tag@) is None,
        },
{
    scraper::Selector::parse(tag).ok().and_then(|s| e.select(&s).next())
}

/// `Element::name`: the local tag name of the element.
#[verifier::external_body]
pub(crate) fn tag_name(e: scraper::ElementRef) -> (r: String)
    ensures
        descend(element_root(e), element_path(e)).name == Some(r@),
{
    e.value().name().to_owned()
}

/// `Element::attr`: the value of the attribute of that name, if the element
/// has one.
#[verifier::external_body]
pub(crate) fn attribute(e: scraper::ElementRef, name: &str) -> (r: Option<String>)
    ensures
        match r {
            Some(v) => element_tree(e).attrs.contains_key(name@) && element_tree(e).attrs[name@]
                == v@,
            None => !element_tree(e).attrs.contains_key(name@),
        },
{
    e.value().attr(name).map(|v| v.to_owned())
}

/// `ElementRef::inner_html`: the serialized markup of the element's content.
#[verifier::external_body]
pub(crate) fn inner_html(e: scraper::ElementRef) -> (r: String)
    ensures
        r@ == element_tree(e).inner_html,
{
    e.inner_html()
}

} // verus!
