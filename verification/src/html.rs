//! Access to parsed HTML documents through the `select` crate.
//!
//! A page is parsed once; nodes are then referred to by their index in the
//! document. What `select` finds, and the text and attributes it reports, are
//! named by the uninterpreted functions below: they are functions of the page
//! source and of the arguments alone.
use vstd::prelude::*;
use select::node::Node;
use select::predicate::{And, Class, Descendant, Name};

verus! {

#[verifier::external_type_specification]
#[verifier::external_body]
pub struct ExDocument(select::document::Document);

/// The shapes of `select` predicates the parsers use; `a` and `b` are the
/// names or classes, in the order they appear in the predicate.
#[derive(Clone, Copy, PartialEq, Eq, Debug, Structural)]
pub enum Selector {
    /// `Class(a)`
    Class,
    /// `Name(a)`
    Name,
    /// `And(Class(a), Class(b))`
    ClassAndClass,
    /// `And(Name(a), Class(b))`
    NameAndClass,
    /// `Descendant(Name(a), Name(b))`: a `b` element below an `a` element
    NameInName,
    /// `Descendant(Class(a), Name(b))`: a `b` element below an element of class `a`
    NameInClass,
}

/// A parsed HTML page together with its source text.
pub struct HtmlPage {
    doc: select::document::Document,
    source: String,
}

impl View for HtmlPage {
    type V = Seq<char>;

    closed spec fn view(&self) -> Seq<char> {
        self.source@
    }
}

/// Indices of the nodes that `Document::find` yields, in order, on the page
/// parsed from `html`.
pub uninterp spec fn document_find(html: Seq<char>, sel: Selector, a: Seq<char>, b: Seq<char>) -> Seq<usize>;

/// Indices of the nodes that `Node::find` yields below node `node`.
pub uninterp spec fn node_find(html: Seq<char>, node: usize, sel: Selector, a: Seq<char>, b: Seq<char>) -> Seq<usize>;

/// `Node::text`: the combined text of node `node` and its descendants.
pub uninterp spec fn node_text(html: Seq<char>, node: usize) -> Seq<char>;

/// `Node::attr`: the value of attribute `name` of node `node`, if any.
pub uninterp spec fn node_attr(html: Seq<char>, node: usize, name: Seq<char>) -> Option<Seq<char>>;

/// The first element of a sequence of node indices, if any.
pub open spec fn first_node(s: Seq<usize>) -> Option<usize> {
    if s.len() > 0 {
        Some(s[0])
    } else {
        None
    }
}

impl HtmlPage {
    /// Parses `html` with `Document::from`; claimed: the page's view is the
    /// source text.
    #[verifier::external_body]
    pub(crate) fn parse(html: &str) -> (r: HtmlPage)
        ensures
            r@ == html@,
    {
        HtmlPage { doc: select::document::Document::from(html), source: html.to_string() }
    }
}

/// `Document::find(Class(a))`; claimed: the indices are `document_find`.
#[verifier::external_body]
fn doc_find_class(page: &HtmlPage, a: &str) -> (r: Vec<usize>)
    ensures
        r@ == document_find(page@, Selector::Class, a@, Seq::empty()),
{
    page.doc.find(Class(a)).map(|n| n.index()).collect()
}

/// `Document::find(Name(a))`; claimed: the indices are `document_find`.
#[verifier::external_body]
fn doc_find_name(page: &HtmlPage, a: &str) -> (r: Vec<usize>)
    ensures
        r@ == document_find(page@, Selector::Name, a@, Seq::empty()),
{
    page.doc.find(Name(a)).map(|n| n.index()).collect()
}

/// `Document::find(And(Class(a), Class(b)))`; claimed: the indices are
/// `document_find`.
#[verifier::external_body]
fn doc_find_class_and_class(page: &HtmlPage, a: &str, b: &str) -> (r: Vec<usize>)
    ensures
        r@ == document_find(page@, Selector::ClassAndClass, a@, b@),
{
    page.doc.find(And(Class(a), Class(b))).map(|n| n.index()).collect()
}

/// Nodes of the whole page matching a selector.
pub fn find_all(page: &HtmlPage, sel: Selector, a: &str, b: &str) -> (r: Vec<usize>)
    requires
        sel == Selector::Class || sel == Selector::Name || sel == Selector::ClassAndClass,
    ensures
        r@ == document_find(page@, sel, a@, if sel == Selector::ClassAndClass { b@ } else { Seq::empty() }),
{
    match sel {
        Selector::Class => doc_find_class(page, a),
        Selector::Name => doc_find_name(page, a),
        _ => doc_find_class_and_class(page, a, b),
    }
}

/// `Node::find(Class(a))` on node `node`; claimed: the indices are `node_find`.
#[verifier::external_body]
fn node_find_class(page: &HtmlPage, node: usize, a: &str) -> (r: Vec<usize>)
    ensures
        r@ == node_find(page@, node, Selector::Class, a@, Seq::empty()),
{
    match Node::new(&page.doc, node) {
        Some(n) => n.find(Class(a)).map(|m| m.index()).collect(),
        None => Vec::new(),
    }
}

/// `Node::find(Name(a))` on node `node`; claimed: the indices are `node_find`.
#[verifier::external_body]
fn node_find_name(page: &HtmlPage, node: usize, a: &str) -> (r: Vec<usize>)
    ensures
        r@ == node_find(page@, node, Selector::Name, a@, Seq::empty()),
{
    match Node::new(&page.doc, node) {
        Some(n) => n.find(Name(a)).map(|m| m.index()).collect(),
        None => Vec::new(),
    }
}

/// `Node::find(And(Class(a), Class(b)))` on node `node`; claimed: the indices
/// are `node_find`.
#[verifier::external_body]
fn node_find_class_and_class(page: &HtmlPage, node: usize, a: &str, b: &str) -> (r: Vec<usize>)
    ensures
        r@ == node_find(page@, node, Selector::ClassAndClass, a@, b@),
{
    match Node::new(&page.doc, node) {
        Some(n) => n.find(And(Class(a), Class(b))).map(|m| m.index()).collect(),
        None => Vec::new(),
    }
}

/// `Node::find(And(Name(a), Class(b)))` on node `node`; claimed: the indices
/// are `node_find`.
#[verifier::external_body]
fn node_find_name_and_class(page: &HtmlPage, node: usize, a: &str, b: &str) -> (r: Vec<usize>)
    ensures
        r@ == node_find(page@, node, Selector::NameAndClass, a@, b@),
{
    match Node::new(&page.doc, node) {
        Some(n) => n.find(And(Name(a), Class(b))).map(|m| m.index()).collect(),
        None => Vec::new(),
    }
}

/// `Node::find(Descendant(Name(a), Name(b)))` on node `node`; claimed: the
/// indices are `node_find`.
#[verifier::external_body]
fn node_find_name_in_name(page: &HtmlPage, node: usize, a: &str, b: &str) -> (r: Vec<usize>)
    ensures
        r@ == node_find(page@, node, Selector::NameInName, a@, b@),
{
    match Node::new(&page.doc, node) {
        Some(n) => n.find(Descendant(Name(a), Name(b))).map(|m| m.index()).collect(),
        None => Vec::new(),
    }
}

/// `Node::find(Descendant(Class(a), Name(b)))` on node `node`; claimed: the
/// indices are `node_find`.
#[verifier::external_body]
fn node_find_name_in_class(page: &HtmlPage, node: usize, a: &str, b: &str) -> (r: Vec<usize>)
    ensures
        r@ == node_find(page@, node, Selector::NameInClass, a@, b@),
{
    match Node::new(&page.doc, node) {
        Some(n) => n.find(Descendant(Class(a), Name(b))).map(|m| m.index()).collect(),
        None => Vec::new(),
    }
}

/// The selector's second argument as the predicate uses it.
pub open spec fn second_arg(sel: Selector, b: Seq<char>) -> Seq<char> {
    match sel {
        Selector::Class | Selector::Name => Seq::empty(),
        _ => b,
    }
}

/// Nodes below `node` matching a selector.
pub fn find_in(page: &HtmlPage, node: usize, sel: Selector, a: &str, b: &str) -> (r: Vec<usize>)
    ensures
        r@ == node_find(page@, node, sel, a@, second_arg(sel, b@)),
{
    match sel {
        Selector::Class => node_find_class(page, node, a),
        Selector::Name => node_find_name(page, node, a),
        Selector::ClassAndClass => node_find_class_and_class(page, node, a, b),
        Selector::NameAndClass => node_find_name_and_class(page, node, a, b),
        Selector::NameInName => node_find_name_in_name(page, node, a, b),
        Selector::NameInClass => node_find_name_in_class(page, node, a, b),
    }
}

/// The first node below `node` matching a selector (`find(..).next()`).
pub fn first_in(page: &HtmlPage, node: usize, sel: Selector, a: &str, b: &str) -> (r: Option<usize>)
    ensures
        r == first_node(node_find(page@, node, sel, a@, second_arg(sel, b@))),
{
    let v = find_in(page, node, sel, a, b);
    if v.len() > 0 {
        Some(v[0])
    } else {
        None
    }
}

/// `Node::text` of node `node`; claimed: the text is `node_text`.
#[verifier::external_body]
pub(crate) fn text_of(page: &HtmlPage, node: usize) -> (r: String)
    ensures
        r@ == node_text(page@, node),
{
    match Node::new(&page.doc, node) {
        Some(n) => n.text(),
        None => String::new(),
    }
}

/// `Node::attr` of node `node`; claimed: the value is `node_attr`.
#[verifier::external_body]
pub(crate) fn attr_of(page: &HtmlPage, node: usize, name: &str) -> (r: Option<String>)
    ensures
        match node_attr(page@, node, name@) {
            Some(v) => r matches Some(s) && s@ == v,
            None => r is None,
        },
{
    match Node::new(&page.doc, node) {
        Some(n) => n.attr(name).map(|v| v.to_string()),
        None => None,
    }
}

} // verus!

verus! {

/// The text of a node with surrounding white space removed
/// (`node.text().trim().to_string()`).
pub fn trimmed_text(page: &HtmlPage, node: usize) -> (r: String)
    ensures
        r@ == crate::text::trim(node_text(page@, node)),
{
    let t = text_of(page, node);
    crate::text::trimmed(t.as_str())
}

} // verus!
