//! The markup parser and the selector engine, as far as this library relies on
//! them. Nothing in this file is proved: each contract says what the parser's
//! own source shows, over names for results that are too large to spell out.

use vstd::prelude::*;
use scraper::error::SelectorErrorKind;
use scraper::{ElementRef, Html, Selector};

verus! {

/// A parsed document, `scraper::Html`.
#[verifier::external_type_specification]
#[verifier::external_body]
pub struct ExHtml(scraper::Html);

/// A compiled group of CSS selectors, `scraper::Selector`.
#[verifier::external_type_specification]
#[verifier::external_body]
pub struct ExSelector(scraper::Selector);

/// Why a text is no selector group, `scraper::error::SelectorErrorKind`.
#[verifier::external_type_specification]
#[verifier::external_body]
pub struct ExSelectorErrorKind(scraper::error::SelectorErrorKind);

/// A reference to one element of a parsed document, `scraper::ElementRef`.
#[verifier::external_type_specification]
#[verifier::external_body]
pub struct ExElementRef<'a>(scraper::ElementRef<'a>);

/// What `Selector::parse` makes of the text `css`: the compiled selector
/// group, or nothing where the text is no selector group.
pub uninterp spec fn compiled(css: Seq<char>) -> Option<Selector>;

/// The document that `Html::parse_document` builds from `markup`.
pub uninterp spec fn parsed(markup: Seq<char>) -> Html;

/// The elements of `document` that `selector` matches, in the order in which
/// `Html::select` yields them.
pub uninterp spec fn document_matches(document: Html, selector: Selector) -> Seq<
    ElementRef<'static>,
>;

/// The elements below `scope` that `selector` matches, in the order in which
/// `ElementRef::select` yields them.
pub uninterp spec fn descendant_matches(scope: ElementRef, selector: Selector) -> Seq<
    ElementRef<'static>,
>;

/// The value that `element` gives the attribute `name`, if it has that
/// attribute.
pub uninterp spec fn attribute(element: ElementRef, name: Seq<char>) -> Option<Seq<char>>;

/// The text nodes in and below `element`, in the order in which
/// `ElementRef::text` yields them.
pub uninterp spec fn text_nodes(element: ElementRef) -> Seq<Seq<char>>;

/// Calls `Selector::parse`. Whether the text is a selector group, and which,
/// depends on the text alone. Nothing is claimed of the error.
#[verifier::external_body]
pub(crate) fn compile_selector(css: &str) -> (r: Result<Selector, SelectorErrorKind>)
    ensures
        match r {
            Ok(selector) => compiled(css@) == Some(selector),
            Err(_) => compiled(css@) is None,
        },
{
    Selector::parse(css)
}

/// The longest markup, in characters, that is handed to the parser. The
/// parser keeps its text in buffers that grow to the next power of two, which
/// has to fit in 32 bits: a buffer of more than 2^31 bytes makes it panic.
/// A character takes at most four bytes, in the markup and in what the parser
/// makes of it, so markup within this limit keeps every buffer within 2^30
/// bytes, which with the buffer's header is also within what a machine of 32
/// bits can allocate in one piece.
pub const MARKUP_LIMIT: usize = 0x1000_0000;

/// Calls `Html::parse_document`, which takes markup of any content and builds
/// the document as well as it can, but panics where one of its buffers would
/// have to grow beyond 32 bits: markup that could make it do so is left out.
/// The result depends on the text alone.
#[verifier::external_body]
pub(crate) fn parse_document(markup: &str) -> (r: Html)
    requires
        markup@.len() <= MARKUP_LIMIT,
    ensures
        r == parsed(markup@),
{
    Html::parse_document(markup)
}

/// Calls `Html::select` and collects every element that the iterator yields.
#[verifier::external_body]
pub(crate) fn select_in_document<'a>(document: &'a Html, selector: &Selector) -> (r: Vec<
    ElementRef<'a>,
>)
    ensures
        r@ == document_matches(*document, *selector),
{
    document.select(selector).collect()
}

/// Calls `ElementRef::select` and collects every element that the iterator
/// yields.
#[verifier::external_body]
pub(crate) fn select_in_element<'a>(scope: &ElementRef<'a>, selector: &Selector) -> (r: Vec<
    ElementRef<'a>,
>)
    ensures
        r@ == descendant_matches(*scope, *selector),
{
    scope.select(selector).collect()
}

/// Calls `ElementRef::attr`.
#[verifier::external_body]
pub(crate) fn attribute_of<'a>(element: &ElementRef<'a>, name: &str) -> (r: Option<&'a str>)
    ensures
        r.deep_view() == attribute(*element, name@),
{
    element.attr(name)
}

/// Calls `ElementRef::text` and collects every text node that the iterator
/// yields.
#[verifier::external_body]
pub(crate) fn texts_of<'a>(element: &ElementRef<'a>) -> (r: Vec<&'a str>)
    ensures
        r.deep_view() == text_nodes(*element),
{
    element.text().collect()
}

} // verus!
