//! A check that a text reads as Markdown with at least one element.
use vstd::prelude::*;

verus! {

/// Whether the CommonMark parser finds at least one event in `text`.
pub uninterp spec fn has_markdown_events(text: Seq<char>) -> bool;

/// Relies on `pulldown_cmark::Parser::new_ext` with no extensions and on its
/// `Iterator::next`: `Some` where the parser yields a first event.
#[verifier::external_body]
fn first_markdown_event(text: &str) -> (r: Option<()>)
    ensures
        r is Some <==> has_markdown_events(text@),
{
    pulldown_cmark::Parser::new_ext(text, pulldown_cmark::Options::empty()).next().map(|_| ())
}

/// The error of a text in which the parser finds nothing.
#[derive(Clone, Copy, Debug, PartialEq, Eq, Structural)]
pub struct MarkdownError {}

/// Parses `markdown` and fails where no element at all comes out of it.
pub fn parse_markdown(markdown: &str) -> (r: Result<(), MarkdownError>)
    ensures
        r is Ok <==> has_markdown_events(markdown@),
{
    match first_markdown_event(markdown) {
        Some(()) => Ok(()),
        None => Err(MarkdownError {  }),
    }
}

} // verus!
