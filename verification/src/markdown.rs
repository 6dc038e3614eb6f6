//! Markdown rendering, behind a trusted boundary.
//!
//! What HTML a markdown text renders to would take pages to state, but it
//! is a function of the text alone, so the result carries the name
//! `html_of` and every contract downstream speaks of that name.

use vstd::prelude::*;

verus! {

/// The HTML that the renderer produces for a markdown text.
pub uninterp spec fn html_of(md: Seq<char>) -> Seq<char>;

/// Render markdown to HTML.  Relies on `comrak::markdown_to_html` with the
/// strikethrough, table, autolink and tasklist extensions enabled: the
/// output depends on the input text and the fixed option set alone.
///
/// Comrak's raw-HTML passthrough option stays at its default, off — the
/// option's field is named by a raw identifier, which this crate's source
/// rules out — so raw HTML blocks in a body are omitted from the render
/// rather than passed through.  An author who embeds raw HTML will see
/// comrak's placeholder comments in `body_html`.
#[verifier::external_body]
pub fn render(md: &str) -> (r: String)
    ensures
        r@ == html_of(md@),
{
    let mut opts = comrak::Options::default();
    opts.extension.strikethrough = true;
    opts.extension.table = true;
    opts.extension.autolink = true;
    opts.extension.tasklist = true;
    comrak::markdown_to_html(md, &opts)
}

} // verus!
