use vstd::prelude::*;

use xmlparser::Token;
use xmlparser::Tokenizer;

verus! {

/// The text contents of an HTML fragment: what its text tokens hold, in
/// order, with markup tokens left out. Named, not written out: tokenizing is
/// the outside crate's work, and the result is a function of the fragment
/// alone.
pub uninterp spec fn html_text(s: Seq<char>) -> Seq<Seq<char>>;

/// The image of a sequence of owned strings.
pub open spec fn strings_view(v: Seq<String>) -> Seq<Seq<char>> {
    v.map_values(|s: String| s@)
}

/// Relies on xmlparser's `Tokenizer`: an ordered pass over the fragment that
/// tells text tokens apart from markup tokens; tokens it cannot read are
/// dropped, as are markup tokens.
#[verifier::external_body]
pub(crate) fn html_text_pieces(html: &str) -> (r: Vec<String>)
    ensures
        strings_view(r@) == html_text(html@),
{
    Tokenizer::from(html)
        .flatten()
        .filter_map(|token| match token {
            Token::Text { text } => Some(text.as_str().to_string()),
            _ => None,
        })
        .collect()
}

} // verus!
