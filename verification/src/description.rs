//! The comment block that describes an analyzed function.

use vstd::prelude::*;
use vstd::string::*;

use crate::oneiromancer::{OneiromancerResults, ResultsView};

verus! {

/// The width, in columns, to which a description is wrapped.
pub const DESCRIPTION_WIDTH: usize = 76;

/// What starts each line of a description inside the comment block.
pub const DESCRIPTION_INDENT: &'static str = " * ";

/// `text` broken into lines of at most `width` columns, the first line
/// starting with `initial_indent` and the others with `subsequent_indent`,
/// the lines joined by line feeds.
pub uninterp spec fn filled(
    text: Seq<char>,
    width: nat,
    initial_indent: Seq<char>,
    subsequent_indent: Seq<char>,
) -> Seq<char>;

/// `textwrap::fill` with options that hold the given width and the two
/// indents, and are the default ones in all else.
#[verifier::external_body]
fn fill(text: &str, width: usize, initial_indent: &str, subsequent_indent: &str) -> (out: String)
    ensures
        out@ == filled(text@, width as nat, initial_indent@, subsequent_indent@),
{
    let options = textwrap::Options::new(width).initial_indent(initial_indent).subsequent_indent(
        subsequent_indent,
    );
    textwrap::fill(text, &options)
}

/// The comment block for `results`: the function's name on a line of its
/// own, an empty line, and the description wrapped to the width of the block.
pub open spec fn description(results: ResultsView) -> Seq<char> {
    "/*\n * "@ + results.function_name + "()\n *\n"@ + filled(
        results.comment,
        DESCRIPTION_WIDTH as nat,
        DESCRIPTION_INDENT@,
        DESCRIPTION_INDENT@,
    ) + "\n */\n\n"@
}

/// The comment block that describes the analyzed function, to be put before
/// its pseudocode.
pub fn function_description(results: &OneiromancerResults) -> (text: String)
    ensures
        text@ == description(results@),
{
    let wrapped = fill(
        results.comment(),
        DESCRIPTION_WIDTH,
        DESCRIPTION_INDENT,
        DESCRIPTION_INDENT,
    );
    let mut text = String::from_str("/*\n * ");
    text.append(results.function_name());
    text.append("()\n *\n");
    text.append(wrapped.as_str());
    text.append("\n */\n\n");
    text
}

} // verus!
