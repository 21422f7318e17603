//! Whole-word renaming of identifiers in pseudocode.

use vstd::prelude::*;
use vstd::string::*;

use crate::oneiromancer::{variable_views, OneiromancerError, Variable, VariableView};

verus! {

/// `regex::Regex`, a compiled pattern. Nothing of its inside is visible here.
#[verifier::external_type_specification]
#[verifier::external_body]
pub struct ExRegex(regex::Regex);

/// `regex::Error`, the reason why a pattern did not compile.
#[verifier::external_type_specification]
#[verifier::external_body]
pub struct ExPatternError(regex::Error);

/// Whether `c` has a meaning of its own in a pattern, so that it stands for
/// itself only behind a backslash.
pub open spec fn is_meta_character(c: char) -> bool {
    ||| c == '\\'
    ||| c == '.'
    ||| c == '+'
    ||| c == '*'
    ||| c == '?'
    ||| c == '('
    ||| c == ')'
    ||| c == '|'
    ||| c == '['
    ||| c == ']'
    ||| c == '{'
    ||| c == '}'
    ||| c == '^'
    ||| c == '$'
    ||| c == '#'
    ||| c == '&'
    ||| c == '-'
    ||| c == '~'
}

/// `text` with a backslash put before each meta character: a pattern that
/// matches `text` literally.
pub open spec fn escaped(text: Seq<char>) -> Seq<char>
    decreases text.len(),
{
    if text.len() == 0 {
        Seq::empty()
    } else if is_meta_character(text.last()) {
        escaped(text.drop_last()).push('\\').push(text.last())
    } else {
        escaped(text.drop_last()).push(text.last())
    }
}

/// The pattern that matches `name` as a whole word: its literal text between
/// two word boundaries.
pub open spec fn word_pattern(name: Seq<char>) -> Seq<char> {
    seq!['\\', 'b'] + escaped(name) + seq!['\\', 'b']
}

/// Whether the regex engine compiles `pattern`: it is well formed and the
/// compiled program stays within the engine's default size limit.
pub uninterp spec fn regex_accepts(pattern: Seq<char>) -> bool;

/// The pattern text that a compiled regex was built from. It is known only of
/// a regex that `compile` returned, which is built with the default options;
/// of a regex made in another way nothing is said.
pub uninterp spec fn regex_source(regex: regex::Regex) -> Seq<char>;

/// `haystack` with every non-overlapping match of `pattern`, leftmost first,
/// replaced by `replacement` itself: the replacement is put in as it stands,
/// and a dollar sign in it is a dollar sign.
pub uninterp spec fn regex_replace_all(
    pattern: Seq<char>,
    haystack: Seq<char>,
    replacement: Seq<char>,
) -> Seq<char>;

/// `regex::escape`: copies `text`, with a backslash before each meta character.
#[verifier::external_body]
fn escape(text: &str) -> (out: String)
    ensures
        out@ == escaped(text@),
{
    regex::escape(text)
}

/// `regex::Regex::new`: compiles `pattern` with the default options. It
/// succeeds exactly on the patterns the engine accepts, and the regex it gives
/// remembers the pattern it was built from.
#[verifier::external_body]
fn compile(pattern: &str) -> (compiled: Result<regex::Regex, regex::Error>)
    ensures
        compiled is Ok <==> regex_accepts(pattern@),
        compiled matches Ok(regex) ==> regex_source(regex) == pattern@,
{
    regex::Regex::new(pattern)
}

/// `regex::Regex::replace_all` with `regex::NoExpand` around the replacement:
/// the haystack with all matches replaced by the replacement as it stands, as
/// an owned string.
#[verifier::external_body]
fn replace_all(regex: &regex::Regex, haystack: &str, replacement: &str) -> (out: String)
    ensures
        out@ == regex_replace_all(regex_source(*regex), haystack@, replacement@),
{
    regex.replace_all(haystack, regex::NoExpand(replacement)).into_owned()
}

/// The pattern that matches `name` as a whole word.
pub fn whole_word_pattern(name: &str) -> (pattern: String)
    ensures
        pattern@ == word_pattern(name@),
{
    proof {
        reveal_strlit("\\b");
    }
    let mut pattern = String::from_str("\\b");
    pattern.append(escape(name).as_str());
    pattern.append("\\b");
    assert(pattern@ == word_pattern(name@)) by {
        assert("\\b"@ =~= seq!['\\', 'b']);
    }
    pattern
}

/// `text` after one rename: every whole-word occurrence of the original name
/// replaced by the new name.
pub open spec fn renamed(text: Seq<char>, rename: VariableView) -> Seq<char> {
    regex_replace_all(word_pattern(rename.original_name), text, rename.new_name)
}

/// `text` after all of `renames`, applied in order, each to the text that the
/// one before it left.
pub open spec fn rewritten(text: Seq<char>, renames: Seq<VariableView>) -> Seq<char>
    decreases renames.len(),
{
    if renames.len() == 0 {
        text
    } else {
        renamed(rewritten(text, renames.drop_last()), renames.last())
    }
}

/// Whether the name to replace gives a pattern that compiles, for each of `renames`.
pub open spec fn all_patterns_accepted(renames: Seq<VariableView>) -> bool {
    forall|i: int|
        0 <= i < renames.len() ==> regex_accepts(word_pattern(#[trigger] renames[i].original_name))
}

/// Whether `log` lists the names of `renames`, pair by pair and in order.
pub open spec fn log_records(log: Seq<(String, String)>, renames: Seq<VariableView>) -> bool {
    &&& log.len() == renames.len()
    &&& forall|i: int|
        0 <= i < log.len() ==> (#[trigger] log[i]).0@ == renames[i].original_name && log[i].1@
            == renames[i].new_name
}

/// Finishes one rename, given how compiling the pattern for its original name
/// went: a failure to compile is reported as such, and a compiled pattern is
/// used to replace all of its matches in `text` by `new_name`, put in as it
/// stands. What the result is in terms of a pattern's text is known where
/// `compiled` is what compiling that text with the default options gave.
pub fn substitute(
    compiled: Result<regex::Regex, regex::Error>,
    text: &str,
    new_name: &str,
) -> (outcome: Result<String, OneiromancerError>)
    ensures
        match compiled {
            Ok(regex) => outcome matches Ok(out) && out@ == regex_replace_all(
                regex_source(regex),
                text@,
                new_name@,
            ),
            Err(cause) => outcome matches Err(e) && e == OneiromancerError::PatternCompileFailed(
                cause,
            ),
        },
{
    match compiled {
        Ok(regex) => Ok(replace_all(&regex, text, new_name)),
        Err(cause) => Err(OneiromancerError::PatternCompileFailed(cause)),
    }
}

/// Applies one rename to `text`. Fails only if the pattern for the original
/// name does not compile.
pub fn rename(text: &str, variable: &Variable) -> (outcome: Result<String, OneiromancerError>)
    ensures
        match outcome {
            Ok(out) => {
                &&& regex_accepts(word_pattern(variable@.original_name))
                &&& out@ == renamed(text@, variable@)
            },
            Err(e) => {
                &&& !regex_accepts(word_pattern(variable@.original_name))
                &&& e is PatternCompileFailed
            },
        },
{
    let pattern = whole_word_pattern(variable.original_name());
    substitute(compile(pattern.as_str()), text, variable.new_name())
}

/// Applies `suggestions` to `original_text` in the order given, each to the
/// text as the renames before it left it, and returns the final text with a
/// log of the pairs of names that were applied.
///
/// Fails, with nothing returned, if the pattern for one of the original names
/// does not compile.
pub fn rewrite(original_text: &str, suggestions: &[Variable]) -> (outcome: Result<
    (String, Vec<(String, String)>),
    OneiromancerError,
>)
    ensures
        match outcome {
            Ok((text, log)) => {
                &&& all_patterns_accepted(variable_views(suggestions@))
                &&& text@ == rewritten(original_text@, variable_views(suggestions@))
                &&& log_records(log@, variable_views(suggestions@))
            },
            Err(e) => {
                &&& !all_patterns_accepted(variable_views(suggestions@))
                &&& e is PatternCompileFailed
            },
        },
        suggestions@.len() == 0 ==> (outcome matches Ok((text, log)) && text@ == original_text@
            && log@.len() == 0),
{
    let ghost renames = variable_views(suggestions@);
    let mut text = String::from_str(original_text);
    let mut log: Vec<(String, String)> = Vec::new();
    let mut i: usize = 0;
    proof {
        assert(renames.take(0) =~= Seq::empty());
    }
    while i < suggestions.len()
        invariant
            i <= suggestions.len(),
            renames == variable_views(suggestions@),
            all_patterns_accepted(renames.take(i as int)),
            text@ == rewritten(original_text@, renames.take(i as int)),
            log_records(log@, renames.take(i as int)),
        decreases suggestions.len() - i,
    {
        let variable = &suggestions[i];
        assert(renames[i as int] == variable@);
        match rename(text.as_str(), variable) {
            Ok(next) => {
                text = next;
            },
            Err(e) => {
                return Err(e);
            },
        }
        log.push(
            (String::from_str(variable.original_name()), String::from_str(variable.new_name())),
        );
        proof {
            let before = renames.take(i as int);
            let after = renames.take(i + 1);
            assert(after.drop_last() =~= before);
            assert(after.last() == renames[i as int]);
        }
        i = i + 1;
    }
    proof {
        assert(renames.take(i as int) =~= renames);
    }
    Ok((text, log))
}

/// Renaming nothing changes nothing: with no renames the text stays as it is.
pub proof fn lemma_rewrite_nothing(text: Seq<char>)
    ensures
        rewritten(text, Seq::empty()) == text,
{
}

/// Renames are applied one after another: rewriting with two lists joined is
/// rewriting with the first, then rewriting what that gave with the second.
pub proof fn lemma_rewrite_in_sequence(
    text: Seq<char>,
    first: Seq<VariableView>,
    second: Seq<VariableView>,
)
    ensures
        rewritten(text, first + second) == rewritten(rewritten(text, first), second),
    decreases second.len(),
{
    if second.len() == 0 {
        assert(first + second =~= first);
    } else {
        lemma_rewrite_in_sequence(text, first, second.drop_last());
        assert((first + second).drop_last() =~= first + second.drop_last());
        assert((first + second).last() == second.last());
    }
}

} // verus!
