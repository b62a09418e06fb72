//! Turning free text typed by a user into a query that the full-text index
//! reads as plain words.
use vstd::prelude::*;

verus! {

#[verifier::external_type_specification]
#[verifier::external_body]
pub struct ExRegex(regex::Regex);

#[verifier::external_type_specification]
#[verifier::external_body]
pub struct ExRegexError(regex::Error);

/// The pattern of one maximal run of characters that are not word characters
/// (Unicode letters, marks, digits and connector punctuation).
pub const NON_WORD_RUNS: &'static str = "\\W+";

/// What `text` becomes when every maximal run of non-word characters in it is
/// replaced by `with`, taken literally.
pub uninterp spec fn non_word_runs_replaced(text: Seq<char>, with: Seq<char>) -> Seq<char>;

/// `s` without the spaces at its start and at its end.
pub open spec fn trim_spaces(s: Seq<char>) -> Seq<char>
    decreases s.len(),
{
    if s.len() > 0 && s[0] == ' ' {
        trim_spaces(s.drop_first())
    } else if s.len() > 0 && s.last() == ' ' {
        trim_spaces(s.drop_last())
    } else {
        s
    }
}

/// The query that the index is given for the text `q`.
pub open spec fn sanitized(q: Seq<char>) -> Seq<char> {
    trim_spaces(non_word_runs_replaced(q, seq![' ']))
}

/// The compiled pattern that finds runs of non-word characters. A value of it
/// is only ever built by `compile_non_word_runs`, from `NON_WORD_RUNS`.
pub struct QuerySanitizer {
    non_word: regex::Regex,
}

/// Relies on `regex::Regex::new`, which compiles the pattern (here always
/// `NON_WORD_RUNS`). Whether it succeeds depends on the pattern alone, and
/// this one is valid and small.
#[verifier::external_body]
fn compile_non_word_runs(pattern: &str) -> (r: Result<QuerySanitizer, regex::Error>)
    requires
        pattern@ == NON_WORD_RUNS@,
    ensures
        r is Ok,
{
    regex::Regex::new(pattern).map(|non_word| QuerySanitizer { non_word })
}

/// Relies on `regex::Regex::replace_all` with `regex::NoExpand`: every
/// non-overlapping leftmost-first match of the pattern (maximal, since `+` is
/// greedy) is replaced by `with`, without `$` expansion.
#[verifier::external_body]
fn replace_non_word_runs(s: &QuerySanitizer, text: &str, with: &str) -> (r: String)
    ensures
        r@ == non_word_runs_replaced(text@, with@),
{
    s.non_word.replace_all(text, regex::NoExpand(with)).into_owned()
}

/// Removes the spaces at the start and at the end of `s`.
pub fn trim_spaces_of(s: &str) -> (r: String)
    ensures
        r@ == trim_spaces(s@),
{
    let n = s.unicode_len();
    let mut i: usize = 0;
    assert(s@.subrange(0, n as int) == s@);
    while i < n && s.get_char(i) == ' '
        invariant
            i <= n,
            n == s@.len(),
            trim_spaces(s@) == trim_spaces(s@.subrange(i as int, n as int)),
        decreases n - i,
    {
        assert(s@.subrange(i as int, n as int).drop_first() == s@.subrange(i + 1, n as int));
        i = i + 1;
    }
    let mut j: usize = n;
    while j > i && s.get_char(j - 1) == ' '
        invariant
            i <= j <= n,
            n == s@.len(),
            i < j ==> s@[i as int] != ' ',
            trim_spaces(s@) == trim_spaces(s@.subrange(i as int, j as int)),
        decreases j - i,
    {
        assert(s@.subrange(i as int, j as int).drop_last() == s@.subrange(i as int, j - 1));
        j = j - 1;
    }
    let t = s.substring_char(i, j);
    String::from_str(t)
}

impl QuerySanitizer {
    /// Compiles the pattern of non-word runs.
    pub fn new() -> (r: Result<QuerySanitizer, regex::Error>)
        ensures
            r is Ok,
    {
        compile_non_word_runs(NON_WORD_RUNS)
    }

    /// Collapses every maximal run of non-word characters of `query` into one
    /// space, then drops the spaces at both ends.
    pub fn sanitize(&self, query: &str) -> (r: String)
        ensures
            r@ == sanitized(query@),
    {
        let collapsed = replace_non_word_runs(self, query, " ");
        proof {
            reveal_strlit(" ");
        }
        assert(" "@ == seq![' ']);
        trim_spaces_of(collapsed.as_str())
    }
}

} // verus!
