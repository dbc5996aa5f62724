//! Host patterns: the wildcard grammar and the matcher that decides it.

use vstd::prelude::*;
use wildmatch::WildMatch;

verus! {

/// Whether `pattern` matches the whole of `text`: `*` stands for any run of
/// characters, the empty one included, `?` for exactly one character, and
/// every other character for itself.
pub open spec fn glob_matches(pattern: Seq<char>, text: Seq<char>) -> bool
    decreases pattern.len(), text.len(),
{
    if pattern.len() == 0 {
        text.len() == 0
    } else if pattern[0] == '*' {
        glob_matches(pattern.skip(1), text) || (text.len() > 0 && glob_matches(
            pattern,
            text.skip(1),
        ))
    } else {
        text.len() > 0 && (pattern[0] == '?' || pattern[0] == text[0]) && glob_matches(
            pattern.skip(1),
            text.skip(1),
        )
    }
}

/// A pattern without wildcard characters.
pub open spec fn is_literal(pattern: Seq<char>) -> bool {
    forall|i: int| 0 <= i < pattern.len() ==> #[trigger] pattern[i] != '*' && pattern[i] != '?'
}

/// `WildMatch::new` followed by `WildMatch::matches`, case-sensitive: the
/// result is the wildcard grammar's verdict on the whole text.
#[verifier::external_body]
pub(crate) fn wildcard_match(pattern: &str, text: &str) -> (matched: bool)
    ensures
        matched == glob_matches(pattern@, text@),
{
    WildMatch::new(pattern).matches(text)
}

/// A pattern without wildcards matches its own text and nothing else.
pub proof fn lemma_literal_matches_itself_only(pattern: Seq<char>, text: Seq<char>)
    requires
        is_literal(pattern),
    ensures
        glob_matches(pattern, text) <==> pattern == text,
    decreases pattern.len(),
{
    if pattern.len() == 0 {
        if text.len() == 0 {
            assert(pattern =~= text);
        }
    } else {
        assert(pattern[0] != '*' && pattern[0] != '?');
        if text.len() > 0 {
            assert forall|i: int| 0 <= i < pattern.skip(1).len() implies #[trigger] pattern.skip(
                1,
            )[i] != '*' && pattern.skip(1)[i] != '?' by {
                assert(pattern.skip(1)[i] == pattern[i + 1]);
            }
            lemma_literal_matches_itself_only(pattern.skip(1), text.skip(1));
            if pattern[0] == text[0] && pattern.skip(1) == text.skip(1) {
                assert(pattern =~= seq![pattern[0]] + pattern.skip(1));
                assert(text =~= seq![text[0]] + text.skip(1));
            }
        }
    }
}

/// The pattern `*` matches every host.
pub proof fn lemma_star_matches_all(text: Seq<char>)
    ensures
        glob_matches(seq!['*'], text),
    decreases text.len(),
{
    let star = seq!['*'];
    if text.len() == 0 {
        assert(star.skip(1).len() == 0);
        assert(glob_matches(star.skip(1), text));
    } else {
        lemma_star_matches_all(text.skip(1));
    }
}

} // verus!
