//! What is handed on for a find-and-replace over notes: the search pattern
//! as a regular expression, and the field to look in.

use vstd::prelude::*;
use vstd::string::StringExecFns;

verus! {

/// Whether `c` has a meaning of its own in a regular expression.
pub open spec fn is_regex_meta(c: char) -> bool {
    c == '\\' || c == '.' || c == '+' || c == '*' || c == '?' || c == '(' || c == ')' || c == '|'
        || c == '[' || c == ']' || c == '{' || c == '}' || c == '^' || c == '$' || c == '#' || c
        == '&' || c == '-' || c == '~'
}

/// `text` as a regular expression that matches exactly `text`: each
/// character with a meaning of its own gets a backslash in front.
pub open spec fn regex_escaped(text: Seq<char>) -> Seq<char>
    decreases text.len(),
{
    if text.len() == 0 {
        Seq::empty()
    } else if is_regex_meta(text.last()) {
        regex_escaped(text.drop_last()).push('\\').push(text.last())
    } else {
        regex_escaped(text.drop_last()).push(text.last())
    }
}

/// Calls `regex::escape`. Trusted: the result is `text`, character by
/// character, with one backslash put in front of each character that
/// `regex_syntax::is_meta_character` accepts; those are the eighteen of
/// [`is_regex_meta`].
#[verifier::external_body]
fn escape_regex(text: &str) -> (r: String)
    ensures
        r@ == regex_escaped(text@),
{
    regex::escape(text)
}

/// The text that a regular expression matches when no character in it has
/// a meaning of its own: the expression with each escaping backslash taken
/// out. There is none where it holds such a character unescaped, or a
/// backslash in front of anything else.
pub open spec fn regex_literal(pattern: Seq<char>) -> Option<Seq<char>>
    decreases pattern.len(),
{
    if pattern.len() == 0 {
        Some(Seq::empty())
    } else if pattern[0] == '\\' {
        if pattern.len() >= 2 && is_regex_meta(pattern[1]) {
            match regex_literal(pattern.skip(2)) {
                Some(rest) => Some(seq![pattern[1]] + rest),
                None => None,
            }
        } else {
            None
        }
    } else if is_regex_meta(pattern[0]) {
        None
    } else {
        match regex_literal(pattern.skip(1)) {
            Some(rest) => Some(seq![pattern[0]] + rest),
            None => None,
        }
    }
}

/// Escaping goes character by character, from the front as from the back.
pub proof fn lemma_regex_escaped_from_front(first: char, rest: Seq<char>)
    ensures
        regex_escaped(seq![first] + rest) == regex_escaped(seq![first]) + regex_escaped(rest),
        regex_escaped(seq![first]) == if is_regex_meta(first) {
            seq!['\\', first]
        } else {
            seq![first]
        },
    decreases rest.len(),
{
    let all = seq![first] + rest;
    assert(seq![first].drop_last() =~= Seq::<char>::empty());
    assert(regex_escaped(seq![first].drop_last()) =~= Seq::<char>::empty());
    assert(regex_escaped(seq![first]) =~= if is_regex_meta(first) {
        seq!['\\', first]
    } else {
        seq![first]
    });
    if rest.len() == 0 {
        assert(all =~= seq![first]);
        assert(regex_escaped(seq![first]) + regex_escaped(rest) =~= regex_escaped(seq![first]));
    } else {
        assert(all.drop_last() =~= seq![first] + rest.drop_last());
        lemma_regex_escaped_from_front(first, rest.drop_last());
        assert(regex_escaped(all) =~= regex_escaped(seq![first]) + regex_escaped(rest));
    }
}

/// An escaped text is a regular expression in which no character has a
/// meaning of its own, and the text it matches is the one that was escaped.
pub proof fn lemma_regex_escaped_matches_literally(text: Seq<char>)
    ensures
        regex_literal(regex_escaped(text)) == Some(text),
    decreases text.len(),
{
    if text.len() > 0 {
        let first = text[0];
        let rest = text.skip(1);
        assert(text =~= seq![first] + rest);
        lemma_regex_escaped_from_front(first, rest);
        lemma_regex_escaped_matches_literally(rest);
        let pattern = regex_escaped(text);
        if is_regex_meta(first) {
            assert(pattern.skip(2) =~= regex_escaped(rest));
        } else {
            assert(pattern.skip(1) =~= regex_escaped(rest));
        }
    }
}

/// The marker that makes the regular expression behind it match without
/// regard to case.
pub open spec fn case_insensitive_marker() -> Seq<char> {
    seq!['(', '?', 'i', ')']
}

/// The regular expression to search with: `search` itself where it is one
/// already, else `search` escaped; and in front of that the
/// case-insensitivity marker, unless case is to be matched.
pub open spec fn find_pattern(search: Seq<char>, is_regex: bool, match_case: bool) -> Seq<char> {
    let body = if is_regex {
        search
    } else {
        regex_escaped(search)
    };
    if match_case {
        body
    } else {
        case_insensitive_marker() + body
    }
}

/// Turns what the user typed into the regular expression to search with.
pub fn normalize_find_pattern(search: String, is_regex: bool, match_case: bool) -> (r: String)
    ensures
        r@ == find_pattern(search@, is_regex, match_case),
{
    let body = if is_regex {
        search
    } else {
        escape_regex(search.as_str())
    };
    if match_case {
        body
    } else {
        proof {
            reveal_strlit("(?i)");
            assert("(?i)"@ =~= case_insensitive_marker());
        }
        let mut pattern = String::from_str("(?i)");
        pattern.append(body.as_str());
        pattern
    }
}

/// What a pattern for a literal search holds behind the case-insensitivity
/// marker, if it has one, is the escaped search text and nothing else: in
/// it no character has a meaning of its own, so nothing that the user typed
/// is read as a marker.
pub proof fn lemma_literal_pattern_is_marker_and_literal(search: Seq<char>, match_case: bool)
    ensures
        match_case ==> regex_literal(find_pattern(search, false, true)) == Some(search),
        !match_case ==> find_pattern(search, false, false).subrange(0, 4)
            == case_insensitive_marker() && regex_literal(
            find_pattern(search, false, false).skip(4),
        ) == Some(search),
{
    lemma_regex_escaped_matches_literally(search);
    let pattern = find_pattern(search, false, false);
    assert(pattern.subrange(0, 4) =~= case_insensitive_marker());
    assert(pattern.skip(4) =~= regex_escaped(search));
}

/// A request to find and replace text in notes, as the caller states it.
#[derive(Debug, PartialEq, Eq)]
pub struct FindAndReplaceIn {
    pub nids: Vec<i64>,
    pub search: String,
    pub replacement: String,
    pub regex: bool,
    pub match_case: bool,
    /// The one field to look in; empty for all fields.
    pub field_name: String,
}

/// The same request as it is handed on to be carried out.
#[derive(Debug, PartialEq, Eq)]
pub struct FindAndReplaceCall {
    pub nids: Vec<i64>,
    /// The regular expression to search with.
    pub search: String,
    pub replacement: String,
    /// The one field to look in, if the search is limited to one.
    pub field_name: Option<String>,
}

/// Prepares a find-and-replace: the search text becomes a regular
/// expression (see [`find_pattern`]), an empty field name becomes no field,
/// and the note ids and the replacement pass through.
pub fn prepare_find_and_replace(input: FindAndReplaceIn) -> (call: FindAndReplaceCall)
    ensures
        call.nids@ == input.nids@,
        call.search@ == find_pattern(input.search@, input.regex, input.match_case),
        call.replacement@ == input.replacement@,
        input.field_name@.len() == 0 ==> call.field_name is None,
        input.field_name@.len() != 0 ==> call.field_name is Some && call.field_name->Some_0@
            == input.field_name@,
{
    let search = normalize_find_pattern(input.search, input.regex, input.match_case);
    let field_name = if input.field_name.as_str().is_empty() {
        None
    } else {
        Some(input.field_name)
    };
    FindAndReplaceCall { nids: input.nids, search, replacement: input.replacement, field_name }
}

} // verus!
