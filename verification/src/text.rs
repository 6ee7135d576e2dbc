//! Text that the library produces itself: patterns with their wildcards made
//! literal, and note ids written out in decimal.

use vstd::prelude::*;

verus! {

/// `String::push` appends one character to the end of the string.
pub assume_specification[ String::push ](s: &mut String, c: char)
    ensures
        final(s)@ == old(s)@.push(c),
;

/// Whether `c` has a meaning of its own in a pattern: the two wildcards and
/// the backslash that escapes them.
pub open spec fn is_wildcard_syntax(c: char) -> bool {
    c == '*' || c == '_' || c == '\\'
}

/// One character of a pattern, made literal.
pub open spec fn escaped_char(c: char) -> Seq<char> {
    if is_wildcard_syntax(c) {
        seq!['\\', c]
    } else {
        seq![c]
    }
}

/// `txt` with every wildcard, and every backslash, made literal: each of them
/// gets a backslash in front, and nothing else changes.
pub open spec fn escaped_wildcards(txt: Seq<char>) -> Seq<char>
    decreases txt.len(),
{
    if txt.len() == 0 {
        Seq::empty()
    } else {
        escaped_wildcards(txt.drop_last()) + escaped_char(txt.last())
    }
}

/// Makes every wildcard in `txt` literal.
pub fn escape_wildcards(txt: &str) -> (r: String)
    ensures
        r@ == escaped_wildcards(txt@),
{
    let mut out = String::new();
    for c in it: txt.chars()
        invariant
            it.seq() == txt@,
            out@ == escaped_wildcards(txt@.take(it.index())),
    {
        proof {
            assert(txt@.take(it.index() + 1).drop_last() =~= txt@.take(it.index()));
        }
        if c == '*' || c == '_' || c == '\\' {
            out.push('\\');
        }
        out.push(c);
    }
    proof {
        assert(txt@.take(txt@.len() as int) =~= txt@);
    }
    out
}

/// The text that a pattern matches when it holds no wildcard: the pattern
/// with each escaping backslash taken out. There is none where the pattern
/// holds a wildcard that is not escaped, or a backslash that escapes
/// nothing.
pub open spec fn literal_text(pattern: Seq<char>) -> Option<Seq<char>>
    decreases pattern.len(),
{
    if pattern.len() == 0 {
        Some(Seq::empty())
    } else if pattern[0] == '\\' {
        if pattern.len() >= 2 && is_wildcard_syntax(pattern[1]) {
            match literal_text(pattern.skip(2)) {
                Some(rest) => Some(seq![pattern[1]] + rest),
                None => None,
            }
        } else {
            None
        }
    } else if is_wildcard_syntax(pattern[0]) {
        None
    } else {
        match literal_text(pattern.skip(1)) {
            Some(rest) => Some(seq![pattern[0]] + rest),
            None => None,
        }
    }
}

/// Escaping goes character by character, from the front as from the back.
pub proof fn lemma_escaped_wildcards_from_front(first: char, rest: Seq<char>)
    ensures
        escaped_wildcards(seq![first] + rest) == escaped_char(first) + escaped_wildcards(rest),
    decreases rest.len(),
{
    let all = seq![first] + rest;
    if rest.len() == 0 {
        assert(all.drop_last() =~= Seq::<char>::empty());
        assert(escaped_wildcards(all.drop_last()) =~= Seq::<char>::empty());
        assert(escaped_wildcards(all) =~= escaped_char(first));
        assert(escaped_char(first) + escaped_wildcards(rest) =~= escaped_char(first));
    } else {
        assert(all.drop_last() =~= seq![first] + rest.drop_last());
        lemma_escaped_wildcards_from_front(first, rest.drop_last());
        assert(escaped_wildcards(all) =~= escaped_char(first) + escaped_wildcards(rest));
    }
}

/// An escaped text is a pattern without wildcards, and the text it matches
/// is the one that was escaped.
pub proof fn lemma_escaped_wildcards_match_literally(txt: Seq<char>)
    ensures
        literal_text(escaped_wildcards(txt)) == Some(txt),
    decreases txt.len(),
{
    if txt.len() > 0 {
        let first = txt[0];
        let rest = txt.skip(1);
        assert(txt =~= seq![first] + rest);
        lemma_escaped_wildcards_from_front(first, rest);
        lemma_escaped_wildcards_match_literally(rest);
        let pattern = escaped_wildcards(txt);
        if is_wildcard_syntax(first) {
            assert(pattern.skip(2) =~= escaped_wildcards(rest));
        } else {
            assert(pattern.skip(1) =~= escaped_wildcards(rest));
        }
    }
}

/// Two texts with the same escaped form are the same text.
pub proof fn lemma_escaped_wildcards_are_distinct(a: Seq<char>, b: Seq<char>)
    requires
        escaped_wildcards(a) == escaped_wildcards(b),
    ensures
        a == b,
{
    lemma_escaped_wildcards_match_literally(a);
    lemma_escaped_wildcards_match_literally(b);
}

/// The decimal digit for `d`, which is below ten.
pub open spec fn digit(d: int) -> char {
    if d == 0 {
        '0'
    } else if d == 1 {
        '1'
    } else if d == 2 {
        '2'
    } else if d == 3 {
        '3'
    } else if d == 4 {
        '4'
    } else if d == 5 {
        '5'
    } else if d == 6 {
        '6'
    } else if d == 7 {
        '7'
    } else if d == 8 {
        '8'
    } else {
        '9'
    }
}

/// The digits of `n` in base ten, most significant first, without leading
/// zeros; zero is the one digit `0`.
pub open spec fn decimal_digits(n: nat) -> Seq<char>
    decreases n,
{
    if n < 10 {
        seq![digit(n as int)]
    } else {
        decimal_digits(n / 10).push(digit((n % 10) as int))
    }
}

/// `n` in base ten, with a minus sign in front when it is negative.
pub open spec fn decimal(n: int) -> Seq<char> {
    if n < 0 {
        seq!['-'] + decimal_digits((-n) as nat)
    } else {
        decimal_digits(n as nat)
    }
}

fn digit_char(d: u64) -> (c: char)
    requires
        d < 10,
    ensures
        c == digit(d as int),
{
    if d == 0 {
        '0'
    } else if d == 1 {
        '1'
    } else if d == 2 {
        '2'
    } else if d == 3 {
        '3'
    } else if d == 4 {
        '4'
    } else if d == 5 {
        '5'
    } else if d == 6 {
        '6'
    } else if d == 7 {
        '7'
    } else if d == 8 {
        '8'
    } else {
        '9'
    }
}

/// Appends `id` to `out`, in decimal.
pub fn push_decimal(out: &mut String, id: i64)
    ensures
        final(out)@ == old(out)@ + decimal(id as int),
{
    let magnitude: u64 = if id < 0 {
        out.push('-');
        ((-(id + 1)) as u64) + 1
    } else {
        id as u64
    };
    let ghost start = out@;
    // The digits come out least significant first.
    let mut low_first: Vec<char> = Vec::new();
    let mut rest: u64 = magnitude;
    while rest >= 10
        invariant
            decimal_digits(magnitude as nat) == decimal_digits(rest as nat) + low_first@.reverse(),
        decreases rest,
    {
        let c = digit_char(rest % 10);
        proof {
            assert(low_first@.push(c).reverse() =~= seq![c] + low_first@.reverse());
            assert(decimal_digits(rest as nat) == decimal_digits((rest / 10) as nat).push(c));
            assert(decimal_digits((rest / 10) as nat).push(c) + low_first@.reverse()
                =~= decimal_digits((rest / 10) as nat) + (seq![c] + low_first@.reverse()));
        }
        low_first.push(c);
        rest = rest / 10;
    }
    let c = digit_char(rest);
    proof {
        assert(low_first@.push(c).reverse() =~= seq![c] + low_first@.reverse());
    }
    low_first.push(c);
    let mut i: usize = low_first.len();
    while i > 0
        invariant
            i <= low_first.len(),
            out@ == start + low_first@.reverse().take(low_first.len() - i),
        decreases i,
    {
        i = i - 1;
        proof {
            let r = low_first@.reverse();
            let k = low_first.len() - i - 1;
            assert(r.take(k + 1) =~= r.take(k).push(r[k]));
            assert(r[k] == low_first@[i as int]);
        }
        out.push(low_first[i]);
    }
    proof {
        let r = low_first@.reverse();
        assert(r.take(low_first.len() as int) =~= r);
        assert(start + r =~= old(out)@ + decimal(id as int));
    }
}

/// The ids in decimal, in the order given, with a comma between each two.
pub open spec fn id_list_text(ids: Seq<i64>) -> Seq<char>
    decreases ids.len(),
{
    if ids.len() == 0 {
        Seq::empty()
    } else if ids.len() == 1 {
        decimal(ids[0] as int)
    } else {
        id_list_text(ids.drop_last()) + seq![','] + decimal(ids.last() as int)
    }
}

} // verus!
