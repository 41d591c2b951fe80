//! The fixed team-name pattern and its matcher.
//!
//! The pattern is: the letter `U`, one or more decimal digits, a single
//! space, then one or more word characters (letters, digits or underscore).
//! A match takes the digits and the word run greedily, and the leftmost
//! position at which the whole pattern succeeds wins, so the match is the
//! one the usual leftmost-greedy pattern semantics give.

use vstd::prelude::*;

verus! {

/// A decimal digit.
pub open spec fn is_digit(c: char) -> bool {
    '0' as u32 <= c as u32 && c as u32 <= '9' as u32
}

/// A word character: a letter, a digit, or an underscore.
pub open spec fn is_word_char(c: char) -> bool {
    is_digit(c) || ('a' as u32 <= c as u32 && c as u32 <= 'z' as u32) || ('A' as u32 <= c as u32
        && c as u32 <= 'Z' as u32) || c == '_'
}

/// The end of the run of characters satisfying `p` that starts at `i`: the
/// first position at or after `i` that is out of range or fails `p`.
pub open spec fn run_end(s: Seq<char>, i: int, p: spec_fn(char) -> bool) -> int
    decreases s.len() - i,
{
    if 0 <= i && i < s.len() && p(s[i]) {
        run_end(s, i + 1, p)
    } else {
        i
    }
}

/// The end of the digit run starting at `i`.
pub open spec fn digit_run_end(s: Seq<char>, i: int) -> int {
    run_end(s, i, |c: char| is_digit(c))
}

/// The end of the word-character run starting at `i`.
pub open spec fn word_run_end(s: Seq<char>, i: int) -> int {
    run_end(s, i, |c: char| is_word_char(c))
}

/// Whether the pattern matches at position `i`: a `U`, at least one digit,
/// a space right after the digit run, and at least one word character.
pub open spec fn matches_at(s: Seq<char>, i: int) -> bool {
    let de = digit_run_end(s, i + 1);
    &&& 0 <= i < s.len()
    &&& s[i] == 'U'
    &&& de > i + 1
    &&& de < s.len()
    &&& s[de] == ' '
    &&& word_run_end(s, de + 1) > de + 1
}

/// Where the match starting at `i` ends: after the greedy word run.
pub open spec fn match_end(s: Seq<char>, i: int) -> int {
    word_run_end(s, digit_run_end(s, i + 1) + 1)
}

/// The first position at or after `i` where the pattern matches, or a
/// negative value when it matches nowhere.
pub open spec fn first_match_from(s: Seq<char>, i: int) -> int
    decreases s.len() - i,
{
    if i >= s.len() {
        -1
    } else if matches_at(s, i) {
        i
    } else {
        first_match_from(s, i + 1)
    }
}

/// What the team field becomes under the pattern rule: the leftmost match
/// when there is one, the string unchanged when there is none.
pub open spec fn team_replacement(s: Seq<char>) -> Seq<char> {
    let i = first_match_from(s, 0);
    if i < 0 {
        s
    } else {
        s.subrange(i, match_end(s, i))
    }
}

/// The run that starts at `i` reaches exactly to `run_end`: every character
/// before it satisfies `p`, and it stops at the end or at a failing
/// character.
pub proof fn lemma_run_end_bounds(s: Seq<char>, i: int, p: spec_fn(char) -> bool)
    requires
        0 <= i <= s.len(),
    ensures
        i <= run_end(s, i, p) <= s.len(),
        forall|k: int| i <= k < run_end(s, i, p) ==> p(s[k]),
        run_end(s, i, p) == s.len() || !p(s[run_end(s, i, p)]),
    decreases s.len() - i,
{
    if i < s.len() && p(s[i]) {
        lemma_run_end_bounds(s, i + 1, p);
    }
}

/// A position with the run's properties is the run's end.
pub proof fn lemma_run_end_unique(s: Seq<char>, i: int, p: spec_fn(char) -> bool, j: int)
    requires
        0 <= i <= j <= s.len(),
        forall|k: int| i <= k < j ==> p(s[k]),
        j == s.len() || !p(s[j]),
    ensures
        run_end(s, i, p) == j,
    decreases j - i,
{
    if i < j {
        lemma_run_end_unique(s, i + 1, p, j);
    }
}

/// A found first match lies in range and matches.
pub proof fn lemma_first_match_found(s: Seq<char>, j: int)
    requires
        0 <= j,
        first_match_from(s, j) >= 0,
    ensures
        j <= first_match_from(s, j) < s.len(),
        matches_at(s, first_match_from(s, j)),
    decreases s.len() - j,
{
    if j < s.len() && !matches_at(s, j) {
        lemma_first_match_found(s, j + 1);
    }
}

/// Applying the pattern rule a second time changes nothing: an unmatched
/// string is left as it is, and a match is itself a full match of the
/// pattern, whose own leftmost match is the whole of it.
pub proof fn lemma_team_replacement_idempotent(s: Seq<char>)
    ensures
        first_match_from(s, 0) < 0 ==> team_replacement(s) == s,
        first_match_from(s, 0) >= 0 ==> matches_at(team_replacement(s), 0),
        team_replacement(team_replacement(s)) == team_replacement(s),
{
    let i = first_match_from(s, 0);
    if i >= 0 {
        lemma_first_match_found(s, 0);
        let de = digit_run_end(s, i + 1);
        let e = match_end(s, i);
        lemma_run_end_bounds(s, i + 1, |c: char| is_digit(c));
        lemma_run_end_bounds(s, de + 1, |c: char| is_word_char(c));
        let m = s.subrange(i, e);
        assert(m.len() == e - i);
        assert(m[0] == 'U');
        assert forall|k: int| 1 <= k < de - i implies is_digit(m[k]) by {
            assert(m[k] == s[i + k]);
        }
        assert(!is_digit(m[de - i]));
        lemma_run_end_unique(m, 1, |c: char| is_digit(c), de - i);
        assert(digit_run_end(m, 1) == de - i);
        assert forall|k: int| de - i + 1 <= k < m.len() implies is_word_char(m[k]) by {
            assert(m[k] == s[i + k]);
        }
        lemma_run_end_unique(m, de - i + 1, |c: char| is_word_char(c), m.len() as int);
        assert(word_run_end(m, de - i + 1) == m.len());
        assert(matches_at(m, 0));
        assert(first_match_from(m, 0) == 0);
        assert(match_end(m, 0) == m.len());
        assert(m.subrange(0, m.len() as int) =~= m);
        assert(team_replacement(m) == m);
    }
}

/// Decides whether a character is a decimal digit.
fn digit_char(c: char) -> (r: bool)
    ensures
        r == is_digit(c),
{
    let u = c as u32;
    u >= '0' as u32 && u <= '9' as u32
}

/// Decides whether a character is a word character.
fn word_char(c: char) -> (r: bool)
    ensures
        r == is_word_char(c),
{
    let u = c as u32;
    (u >= '0' as u32 && u <= '9' as u32) || (u >= 'a' as u32 && u <= 'z' as u32) || (u >= 'A' as u32
        && u <= 'Z' as u32) || c == '_'
}

/// Finds the leftmost match of the pattern: the start and end character
/// positions when it matches somewhere, nothing when it matches nowhere.
pub fn find_team_match(s: &str) -> (r: Option<(usize, usize)>)
    ensures
        match r {
            Some(range) => {
                &&& range.0 == first_match_from(s@, 0)
                &&& matches_at(s@, range.0 as int)
                &&& range.1 == match_end(s@, range.0 as int)
                &&& range.0 < range.1 <= s@.len()
            },
            None => first_match_from(s@, 0) < 0,
        },
{
    let n = s.unicode_len();
    let mut i: usize = 0;
    while i < n
        invariant
            i <= n,
            n == s@.len(),
            forall|j: int| 0 <= j < i ==> !matches_at(s@, j),
        decreases n - i,
    {
        if s.get_char(i) == 'U' {
            let mut d = i + 1;
            while d < n && digit_char(s.get_char(d))
                invariant
                    i + 1 <= d <= n,
                    n == s@.len(),
                    digit_run_end(s@, i + 1 as int) == digit_run_end(s@, d as int),
                decreases n - d,
            {
                proof {
                    assert(run_end(s@, d as int, |c: char| is_digit(c)) == run_end(
                        s@,
                        d + 1 as int,
                        |c: char| is_digit(c),
                    ));
                }
                d += 1;
            }
            proof {
                assert(digit_run_end(s@, d as int) == d);
            }
            if d > i + 1 && d < n && s.get_char(d) == ' ' {
                let mut w = d + 1;
                while w < n && word_char(s.get_char(w))
                    invariant
                        d + 1 <= w <= n,
                        n == s@.len(),
                        word_run_end(s@, d + 1 as int) == word_run_end(s@, w as int),
                    decreases n - w,
                {
                    proof {
                        assert(run_end(s@, w as int, |c: char| is_word_char(c)) == run_end(
                            s@,
                            w + 1 as int,
                            |c: char| is_word_char(c),
                        ));
                    }
                    w += 1;
                }
                proof {
                    assert(word_run_end(s@, w as int) == w);
                }
                if w > d + 1 {
                    proof {
                        assert(matches_at(s@, i as int));
                        lemma_first_match_skip(s@, 0, i as int);
                    }
                    return Some((i, w));
                }
                proof {
                    assert(!matches_at(s@, i as int));
                }
            } else {
                proof {
                    assert(!matches_at(s@, i as int));
                }
            }
        }
        i += 1;
    }
    proof {
        lemma_first_match_skip(s@, 0, n as int);
    }
    None
}

/// Positions before the first match do not move it.
pub proof fn lemma_first_match_skip(s: Seq<char>, j: int, i: int)
    requires
        0 <= j <= i <= s.len(),
        forall|k: int| j <= k < i ==> !matches_at(s, k),
    ensures
        first_match_from(s, j) == first_match_from(s, i),
    decreases i - j,
{
    if j < i {
        lemma_first_match_skip(s, j + 1, i);
    }
}

} // verus!
