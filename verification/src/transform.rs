//! The transformation engine: a named rule applied to one record.
//!
//! A rule token selects the behaviour. `fullname` derives the full-name
//! field; a token beginning with `team_name_regex` trims the team field to
//! the leftmost substring matching the fixed team pattern, when there is
//! one; every other token is deliberately a no-op, so an unrecognized rule
//! never aborts the processing of other records or rules.

use vstd::prelude::*;
use crate::pattern::team_replacement;
use crate::record::Wholegame;

verus! {

/// A transformation rule, parsed once from its configuration token.
#[derive(Clone, Copy, Debug, PartialEq, Eq, Structural)]
pub enum Rule {
    /// Join first names and surname into the full-name field.
    FullName,
    /// Trim the team field to the leftmost match of the team pattern.
    TeamNameRegex,
    /// Any other token: a deliberate no-op.
    Unknown,
}

/// Which rule a token selects: exactly `fullname`, any token beginning with
/// `team_name_regex`, or none.
pub open spec fn rule_of(token: Seq<char>) -> Rule {
    if token == "fullname"@ {
        Rule::FullName
    } else if token.len() >= "team_name_regex"@.len() && token.subrange(
        0,
        "team_name_regex"@.len() as int,
    ) == "team_name_regex"@ {
        Rule::TeamNameRegex
    } else {
        Rule::Unknown
    }
}

/// The derived full name: the two name parts joined by a single space, with
/// no further normalization.
pub open spec fn full_name_text(first: Seq<char>, surname: Seq<char>) -> Seq<char> {
    first + seq![' '] + surname
}

/// Whether two strings are equal, character by character.
fn str_eq(s: &str, t: &str) -> (r: bool)
    ensures
        r == (s@ == t@),
{
    let n = s.unicode_len();
    if n != t.unicode_len() {
        return false;
    }
    let mut i: usize = 0;
    while i < n
        invariant
            i <= n,
            n == s@.len(),
            n == t@.len(),
            forall|j: int| 0 <= j < i ==> s@[j] == t@[j],
        decreases n - i,
    {
        if s.get_char(i) != t.get_char(i) {
            return false;
        }
        i += 1;
    }
    proof {
        assert(s@ =~= t@);
    }
    true
}

/// Whether `s` begins with `prefix`, character by character.
fn str_starts_with(s: &str, prefix: &str) -> (r: bool)
    ensures
        r == (s@.len() >= prefix@.len() && s@.subrange(0, prefix@.len() as int) == prefix@),
{
    let n = prefix.unicode_len();
    if s.unicode_len() < n {
        return false;
    }
    let mut i: usize = 0;
    while i < n
        invariant
            i <= n,
            n == prefix@.len(),
            n <= s@.len(),
            forall|j: int| 0 <= j < i ==> s@[j] == prefix@[j],
        decreases n - i,
    {
        if s.get_char(i) != prefix.get_char(i) {
            proof {
                assert(s@.subrange(0, n as int)[i as int] != prefix@[i as int]);
            }
            return false;
        }
        i += 1;
    }
    proof {
        assert(s@.subrange(0, n as int) =~= prefix@);
    }
    true
}

/// Parses a rule token into the rule it selects.
pub fn parse_rule(token: &str) -> (r: Rule)
    ensures
        r == rule_of(token@),
{
    if str_eq(token, "fullname") {
        Rule::FullName
    } else if str_starts_with(token, "team_name_regex") {
        Rule::TeamNameRegex
    } else {
        Rule::Unknown
    }
}

/// Applies the rule selected by `rule` to the record, in place. The
/// `fullname` rule sets the full-name field to the first names and surname
/// joined by one space and touches nothing else; the `team_name_regex` rule
/// replaces the team field with the leftmost match of the team pattern,
/// or leaves it unchanged when nothing matches, and touches nothing else;
/// an unrecognized rule changes nothing. The call never fails.
pub fn apply_transformations(wholegame: &mut Wholegame, rule: &str)
    ensures
        rule_of(rule@) == Rule::FullName ==> *final(wholegame) == (Wholegame {
            full_name: final (wholegame).full_name,
            ..*old(wholegame)
        }) && final (wholegame).full_name@ == full_name_text(
            old(wholegame).first_names@,
            old(wholegame).surname@,
        ),
        rule_of(rule@) == Rule::TeamNameRegex ==> *final(wholegame) == (Wholegame {
            team: final (wholegame).team,
            ..*old(wholegame)
        }) && final (wholegame).team@ == team_replacement(old(wholegame).team@),
        rule_of(rule@) == Rule::Unknown ==> *final(wholegame) == *old(wholegame),
{
    match parse_rule(rule) {
        Rule::FullName => {
            let mut full = wholegame.first_names.clone();
            full.append(" ");
            full.append(wholegame.surname.as_str());
            proof {
                reveal_strlit(" ");
                assert(" "@ =~= seq![' ']);
            }
            wholegame.full_name = full;
        },
        Rule::TeamNameRegex => {
            match crate::pattern::find_team_match(wholegame.team.as_str()) {
                Some(range) => {
                    let trimmed = {
                        let team_str = wholegame.team.as_str();
                        String::from_str(team_str.substring_char(range.0, range.1))
                    };
                    wholegame.team = trimmed;
                },
                None => {},
            }
        },
        Rule::Unknown => {},
    }
}

} // verus!
