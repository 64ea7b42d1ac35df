//! Rewriting of query text before it is parsed: a vector written inside a
//! `SearchV` call is lifted into a variable, because the parser takes a vector
//! search by variable only.

use crate::text::{decimal, decimal_text, strings_view};
use vstd::prelude::*;

verus! {

/// What an inline vector search looks like: `SearchV`, a type in angle
/// brackets, an opening parenthesis and a bracketed literal. The type is the
/// first group, the literal the second.
pub const VECTOR_SEARCH: &'static str = r"SearchV\s*<\s*(\w+)\s*>\s*\(\s*(\[[^\]]*\])";

/// What the head of a query looks like: `QUERY` at the start, after white
/// space, then anything up to the last `=>`; letters in any case, and the dot
/// matching line ends too.
pub const QUERY_HEAD: &'static str = r"(?is)^\s*QUERY\s+.*=>";

/// The first and the second group of each match of a pattern in a text, in
/// order, as `regex` finds them.
pub uninterp spec fn regex_groups(pattern: Seq<char>, text: Seq<char>) -> Seq<
    (Seq<char>, Seq<char>),
>;

/// The pieces of a text between the matches of a pattern, in order: the text
/// before the first match, between each two, and after the last.
pub uninterp spec fn regex_gaps(pattern: Seq<char>, text: Seq<char>) -> Seq<Seq<char>>;

/// A text cut behind the first match of a pattern, if there is one.
pub uninterp spec fn regex_cut(pattern: Seq<char>, text: Seq<char>) -> Option<
    (Seq<char>, Seq<char>),
>;

/// The views of a list of captures, item by item.
pub open spec fn captures_view(captures: Seq<(String, String)>) -> Seq<(Seq<char>, Seq<char>)> {
    Seq::new(captures.len(), |i: int| (captures[i].0@, captures[i].1@))
}

/// `regex::Regex::captures_iter` with the pattern `VECTOR_SEARCH`: the first
/// and the second group of each match, in order.
#[verifier::external_body]
fn find_vector_searches(code: &str) -> (r: Vec<(String, String)>)
    ensures
        captures_view(r@) == regex_groups(VECTOR_SEARCH@, code@),
{
    let re = regex::Regex::new(VECTOR_SEARCH).unwrap();
    re.captures_iter(code).map(|c| (c[1].to_string(), c[2].to_string())).collect()
}

/// `regex::Regex::split` with the pattern `VECTOR_SEARCH`: the text between
/// the matches. There is one piece more than there are matches.
#[verifier::external_body]
fn split_at_vector_searches(code: &str) -> (r: Vec<String>)
    ensures
        strings_view(r@) == regex_gaps(VECTOR_SEARCH@, code@),
        r@.len() == regex_groups(VECTOR_SEARCH@, code@).len() + 1,
{
    let re = regex::Regex::new(VECTOR_SEARCH).unwrap();
    re.split(code).map(|piece| piece.to_string()).collect()
}

/// `regex::Regex::find` with the pattern `QUERY_HEAD`: the text up to the end
/// of the match and the text after it. The two together are the text.
#[verifier::external_body]
fn split_after_query_head(text: &str) -> (r: Option<(String, String)>)
    ensures
        match r {
            Some((head, tail)) => regex_cut(QUERY_HEAD@, text@) == Some((head@, tail@)) && head@
                + tail@ == text@,
            None => regex_cut(QUERY_HEAD@, text@) is None,
        },
{
    let re = regex::Regex::new(QUERY_HEAD).unwrap();
    re.find(text).map(|m| (text[..m.end()].to_string(), text[m.end()..].to_string()))
}

/// The name of the variable that holds the `i`-th lifted vector.
pub open spec fn variable_name(i: nat) -> Seq<char> {
    "tmpVec_"@ + decimal(i)
}

/// The call that stands where the `i`-th inline search stood, up to its first
/// argument: the search by the variable.
pub open spec fn lifted_call(label: Seq<char>, i: nat) -> Seq<char> {
    "SearchV<"@ + label + ">("@ + variable_name(i)
}

/// The assignment of the `i`-th lifted vector.
pub open spec fn lifted_assignment(literal: Seq<char>, i: nat) -> Seq<char> {
    variable_name(i) + " <- "@ + literal
}

/// The text with its first `n` inline searches replaced by searches by
/// variable, up to the `n`-th gap.
pub open spec fn rewritten(
    gaps: Seq<Seq<char>>,
    captures: Seq<(Seq<char>, Seq<char>)>,
    n: nat,
) -> Seq<char>
    decreases n,
{
    if n == 0 {
        gaps[0]
    } else {
        rewritten(gaps, captures, (n - 1) as nat) + lifted_call(captures[n - 1].0, (n - 1) as nat)
            + gaps[n as int]
    }
}

/// The assignments of the first `n` lifted vectors, one per line.
pub open spec fn assignment_lines(captures: Seq<(Seq<char>, Seq<char>)>, n: nat) -> Seq<char>
    decreases n,
{
    if n == 0 {
        Seq::empty()
    } else if n == 1 {
        lifted_assignment(captures[0].1, 0)
    } else {
        assignment_lines(captures, (n - 1) as nat) + "\n"@ + lifted_assignment(
            captures[n - 1].1,
            (n - 1) as nat,
        )
    }
}

/// The text with the assignments put in: behind the head of the query where
/// it has one, else in front of everything.
pub open spec fn injected(
    body: Seq<char>,
    lines: Seq<char>,
    split: Option<(Seq<char>, Seq<char>)>,
) -> Seq<char> {
    match split {
        Some((head, tail)) => head + "\n"@ + lines + "\n"@ + tail,
        None => lines + "\n"@ + body,
    }
}

/// The text of a query with its inline vectors lifted into variables: every
/// match of `VECTOR_SEARCH` becomes a search by variable, and the assignments
/// go behind the match of `QUERY_HEAD`. A text without inline vectors is left
/// as it is.
pub open spec fn preprocessed(code: Seq<char>) -> Seq<char> {
    let captures = regex_groups(VECTOR_SEARCH@, code);
    let gaps = regex_gaps(VECTOR_SEARCH@, code);
    if captures.len() == 0 {
        code
    } else {
        let body = rewritten(gaps, captures, captures.len());
        injected(body, assignment_lines(captures, captures.len()), regex_cut(QUERY_HEAD@, body))
    }
}

/// Replaces each inline search by a search by variable, and writes the
/// assignments of the variables: `tmpVec_0`, `tmpVec_1`, ... in the order of the
/// searches. Gives the rewritten text and the assignments, one per line.
pub fn lift_vector_searches(gaps: &Vec<String>, captures: &Vec<(String, String)>) -> (r: (
    String,
    String,
))
    requires
        gaps.len() == captures.len() + 1,
    ensures
        r.0@ == rewritten(strings_view(gaps@), captures_view(captures@), captures@.len()),
        r.1@ == assignment_lines(captures_view(captures@), captures@.len()),
{
    let ghost gs = strings_view(gaps@);
    let ghost cs = captures_view(captures@);
    let mut body = gaps[0].clone();
    let mut lines = String::new();
    let mut i: usize = 0;
    while i < captures.len()
        invariant
            i <= captures.len(),
            gaps.len() == captures.len() + 1,
            gs == strings_view(gaps@),
            cs == captures_view(captures@),
            body@ == rewritten(gs, cs, i as nat),
            lines@ == assignment_lines(cs, i as nat),
        decreases captures.len() - i,
    {
        let name = String::from_str("tmpVec_").concat(decimal_text(i as u64).as_str());
        proof {
            assert(name@ == variable_name(i as nat));
            assert(cs[i as int] == (captures[i as int].0@, captures[i as int].1@));
            assert(gs[i + 1] == gaps[i + 1]@);
        }
        let ghost body_before = body@;
        body.append("SearchV<");
        body.append(captures[i].0.as_str());
        body.append(">(");
        body.append(name.as_str());
        body.append(gaps[i + 1].as_str());
        proof {
            assert(body@ =~= body_before + lifted_call(cs[i as int].0, i as nat) + gs[i + 1]);
        }
        let ghost lines_before = lines@;
        if i > 0 {
            lines.append("\n");
        }
        lines.append(name.as_str());
        lines.append(" <- ");
        lines.append(captures[i].1.as_str());
        proof {
            if i > 0 {
                assert(lines@ =~= lines_before + "\n"@ + lifted_assignment(
                    cs[i as int].1,
                    i as nat,
                ));
            } else {
                assert(lines@ =~= lifted_assignment(cs[0].1, 0));
            }
        }
        i += 1;
    }
    (body, lines)
}

/// Puts the assignments into the text: behind the head of the query, on
/// lines of their own, or in front of a text without a head.
pub fn inject_assignments(body: String, lines: String, split: Option<(String, String)>) -> (r: String)
    ensures
        r@ == injected(
            body@,
            lines@,
            match split {
                Some((head, tail)) => Some((head@, tail@)),
                None => None,
            },
        ),
{
    match split {
        Some((head, tail)) => {
            let mut out = head;
            out.append("\n");
            out.append(lines.as_str());
            out.append("\n");
            out.append(tail.as_str());
            out
        },
        None => {
            let mut out = lines;
            out.append("\n");
            out.append(body.as_str());
            out
        },
    }
}

/// Rewrites the text of a query so that every vector written inside a
/// `SearchV` call is assigned to a variable first.
pub fn preprocess_hql(code: &str) -> (r: String)
    ensures
        r@ == preprocessed(code@),
{
    let captures = find_vector_searches(code);
    if captures.len() == 0 {
        return String::from_str(code);
    }
    let gaps = split_at_vector_searches(code);
    let (body, lines) = lift_vector_searches(&gaps, &captures);
    let split = split_after_query_head(body.as_str());
    inject_assignments(body, lines, split)
}

} // verus!
