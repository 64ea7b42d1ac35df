//! Helpers on strings and lists of strings.

use vstd::prelude::*;

verus! {

/// The views of a list of strings, item by item.
pub open spec fn strings_view(v: Seq<String>) -> Seq<Seq<char>> {
    Seq::new(v.len(), |i: int| v[i]@)
}

/// Whether two strings hold the same characters.
pub fn str_equal(a: &str, b: &str) -> (r: bool)
    ensures
        r == (a@ == b@),
{
    let x = a.to_owned();
    let y = b.to_owned();
    x == y
}

/// A copy of a list of strings.
pub fn clone_strings(v: &Vec<String>) -> (out: Vec<String>)
    ensures
        strings_view(out@) == strings_view(v@),
{
    let mut out: Vec<String> = Vec::new();
    let mut i: usize = 0;
    while i < v.len()
        invariant
            i <= v.len(),
            out.len() == i,
            forall|k: int| 0 <= k < i ==> out[k]@ == v[k]@,
        decreases v.len() - i,
    {
        out.push(v[i].clone());
        i += 1;
    }
    assert(strings_view(out@) =~= strings_view(v@));
    out
}

/// The number of leading characters of `s` that are `c`.
pub open spec fn leading(s: Seq<char>, c: char) -> nat
    decreases s.len(),
{
    if s.len() > 0 && s[0] == c {
        1 + leading(s.skip(1), c)
    } else {
        0
    }
}

/// The number of trailing characters of `s` that are `c`.
pub open spec fn trailing(s: Seq<char>, c: char) -> nat
    decreases s.len(),
{
    if s.len() > 0 && s.last() == c {
        1 + trailing(s.drop_last(), c)
    } else {
        0
    }
}

/// `s` without its leading and trailing run of `c`.
pub open spec fn trim_matches_spec(s: Seq<char>, c: char) -> Seq<char> {
    let from = leading(s, c);
    if from == s.len() {
        Seq::empty()
    } else {
        s.subrange(from as int, s.len() - trailing(s, c))
    }
}

/// The leading run ends at `n`: the first `n` characters are `c`, the next is not.
pub proof fn lemma_leading(s: Seq<char>, c: char, n: nat)
    requires
        n <= s.len(),
        forall|i: int| 0 <= i < n ==> s[i] == c,
        n < s.len() ==> s[n as int] != c,
    ensures
        leading(s, c) == n,
    decreases s.len(),
{
    if n > 0 {
        let rest = s.skip(1);
        assert forall|i: int| 0 <= i < n - 1 implies rest[i] == c by {
            assert(rest[i] == s[i + 1]);
        }
        if n < s.len() {
            assert(rest[n - 1] == s[n as int]);
        }
        lemma_leading(rest, c, (n - 1) as nat);
    }
}

/// The trailing run starts at `s.len() - n`: the last `n` characters are `c`,
/// the one before is not.
pub proof fn lemma_trailing(s: Seq<char>, c: char, n: nat)
    requires
        n <= s.len(),
        forall|i: int| s.len() - n <= i < s.len() ==> s[i] == c,
        n < s.len() ==> s[s.len() - n - 1] != c,
    ensures
        trailing(s, c) == n,
    decreases s.len(),
{
    if n > 0 {
        let rest = s.drop_last();
        assert forall|i: int| rest.len() - (n - 1) <= i < rest.len() implies rest[i] == c by {
            assert(rest[i] == s[i]);
        }
        if n < s.len() {
            assert(rest[rest.len() - (n - 1) - 1] == s[s.len() - n - 1]);
        }
        lemma_trailing(rest, c, (n - 1) as nat);
    }
}

/// `s` without the quotation marks at its two ends, however many there are.
pub fn trim_quotes(s: &str) -> (r: String)
    ensures
        r@ == trim_matches_spec(s@, '"'),
{
    let n = s.unicode_len();
    let mut from: usize = 0;
    while from < n && s.get_char(from) == '"'
        invariant
            n == s@.len(),
            from <= n,
            forall|i: int| 0 <= i < from ==> s@[i] == '"',
        decreases n - from,
    {
        from += 1;
    }
    proof {
        lemma_leading(s@, '"', from as nat);
    }
    if from == n {
        return String::new();
    }
    let mut to: usize = n;
    while to > from && s.get_char(to - 1) == '"'
        invariant
            n == s@.len(),
            from < n,
            from <= to <= n,
            s@[from as int] != '"',
            forall|i: int| to <= i < n ==> s@[i] == '"',
        decreases to,
    {
        to -= 1;
    }
    proof {
        lemma_trailing(s@, '"', (n - to) as nat);
    }
    String::from_str(s.substring_char(from, to))
}

/// The text of a digit.
pub open spec fn digit_text(d: nat) -> Seq<char> {
    if d == 0 {
        "0"@
    } else if d == 1 {
        "1"@
    } else if d == 2 {
        "2"@
    } else if d == 3 {
        "3"@
    } else if d == 4 {
        "4"@
    } else if d == 5 {
        "5"@
    } else if d == 6 {
        "6"@
    } else if d == 7 {
        "7"@
    } else if d == 8 {
        "8"@
    } else {
        "9"@
    }
}

/// The decimal text of a number.
pub open spec fn decimal(n: nat) -> Seq<char>
    decreases n,
{
    if n < 10 {
        digit_text(n)
    } else {
        decimal(n / 10) + digit_text(n % 10)
    }
}

/// The text of a digit.
pub fn digit_str(d: u64) -> (r: &'static str)
    requires
        d < 10,
    ensures
        r@ == digit_text(d as nat),
{
    if d == 0 {
        "0"
    } else if d == 1 {
        "1"
    } else if d == 2 {
        "2"
    } else if d == 3 {
        "3"
    } else if d == 4 {
        "4"
    } else if d == 5 {
        "5"
    } else if d == 6 {
        "6"
    } else if d == 7 {
        "7"
    } else if d == 8 {
        "8"
    } else {
        "9"
    }
}

/// The decimal text of a number.
pub fn decimal_text(n: u64) -> (r: String)
    ensures
        r@ == decimal(n as nat),
{
    let mut text = String::from_str(digit_str(n % 10));
    let mut rest = n / 10;
    while rest > 0
        invariant
            decimal(n as nat) == if rest > 0 {
                decimal(rest as nat) + text@
            } else {
                text@
            },
        decreases rest,
    {
        let ghost before = text@;
        let digit = String::from_str(digit_str(rest % 10));
        text = digit.concat(text.as_str());
        proof {
            let d = digit_text((rest % 10) as nat);
            if rest >= 10 {
                assert((decimal((rest / 10) as nat) + d) + before =~= decimal((rest / 10) as nat) + (
                d + before));
            }
        }
        rest = rest / 10;
    }
    text
}

} // verus!
