use vstd::prelude::*;

verus! {

/// ASCII whitespace, as the repair heuristics and trimming understand it.
pub open spec fn spec_is_ws(c: char) -> bool {
    c == ' ' || c == '\t' || c == '\n' || c == '\r' || c == '\x0c'
}

pub fn is_ws(c: char) -> (r: bool)
    ensures
        r == spec_is_ws(c),
{
    c == ' ' || c == '\t' || c == '\n' || c == '\r' || c == '\x0c'
}

/// Length of the run of whitespace at the front of `s`.
pub open spec fn head_ws(s: Seq<char>) -> int
    decreases s.len(),
{
    if s.len() == 0 {
        0
    } else if !spec_is_ws(s[0]) {
        0
    } else {
        1 + head_ws(s.drop_first())
    }
}

/// Length of the run of whitespace at the back of `s`.
pub open spec fn tail_ws(s: Seq<char>) -> int
    decreases s.len(),
{
    if s.len() == 0 {
        0
    } else if !spec_is_ws(s[s.len() - 1]) {
        0
    } else {
        1 + tail_ws(s.drop_last())
    }
}

/// `s` with leading and trailing ASCII whitespace removed. Trimming is
/// deliberately ASCII-only: a payload whose boundary whitespace is a Unicode
/// space (a no-break space, say) keeps it and is judged by the parser, not
/// treated as empty.
pub open spec fn spec_trim(s: Seq<char>) -> Seq<char> {
    if head_ws(s) == s.len() {
        Seq::empty()
    } else {
        s.subrange(head_ws(s), s.len() - tail_ws(s))
    }
}

/// If the characters before `i` are whitespace and `s[i]` is not, the leading
/// whitespace run stops exactly at `i`.
pub proof fn lemma_head_ws_exact(s: Seq<char>, i: int)
    requires
        0 <= i <= s.len(),
        forall|k: int| 0 <= k < i ==> spec_is_ws(s[k]),
        i < s.len() ==> !spec_is_ws(s[i]),
    ensures
        head_ws(s) == i,
    decreases s.len(),
{
    if s.len() > 0 && spec_is_ws(s[0]) {
        assert(i > 0);
        assert forall|k: int| 0 <= k < i - 1 implies spec_is_ws(s.drop_first()[k]) by {
            assert(s.drop_first()[k] == s[k + 1]);
        }
        if i - 1 < s.drop_first().len() {
            assert(s.drop_first()[i - 1] == s[i]);
        }
        lemma_head_ws_exact(s.drop_first(), i - 1);
    } else {
        assert(i == 0);
    }
}

/// If the characters from `j` on are whitespace and `s[j - 1]` is not, the
/// trailing whitespace run has length exactly `s.len() - j`.
pub proof fn lemma_tail_ws_exact(s: Seq<char>, j: int)
    requires
        0 <= j <= s.len(),
        forall|k: int| j <= k < s.len() ==> spec_is_ws(s[k]),
        j > 0 ==> !spec_is_ws(s[j - 1]),
    ensures
        tail_ws(s) == s.len() - j,
    decreases s.len(),
{
    if s.len() > 0 && spec_is_ws(s[s.len() - 1]) {
        assert(j < s.len());
        assert forall|k: int| j <= k < s.drop_last().len() implies spec_is_ws(s.drop_last()[k]) by {
            assert(s.drop_last()[k] == s[k]);
        }
        if j > 0 {
            assert(s.drop_last()[j - 1] == s[j - 1]);
        }
        lemma_tail_ws_exact(s.drop_last(), j);
    } else {
        assert(j == s.len());
    }
}

/// Remove leading and trailing ASCII whitespace.
pub fn trim_text<'a>(s: &'a str) -> (r: &'a str)
    ensures
        r@ == spec_trim(s@),
{
    let n = s.unicode_len();
    let mut i: usize = 0;
    while i < n && is_ws(s.get_char(i))
        invariant
            0 <= i <= n,
            n == s@.len(),
            forall|k: int| 0 <= k < i ==> spec_is_ws(s@[k]),
        decreases n - i,
    {
        i = i + 1;
    }
    proof {
        lemma_head_ws_exact(s@, i as int);
    }
    let mut j: usize = n;
    while j > i && is_ws(s.get_char(j - 1))
        invariant
            i <= j <= n,
            n == s@.len(),
            forall|k: int| j <= k < n ==> spec_is_ws(s@[k]),
        decreases j,
    {
        j = j - 1;
    }
    if i == j {
        proof {
            lemma_head_ws_exact(s@, n as int);
        }
        let r = s.substring_char(0, 0);
        assert(r@ =~= spec_trim(s@));
        r
    } else {
        proof {
            lemma_tail_ws_exact(s@, j as int);
        }
        let r = s.substring_char(i, j);
        assert(r@ =~= spec_trim(s@));
        r
    }
}

/// Character-for-character string equality.
pub fn text_eq(a: &str, b: &str) -> (r: bool)
    ensures
        r == (a@ == b@),
{
    let na = a.unicode_len();
    let nb = b.unicode_len();
    if na != nb {
        assert(a@ != b@);
        return false;
    }
    let mut i: usize = 0;
    while i < na
        invariant
            0 <= i <= na,
            na == a@.len(),
            na == b@.len(),
            forall|k: int| 0 <= k < i ==> a@[k] == b@[k],
        decreases na - i,
    {
        if a.get_char(i) != b.get_char(i) {
            assert(a@ != b@);
            return false;
        }
        i = i + 1;
    }
    assert(a@ =~= b@);
    true
}

/// The needle `n` occurs in `h` starting at position `i`.
pub open spec fn match_at(h: Seq<char>, n: Seq<char>, i: int) -> bool {
    &&& 0 <= i
    &&& i + n.len() <= h.len()
    &&& h.subrange(i, i + n.len()) == n
}

/// Find the first occurrence of `needle` in `hay` at or after `from`.
pub fn find_from(hay: &str, needle: &str, from: usize) -> (r: Option<usize>)
    requires
        from <= hay@.len(),
        needle@.len() >= 1,
    ensures
        match r {
            Some(i) => {
                &&& from <= i
                &&& match_at(hay@, needle@, i as int)
                &&& forall|j: int| from <= j < i ==> !match_at(hay@, needle@, j)
            },
            None => forall|j: int| from <= j ==> !match_at(hay@, needle@, j),
        },
{
    let hn = hay.unicode_len();
    let nn = needle.unicode_len();
    if nn > hn || from > hn - nn {
        assert forall|j: int| from <= j implies !match_at(hay@, needle@, j) by {}
        return None;
    }
    let mut i: usize = from;
    while i <= hn - nn
        invariant
            from <= i <= hn - nn + 1,
            nn <= hn,
            hn == hay@.len(),
            nn == needle@.len(),
            nn >= 1,
            forall|j: int| from <= j < i ==> !match_at(hay@, needle@, j),
        decreases hn - i,
    {
        let mut k: usize = 0;
        let mut matched = true;
        while matched && k < nn
            invariant
                0 <= k <= nn,
                i + nn <= hn,
                hn == hay@.len(),
                nn == needle@.len(),
                matched ==> forall|t: int| 0 <= t < k ==> hay@[i + t] == needle@[t],
                !matched ==> !match_at(hay@, needle@, i as int),
            decreases nn - k + (if matched { 1int } else { 0 }),
        {
            if hay.get_char(i + k) != needle.get_char(k) {
                matched = false;
                assert(!match_at(hay@, needle@, i as int)) by {
                    if match_at(hay@, needle@, i as int) {
                        assert(hay@.subrange(i as int, i + nn as int)[k as int] == needle@[k as int]);
                    }
                }
            } else {
                k = k + 1;
            }
        }
        if matched {
            assert(hay@.subrange(i as int, i + nn as int) =~= needle@);
            return Some(i);
        }
        i = i + 1;
    }
    assert forall|j: int| from <= j implies !match_at(hay@, needle@, j) by {
        if j <= hn - nn {
            assert(!match_at(hay@, needle@, j));
        }
    }
    None
}

/// Relies on `String::push`: appends one character at the end.
#[verifier::external_body]
pub(crate) fn push_char(s: &mut String, c: char)
    ensures
        final(s)@ == old(s)@.push(c),
{
    s.push(c)
}

/// The decimal digit `d` as a character, for `0 <= d <= 9`.
pub open spec fn digit_char(d: int) -> char {
    if d == 0 { '0' }
    else if d == 1 { '1' }
    else if d == 2 { '2' }
    else if d == 3 { '3' }
    else if d == 4 { '4' }
    else if d == 5 { '5' }
    else if d == 6 { '6' }
    else if d == 7 { '7' }
    else if d == 8 { '8' }
    else { '9' }
}

/// The decimal digits of `n`, most significant first.
pub open spec fn spec_decimal(n: int) -> Seq<char>
    decreases n,
{
    if n < 10 {
        seq![digit_char(n)]
    } else {
        spec_decimal(n / 10).push(digit_char(n % 10))
    }
}

fn digit_of(d: u128) -> (c: char)
    requires
        d < 10,
    ensures
        c == digit_char(d as int),
{
    if d == 0 { '0' }
    else if d == 1 { '1' }
    else if d == 2 { '2' }
    else if d == 3 { '3' }
    else if d == 4 { '4' }
    else if d == 5 { '5' }
    else if d == 6 { '6' }
    else if d == 7 { '7' }
    else if d == 8 { '8' }
    else { '9' }
}

/// Append the decimal rendering of `n` to `out`.
pub fn push_decimal(out: &mut String, n: u128)
    ensures
        final(out)@ == old(out)@ + spec_decimal(n as int),
    decreases n,
{
    if n < 10 {
        push_char(out, digit_of(n));
        assert(out@ =~= old(out)@ + spec_decimal(n as int));
    } else {
        push_decimal(out, n / 10);
        push_char(out, digit_of(n % 10));
        assert(out@ =~= old(out)@ + spec_decimal(n as int));
    }
}

} // verus!
