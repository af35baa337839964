use vstd::prelude::*;

use crate::jsonio::{parse_strict_text, strict_json};
use crate::strtool::{
    is_ws, lemma_head_ws_exact, lemma_tail_ws_exact, push_char, spec_is_ws, spec_trim, trim_text,
};

verus! {

/// Why a snippet could not be repaired into JSON text.
#[derive(Debug)]
pub enum RepairError {
    Empty,
    Parse(String),
}

pub open spec fn spec_error_text(e: RepairError) -> Seq<char> {
    match e {
        RepairError::Empty => "empty input"@,
        RepairError::Parse(m) => "parse error: "@ + m@,
    }
}

impl RepairError {
    /// A human-readable description of the failure.
    pub fn message(&self) -> (r: String)
        ensures
            r@ == spec_error_text(*self),
    {
        match self {
            RepairError::Empty => String::from_str("empty input"),
            RepairError::Parse(m) => {
                let mut out = String::from_str("parse error: ");
                out.append(m.as_str());
                out
            },
        }
    }
}

pub open spec fn swap_quote(c: char) -> char {
    if c == '\'' {
        '"'
    } else {
        c
    }
}

/// Every single-quote character replaced by a double quote.
pub open spec fn spec_swap_quotes(s: Seq<char>) -> Seq<char> {
    s.map_values(|c: char| swap_quote(c))
}

pub fn swap_quotes(s: &str) -> (r: String)
    ensures
        r@ == spec_swap_quotes(s@),
{
    let n = s.unicode_len();
    let mut out = String::new();
    let mut i: usize = 0;
    while i < n
        invariant
            0 <= i <= n,
            n == s@.len(),
            out@ == spec_swap_quotes(s@.take(i as int)),
        decreases n - i,
    {
        let c = s.get_char(i);
        if c == '\'' {
            push_char(&mut out, '"');
        } else {
            push_char(&mut out, c);
        }
        i = i + 1;
        proof {
            assert(out@ =~= spec_swap_quotes(s@.take(i as int)));
        }
    }
    proof {
        assert(s@.take(n as int) =~= s@);
    }
    out
}

/// At `j` stands a closing brace or bracket, with only whitespace strictly
/// between `i` and `j`.
pub open spec fn closes_after(s: Seq<char>, i: int, j: int) -> bool {
    &&& i < j < s.len()
    &&& (s[j] == '}' || s[j] == ']')
    &&& forall|k: int| i < k < j ==> spec_is_ws(s[k])
}

/// The comma at `i` directly precedes (up to whitespace) a closing brace or
/// bracket, so the repair heuristic elides it.
pub open spec fn trailing_comma_at(s: Seq<char>, i: int) -> bool {
    &&& 0 <= i < s.len()
    &&& s[i] == ','
    &&& exists|j: int| closes_after(s, i, j)
}

/// The first `n` characters of `s`, with trailing commas elided.
pub open spec fn strip_upto(s: Seq<char>, n: int) -> Seq<char>
    decreases n,
{
    if n <= 0 {
        Seq::empty()
    } else if trailing_comma_at(s, n - 1) {
        strip_upto(s, n - 1)
    } else {
        strip_upto(s, n - 1).push(s[n - 1])
    }
}

/// `s` with every comma that directly precedes (up to whitespace) a closing
/// brace or bracket removed. Commas inside string literals are not exempt:
/// that is a deliberate limitation of the heuristic.
pub open spec fn spec_strip_commas(s: Seq<char>) -> Seq<char> {
    strip_upto(s, s.len() as int)
}

pub fn remove_trailing_commas(s: &str) -> (r: String)
    ensures
        r@ == spec_strip_commas(s@),
{
    let n = s.unicode_len();
    let mut out = String::new();
    let mut i: usize = 0;
    while i < n
        invariant
            0 <= i <= n,
            n == s@.len(),
            out@ == strip_upto(s@, i as int),
        decreases n - i,
    {
        let c = s.get_char(i);
        let mut drop_it = false;
        if c == ',' {
            let mut j: usize = i + 1;
            while j < n && is_ws(s.get_char(j))
                invariant
                    i < j <= n,
                    n == s@.len(),
                    forall|k: int| i < k < j ==> spec_is_ws(s@[k]),
                decreases n - j,
            {
                j = j + 1;
            }
            if j < n {
                let nc = s.get_char(j);
                if nc == '}' || nc == ']' {
                    drop_it = true;
                    proof {
                        assert(closes_after(s@, i as int, j as int));
                    }
                }
            }
            proof {
                if !drop_it {
                    assert forall|j2: int| !closes_after(s@, i as int, j2) by {
                        if closes_after(s@, i as int, j2) {
                            if j2 < j {
                                assert(spec_is_ws(s@[j2]));
                            } else if j2 > j {
                                assert(j < n);
                                assert(spec_is_ws(s@[j as int]));
                            }
                        }
                    }
                }
            }
        }
        proof {
            assert(drop_it == trailing_comma_at(s@, i as int));
        }
        if !drop_it {
            push_char(&mut out, c);
        }
        i = i + 1;
    }
    out
}

/// `s` wrapped in braces unless it already opens as an object or array.
pub open spec fn spec_wrap(s: Seq<char>) -> Seq<char> {
    if s.len() > 0 && (s[0] == '{' || s[0] == '[') {
        s
    } else {
        seq!['{'] + s + seq!['}']
    }
}

pub fn wrap_braces(s: String) -> (r: String)
    ensures
        r@ == spec_wrap(s@),
{
    if s.as_str().unicode_len() > 0 {
        let c0 = s.as_str().get_char(0);
        if c0 == '{' || c0 == '[' {
            return s;
        }
    }
    let mut out = String::new();
    push_char(&mut out, '{');
    out.append(s.as_str());
    push_char(&mut out, '}');
    proof {
        assert(out@ =~= spec_wrap(s@));
    }
    out
}

/// The whole conservative repair pipeline on already-trimmed text: quote
/// normalization, then trailing-comma elision, then brace wrapping.
pub open spec fn spec_repair_text(t: Seq<char>) -> Seq<char> {
    spec_wrap(spec_strip_commas(spec_swap_quotes(t)))
}

/// A minimal, conservative JSON repair: trims the input, replaces single
/// quotes with double quotes, removes trailing commas, wraps a bare body in
/// braces, and keeps the result only when it then parses as strict JSON.
pub fn repair_json_snippet(input: &str) -> (r: Result<String, RepairError>)
    ensures
        (r matches Err(RepairError::Empty)) <==> spec_trim(input@).len() == 0,
        r is Ok <==> (spec_trim(input@).len() > 0 && strict_json(
            spec_repair_text(spec_trim(input@)),
        )),
        r matches Ok(t) ==> t@ == spec_repair_text(spec_trim(input@)),
        (r matches Err(RepairError::Parse(_))) <==> (spec_trim(input@).len() > 0 && !strict_json(
            spec_repair_text(spec_trim(input@)),
        )),
{
    let trimmed = trim_text(input);
    if trimmed.unicode_len() == 0 {
        return Err(RepairError::Empty);
    }
    let swapped = swap_quotes(trimmed);
    let stripped = remove_trailing_commas(swapped.as_str());
    let wrapped = wrap_braces(stripped);
    match parse_strict_text(wrapped.as_str()) {
        Ok(_) => Ok(wrapped),
        Err(m) => Err(RepairError::Parse(m)),
    }
}

/// Repair is the identity on text that is already trimmed, already opens as
/// an object or array, holds no single quote, and holds no elidable trailing
/// comma: such text comes back from the repair pipeline unchanged, so a
/// strict parse of the repaired text is a strict parse of the text itself.
pub proof fn lemma_repair_fixed_point(s: Seq<char>)
    requires
        s.len() > 0,
        !spec_is_ws(s[0]),
        !spec_is_ws(s[s.len() - 1]),
        s[0] == '{' || s[0] == '[',
        forall|i: int| 0 <= i < s.len() ==> s[i] != '\'',
        spec_strip_commas(s) == s,
    ensures
        spec_trim(s) == s,
        spec_repair_text(spec_trim(s)) == s,
{
    lemma_head_ws_exact(s, 0);
    lemma_tail_ws_exact(s, s.len() as int);
    assert(spec_trim(s) =~= s);
    assert(spec_swap_quotes(s) =~= s);
    assert(spec_strip_commas(spec_swap_quotes(s)) == s);
    assert(spec_wrap(s) == s);
}

} // verus!
