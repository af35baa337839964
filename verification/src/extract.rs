use vstd::prelude::*;

use crate::strtool::{find_from, match_at};

verus! {

pub open spec fn open_tag() -> Seq<char> {
    "<tool_code>"@
}

pub open spec fn close_tag() -> Seq<char> {
    "</tool_code>"@
}

/// The first open tag of `s` stands at `i`, and the first close tag at or
/// after the end of that open tag stands at `j`.
pub open spec fn block_bounds(s: Seq<char>, i: int, j: int) -> bool {
    &&& match_at(s, open_tag(), i)
    &&& forall|i2: int| 0 <= i2 < i ==> !match_at(s, open_tag(), i2)
    &&& i + open_tag().len() <= j
    &&& match_at(s, close_tag(), j)
    &&& forall|j2: int| i + open_tag().len() <= j2 < j ==> !match_at(s, close_tag(), j2)
}

/// `s` holds a well-formed invocation block: an open tag with a close tag
/// somewhere after it.
pub open spec fn has_tool_block(s: Seq<char>) -> bool {
    exists|i: int, j: int| block_bounds(s, i, j)
}

/// The raw inner text of the first invocation block of `s`.
pub open spec fn block_inner(s: Seq<char>) -> Seq<char> {
    let (i, j) = choose|i: int, j: int| block_bounds(s, i, j);
    s.subrange(i + open_tag().len(), j)
}

/// Only one pair of positions can delimit the first block.
pub proof fn lemma_block_unique(s: Seq<char>, i: int, j: int, i2: int, j2: int)
    requires
        block_bounds(s, i, j),
        block_bounds(s, i2, j2),
    ensures
        i == i2,
        j == j2,
{
}

/// Scan a reply for the first `<tool_code> ... </tool_code>` block and hand
/// back its raw inner text; `None` when the reply carries no such block.
pub fn extract_tool_block(s: &str) -> (r: Option<String>)
    ensures
        r is Some <==> has_tool_block(s@),
        r matches Some(t) ==> t@ == block_inner(s@),
{
    let open = "<tool_code>";
    let close = "</tool_code>";
    proof {
        reveal_strlit("<tool_code>");
        reveal_strlit("</tool_code>");
    }
    match find_from(s, open, 0) {
        None => {
            assert(!has_tool_block(s@)) by {
                if has_tool_block(s@) {
                    let (i, j) = choose|i: int, j: int| block_bounds(s@, i, j);
                    assert(match_at(s@, open_tag(), i));
                }
            }
            None
        },
        Some(i) => {
            let total = s.unicode_len();
            let open_len = open.unicode_len();
            assert(i + open_len <= total);
            let start = i + open_len;
            match find_from(s, close, start) {
                None => {
                    assert(!has_tool_block(s@)) by {
                        if has_tool_block(s@) {
                            let (i2, j2) = choose|i2: int, j2: int| block_bounds(s@, i2, j2);
                            assert(i2 <= i);
                            assert(i <= i2);
                            assert(match_at(s@, close_tag(), j2));
                        }
                    }
                    None
                },
                Some(j) => {
                    let inner = s.substring_char(start, j);
                    proof {
                        assert(block_bounds(s@, i as int, j as int));
                        let (ci, cj) = choose|ci: int, cj: int| block_bounds(s@, ci, cj);
                        lemma_block_unique(s@, i as int, j as int, ci, cj);
                        assert(inner@ == block_inner(s@));
                    }
                    Some(inner.to_owned())
                },
            }
        },
    }
}

} // verus!
