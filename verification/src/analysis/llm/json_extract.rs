//! Extracting a JSON object from free LLM text: a ```json code fence first, then the first
//! balanced `{...}` block.
use vstd::prelude::*;
use crate::analysis::schemas::StructuredOutputMode;
use crate::text::{
    find, find_from, is_first_occurrence_from, occurs_at, contains_seq, string_from_range,
    to_chars, trim_range, trim_span, all_ws, trimmed,
};
use vstd::string::StringExecFns;

verus! {

/// Whether `serde_json` parses a text as a JSON value.
pub uninterp spec fn json_valid(s: Seq<char>) -> bool;

/// Whether a text parses as JSON (`serde_json::from_str::<serde_json::Value>`).
#[verifier::external_body]
pub(crate) fn is_valid_json(s: &str) -> (r: bool)
    ensures
        r == json_valid(s@),
{
    serde_json::from_str::<serde_json::Value>(s).is_ok()
}

/// The opening marker of a JSON code fence.
pub open spec fn fence_open() -> Seq<char> {
    "```json"@
}

/// The closing marker of a code fence.
pub open spec fn fence_close() -> Seq<char> {
    "```"@
}

/// The text inside the first ```json fence (untrimmed), if the fence is opened and closed.
pub open spec fn fence_body(t: Seq<char>) -> Option<Seq<char>> {
    if exists|s: int| is_first_occurrence_from(t, fence_open(), 0, s) {
        let s = choose|s: int| is_first_occurrence_from(t, fence_open(), 0, s);
        let body_start = s + fence_open().len();
        if exists|e: int| is_first_occurrence_from(t, fence_close(), body_start, e) {
            let e = choose|e: int| is_first_occurrence_from(t, fence_close(), body_start, e);
            Some(t.subrange(body_start, e))
        } else {
            None
        }
    } else {
        None
    }
}

/// The JSON text of the first ```json fence: its body trimmed, when non-empty and valid.
pub open spec fn fence_json(t: Seq<char>) -> Option<Seq<char>> {
    match fence_body(t) {
        Some(b) => if trimmed(b).len() > 0 && json_valid(trimmed(b)) {
            Some(trimmed(b))
        } else {
            None
        },
        None => None,
    }
}

/// Opening braces minus closing braces in `t[from..to]`.
pub open spec fn brace_depth(t: Seq<char>, from: int, to: int) -> int
    decreases to - from,
{
    if to <= from {
        0
    } else {
        brace_depth(t, from, to - 1) + if t[to - 1] == '{' {
            1int
        } else if t[to - 1] == '}' {
            -1int
        } else {
            0int
        }
    }
}

/// `t[s..e]` is the block that opens at `s` and closes where the brace depth first returns
/// to zero.
pub open spec fn balanced_block(t: Seq<char>, s: int, e: int) -> bool {
    &&& 0 <= s < e <= t.len()
    &&& t[s] == '{'
    &&& brace_depth(t, s, e) == 0
    &&& forall|k: int| s < k < e ==> brace_depth(t, s, k) > 0
}

/// The first `{` of `t`.
pub open spec fn first_open_brace(t: Seq<char>, s: int) -> bool {
    &&& 0 <= s < t.len()
    &&& t[s] == '{'
    &&& forall|i: int| 0 <= i < s ==> t[i] != '{'
}

/// The JSON text found by brace matching: the block opened by the first `{`, when it closes
/// and is valid JSON.
pub open spec fn brace_json(t: Seq<char>) -> Option<Seq<char>> {
    if exists|s: int, e: int| first_open_brace(t, s) && balanced_block(t, s, e) {
        let se = choose|se: (int, int)| first_open_brace(t, se.0) && balanced_block(t, se.0, se.1);
        let block = t.subrange(se.0, se.1);
        if json_valid(trimmed(block)) {
            Some(trimmed(block))
        } else {
            None
        }
    } else {
        None
    }
}

/// The JSON text of a free text: the fenced JSON, else the brace-matched JSON.
pub open spec fn extracted_json(t: Seq<char>) -> Option<Seq<char>> {
    match fence_json(t) {
        Some(j) => Some(j),
        None => brace_json(t),
    }
}

proof fn lemma_first_occurrence_unique(t: Seq<char>, p: Seq<char>, from: int, a: int, b: int)
    requires
        is_first_occurrence_from(t, p, from, a),
        is_first_occurrence_from(t, p, from, b),
    ensures
        a == b,
{
}

/// The JSON text inside the first ```json code fence.
pub fn extract_from_code_fence(text: &str) -> (r: Option<String>)
    ensures
        match r {
            Some(s) => fence_json(text@) == Some(s@),
            None => fence_json(text@) is None,
        },
{
    let t = to_chars(text);
    let open = to_chars("```json");
    let close = to_chars("```");
    let start = match find(&t, &open) {
        Some(s) => s,
        None => {
            proof {
                if exists|s: int| is_first_occurrence_from(t@, fence_open(), 0, s) {
                    let s = choose|s: int| is_first_occurrence_from(t@, fence_open(), 0, s);
                    assert(occurs_at(t@, open@, s));
                }
            }
            return None;
        },
    };
    proof {
        assert(is_first_occurrence_from(t@, fence_open(), 0, start as int));
        let s = choose|s: int| is_first_occurrence_from(t@, fence_open(), 0, s);
        lemma_first_occurrence_unique(t@, fence_open(), 0, s, start as int);
    }
    assert(occurs_at(t@, open@, start as int));
    assert(start + open@.len() <= t@.len());
    assert(t@.len() == t.len());
    let body_start = start + open.len();
    let end = match find_from(&t, &close, body_start) {
        Some(e) => e,
        None => {
            proof {
                if exists|e: int| is_first_occurrence_from(t@, fence_close(), body_start as int, e) {
                    let e = choose|e: int| is_first_occurrence_from(t@, fence_close(), body_start as int, e);
                    assert(occurs_at(t@, close@, e));
                }
            }
            return None;
        },
    };
    proof {
        assert(is_first_occurrence_from(t@, fence_close(), body_start as int, end as int));
        let e = choose|e: int| is_first_occurrence_from(t@, fence_close(), body_start as int, e);
        lemma_first_occurrence_unique(t@, fence_close(), body_start as int, e, end as int);
    }
    let body = string_from_range(&t, body_start, end);
    let bv = to_chars(body.as_str());
    let (a, b) = trim_range(&bv);
    if a == b {
        return None;
    }
    let json = string_from_range(&bv, a, b);
    if is_valid_json(json.as_str()) {
        Some(json)
    } else {
        None
    }
}

proof fn lemma_balanced_block_unique(t: Seq<char>, s: int, e1: int, e2: int)
    requires
        balanced_block(t, s, e1),
        balanced_block(t, s, e2),
    ensures
        e1 == e2,
{
    if e1 < e2 {
        assert(brace_depth(t, s, e1) > 0);
    }
    if e2 < e1 {
        assert(brace_depth(t, s, e2) > 0);
    }
}

/// The first balanced `{...}` block of a text, when it is valid JSON.
pub fn extract_by_brace_matching(text: &str) -> (r: Option<String>)
    ensures
        match r {
            Some(s) => brace_json(text@) == Some(s@),
            None => brace_json(text@) is None,
        },
{
    let t = to_chars(text);
    let mut s: usize = 0;
    while s < t.len() && t[s] != '{'
        invariant
            s <= t@.len(),
            forall|i: int| 0 <= i < s ==> t@[i] != '{',
        decreases t.len() - s,
    {
        s += 1;
    }
    if s == t.len() {
        proof {
            assert forall|a: int, b: int| !(first_open_brace(t@, a) && #[trigger] balanced_block(t@, a, b)) by {
                if first_open_brace(t@, a) {
                    assert(t@[a] == '{');
                }
            }
        }
        return None;
    }
    assert(first_open_brace(t@, s as int));
    let mut depth: usize = 0;
    let mut i: usize = s;
    let mut end: usize = s;
    let mut found = false;
    while i < t.len()
        invariant_except_break
            s <= i <= t@.len(),
            t@[s as int] == '{',
            depth as int == brace_depth(t@, s as int, i as int),
            depth <= i - s,
            forall|k: int| s < k <= i ==> brace_depth(t@, s as int, k) > 0,
            !found,
        ensures
            found ==> balanced_block(t@, s as int, end as int),
            !found ==> i == t@.len() && forall|k: int| s < k <= i ==> brace_depth(t@, s as int, k) > 0,
        decreases t.len() - i,
    {
        let c = t[i];
        if c == '{' {
            depth = depth + 1;
        } else if c == '}' {
            if i == s {
                assert(false);
            }
            assert(brace_depth(t@, s as int, i as int) > 0);
            depth = depth - 1;
            if depth == 0 {
                end = i + 1;
                found = true;
                assert(brace_depth(t@, s as int, i + 1) == 0);
                break;
            }
        }
        i += 1;
    }
    if !found {
        proof {
            assert forall|a: int, b: int| !(first_open_brace(t@, a) && #[trigger] balanced_block(t@, a, b)) by {
                if first_open_brace(t@, a) && balanced_block(t@, a, b) {
                    assert(a == s);
                    assert(brace_depth(t@, s as int, b) > 0);
                }
            }
        }
        return None;
    }
    proof {
        let se = choose|se: (int, int)| first_open_brace(t@, se.0) && balanced_block(t@, se.0, se.1);
        let w = (s as int, end as int);
        assert(first_open_brace(t@, w.0) && balanced_block(t@, w.0, w.1));
        assert(se.0 == s);
        lemma_balanced_block_unique(t@, s as int, se.1, end as int);
    }
    let block = to_chars(string_from_range(&t, s, end).as_str());
    let (a, b) = trim_range(&block);
    let json = string_from_range(&block, a, b);
    if is_valid_json(json.as_str()) {
        Some(json)
    } else {
        None
    }
}

/// Extracts a JSON object from free text: the ```json code fence first, then brace matching.
pub fn extract_json_from_text(text: &str) -> (r: Option<String>)
    ensures
        match r {
            Some(s) => extracted_json(text@) == Some(s@),
            None => extracted_json(text@) is None,
        },
        fence_json(text@) matches Some(j) ==> (r matches Some(s) && s@ == j),
        fence_json(text@) is None ==> match r {
            Some(s) => brace_json(text@) == Some(s@),
            None => brace_json(text@) is None,
        },
{
    match extract_from_code_fence(text) {
        Some(j) => Some(j),
        None => extract_by_brace_matching(text),
    }
}

/// The texts to try, in order, when parsing an LLM reply as a dimension report: the reply
/// itself, then the JSON extracted from it. In raw-text mode no parsing is attempted and
/// the error explains why.
pub fn dimension_output_candidates(text: &str, mode: StructuredOutputMode) -> (r: Result<
    Vec<String>,
    String,
>)
    ensures
        mode == StructuredOutputMode::RawText ==> (match r {
            Err(e) => e@ == "RawText 模式 — 不尝试结构化解析"@,
            Ok(_) => false,
        }),
        mode != StructuredOutputMode::RawText ==> (match r {
            Ok(v) => v@.len() >= 1 && v@[0]@ == text@ && match extracted_json(text@) {
                Some(j) => v@.len() == 2 && v@[1]@ == j,
                None => v@.len() == 1,
            },
            Err(_) => false,
        }),
{
    match mode {
        StructuredOutputMode::RawText => Err(String::from_str("RawText 模式 — 不尝试结构化解析")),
        _ => {
            let mut v: Vec<String> = Vec::new();
            v.push(String::from_str(text));
            match extract_json_from_text(text) {
                Some(j) => v.push(j),
                None => {},
            }
            Ok(v)
        },
    }
}

/// When a reply could not be parsed, raw-text mode keeps the reply itself as the dimension's
/// summary, provided it is not blank.
pub fn keeps_raw_reply(text: &str, mode: StructuredOutputMode) -> (r: bool)
    ensures
        r == (!all_ws(text@) && mode == StructuredOutputMode::RawText),
{
    let v = to_chars(text);
    let (a, b) = trim_range(&v);
    a != b && mode == StructuredOutputMode::RawText
}


/// A ```json fence that holds valid JSON wins over any brace block, wherever that block
/// stands in the text; only without such a fence is the first balanced `{...}` block used.
pub proof fn lemma_fence_first(t: Seq<char>)
    ensures
        fence_json(t) matches Some(j) ==> extracted_json(t) == Some(j),
        fence_json(t) is None ==> extracted_json(t) == brace_json(t),
        extracted_json(t) is None <==> (fence_json(t) is None && brace_json(t) is None),
{
}

} // verus!
