//! Rule-based dimension analysis: extracting the number written after a metric's label.
use vstd::prelude::*;
use crate::text::{find, is_first_occurrence_from, contains_seq, occurs_at, string_from_range, to_chars};

verus! {

/// A character that may start a number: a digit or `-`.
pub open spec fn starts_number(c: char) -> bool {
    ('0' <= c <= '9') || c == '-'
}

/// A character that may continue a number: a digit, `.` or `-`.
pub open spec fn continues_number(c: char) -> bool {
    ('0' <= c <= '9') || c == '.' || c == '-'
}

/// The number text after the first occurrence of `keyword` in `line`: starting at the first
/// digit or `-` after the keyword and running while digits, `.` and `-` follow.
pub open spec fn number_token(line: Seq<char>, keyword: Seq<char>) -> Option<Seq<char>> {
    if exists|p: int| is_first_occurrence_from(line, keyword, 0, p) {
        let p = choose|p: int| is_first_occurrence_from(line, keyword, 0, p);
        let after = p + keyword.len();
        if exists|s: int| after <= s < line.len() && starts_number(line[s]) {
            let s = choose|s: int|
                after <= s < line.len() && starts_number(line[s]) && forall|k: int|
                    after <= k < s ==> !starts_number(#[trigger] line[k]);
            let e = choose|e: int|
                s < e <= line.len() && (e == line.len() || !continues_number(line[e])) && forall|
                    k: int,
                | s <= k < e ==> continues_number(#[trigger] line[k]);
            Some(line.subrange(s, e))
        } else {
            None
        }
    } else {
        None
    }
}

/// The number text written after `keyword` in `line`, if the keyword occurs and a digit or
/// `-` follows it.
pub fn extract_number_token(line: &str, keyword: &str) -> (r: Option<String>)
    ensures
        match r {
            Some(t) => number_token(line@, keyword@) == Some(t@),
            None => number_token(line@, keyword@) is None,
        },
{
    let l = to_chars(line);
    let k = to_chars(keyword);
    let pos = match find(&l, &k) {
        Some(p) => p,
        None => {
            proof {
                if exists|p: int| is_first_occurrence_from(l@, k@, 0, p) {
                    let p = choose|p: int| is_first_occurrence_from(l@, k@, 0, p);
                    assert(occurs_at(l@, k@, p));
                }
            }
            return None;
        },
    };
    proof {
        assert(is_first_occurrence_from(l@, k@, 0, pos as int));
        let p = choose|p: int| is_first_occurrence_from(l@, k@, 0, p);
        assert(p == pos) by {
            if p < pos {
                assert(!occurs_at(l@, k@, p));
            }
            if pos < p {
                assert(!occurs_at(l@, k@, pos as int));
            }
        }
    }
    assert(occurs_at(l@, k@, pos as int));
    assert(pos + k@.len() <= l@.len());
    assert(l@.len() == l.len());
    let after = pos + k.len();
    let mut s = after;
    while s < l.len() && !(('0' <= l[s] && l[s] <= '9') || l[s] == '-')
        invariant
            after <= s <= l@.len(),
            forall|j: int| after <= j < s ==> !starts_number(#[trigger] l@[j]),
        decreases l.len() - s,
    {
        s += 1;
    }
    if s == l.len() {
        return None;
    }
    let mut e = s + 1;
    while e < l.len() && (('0' <= l[e] && l[e] <= '9') || l[e] == '.' || l[e] == '-')
        invariant
            s < e <= l@.len(),
            forall|j: int| s <= j < e ==> continues_number(#[trigger] l@[j]),
        decreases l.len() - e,
    {
        e += 1;
    }
    proof {
        let ghost si = s as int;
        let ghost ei = e as int;
        assert(after <= si < l@.len() && starts_number(l@[si]));
        let cs = choose|x: int|
            after <= x < l@.len() && starts_number(l@[x]) && forall|j: int|
                after <= j < x ==> !starts_number(#[trigger] l@[j]);
        assert(after <= si < l@.len() && starts_number(l@[si]) && forall|j: int|
            after <= j < si ==> !starts_number(#[trigger] l@[j]));
        assert(cs == si) by {
            if cs < si {
                assert(!starts_number(l@[cs]));
            }
            if si < cs {
                assert(!starts_number(l@[si]));
            }
        }
        let ce = choose|y: int|
            si < y <= l@.len() && (y == l@.len() || !continues_number(l@[y])) && forall|j: int|
                si <= j < y ==> continues_number(#[trigger] l@[j]);
        assert(si < ei <= l@.len() && (ei == l@.len() || !continues_number(l@[ei])) && forall|j: int|
            si <= j < ei ==> continues_number(#[trigger] l@[j]));
        assert(ce == ei) by {
            if ce < ei {
                assert(continues_number(l@[ce]));
            }
            if ei < ce {
                assert(continues_number(l@[ei]));
            }
        }
    }
    Some(string_from_range(&l, s, e))
}

} // verus!
