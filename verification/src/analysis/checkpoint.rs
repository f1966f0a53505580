//! Analysis checkpoints: deterministic ids and dimension progress bookkeeping.
use vstd::prelude::*;
use vstd::utf8::encode_utf8;
use vstd::string::{StringExecFns, StringSliceAdditionalSpecFns};
use crate::analysis::engine::hex_digit;
use crate::text::{push_char, to_chars, eq_str};
use sha2::Digest;

verus! {

/// The SHA-256 digest of a byte sequence.
pub uninterp spec fn sha256(data: Seq<u8>) -> Seq<u8>;

/// SHA-256 of `data` (`sha2::Sha256::digest`); a digest is 32 bytes long.
#[verifier::external_body]
fn sha256_digest(data: &[u8]) -> (r: Vec<u8>)
    ensures
        r@ == sha256(data@),
        r@.len() == 32,
{
    sha2::Sha256::digest(data).to_vec()
}

/// Lower-case hex of `bytes`, two digits per byte.
pub open spec fn hex_of(bytes: Seq<u8>) -> Seq<char> {
    Seq::new(
        2 * bytes.len(),
        |j: int|
            if j % 2 == 0 {
                hex_digit(bytes[j / 2] / 16)
            } else {
                hex_digit(bytes[j / 2] % 16)
            },
    )
}

/// The checkpoint id of a stock and date: the first 16 hex digits of the SHA-256 of
/// `"{secid}:{date}"`.
pub open spec fn checkpoint_id(secid: Seq<char>, date: Seq<char>) -> Seq<char> {
    hex_of(sha256(encode_utf8(secid + ":"@ + date)).take(8))
}

fn hex_digit_of(n: u8) -> (c: char)
    requires
        n < 16,
    ensures
        c == hex_digit(n),
{
    if n < 10 {
        (n + 48) as char
    } else {
        (n + 87) as char
    }
}

/// Deterministic analysis id: the same stock on the same day always gets the same id.
pub fn analysis_id(secid: &str, date: &str) -> (r: String)
    ensures
        r@ == checkpoint_id(secid@, date@),
        r@.len() == 16,
{
    let mut data = String::from_str(secid);
    data.append(":");
    data.append(date);
    let digest = sha256_digest(data.as_str().as_bytes());
    let mut out = String::new();
    let mut i: usize = 0;
    while i < 8
        invariant
            digest@.len() == 32,
            i <= 8,
            out@ == hex_of(digest@.take(i as int)),
        decreases 8 - i,
    {
        let b = digest[i];
        let ghost before = out@;
        push_char(&mut out, hex_digit_of(b / 16));
        push_char(&mut out, hex_digit_of(b % 16));
        assert(out@ =~= hex_of(digest@.take(i + 1))) by {
            let t = digest@.take(i + 1);
            assert forall|j: int| 0 <= j < 2 * (i + 1) implies #[trigger] out@[j] == hex_of(t)[j] by {
                if j < 2 * i {
                    assert(out@[j] == before[j]);
                    assert(t[j / 2] == digest@.take(i as int)[j / 2]);
                }
            }
        }
        i += 1;
    }
    out
}

/// `s` holds a string equal to `x`.
pub open spec fn holds_text(s: Seq<String>, x: Seq<char>) -> bool {
    exists|i: int| 0 <= i < s.len() && (#[trigger] s[i])@ == x
}

fn index_of(v: &Vec<String>, x: &str) -> (r: Option<usize>)
    ensures
        match r {
            Some(i) => i < v@.len() && v@[i as int]@ == x@,
            None => !holds_text(v@, x@),
        },
{
    let mut i: usize = 0;
    while i < v.len()
        invariant
            i <= v@.len(),
            forall|j: int| 0 <= j < i ==> (#[trigger] v@[j])@ != x@,
        decreases v.len() - i,
    {
        let cv = to_chars(v[i].as_str());
        if eq_str(&cv, x) {
            return Some(i);
        }
        i += 1;
    }
    None
}

/// Records that `dimension` is complete: every pending entry equal to it is dropped (the
/// others keep their order) and it is appended to the completed list unless already there.
pub fn mark_dimension_completed(pending: &mut Vec<String>, completed: &mut Vec<String>, dimension: &str)
    ensures
        final(pending)@.map_values(|s: String| s@) == old(pending)@.map_values(|s: String| s@).filter(
            |s: Seq<char>| s != dimension@,
        ),
        holds_text(old(completed)@, dimension@) ==> final(completed)@ == old(completed)@,
        !holds_text(old(completed)@, dimension@) ==> final(completed)@.len() == old(completed)@.len() + 1
            && final(completed)@.take(old(completed)@.len() as int) == old(completed)@
            && final(completed)@.last()@ == dimension@,
        !holds_text(final(pending)@, dimension@),
        holds_text(final(completed)@, dimension@),
{
    let ghost old_pending = pending@.map_values(|s: String| s@);
    let ghost pred = |s: Seq<char>| s != dimension@;
    let mut kept: Vec<String> = Vec::new();
    let mut i: usize = 0;
    while i < pending.len()
        invariant
            i <= pending@.len(),
            old_pending == pending@.map_values(|s: String| s@),
            pred == (|s: Seq<char>| s != dimension@),
            kept@.map_values(|s: String| s@) == old_pending.take(i as int).filter(pred),
        decreases pending.len() - i,
    {
        let cv = to_chars(pending[i].as_str());
        let same = eq_str(&cv, dimension);
        proof {
            assert(old_pending.take(i + 1).drop_last() =~= old_pending.take(i as int));
            reveal(Seq::filter);
        }
        if !same {
            kept.push(pending[i].clone());
        }
        assert(kept@.map_values(|s: String| s@) =~= old_pending.take(i + 1).filter(pred));
        i += 1;
    }
    assert(old_pending.take(pending@.len() as int) =~= old_pending);
    proof {
        let kv = kept@.map_values(|s: String| s@);
        assert forall|j: int| 0 <= j < kept@.len() implies (#[trigger] kept@[j])@ != dimension@ by {
            assert(kv[j] == kept@[j]@);
            old_pending.lemma_filter_pred(pred, j);
        }
    }
    *pending = kept;
    match index_of(completed, dimension) {
        Some(i) => {
            assert(completed@[i as int]@ == dimension@);
        },
        None => {
            completed.push(String::from_str(dimension));
            assert(completed@[completed@.len() - 1]@ == dimension@);
        },
    }
}

/// What to do with a stored checkpoint when an analysis starts.
#[derive(Debug, Clone, Copy, PartialEq, Eq, Structural)]
pub enum ResumeDecision {
    /// Last updated more than 24 whole hours ago: delete it and start over.
    DiscardExpired,
    /// No dimension is pending: delete it and start over.
    DiscardFinished,
    /// Continue from the completed dimensions.
    Resume,
}

/// The decision for a checkpoint last updated at `updated_at` (seconds) with `pending`
/// dimensions left, at time `now`: its age in whole hours (rounded toward zero) above 24
/// expires it; otherwise an empty pending list finishes it.
pub open spec fn resume_decision_of(updated_at: int, now: int, pending: int) -> ResumeDecision {
    if now - updated_at >= 25 * 3600 {
        ResumeDecision::DiscardExpired
    } else if pending == 0 {
        ResumeDecision::DiscardFinished
    } else {
        ResumeDecision::Resume
    }
}

/// Decides whether a stored checkpoint is resumed or discarded.
pub fn resume_decision(updated_at: i64, now: i64, pending: usize) -> (r: ResumeDecision)
    requires
        i64::MIN <= now - updated_at <= i64::MAX,
    ensures
        r == resume_decision_of(updated_at as int, now as int, pending as int),
{
    let age_hours: i64 = (now - updated_at) / 3600;
    if age_hours > 24 {
        ResumeDecision::DiscardExpired
    } else if pending == 0 {
        ResumeDecision::DiscardFinished
    } else {
        ResumeDecision::Resume
    }
}

} // verus!
