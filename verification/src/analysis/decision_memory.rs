//! Decision memory: the status of a stored decision.
use vstd::prelude::*;
use crate::text::str_is;

verus! {

/// Whether a stored decision has been checked against the next day's return.
#[derive(Debug, Clone, Copy, PartialEq, Eq, Structural)]
pub enum DecisionStatus {
    Pending,
    Reflected,
}

/// The stored name of each status.
pub open spec fn status_name(s: DecisionStatus) -> Seq<char> {
    match s {
        DecisionStatus::Pending => "pending"@,
        DecisionStatus::Reflected => "reflected"@,
    }
}

/// The status stored as `s`: `reflected`, or pending for anything else.
pub open spec fn status_from_name(s: Seq<char>) -> DecisionStatus {
    if s == "reflected"@ {
        DecisionStatus::Reflected
    } else {
        DecisionStatus::Pending
    }
}

impl DecisionStatus {
    /// The stored name.
    pub fn as_str(&self) -> (r: &'static str)
        ensures
            r@ == status_name(*self),
    {
        match self {
            Self::Pending => "pending",
            Self::Reflected => "reflected",
        }
    }

    /// Parses a stored name; anything but `reflected` is pending.
    pub fn from_str(s: &str) -> (r: Self)
        ensures
            r == status_from_name(s@),
    {
        if str_is(s, "reflected") {
            Self::Reflected
        } else {
            Self::Pending
        }
    }
}

/// Reading back a stored status gives the status that was stored.
pub proof fn lemma_status_round_trip(s: DecisionStatus)
    ensures
        status_from_name(status_name(s)) == s,
{
    reveal_strlit("pending");
    reveal_strlit("reflected");
    if s == DecisionStatus::Pending {
        assert("pending"@.len() != "reflected"@.len());
    }
}

} // verus!
