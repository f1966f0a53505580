//! Bull/bear debate participants.
use vstd::prelude::*;

verus! {

/// A party of the debate.
#[derive(Debug, Clone, Copy, PartialEq, Eq, Structural)]
pub enum DebateRole {
    Bull,
    Bear,
    ResearchManager,
}

/// The debate engine (the scoring itself works on floating-point weights).
pub struct DebateEngine;

} // verus!
