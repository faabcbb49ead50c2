//! Health probing of the inference server's model catalog.
//!
//! The HTTP `GET` of the catalog endpoint lives outside the library; its
//! observation comes in as a [`ProbeOutcome`]. The verdict here never treats
//! an unreachable server as an error: unhealthy is an expected steady state,
//! so every outcome maps to a plain boolean.

use vstd::prelude::*;
use crate::text::{contains_seq, str_contains};

verus! {

/// What a probe of the catalog endpoint observed.
pub enum ProbeOutcome {
    /// Transport-level failure: the server was unreachable.
    Unreachable,
    /// The server answered with an error status, or its body could not be
    /// read.
    Failed,
    /// A successful response whose body was this text.
    Catalog { body: String },
}

/// Healthy means: the catalog was fetched and its text mentions at least one
/// candidate model. Every failure, the unreachable server included, is
/// simply "not healthy".
pub open spec fn spec_healthy(outcome: ProbeOutcome, candidates: Seq<Seq<char>>) -> bool {
    outcome matches ProbeOutcome::Catalog { body } && exists|i: int|
        0 <= i < candidates.len() && contains_seq(body@, #[trigger] candidates[i])
}

/// Decide health from one probe's observation.
pub fn interpret_health_probe(outcome: ProbeOutcome, candidates: &Vec<String>) -> (healthy: bool)
    ensures
        healthy == spec_healthy(outcome, candidates@.map_values(|s: String| s@)),
{
    let ghost cs = candidates@.map_values(|s: String| s@);
    match outcome {
        ProbeOutcome::Catalog { body } => {
            let mut i: usize = 0;
            while i < candidates.len()
                invariant
                    outcome matches ProbeOutcome::Catalog { body: b } && b == body,
                    0 <= i <= candidates.len(),
                    cs == candidates@.map_values(|s: String| s@),
                    cs.len() == candidates@.len(),
                    forall|j: int| 0 <= j < i ==> !contains_seq(body@, #[trigger] cs[j]),
                decreases candidates.len() - i,
            {
                if str_contains(body.as_str(), candidates[i].as_str()) {
                    proof {
                        assert(candidates@.map_values(|s: String| s@).len() == candidates@.len());
                        assert(0 <= i < candidates@.map_values(|s: String| s@).len());
                        assert(contains_seq(
                            body@,
                            candidates@.map_values(|s: String| s@)[i as int],
                        ));
                    }
                    return true;
                }
                i += 1;
            }
            false
        },
        ProbeOutcome::Unreachable => false,
        ProbeOutcome::Failed => false,
    }
}

} // verus!
