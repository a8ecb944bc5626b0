//! Membership test against the experiment registry.

use vstd::prelude::*;

use crate::store::Experiment;

verus! {

/// An identifier is known when some registry row carries exactly the same
/// character sequence. Comparison is exact: no case folding, no trimming,
/// no normalization of any kind.
pub open spec fn known_spec(rows: Seq<Experiment>, experiment_id: Seq<char>) -> bool {
    exists|i: int| 0 <= i < rows.len() && rows[i].experiment_id@ == experiment_id
}

/// Linear scan of the registry rows for an exact match on the identifier.
/// Returns true exactly when the identifier is a member of the registry;
/// an empty or otherwise unusual identifier is not special-cased, it is
/// simply looked up and will not match.
pub fn is_known(rows: &Vec<Experiment>, experiment_id: &str) -> (r: bool)
    ensures
        r == known_spec(rows@, experiment_id@),
{
    let needle: String = experiment_id.to_owned();
    let mut i: usize = 0;
    while i < rows.len()
        invariant
            0 <= i <= rows@.len(),
            needle@ == experiment_id@,
            forall|j: int| 0 <= j < i ==> rows@[j].experiment_id@ != experiment_id@,
        decreases rows@.len() - i,
    {
        if rows[i].experiment_id == needle {
            return true;
        }
        i = i + 1;
    }
    false
}

} // verus!
