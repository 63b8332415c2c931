use vstd::prelude::*;

use crate::ids::ChangesetId;
use crate::path::same_bytes;

verus! {

/// Whether a commit is still a draft or has been published.
#[derive(Clone, Copy, Debug, PartialEq, Eq, Hash, Structural)]
pub enum Phase {
    Draft,
    Public,
}

/// What to ask about a commit before its phase is known.
#[derive(Clone, Debug, PartialEq, Eq)]
pub enum PhaseQuery {
    /// A public bookmark points at the commit: it is public with no more work.
    Known(Phase),
    /// Ask, for each of these public heads, whether the commit is its ancestor.
    Reachability(Vec<ChangesetId>),
}

/// A public bookmark points at `cs_id`.
pub open spec fn is_public_head(cs_id: ChangesetId, public_heads: Seq<ChangesetId>) -> bool {
    exists|i: int| 0 <= i < public_heads.len() && (#[trigger] public_heads[i]).0@ == cs_id.0@
}

/// The first step of finding a commit's phase from the commits that public
/// bookmarks point at: a commit that one of them points at is public at once;
/// otherwise each head must be asked about.
pub fn phase_query(cs_id: &ChangesetId, public_heads: &Vec<ChangesetId>) -> (r: PhaseQuery)
    ensures
        is_public_head(*cs_id, public_heads@) ==> r == PhaseQuery::Known(Phase::Public),
        !is_public_head(*cs_id, public_heads@) ==> r is Reachability && r->Reachability_0@
            == public_heads@,
{
    let mut i: usize = 0;
    while i < public_heads.len()
        invariant
            i <= public_heads@.len(),
            forall|j: int| 0 <= j < i ==> (#[trigger] public_heads@[j]).0@ != cs_id.0@,
        decreases public_heads@.len() - i,
    {
        if same_bytes(public_heads[i].0.as_slice(), cs_id.0.as_slice()) {
            return PhaseQuery::Known(Phase::Public);
        }
        i = i + 1;
    }
    PhaseQuery::Reachability(public_heads.clone())
}

/// The phase once each public head has answered whether the commit is its
/// ancestor: public if any said yes, else draft.
pub fn phase_from_reachability(answers: &Vec<bool>) -> (r: Phase)
    ensures
        r == (if answers@.contains(true) {
            Phase::Public
        } else {
            Phase::Draft
        }),
{
    let mut i: usize = 0;
    while i < answers.len()
        invariant
            i <= answers@.len(),
            forall|j: int| 0 <= j < i ==> !answers@[j],
        decreases answers@.len() - i,
    {
        if answers[i] {
            return Phase::Public;
        }
        i = i + 1;
    }
    Phase::Draft
}

} // verus!
