//! Three-way edit-conflict resolution: a pure per-record policy keyed on
//! the conflict type.
//!
//! - `text_insertion`: keep both insertions, joined by one space.
//! - `text_deletion`: keep the change with fewer characters; a tie keeps
//!   the first user's change.
//! - `text_modification`: keep the second user's change, treated as the
//!   most recent (the timestamp field is carried through but not read).
//! - anything else: ask for manual resolution.

use vstd::prelude::*;
use vstd::string::StringExecFns;
use vstd::string::StrSliceExecFns;

verus! {

/// One pre-detected edit conflict. The resolver reads every field except
/// `resolution_suggestion`, which it overwrites.
pub struct CollaborationConflict {
    pub conflict_id: String,
    pub conflict_type: String,
    pub start_pos: usize,
    pub end_pos: usize,
    pub user_a_change: String,
    pub user_b_change: String,
    pub timestamp: String,
    pub resolution_suggestion: String,
}

/// The resolution the policy assigns to one conflict.
pub open spec fn spec_resolution(c: CollaborationConflict) -> Seq<char> {
    if c.conflict_type@ == "text_insertion"@ {
        c.user_a_change@ + " "@ + c.user_b_change@
    } else if c.conflict_type@ == "text_deletion"@ {
        if c.user_a_change@.len() <= c.user_b_change@.len() {
            c.user_a_change@
        } else {
            c.user_b_change@
        }
    } else if c.conflict_type@ == "text_modification"@ {
        c.user_b_change@
    } else {
        "Manual resolution required"@
    }
}

/// All fields but the resolution suggestion carry over unchanged.
pub open spec fn fields_carried(o: CollaborationConflict, n: CollaborationConflict) -> bool {
    &&& n.conflict_id@ == o.conflict_id@
    &&& n.conflict_type@ == o.conflict_type@
    &&& n.start_pos == o.start_pos
    &&& n.end_pos == o.end_pos
    &&& n.user_a_change@ == o.user_a_change@
    &&& n.user_b_change@ == o.user_b_change@
    &&& n.timestamp@ == o.timestamp@
}

/// Computes the resolution suggestion for one conflict.
pub fn resolve_one(c: &CollaborationConflict) -> (r: String)
    ensures
        r@ == spec_resolution(*c),
{
    let insertion = String::from_str("text_insertion");
    let deletion = String::from_str("text_deletion");
    let modification = String::from_str("text_modification");
    if c.conflict_type == insertion {
        c.user_a_change.clone().concat(" ").concat(c.user_b_change.as_str())
    } else if c.conflict_type == deletion {
        if c.user_a_change.as_str().unicode_len() <= c.user_b_change.as_str().unicode_len() {
            c.user_a_change.clone()
        } else {
            c.user_b_change.clone()
        }
    } else if c.conflict_type == modification {
        c.user_b_change.clone()
    } else {
        String::from_str("Manual resolution required")
    }
}

/// Resolves a list of conflicts: the result has the same length and order,
/// every field of each record carries over, and only the resolution
/// suggestion is overwritten with the policy's choice.
pub fn resolve_conflict_list(conflicts: Vec<CollaborationConflict>) -> (r: Vec<
    CollaborationConflict,
>)
    ensures
        r@.len() == conflicts@.len(),
        forall|i: int|
            0 <= i < conflicts@.len() ==> fields_carried(conflicts@[i], #[trigger] r@[i])
                && r@[i].resolution_suggestion@ == spec_resolution(conflicts@[i]),
{
    let n = conflicts.len();
    let mut r: Vec<CollaborationConflict> = Vec::new();
    let mut i: usize = 0;
    while i < n
        invariant
            n == conflicts@.len(),
            i <= n,
            r@.len() == i,
            forall|k: int|
                0 <= k < i ==> fields_carried(conflicts@[k], #[trigger] r@[k])
                    && r@[k].resolution_suggestion@ == spec_resolution(conflicts@[k]),
        decreases n - i,
    {
        let c = &conflicts[i];
        let suggestion = resolve_one(c);
        let resolved = CollaborationConflict {
            conflict_id: c.conflict_id.clone(),
            conflict_type: c.conflict_type.clone(),
            start_pos: c.start_pos,
            end_pos: c.end_pos,
            user_a_change: c.user_a_change.clone(),
            user_b_change: c.user_b_change.clone(),
            timestamp: c.timestamp.clone(),
            resolution_suggestion: suggestion,
        };
        r.push(resolved);
        i = i + 1;
    }
    r
}

} // verus!
