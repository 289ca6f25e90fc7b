//! The reconciler: merges a freshly fetched resource snapshot into view
//! state. The server is the single source of truth for list resources, so
//! merging is always full replacement — the old snapshot is discarded
//! wholesale, never combined field by field with the new one.

use vstd::prelude::*;

use crate::polling::Snapshot;

verus! {

/// Replaces the view's snapshot with the fresh one in full: after the call
/// the slot holds exactly the fresh snapshot, and records present only in the
/// old one are gone.
pub fn replace<T>(slot: &mut Snapshot<T>, fresh: Snapshot<T>)
    ensures
        *final(slot) == fresh,
{
    *slot = fresh;
}

} // verus!
