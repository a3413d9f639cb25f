//! The slot through which a tenant's current snapshot is published: an
//! `ArcSwap` of the `arc_swap` crate, shared by the tenant's router, which
//! alone stores into it, and by the readers, which only load from it.
//!
//! Nothing in this file is proved. What the slot holds is a matter of the
//! one handle that stores: of that handle it is said what a load returns.
//! Of a reader's handle nothing is said, since the router may have stored
//! between any two of its loads.

use vstd::prelude::*;
use std::sync::Arc;
use arc_swap::ArcSwap;
use crate::router::AppRouterInner;

verus! {

/// The storing handle on a slot. There is one for each slot, and it is
/// never copied.
#[verifier::external_body]
pub struct SnapshotCell {
    slot: Arc<ArcSwap<AppRouterInner>>,
}

/// A loading handle on a slot.
#[verifier::external_body]
pub struct SnapshotReader {
    slot: Arc<ArcSwap<AppRouterInner>>,
}

/// The snapshot that the slot of a storing handle holds: the one it was
/// made with, or the one that was stored last.
pub uninterp spec fn cell_holds(cell: SnapshotCell) -> Arc<AppRouterInner>;

/// The loading handle on the slot of a storing handle.
pub uninterp spec fn reader_on(cell: SnapshotCell) -> SnapshotReader;

/// `ArcSwap::new`: a slot that holds `first`.
#[verifier::external_body]
pub(crate) fn cell_new(first: Arc<AppRouterInner>) -> (cell: SnapshotCell)
    ensures
        cell_holds(cell) == first,
{
    SnapshotCell { slot: Arc::new(ArcSwap::new(first)) }
}

/// `ArcSwap::store`: replaces what the slot holds by `next`, in one step.
/// The slot stays the same slot, so its loading handles stay what they
/// were.
#[verifier::external_body]
pub(crate) fn cell_store(cell: &mut SnapshotCell, next: Arc<AppRouterInner>)
    ensures
        cell_holds(*final(cell)) == next,
        reader_on(*final(cell)) == reader_on(*old(cell)),
{
    cell.slot.store(next)
}

/// `ArcSwap::load_full` on the storing handle: the snapshot that the slot
/// holds. No one else stores into the slot, so it is the one stored last.
#[verifier::external_body]
pub(crate) fn cell_load(cell: &SnapshotCell) -> (held: Arc<AppRouterInner>)
    ensures
        held == cell_holds(*cell),
{
    cell.slot.load_full()
}

/// `Arc::clone`: a loading handle on the same slot.
#[verifier::external_body]
pub(crate) fn cell_share(cell: &SnapshotCell) -> (reader: SnapshotReader)
    ensures
        reader == reader_on(*cell),
{
    SnapshotReader { slot: cell.slot.clone() }
}

/// `ArcSwap::load_full` on a loading handle: the snapshot that the slot
/// holds at this moment, whole. It does not wait for a store.
#[verifier::external_body]
pub(crate) fn reader_load(reader: &SnapshotReader) -> Arc<AppRouterInner> {
    reader.slot.load_full()
}

} // verus!
