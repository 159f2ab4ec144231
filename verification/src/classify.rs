//! The action classifier: the deterministic, total mapping from the event
//! kind taxonomy to the action the remote VM manager must take. Changes that
//! affect payload bytes or file identity demand a full copy; metadata-only
//! changes that leave payload bytes alone are cheap and are rolled up;
//! unclassified top-level kinds are snapshotted; plain accesses that do not
//! end a write or an execute are observed only and produce no action.

use vstd::prelude::*;

use crate::event::{AccessKind, AccessMode, EventKind, FsEvent, FsEventView, LibrettoEvent,
    LibrettoEventView, MetadataKind, ModifyKind, VmmAction, VmmActionView};
use crate::paths::{instance_name_of, spec_instance_name};

verus! {

/// The classification table. `None` means the event is observed only and no
/// action is emitted.
pub open spec fn spec_classify(kind: EventKind) -> Option<VmmActionView> {
    match kind {
        EventKind::Any => None,
        EventKind::Access(access) => match access {
            AccessKind::Close(AccessMode::Execute) => Some(VmmActionView::Copy),
            AccessKind::Close(AccessMode::Write) => Some(VmmActionView::Copy),
            _ => None,
        },
        EventKind::Create(_) => Some(VmmActionView::Copy),
        EventKind::Modify(modify) => match modify {
            ModifyKind::Any => Some(VmmActionView::Copy),
            ModifyKind::Data(_) => Some(VmmActionView::Copy),
            ModifyKind::Name(_) => Some(VmmActionView::Copy),
            ModifyKind::Metadata(meta) => match meta {
                MetadataKind::Ownership => Some(VmmActionView::Copy),
                MetadataKind::Permissions => Some(VmmActionView::Copy),
                _ => Some(VmmActionView::Rollup),
            },
            ModifyKind::Other => Some(VmmActionView::Copy),
        },
        EventKind::Remove(_) => Some(VmmActionView::Copy),
        EventKind::Other => Some(VmmActionView::Snapshot),
    }
}

/// Maps an event kind to the action it calls for, or `None` when the event is
/// observed only. Pure and total: the same kind always yields the same
/// answer, and no kind fails to classify.
pub fn classify(kind: EventKind) -> (r: Option<VmmAction>)
    ensures
        r.deep_view() == spec_classify(kind),
{
    match kind {
        EventKind::Any => None,
        EventKind::Access(access) => match access {
            AccessKind::Close(AccessMode::Execute) => Some(VmmAction::Copy),
            AccessKind::Close(AccessMode::Write) => Some(VmmAction::Copy),
            _ => None,
        },
        EventKind::Create(_) => Some(VmmAction::Copy),
        EventKind::Modify(modify) => match modify {
            ModifyKind::Any => Some(VmmAction::Copy),
            ModifyKind::Data(_) => Some(VmmAction::Copy),
            ModifyKind::Name(_) => Some(VmmAction::Copy),
            ModifyKind::Metadata(meta) => match meta {
                MetadataKind::Ownership => Some(VmmAction::Copy),
                MetadataKind::Permissions => Some(VmmAction::Copy),
                _ => Some(VmmAction::Rollup),
            },
            ModifyKind::Other => Some(VmmAction::Copy),
        },
        EventKind::Remove(_) => Some(VmmAction::Copy),
        EventKind::Other => Some(VmmAction::Snapshot),
    }
}

/// What the relay does with one received event: the classified event to
/// publish, or `None` when the kind calls for no action or the event affects
/// no path. The instance name is resolved from the first affected path.
pub open spec fn spec_relay_decision(e: FsEventView) -> Option<LibrettoEventView> {
    match spec_classify(e.kind) {
        Some(action) => if e.paths.len() >= 1 {
            Some(
                LibrettoEventView {
                    event: e,
                    action: action,
                    instance_name: spec_instance_name(e.paths[0]),
                },
            )
        } else {
            None
        },
        None => None,
    }
}

/// Turns one received event into the classified event to publish, or `None`
/// when the event is observed only: its kind calls for no action, or it
/// affects no path.
pub fn relay_decision(event: FsEvent) -> (r: Option<LibrettoEvent>)
    ensures
        r.deep_view() == spec_relay_decision(event@),
{
    let action = match classify(event.kind) {
        Some(action) => action,
        None => {
            return None;
        },
    };
    if event.paths.len() == 0 {
        return None;
    }
    let instance = instance_name_of(event.paths[0].as_str());
    proof {
        assert(event.paths@[0]@ == event@.paths[0]);
    }
    Some(LibrettoEvent::new(event, action, instance))
}

} // verus!
