//! The filesystem-change event model: the hierarchical kind taxonomy delivered
//! by the OS notification facility, the closed set of actions the remote VM
//! manager can be asked to take, and the classified event that crosses the
//! wire. Every type carries a mathematical view so that contracts elsewhere
//! can speak of path and name contents as sequences of characters.

use vstd::prelude::*;

verus! {

/// How a file was opened or closed when an access was observed.
#[derive(Clone, Copy, Debug, PartialEq, Eq, Structural)]
pub enum AccessMode {
    Any,
    Read,
    Execute,
    Write,
    Other,
}

/// Sub-kinds of an access event.
#[derive(Clone, Copy, Debug, PartialEq, Eq, Structural)]
pub enum AccessKind {
    Any,
    Read,
    Open(AccessMode),
    Close(AccessMode),
    Other,
}

/// Sub-kinds of a creation event.
#[derive(Clone, Copy, Debug, PartialEq, Eq, Structural)]
pub enum CreateKind {
    Any,
    File,
    Folder,
    Other,
}

/// What changed when file data was modified.
#[derive(Clone, Copy, Debug, PartialEq, Eq, Structural)]
pub enum DataChange {
    Any,
    Size,
    Content,
    Other,
}

/// Which side of a rename an event describes.
#[derive(Clone, Copy, Debug, PartialEq, Eq, Structural)]
pub enum RenameMode {
    Any,
    To,
    From,
    Both,
    Other,
}

/// Which piece of metadata was modified.
#[derive(Clone, Copy, Debug, PartialEq, Eq, Structural)]
pub enum MetadataKind {
    Any,
    Other,
    Extended,
    WriteTime,
    Ownership,
    AccessTime,
    Permissions,
}

/// Sub-kinds of a modification event.
#[derive(Clone, Copy, Debug, PartialEq, Eq, Structural)]
pub enum ModifyKind {
    Any,
    Data(DataChange),
    Name(RenameMode),
    Metadata(MetadataKind),
    Other,
}

/// Sub-kinds of a removal event.
#[derive(Clone, Copy, Debug, PartialEq, Eq, Structural)]
pub enum RemoveKind {
    Any,
    File,
    Folder,
    Other,
}

/// The top level of the kind taxonomy.
#[derive(Clone, Copy, Debug, PartialEq, Eq, Structural)]
pub enum EventKind {
    Any,
    Access(AccessKind),
    Create(CreateKind),
    Modify(ModifyKind),
    Remove(RemoveKind),
    Other,
}

/// One detected filesystem change: its kind and the absolute paths affected.
#[derive(Clone, Debug, PartialEq)]
pub struct FsEvent {
    pub kind: EventKind,
    pub paths: Vec<String>,
}

/// The mathematical value of an [`FsEvent`]: the kind together with the
/// affected paths as character sequences.
pub ghost struct FsEventView {
    pub kind: EventKind,
    pub paths: Seq<Seq<char>>,
}

impl View for FsEvent {
    type V = FsEventView;

    open spec fn view(&self) -> FsEventView {
        FsEventView { kind: self.kind, paths: self.paths.deep_view() }
    }
}

impl DeepView for FsEvent {
    type V = FsEventView;

    open spec fn deep_view(&self) -> FsEventView {
        self.view()
    }
}

impl FsEvent {
    /// Builds an event from its kind and affected paths.
    pub fn new(kind: EventKind, paths: Vec<String>) -> (r: FsEvent)
        ensures
            r@.kind == kind,
            r@.paths == paths.deep_view(),
    {
        FsEvent { kind, paths }
    }
}

/// The action the remote VM manager is asked to take for one event.
#[derive(Clone, Debug, PartialEq)]
pub enum VmmAction {
    Copy,
    Migrate,
    Snapshot,
    Rollup,
    Other(String),
}

/// The mathematical value of a [`VmmAction`], with the free-form reason of
/// `Other` as a character sequence.
pub ghost enum VmmActionView {
    Copy,
    Migrate,
    Snapshot,
    Rollup,
    Other(Seq<char>),
}

impl View for VmmAction {
    type V = VmmActionView;

    open spec fn view(&self) -> VmmActionView {
        match self {
            VmmAction::Copy => VmmActionView::Copy,
            VmmAction::Migrate => VmmActionView::Migrate,
            VmmAction::Snapshot => VmmActionView::Snapshot,
            VmmAction::Rollup => VmmActionView::Rollup,
            VmmAction::Other(reason) => VmmActionView::Other(reason@),
        }
    }
}

impl DeepView for VmmAction {
    type V = VmmActionView;

    open spec fn deep_view(&self) -> VmmActionView {
        self.view()
    }
}

/// The unit transmitted on the classified-event topic: the originating event,
/// the action derived for it, and the name of the instance it belongs to, when
/// one could be resolved from the first affected path.
#[derive(Clone, Debug, PartialEq)]
pub struct LibrettoEvent {
    pub event: FsEvent,
    pub action: VmmAction,
    pub instance_name: Option<String>,
}

/// The mathematical value of a [`LibrettoEvent`].
pub ghost struct LibrettoEventView {
    pub event: FsEventView,
    pub action: VmmActionView,
    pub instance_name: Option<Seq<char>>,
}

impl View for LibrettoEvent {
    type V = LibrettoEventView;

    open spec fn view(&self) -> LibrettoEventView {
        LibrettoEventView {
            event: self.event@,
            action: self.action@,
            instance_name: self.instance_name.deep_view(),
        }
    }
}

impl DeepView for LibrettoEvent {
    type V = LibrettoEventView;

    open spec fn deep_view(&self) -> LibrettoEventView {
        self.view()
    }
}

impl LibrettoEvent {
    /// Builds a classified event from its parts.
    pub fn new(event: FsEvent, action: VmmAction, instance_name: Option<String>) -> (r:
        LibrettoEvent)
        ensures
            r@.event == event@,
            r@.action == action@,
            r@.instance_name == instance_name.deep_view(),
    {
        LibrettoEvent { event, action, instance_name }
    }

    /// The originating filesystem event.
    pub fn event(&self) -> (r: &FsEvent)
        ensures
            r@ == self@.event,
    {
        &self.event
    }

    /// The action derived for the event.
    pub fn action(&self) -> (r: &VmmAction)
        ensures
            r@ == self@.action,
    {
        &self.action
    }

    /// The instance the event was resolved to, if any.
    pub fn instance_name(&self) -> (r: &Option<String>)
        ensures
            r.deep_view() == self@.instance_name,
    {
        &self.instance_name
    }
}

} // verus!
