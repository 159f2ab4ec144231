//! Plain data describing the remote collaborators: the shape of an LXD
//! operation notification and the distributed-storage service stub. The
//! remote endpoints themselves acknowledge and do nothing more, so nothing
//! here carries behaviour.

use vstd::prelude::*;

verus! {

/// The resources an LXD operation reports as affected.
#[derive(Clone, Debug, PartialEq)]
pub struct LxdResources {
    pub containers: Option<Vec<String>>,
    pub instances: Option<Vec<String>>,
}

/// One operation notification as LXD reports it.
#[derive(Clone, Debug, PartialEq)]
pub struct LxdOperation {
    pub id: String,
    pub class: String,
    pub description: String,
    pub status: String,
    pub status_code: u32,
    pub resources: Option<LxdResources>,
}

/// The distributed-storage service: store, launch, heartbeat and replicate
/// endpoints that today acknowledge every call. The transport that exposes
/// it lives outside the library.
#[derive(Clone, Copy, Debug, PartialEq, Eq, Structural)]
pub struct DfsRpcService;

impl DfsRpcService {
    /// A fresh service handle.
    pub fn new() -> (r: DfsRpcService)
        ensures
            r == DfsRpcService,
    {
        DfsRpcService
    }
}

} // verus!
