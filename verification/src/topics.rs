//! The two logical channels multiplexed over the wire. A topic is only a
//! text identifier carried in each frame; both channels share one header
//! shape and differ in nothing else.

use vstd::prelude::*;

verus! {

/// The topic on which raw filesystem-change events travel.
#[derive(Clone, Copy, Debug, PartialEq, Eq, Structural)]
pub struct FilesystemTopic;

impl FilesystemTopic {
    /// The topic name as framed on the wire.
    pub fn name(&self) -> (r: String)
        ensures
            r@ == "FilesystemTopic"@,
    {
        "FilesystemTopic".to_owned()
    }
}

/// The topic on which classified events travel.
#[derive(Clone, Copy, Debug, PartialEq, Eq, Structural)]
pub struct LibrettoTopic;

impl LibrettoTopic {
    /// The topic name as framed on the wire.
    pub fn name(&self) -> (r: String)
        ensures
            r@ == "LibrettoTopic"@,
    {
        "LibrettoTopic".to_owned()
    }
}

} // verus!
