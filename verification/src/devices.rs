//! The cameras that the system reports, as the rest of the program lists them.
use vstd::prelude::*;

verus! {

/// A camera as the program lists it: the index it is opened by, its name and
/// a description.
#[derive(Clone, Debug)]
pub struct CameraDeviceInfo {
    pub index: u32,
    pub name: String,
    pub description: String,
}

/// How the system identifies a camera it reports: by number, or by a name.
pub enum DeviceIndex {
    Number(u32),
    Named(String),
}

/// A camera as the system reports it.
pub struct FoundDevice {
    pub index: DeviceIndex,
    pub name: String,
    pub description: String,
}

/// The index under which the camera in position `position` of the report is
/// listed: its number, or, for a camera known by name, its position (taken
/// modulo 2^32).
pub open spec fn listed_index(position: int, index: DeviceIndex) -> u32 {
    match index {
        DeviceIndex::Number(n) => n,
        DeviceIndex::Named(_) => position as u32,
    }
}

/// Whether `info` lists the camera `found` that stands in position `position`.
pub open spec fn lists(info: CameraDeviceInfo, position: int, found: FoundDevice) -> bool {
    &&& info.index == listed_index(position, found.index)
    &&& info.name@ == found.name@
    &&& info.description@ == found.description@
}

/// The listing of the cameras that the system reported, in its order.
pub fn list_devices_from(found: &[FoundDevice]) -> (list: Vec<CameraDeviceInfo>)
    ensures
        list.len() == found.len(),
        forall|i: int| 0 <= i < found.len() ==> lists(#[trigger] list@[i], i, found@[i]),
{
    let mut list: Vec<CameraDeviceInfo> = Vec::new();
    let mut i: usize = 0;
    while i < found.len()
        invariant
            i <= found.len(),
            list.len() == i,
            forall|j: int| 0 <= j < i ==> lists(#[trigger] list@[j], j, found@[j]),
        decreases found.len() - i,
    {
        let dev = &found[i];
        let index = match &dev.index {
            DeviceIndex::Number(n) => *n,
            DeviceIndex::Named(_) => {
                #[verifier::truncate]
                (i as u32)
            },
        };
        list.push(
            CameraDeviceInfo {
                index,
                name: dev.name.clone(),
                description: dev.description.clone(),
            },
        );
        i += 1;
    }
    list
}

} // verus!
