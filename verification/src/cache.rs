//! The disk cache of known devices: WeMo devices do not always answer a
//! broadcast, so their addresses are kept for unicast discovery.

use vstd::prelude::*;

verus! {

/// Where a known device was found.
#[derive(Debug, Clone, PartialEq, Eq)]
pub struct DeviceAddress {
    pub location: String,
    pub mac_address: String,
}

/// The disk cache of addresses of known devices: the file that holds it,
/// when the platform offers a place for it.
#[derive(Debug, Clone)]
pub struct DiskCache {
    pub cache_file: Option<String>,
}

impl DiskCache {
    /// The cache kept in `cache_file`, or no cache.
    pub fn at(cache_file: Option<String>) -> (c: DiskCache)
        ensures
            c.cache_file == cache_file,
    {
        DiskCache { cache_file }
    }
}

} // verus!
