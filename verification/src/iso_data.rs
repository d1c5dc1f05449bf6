use vstd::prelude::*;
use crate::original_device_data::OriginalDeviceData;

verus! {

/// A packet whose payload the device has already expanded to text.
#[derive(Debug, Copy, Clone)]
pub struct IsoData {
    pub raw: OriginalDeviceData,
}

} // verus!
