use vstd::prelude::*;

verus! {

/// Immutable snapshot of the capabilities the provider reports for an open
/// device. All numeric fields use one canonical 64-bit width internally;
/// narrowing or widening to whatever width the provider's native layout uses
/// on a given platform happens at the boundary that reads the native struct.
#[derive(Debug, Clone, PartialEq)]
pub struct DeviceInfo {
    pub device_id: u64,
    pub device_sn: String,
    pub brightness: u64,
    pub contrast: u64,
    pub gain: u64,
    pub image_dpi: u64,
    pub fw_version: u64,
    pub image_width: u64,
    pub image_height: u64,
    pub com_speed: u64,
    pub com_port: u64,
}

impl DeviceInfo {
    /// Number of bytes in one raw frame: width times height.
    pub open spec fn frame_len(self) -> int {
        self.image_width * self.image_height
    }

    /// A frame sized from these capabilities must fit in one allocation on
    /// this machine.
    pub open spec fn wf(self) -> bool {
        self.frame_len() <= usize::MAX as int
    }
}

} // verus!
