use vstd::prelude::*;

verus! {

/// Tearing-effect output of the controller.
#[derive(Clone, Copy, Debug, PartialEq, Eq, Structural)]
pub enum TearingEffect {
    /// Output off.
    Off,
    /// Signal on vertical blanking only.
    VBlankOnly,
    /// Signal on horizontal and vertical blanking.
    HAndVBlank,
}

/// Response to "read display identification": three raw bytes.
#[derive(Copy, Clone, Default, Debug)]
pub struct DisplayIdentification {
    pub raw: [u8; 3],
}

/// Response to "read display status": four raw bytes.
#[derive(Copy, Clone, Default, Debug)]
pub struct DisplayStatus {
    pub raw: [u8; 4],
}

/// Response to "read display power mode": one raw byte.
#[derive(Copy, Clone, Default, Debug)]
pub struct DisplayPowerMode {
    pub raw: [u8; 1],
}

/// Response to "read display MADCTL": one raw byte.
#[derive(Copy, Clone, Default, Debug)]
pub struct MADCtl {
    pub raw: [u8; 1],
}

/// Pixel format byte, as read back or as set.
#[derive(Copy, Clone, Default, Debug)]
pub struct PixelFormat {
    pub raw: [u8; 1],
}

/// Response to "read display image format": one raw byte.
#[derive(Copy, Clone, Default, Debug)]
pub struct ImageFormat {
    pub raw: [u8; 1],
}

/// Response to "read display signal mode": one raw byte.
#[derive(Copy, Clone, Default, Debug)]
pub struct SignalMode {
    pub raw: [u8; 1],
}

/// Response to "read display self-diagnostic result": one raw byte.
#[derive(Copy, Clone, Default, Debug)]
pub struct SelfDiagnosticResult {
    pub raw: [u8; 1],
}

/// Memory access control byte (scan direction, RGB/BGR order).
#[derive(Copy, Clone, Default, Debug)]
pub struct MemoryAccessControl {
    pub raw: [u8; 1],
}

/// CTRL display byte, as read back or as written.
#[derive(Copy, Clone, Default, Debug)]
pub struct CtrlDisplay {
    pub raw: [u8; 1],
}

} // verus!
