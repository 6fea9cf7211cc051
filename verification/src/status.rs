use vstd::prelude::*;

verus! {

/// Status code the provider returns from a call that succeeded.
pub const STATUS_OK: i32 = 0;

/// Soft status the provider returns when a frame was read but judged not to
/// be a usable fingerprint image; mirrors the vendor's status-code table.
/// Capture treats it as non-fatal and still hands the buffer back.
pub const STATUS_WRONG_IMAGE: i32 = 57;

/// Byte every out-buffer is filled with before the provider writes into it,
/// so that a partial fill leaves a recognizable pattern rather than stale
/// memory.
pub const SENTINEL_BYTE: u8 = 0xCC;

/// Device selector asking the provider to auto-detect the attached scanner;
/// mirrors the vendor's device-name table.
pub const DEVICE_SELECTOR_AUTO: i32 = 255;

/// Logical slot at which the physical device is opened.
pub const DEVICE_PORT: i32 = 0;

/// Brightness applied during initialization when the caller supplies none.
pub const DEFAULT_BRIGHTNESS: u64 = 50;

/// Typed outcome of a failed session operation. Every variant except
/// `NotInitialized` carries the provider's native status code, so a caller
/// can tell which stage failed and report the code without interpreting the
/// vendor's tables itself.
#[derive(Debug, Clone, Copy, PartialEq, Eq, Structural)]
pub enum Error {
    /// The provider returned a null handle from object creation.
    HandleCreationFailed,
    /// Initializing the handle against the auto-detect selector failed.
    InitFailed(i32),
    /// Opening the physical device failed.
    OpenFailed(i32),
    /// Querying the device capabilities failed.
    InfoQueryFailed(i32),
    /// An operation that needs a live, initialized device was requested
    /// while the session holds none.
    NotInitialized,
    /// Frame capture failed with a status other than the soft wrong-image
    /// one.
    CaptureFailed(i32),
    /// Querying the maximum template size failed.
    TemplateSizeQueryFailed(i32),
    /// Template extraction from a captured frame failed.
    TemplateCreationFailed(i32),
    /// Template matching failed.
    MatchFailed(i32),
    /// Similarity scoring failed.
    ScoreFailed(i32),
    /// Closing the device failed.
    CloseFailed(i32),
}

} // verus!
