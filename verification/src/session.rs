use crate::info::DeviceInfo;
use crate::status::{Error, DEFAULT_BRIGHTNESS, SENTINEL_BYTE, STATUS_OK, STATUS_WRONG_IMAGE};
use vstd::prelude::*;

verus! {

/// Where a session stands in its lifecycle. The externally meaningful
/// states are `Idle` (nothing acquired), `Ready` (device open, capabilities
/// cached) and `Closed` (torn down); the stages in between record how far a
/// running initialization sequence has come, so that a failure is captured
/// at the exact step that produced it.
#[derive(Debug, Clone, Copy, PartialEq, Eq, Structural)]
pub enum Stage {
    /// No handle acquired; only initialization is valid from here.
    Idle,
    /// Initialization requested; awaiting the provider's handle.
    Starting,
    /// The provider handed out a non-null handle.
    HandleCreated,
    /// The handle was initialized against the auto-detect selector.
    HandleInitialized,
    /// The physical device was opened.
    DeviceOpened,
    /// Capabilities are cached; capture and template operations are valid.
    Ready,
    /// The session was torn down; the handle was released.
    Closed,
}

/// One fire-and-forget configuration call applied between opening the
/// device and querying its capabilities. The status of these calls is
/// deliberately not checked: not every provider variant implements every
/// setter, and a missing one must not abort initialization.
#[derive(Debug, Clone, Copy, PartialEq, Eq, Structural)]
pub enum ConfigAction {
    SetBrightness(u64),
    SetFakeDetectionLevel(i32),
    EnableSmartCapture(bool),
    EnableCheckOfFingerLiveness(i32),
}

/// One step of releasing the provider handle at the end of a session's
/// usable lifetime.
#[derive(Debug, Clone, Copy, PartialEq, Eq, Structural)]
pub enum CleanupAction {
    CloseDevice,
    Terminate,
}

/// The brightness level initialization applies: the caller's value if one
/// was supplied, the default otherwise.
pub open spec fn brightness_or_default(brightness: Option<u64>) -> u64 {
    match brightness {
        Option::Some(v) => v,
        Option::None => DEFAULT_BRIGHTNESS,
    }
}

/// The exact ordered list of configuration calls initialization performs:
/// brightness always (defaulted if unset), then each optional setter that
/// was supplied, in a fixed order.
pub open spec fn config_plan(
    brightness: Option<u64>,
    fake_detection_level: Option<i32>,
    smart_capture: Option<bool>,
    check_finger_liveness: Option<i32>,
) -> Seq<ConfigAction> {
    seq![ConfigAction::SetBrightness(brightness_or_default(brightness))]
        + (match fake_detection_level {
            Option::Some(v) => seq![ConfigAction::SetFakeDetectionLevel(v)],
            Option::None => Seq::empty(),
        })
        + (match smart_capture {
            Option::Some(v) => seq![ConfigAction::EnableSmartCapture(v)],
            Option::None => Seq::empty(),
        })
        + (match check_finger_liveness {
            Option::Some(v) => seq![ConfigAction::EnableCheckOfFingerLiveness(v)],
            Option::None => Seq::empty(),
        })
}

/// A sequence of `len` copies of `value`.
pub open spec fn filled(len: int, value: u8) -> Seq<u8> {
    Seq::new(len as nat, |i: int| value)
}

/// A buffer result abstracted to its byte contents, for stating contracts
/// over one spec-level outcome.
pub open spec fn buffer_result_view(r: Result<Vec<u8>, Error>) -> Result<Seq<u8>, Error> {
    match r {
        Result::Ok(b) => Result::Ok(b@),
        Result::Err(e) => Result::Err(e),
    }
}

/// One session with one provider handle: the single point of truth for how
/// far the device has been brought up and for the capabilities it reported.
/// Every provider call's outcome enters through one of the methods below,
/// which decide the typed result and the next stage.
#[derive(Debug)]
pub struct FPM {
    pub stage: Stage,
    pub device_info: Option<DeviceInfo>,
}

impl FPM {
    /// A session holds capabilities exactly while a device is ready, and
    /// only capabilities whose frame fits in one allocation.
    pub open spec fn wf(self) -> bool {
        &&& self.stage is Ready <==> self.device_info is Some
        &&& self.device_info matches Some(info) ==> info.wf()
    }

    /// The session owns a live provider handle that still has to be
    /// released.
    pub open spec fn has_handle(self) -> bool {
        ||| self.stage is HandleCreated
        ||| self.stage is HandleInitialized
        ||| self.stage is DeviceOpened
        ||| self.stage is Ready
    }

    /// The initialization sequence ran to completion and the device is
    /// usable.
    pub open spec fn is_initialized(self) -> bool {
        self.stage is Ready
    }

    /// The capabilities cached for the ready device.
    pub open spec fn cached_info(self) -> DeviceInfo
        recommends
            self.device_info is Some,
    {
        self.device_info->0
    }
}

/// Session after initialization was requested: any previously cached
/// capabilities are dropped and the sequence awaits a handle.
pub open spec fn init_requested_next(s: FPM) -> FPM {
    FPM { stage: Stage::Starting, device_info: None }
}

/// Decision on the provider's handle-creation outcome: a null handle fails
/// the sequence before anything was acquired; a non-null one is owned from
/// here on.
pub open spec fn handle_created_step(s: FPM, is_null: bool) -> (FPM, Result<(), Error>) {
    if is_null {
        (FPM { stage: Stage::Idle, device_info: s.device_info }, Result::Err(Error::HandleCreationFailed))
    } else {
        (FPM { stage: Stage::HandleCreated, device_info: s.device_info }, Result::Ok(()))
    }
}

/// Decision on the status of initializing the handle: a non-success status
/// surfaces as `InitFailed` and leaves the sequence stuck at the handle,
/// which still has to be released.
pub open spec fn handle_initialized_step(s: FPM, status: i32) -> (FPM, Result<(), Error>) {
    if status == STATUS_OK {
        (FPM { stage: Stage::HandleInitialized, device_info: s.device_info }, Result::Ok(()))
    } else {
        (s, Result::Err(Error::InitFailed(status)))
    }
}

/// Decision on the status of opening the physical device.
pub open spec fn device_opened_step(s: FPM, status: i32) -> (FPM, Result<(), Error>) {
    if status == STATUS_OK {
        (FPM { stage: Stage::DeviceOpened, device_info: s.device_info }, Result::Ok(()))
    } else {
        (s, Result::Err(Error::OpenFailed(status)))
    }
}

/// Decision on the capability query: on success the reported capabilities
/// are cached and the session becomes ready; on failure nothing is cached.
pub open spec fn device_info_step(s: FPM, status: i32, info: DeviceInfo) -> (FPM, Result<
    (),
    Error,
>) {
    if status == STATUS_OK {
        (FPM { stage: Stage::Ready, device_info: Some(info) }, Result::Ok(()))
    } else {
        (s, Result::Err(Error::InfoQueryFailed(status)))
    }
}

/// What capture hands the provider: a sentinel-filled frame buffer sized
/// from the cached capabilities, or `NotInitialized` if there is no ready
/// device — in which case no provider call is to be made.
pub open spec fn capture_prepare_spec(s: FPM) -> Result<Seq<u8>, Error> {
    if s.is_initialized() {
        Result::Ok(filled(s.cached_info().frame_len(), SENTINEL_BYTE))
    } else {
        Result::Err(Error::NotInitialized)
    }
}

/// Decision on the capture status: success and the soft wrong-image status
/// both hand the buffer back as the provider left it; any other status
/// fails with that code.
pub open spec fn capture_result_spec(status: i32, buffer: Seq<u8>) -> Result<Seq<u8>, Error> {
    if status == STATUS_OK || status == STATUS_WRONG_IMAGE {
        Result::Ok(buffer)
    } else {
        Result::Err(Error::CaptureFailed(status))
    }
}

/// Decision on the template-size query: on success a sentinel-filled buffer
/// of exactly the reported maximum is prepared; on failure that status is
/// surfaced.
pub open spec fn template_size_spec(status: i32, max_size: usize) -> Result<Seq<u8>, Error> {
    if status == STATUS_OK {
        Result::Ok(filled(max_size as int, SENTINEL_BYTE))
    } else {
        Result::Err(Error::TemplateSizeQueryFailed(status))
    }
}

/// Decision on the template-creation status: the buffer is handed back as
/// the provider left it, or the failing status is surfaced.
pub open spec fn template_created_spec(status: i32, buffer: Seq<u8>) -> Result<Seq<u8>, Error> {
    if status == STATUS_OK {
        Result::Ok(buffer)
    } else {
        Result::Err(Error::TemplateCreationFailed(status))
    }
}

/// Session after teardown: closed, nothing cached.
pub open spec fn teardown_next(s: FPM) -> FPM {
    FPM { stage: Stage::Closed, device_info: None }
}

/// What teardown must issue: one close followed by one terminate while a
/// handle is owned, nothing otherwise.
pub open spec fn teardown_plan(s: FPM) -> Seq<CleanupAction> {
    if s.has_handle() {
        seq![CleanupAction::CloseDevice, CleanupAction::Terminate]
    } else {
        Seq::empty()
    }
}

/// A vector of `len` copies of `value`.
fn filled_buffer(len: usize, value: u8) -> (buf: Vec<u8>)
    ensures
        buf@ == filled(len as int, value),
{
    let mut buf: Vec<u8> = Vec::new();
    let mut i: usize = 0;
    while i < len
        invariant
            i <= len,
            buf@.len() == i,
            forall|j: int| 0 <= j < i ==> buf@[j] == value,
        decreases len - i,
    {
        buf.push(value);
        i = i + 1;
    }
    proof {
        assert(buf@ =~= filled(len as int, value));
    }
    buf
}

impl FPM {
    /// A fresh session: nothing acquired, nothing cached.
    pub fn new() -> (s: FPM)
        ensures
            s.stage is Idle,
            s.device_info is None,
            s.wf(),
    {
        FPM { stage: Stage::Idle, device_info: None }
    }

    /// Begins the initialization sequence. Returns the exact ordered list
    /// of configuration calls to apply once the device is open: brightness
    /// always (the caller's value, or the default when unset), then each
    /// optional setter that was supplied. Their statuses are deliberately
    /// not checked (see `ConfigAction`).
    pub fn init_device(
        &mut self,
        brightness: Option<u64>,
        fake_detection_level: Option<i32>,
        smart_capture: Option<bool>,
        check_finger_liveness: Option<i32>,
    ) -> (plan: Vec<ConfigAction>)
        requires
            old(self).wf(),
            old(self).stage is Idle || old(self).stage is Closed,
        ensures
            *final(self) == init_requested_next(*old(self)),
            final(self).wf(),
            plan@ == config_plan(brightness, fake_detection_level, smart_capture, check_finger_liveness),
    {
        self.stage = Stage::Starting;
        self.device_info = None;
        let mut plan: Vec<ConfigAction> = Vec::new();
        match brightness {
            Some(v) => plan.push(ConfigAction::SetBrightness(v)),
            None => plan.push(ConfigAction::SetBrightness(DEFAULT_BRIGHTNESS)),
        }
        if let Some(v) = fake_detection_level {
            plan.push(ConfigAction::SetFakeDetectionLevel(v));
        }
        if let Some(v) = smart_capture {
            plan.push(ConfigAction::EnableSmartCapture(v));
        }
        if let Some(v) = check_finger_liveness {
            plan.push(ConfigAction::EnableCheckOfFingerLiveness(v));
        }
        proof {
            assert(plan@ =~= config_plan(
                brightness,
                fake_detection_level,
                smart_capture,
                check_finger_liveness,
            ));
        }
        plan
    }

    /// Consumes the outcome of the provider's handle creation: whether the
    /// returned handle was null. A null handle fails with
    /// `HandleCreationFailed` and the sequence must stop there, nothing
    /// having been acquired.
    pub fn handle_created(&mut self, is_null: bool) -> (r: Result<(), Error>)
        requires
            old(self).wf(),
            old(self).stage is Starting,
        ensures
            *final(self) == handle_created_step(*old(self), is_null).0,
            r == handle_created_step(*old(self), is_null).1,
            final(self).wf(),
    {
        if is_null {
            self.stage = Stage::Idle;
            Err(Error::HandleCreationFailed)
        } else {
            self.stage = Stage::HandleCreated;
            Ok(())
        }
    }

    /// Consumes the status of initializing the handle against the
    /// auto-detect selector.
    pub fn handle_initialized(&mut self, status: i32) -> (r: Result<(), Error>)
        requires
            old(self).wf(),
            old(self).stage is HandleCreated,
        ensures
            *final(self) == handle_initialized_step(*old(self), status).0,
            r == handle_initialized_step(*old(self), status).1,
            final(self).wf(),
    {
        if status == STATUS_OK {
            self.stage = Stage::HandleInitialized;
            Ok(())
        } else {
            Err(Error::InitFailed(status))
        }
    }

    /// Consumes the status of opening the physical device at the fixed
    /// logical slot.
    pub fn device_opened(&mut self, status: i32) -> (r: Result<(), Error>)
        requires
            old(self).wf(),
            old(self).stage is HandleInitialized,
        ensures
            *final(self) == device_opened_step(*old(self), status).0,
            r == device_opened_step(*old(self), status).1,
            final(self).wf(),
    {
        if status == STATUS_OK {
            self.stage = Stage::DeviceOpened;
            Ok(())
        } else {
            Err(Error::OpenFailed(status))
        }
    }

    /// Consumes the outcome of the capability query, the last step of the
    /// initialization sequence. On success the reported capabilities are
    /// cached and the session is ready; they are what sizes every capture
    /// buffer from here on.
    pub fn device_info_received(&mut self, status: i32, info: DeviceInfo) -> (r: Result<
        (),
        Error,
    >)
        requires
            old(self).wf(),
            old(self).stage is DeviceOpened,
            info.wf(),
        ensures
            *final(self) == device_info_step(*old(self), status, info).0,
            r == device_info_step(*old(self), status, info).1,
            final(self).wf(),
    {
        if status == STATUS_OK {
            self.stage = Stage::Ready;
            self.device_info = Some(info);
            Ok(())
        } else {
            Err(Error::InfoQueryFailed(status))
        }
    }

    /// Prepares a frame capture: allocates a buffer of exactly
    /// width times height bytes, every byte the sentinel, for the provider
    /// to fill. Without a ready device this fails with `NotInitialized` and
    /// no provider call is to be made.
    pub fn capture_image(&self) -> (r: Result<Vec<u8>, Error>)
        requires
            self.wf(),
        ensures
            buffer_result_view(r) == capture_prepare_spec(*self),
    {
        match &self.device_info {
            Some(info) => {
                let pixels: u64 = info.image_width * info.image_height;
                let buf = filled_buffer(pixels as usize, SENTINEL_BYTE);
                Ok(buf)
            },
            None => Err(Error::NotInitialized),
        }
    }

    /// Consumes the outcome of the provider's frame capture: its status,
    /// and the buffer as the provider left it. Success and the soft
    /// wrong-image status both hand the buffer back unchanged; any other
    /// status fails with `CaptureFailed` carrying it.
    pub fn capture_result(&self, status: i32, buffer: Vec<u8>) -> (r: Result<Vec<u8>, Error>)
        ensures
            buffer_result_view(r) == capture_result_spec(status, buffer@),
    {
        if status == STATUS_OK || status == STATUS_WRONG_IMAGE {
            Ok(buffer)
        } else {
            Err(Error::CaptureFailed(status))
        }
    }

    /// Gates template creation: only a ready session may ask the provider
    /// for its maximum template size. Without one this fails with
    /// `NotInitialized` and no provider call is to be made.
    pub fn create_template(&self) -> (r: Result<(), Error>)
        requires
            self.wf(),
        ensures
            self.is_initialized() ==> r == Result::<(), Error>::Ok(()),
            !self.is_initialized() ==> r == Result::<(), Error>::Err(Error::NotInitialized),
    {
        match &self.device_info {
            Some(_) => Ok(()),
            None => Err(Error::NotInitialized),
        }
    }

    /// Consumes the outcome of the maximum-template-size query: on success
    /// a sentinel-filled buffer of exactly the reported size is prepared
    /// for the provider to write the template into; the provider may write
    /// fewer meaningful bytes, but the allocation is never guessed.
    pub fn template_size_received(&self, status: i32, max_size: usize) -> (r: Result<
        Vec<u8>,
        Error,
    >)
        ensures
            buffer_result_view(r) == template_size_spec(status, max_size),
    {
        if status == STATUS_OK {
            Ok(filled_buffer(max_size, SENTINEL_BYTE))
        } else {
            Err(Error::TemplateSizeQueryFailed(status))
        }
    }

    /// Consumes the outcome of template creation: the buffer as the
    /// provider left it on success, `TemplateCreationFailed` otherwise.
    pub fn template_created(&self, status: i32, buffer: Vec<u8>) -> (r: Result<Vec<u8>, Error>)
        ensures
            buffer_result_view(r) == template_created_spec(status, buffer@),
    {
        if status == STATUS_OK {
            Ok(buffer)
        } else {
            Err(Error::TemplateCreationFailed(status))
        }
    }

    /// Consumes the outcome of the provider's template match: its status
    /// and the verdict out-parameter. The verdict counts as a match exactly
    /// when it equals the provider's "matched" sentinel, one.
    pub fn match_template(&self, status: i32, verdict: i32) -> (r: Result<bool, Error>)
        ensures
            status == STATUS_OK ==> r == Result::<bool, Error>::Ok(verdict == 1),
            status != STATUS_OK ==> r == Result::<bool, Error>::Err(Error::MatchFailed(status)),
    {
        if status == STATUS_OK {
            Ok(verdict == 1)
        } else {
            Err(Error::MatchFailed(status))
        }
    }

    /// Consumes the outcome of the provider's similarity scoring: the raw
    /// score on success, `ScoreFailed` otherwise.
    pub fn get_matching_score(&self, status: i32, score: u64) -> (r: Result<u64, Error>)
        ensures
            status == STATUS_OK ==> r == Result::<u64, Error>::Ok(score),
            status != STATUS_OK ==> r == Result::<u64, Error>::Err(Error::ScoreFailed(status)),
    {
        if status == STATUS_OK {
            Ok(score)
        } else {
            Err(Error::ScoreFailed(status))
        }
    }

    /// Consumes the status of an explicit device close. Closing early is
    /// allowed, but it does not retire the session's bookkeeping: the
    /// handle is released once, by teardown, whether or not a close was
    /// already requested here.
    pub fn close_device(&mut self, status: i32) -> (r: Result<bool, Error>)
        ensures
            *final(self) == *old(self),
            status == STATUS_OK ==> r == Result::<bool, Error>::Ok(true),
            status != STATUS_OK ==> r == Result::<bool, Error>::Err(Error::CloseFailed(status)),
    {
        if status == STATUS_OK {
            Ok(true)
        } else {
            Err(Error::CloseFailed(status))
        }
    }

    /// Ends the session's usable lifetime and says what must be released:
    /// exactly one close followed by one terminate while a handle is owned
    /// — including after a failure part-way through initialization — and
    /// nothing when none is, or when the session was already torn down.
    pub fn teardown(&mut self) -> (plan: Vec<CleanupAction>)
        requires
            old(self).wf(),
        ensures
            *final(self) == teardown_next(*old(self)),
            final(self).wf(),
            plan@ == teardown_plan(*old(self)),
    {
        let owned = match self.stage {
            Stage::HandleCreated => true,
            Stage::HandleInitialized => true,
            Stage::DeviceOpened => true,
            Stage::Ready => true,
            _ => false,
        };
        self.stage = Stage::Closed;
        self.device_info = None;
        let mut plan: Vec<CleanupAction> = Vec::new();
        if owned {
            plan.push(CleanupAction::CloseDevice);
            plan.push(CleanupAction::Terminate);
        }
        proof {
            assert(plan@ =~= teardown_plan(*old(self)));
        }
        plan
    }
}

} // verus!
