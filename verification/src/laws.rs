use crate::info::DeviceInfo;
use crate::session::{
    capture_prepare_spec, capture_result_spec, device_info_step, device_opened_step,
    handle_created_step, handle_initialized_step, init_requested_next, teardown_next,
    teardown_plan, template_created_spec, template_size_spec, CleanupAction, FPM,
};
use crate::status::{Error, STATUS_OK, STATUS_WRONG_IMAGE};
use vstd::prelude::*;

verus! {

/// The whole initialization sequence over one transcript of provider
/// outcomes, chaining the step decisions the session methods implement:
/// each step runs only while no earlier step has failed.
pub open spec fn init_sequence(
    s0: FPM,
    is_null: bool,
    init_status: i32,
    open_status: i32,
    info_status: i32,
    info: DeviceInfo,
) -> (FPM, Result<(), Error>) {
    let s1 = init_requested_next(s0);
    let step2 = handle_created_step(s1, is_null);
    if step2.1 is Err {
        step2
    } else {
        let step3 = handle_initialized_step(step2.0, init_status);
        if step3.1 is Err {
            step3
        } else {
            let step4 = device_opened_step(step3.0, open_status);
            if step4.1 is Err {
                step4
            } else {
                device_info_step(step4.0, info_status, info)
            }
        }
    }
}

/// Initialization never leaves the session ambiguous. For every transcript
/// of provider outcomes: the sequence succeeds exactly when the handle was
/// non-null and every checked status reported success, and then the
/// session is initialized holding precisely the reported capabilities — a
/// frame of positive size whenever the provider reported positive
/// dimensions. A null handle fails with `HandleCreationFailed` before
/// anything was acquired; otherwise the first non-success status fails the
/// sequence with exactly that step's error, the handle still owned for
/// teardown and no capabilities installed.
pub proof fn lemma_init_unambiguous(
    s0: FPM,
    is_null: bool,
    init_status: i32,
    open_status: i32,
    info_status: i32,
    info: DeviceInfo,
)
    ensures
        ({
            let outcome = init_sequence(s0, is_null, init_status, open_status, info_status, info);
            let s = outcome.0;
            let r = outcome.1;
            &&& (r is Ok <==> (!is_null && init_status == STATUS_OK && open_status == STATUS_OK
                && info_status == STATUS_OK))
            &&& (r is Ok ==> s.is_initialized() && s.device_info == Some(info))
            &&& (r is Ok && info.frame_len() > 0 ==> s.cached_info().frame_len() > 0)
            &&& (is_null ==> r == Result::<(), Error>::Err(Error::HandleCreationFailed)
                && !s.has_handle() && s.device_info is None)
            &&& (!is_null && init_status != STATUS_OK ==> r == Result::<(), Error>::Err(
                Error::InitFailed(init_status),
            ) && s.has_handle() && s.device_info is None)
            &&& (!is_null && init_status == STATUS_OK && open_status != STATUS_OK ==> r
                == Result::<(), Error>::Err(Error::OpenFailed(open_status)) && s.has_handle()
                && s.device_info is None)
            &&& (!is_null && init_status == STATUS_OK && open_status == STATUS_OK && info_status
                != STATUS_OK ==> r == Result::<(), Error>::Err(
                Error::InfoQueryFailed(info_status),
            ) && s.has_handle() && s.device_info is None)
        }),
{
}

/// Capture on a session that is not initialized yields `NotInitialized`
/// and prepares nothing, so no provider call is to be made.
pub proof fn lemma_capture_needs_initialized(s: FPM)
    requires
        !s.is_initialized(),
    ensures
        capture_prepare_spec(s) == Result::<Seq<u8>, Error>::Err(Error::NotInitialized),
{
}

/// A captured frame always has exactly width times height bytes: capture
/// prepares a buffer of that length, the provider fills it in place, and
/// both the success status and the soft wrong-image status hand it back
/// whole.
pub proof fn lemma_capture_frame_len(s: FPM, delivered: Seq<u8>, status: i32)
    requires
        s.wf(),
        s.is_initialized(),
        delivered.len() == s.cached_info().frame_len(),
    ensures
        (capture_prepare_spec(s) matches Ok(prepared) && prepared.len()
            == s.cached_info().frame_len()),
        capture_result_spec(status, delivered) matches Ok(b) ==> b.len()
            == s.cached_info().frame_len(),
        status == STATUS_WRONG_IMAGE ==> (capture_result_spec(status, delivered) matches Ok(b)
            && b.len() == s.cached_info().frame_len()),
{
}

/// A created template buffer always has exactly the provider-reported
/// maximum size: the buffer is allocated to that size before the call, and
/// creation hands it back whole even when the provider meant fewer of its
/// bytes.
pub proof fn lemma_template_buffer_len(max_size: usize, delivered: Seq<u8>, status: i32)
    requires
        delivered.len() == max_size,
    ensures
        (template_size_spec(STATUS_OK, max_size) matches Ok(prepared) && prepared.len()
            == max_size),
        template_created_spec(status, delivered) matches Ok(b) ==> b.len() == max_size,
{
}

/// The handle is released exactly once, close before terminate. While a
/// session owns a handle — ready, or stuck part-way through a failed
/// initialization — teardown issues one close followed by one terminate;
/// a torn-down session's next teardown issues nothing. An explicit early
/// close does not change this: `close_device` leaves the session
/// unchanged, as its contract states.
pub proof fn lemma_teardown_exactly_once(s: FPM)
    ensures
        s.has_handle() ==> teardown_plan(s) == seq![
            CleanupAction::CloseDevice,
            CleanupAction::Terminate,
        ],
        !s.has_handle() ==> teardown_plan(s) == Seq::<CleanupAction>::empty(),
        teardown_plan(teardown_next(s)) == Seq::<CleanupAction>::empty(),
{
}

} // verus!
