//! The screenshot workflow: who captures when a screenshot is requested, and
//! how a finished image is registered with the platform client's library.

use vstd::prelude::*;

verus! {

/// Who owns screenshot capture. The mode changes only when the host asks for
/// it; nothing reverts it.
#[derive(Debug, Clone, Copy, PartialEq, Eq, Structural)]
pub enum ScreenshotHookState {
    /// The platform overlay captures, stores and notifies on its own.
    Unhooked,
    /// The host captures and is expected to submit the image.
    Hooked,
}

/// The party that a screenshot request is addressed to.
#[derive(Debug, Clone, Copy, PartialEq, Eq, Structural)]
pub enum CaptureOwner {
    /// The platform overlay takes the screenshot itself.
    Overlay,
    /// The host is notified and answers with `add_screenshot_to_library`.
    Host,
}

impl ScreenshotHookState {
    /// Whether the host owns capture.
    pub open spec fn is_hooked(self) -> bool {
        self == ScreenshotHookState::Hooked
    }

    /// The mode after the host asked for `hook`, whatever it was before.
    pub open spec fn after_hook(self, hook: bool) -> ScreenshotHookState {
        if hook {
            ScreenshotHookState::Hooked
        } else {
            ScreenshotHookState::Unhooked
        }
    }

    /// Who answers a screenshot request in this mode.
    pub open spec fn capture_owner(self) -> CaptureOwner {
        match self {
            ScreenshotHookState::Unhooked => CaptureOwner::Overlay,
            ScreenshotHookState::Hooked => CaptureOwner::Host,
        }
    }
}

impl Default for ScreenshotHookState {
    /// Hooking is off until the host turns it on.
    fn default() -> (state: ScreenshotHookState)
        ensures
            state == ScreenshotHookState::Unhooked,
    {
        ScreenshotHookState::Unhooked
    }
}

/// Sets the mode as asked. Asking twice for the same mode changes nothing
/// more.
pub fn hook_screenshots(state: &mut ScreenshotHookState, hook: bool)
    ensures
        *final(state) == old(state).after_hook(hook),
        final(state).is_hooked() == hook,
{
    *state = if hook {
        ScreenshotHookState::Hooked
    } else {
        ScreenshotHookState::Unhooked
    };
}

/// Reads the mode.
pub fn is_screenshots_hooked(state: &ScreenshotHookState) -> (hooked: bool)
    ensures
        hooked == state.is_hooked(),
{
    match state {
        ScreenshotHookState::Hooked => true,
        ScreenshotHookState::Unhooked => false,
    }
}

/// Says whom a screenshot request reaches in the given mode. The request
/// hands back no handle and no confirmation, leaves the mode as it is, and
/// registers nothing: when the host is the owner, submitting the image is a
/// step of its own.
pub fn trigger_screenshot(state: &ScreenshotHookState) -> (owner: CaptureOwner)
    ensures
        owner == state.capture_owner(),
        (owner == CaptureOwner::Host) == state.is_hooked(),
{
    match state {
        ScreenshotHookState::Hooked => CaptureOwner::Host,
        ScreenshotHookState::Unhooked => CaptureOwner::Overlay,
    }
}

/// The one error of this layer: the platform client refused an operation.
#[derive(Debug, Clone)]
pub struct NativeError {
    /// The platform client's own description of the failure.
    pub reason: String,
}

/// `outcome` is what the host is told when the platform client answered a
/// registration with `native`: the handle as it is, or an error that carries
/// the client's description unchanged.
pub open spec fn surfaced(native: Result<u32, String>, outcome: Result<u32, NativeError>) -> bool {
    match native {
        Ok(handle) => outcome == Ok::<u32, NativeError>(handle),
        Err(description) => outcome is Err && outcome->Err_0.reason@ == description@,
    }
}

/// Hands the platform client's answer to a registration on to the host. No
/// failure is retried, interpreted or suppressed.
pub fn library_outcome(native: Result<u32, String>) -> (outcome: Result<u32, NativeError>)
    ensures
        surfaced(native, outcome),
{
    match native {
        Ok(handle) => Ok(handle),
        Err(description) => Err(NativeError { reason: description }),
    }
}

/// Registers a finished image with the platform client's screenshot library.
/// `submit` is asked once, with the paths and dimensions exactly as given: an
/// absent thumbnail stays absent, and the dimensions are not checked against
/// the image. Its answer is handed on as `library_outcome` gives it.
pub fn add_screenshot_to_library<S>(
    filename: String,
    thumbnail_filename: Option<String>,
    width: i32,
    height: i32,
    submit: S,
) -> (outcome: Result<u32, NativeError>) where
    S: FnOnce(String, Option<String>, i32, i32) -> Result<u32, String>,

    requires
        call_requires(submit, (filename, thumbnail_filename, width, height)),
    ensures
        exists|native: Result<u32, String>|
            #[trigger] call_ensures(
                submit,
                (filename, thumbnail_filename, width, height),
                native,
            ) && surfaced(native, outcome),
{
    let native = submit(filename, thumbnail_filename, width, height);
    library_outcome(native)
}

/// The mode read after a request to set it is the mode asked for.
pub proof fn lemma_read_after_hook(before: ScreenshotHookState, hook: bool)
    ensures
        before.after_hook(hook).is_hooked() == hook,
{
}

/// Setting the mode is idempotent: asking again for the same mode leaves
/// what the first request left.
pub proof fn lemma_hook_idempotent(before: ScreenshotHookState, hook: bool)
    ensures
        before.after_hook(hook).after_hook(hook) == before.after_hook(hook),
{
}

/// The last request wins: the mode before never shows in the mode after.
pub proof fn lemma_last_hook_wins(first: ScreenshotHookState, second: ScreenshotHookState, hook: bool)
    ensures
        first.after_hook(hook) == second.after_hook(hook),
{
}

/// While the host owns capture, a screenshot request is addressed to the
/// host; otherwise to the overlay.
pub proof fn lemma_request_follows_mode(state: ScreenshotHookState)
    ensures
        state.is_hooked() <==> state.capture_owner() == CaptureOwner::Host,
        !state.is_hooked() <==> state.capture_owner() == CaptureOwner::Overlay,
{
}

} // verus!
