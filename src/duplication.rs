//! The desktop duplication session: a state machine over one capture handle
//! bound to one display.
//!
//! The caller owns the platform objects. It feeds each outcome of a platform
//! call to [`DesktopDuplication::step`] as a [`SessionEvent`] and performs the
//! [`SessionAction`] that comes back, until the action is `Finished`.

use vstd::prelude::*;
use crate::cursor::{CursorData, CursorType, cursor_type_of_code};
use crate::display::{DisplayMode, MonitorHandle};

verus! {

/// Status `DXGI_ERROR_INVALID_CALL`: a call out of order, such as acquiring
/// while a frame is still held.
pub const DXGI_ERROR_INVALID_CALL: u32 = 0x887A_0001;

/// Status `DXGI_ERROR_UNSUPPORTED`.
pub const DXGI_ERROR_UNSUPPORTED: u32 = 0x887A_0004;

/// Status `DXGI_ERROR_ACCESS_LOST`: the capture handle no longer works (mode
/// change, desktop switch).
pub const DXGI_ERROR_ACCESS_LOST: u32 = 0x887A_0026;

/// Status `DXGI_ERROR_WAIT_TIMEOUT`: no new frame within the timeout.
pub const DXGI_ERROR_WAIT_TIMEOUT: u32 = 0x887A_0027;

/// Status `DXGI_ERROR_SESSION_DISCONNECTED`.
pub const DXGI_ERROR_SESSION_DISCONNECTED: u32 = 0x887A_0028;

/// Status `DXGI_ERROR_ACCESS_DENIED`: the desktop cannot be captured now
/// (for instance the secure desktop is shown).
pub const DXGI_ERROR_ACCESS_DENIED: u32 = 0x887A_002B;

/// Status `E_ACCESSDENIED`.
pub const E_ACCESSDENIED: u32 = 0x8007_0005;

/// Status `E_INVALIDARG`.
pub const E_INVALIDARG: u32 = 0x8007_0057;

/// How a failed frame acquisition is handled.
#[derive(Clone, Copy, Debug, PartialEq, Eq, Structural)]
pub enum StatusClass {
    /// Nothing new arrived: not an error.
    NoNewFrame,
    /// The handle is lost or refused: rebuild it against the same display.
    Reattach,
    /// Anything else: no rebuild helps.
    Fatal,
}

pub open spec fn status_class(code: u32) -> StatusClass {
    if code == DXGI_ERROR_WAIT_TIMEOUT {
        StatusClass::NoNewFrame
    } else if code == DXGI_ERROR_ACCESS_LOST || code == DXGI_ERROR_ACCESS_DENIED || code
        == DXGI_ERROR_INVALID_CALL {
        StatusClass::Reattach
    } else {
        StatusClass::Fatal
    }
}

pub fn classify_acquire_status(code: u32) -> (r: StatusClass)
    ensures
        r == status_class(code),
{
    if code == DXGI_ERROR_WAIT_TIMEOUT {
        StatusClass::NoNewFrame
    } else if code == DXGI_ERROR_ACCESS_LOST || code == DXGI_ERROR_ACCESS_DENIED || code
        == DXGI_ERROR_INVALID_CALL {
        StatusClass::Reattach
    } else {
        StatusClass::Fatal
    }
}

/// Why creating a capture handle failed.
#[derive(Clone, Copy, Debug, PartialEq, Eq, Structural)]
pub enum CreateFailure {
    InvalidArgument,
    AccessDenied,
    Unsupported,
    SessionDisconnected,
    Other(u32),
}

pub open spec fn create_failure_of(code: u32) -> CreateFailure {
    if code == E_INVALIDARG {
        CreateFailure::InvalidArgument
    } else if code == E_ACCESSDENIED {
        CreateFailure::AccessDenied
    } else if code == DXGI_ERROR_UNSUPPORTED {
        CreateFailure::Unsupported
    } else if code == DXGI_ERROR_SESSION_DISCONNECTED {
        CreateFailure::SessionDisconnected
    } else {
        CreateFailure::Other(code)
    }
}

pub fn classify_create_status(code: u32) -> (r: CreateFailure)
    ensures
        r == create_failure_of(code),
{
    if code == E_INVALIDARG {
        CreateFailure::InvalidArgument
    } else if code == E_ACCESSDENIED {
        CreateFailure::AccessDenied
    } else if code == DXGI_ERROR_UNSUPPORTED {
        CreateFailure::Unsupported
    } else if code == DXGI_ERROR_SESSION_DISCONNECTED {
        CreateFailure::SessionDisconnected
    } else {
        CreateFailure::Other(code)
    }
}

/// What one poll brought: whether a frame was acquired, and whether it
/// carries a new image and a new pointer shape.
#[derive(Clone, Copy, Debug, Default, PartialEq, Eq, Structural)]
pub struct AcquisitionResults {
    pub success: bool,
    pub frame_update: bool,
    pub cursor_updated: bool,
}

/// Pointer position in the display's desktop coordinates.
#[derive(Clone, Copy, Debug, Default, PartialEq, Eq, Structural)]
pub struct CursorPos {
    pub x: i32,
    pub y: i32,
}

/// The frame information that a successful acquisition reports.
/// Timestamps are zero when the image, or the pointer, did not change.
#[derive(Clone, Copy, Debug, Default, PartialEq, Eq, Structural)]
pub struct FrameInfo {
    pub last_present_time: i64,
    pub last_mouse_update_time: i64,
    pub pointer_position: CursorPos,
    pub pointer_visible: bool,
    pub pointer_shape_buffer_size: u32,
    /// Whether a frame texture came with it.
    pub has_resource: bool,
}

/// A pointer shape as read from the capture handle: type code, width and
/// height as reported, and the raw buffer.
#[derive(Clone, Debug, PartialEq, Eq)]
pub struct PointerShape {
    pub shape_type: u32,
    pub width: u32,
    pub height: u32,
    pub data: Vec<u8>,
}

/// Why a poll, or the creation of a session, failed.
#[derive(Clone, Copy, Debug, PartialEq, Eq, Structural)]
pub enum CaptureError {
    /// Creating the capture handle failed with this status.
    Create(u32),
    /// Acquisition failed with this status; the handle was rebuilt and the
    /// next poll may succeed.
    Recovered(u32),
    /// Rebuilding the handle failed with this status, even after switching
    /// to the input desktop.
    ReattachFailed(u32),
    /// The display mode could not be read.
    ModeUnavailable,
    /// Acquisition failed with a status that no rebuild repairs.
    Fatal(u32),
    /// A frame was acquired without a texture.
    MissingFrame,
    /// Reading the pointer shape failed with this status.
    PointerShape(u32),
    /// The pointer shape has an unknown type code.
    UnknownShapeType(u32),
    /// The event does not answer the action that was asked for.
    OutOfOrder,
}

impl CaptureError {
    /// Errors after which the session is of no further use and is dropped.
    pub open spec fn is_fatal_spec(self) -> bool {
        self is Create || self is ReattachFailed || self is ModeUnavailable || self is Fatal
    }

    pub fn is_fatal(&self) -> (r: bool)
        ensures
            r == self.is_fatal_spec(),
    {
        match self {
            CaptureError::Create(_) | CaptureError::ReattachFailed(_) | CaptureError::ModeUnavailable
            | CaptureError::Fatal(_) => true,
            _ => false,
        }
    }
}

/// Where the session is within its protocol.
#[derive(Clone, Copy, Debug, PartialEq, Eq, Structural)]
pub enum SessionPhase {
    /// No poll under way.
    Idle,
    /// Waiting for the first capture handle.
    Creating,
    /// Waiting for the display mode after the first handle was created.
    ReadingMode,
    /// Waiting for the previous frame to be released.
    Releasing,
    /// Waiting for a rebuilt handle; `Some(status)` when rebuilding after an
    /// acquisition that failed with `status`.
    Reattaching(Option<u32>),
    /// Waiting for the switch to the input desktop, after rebuilding failed
    /// with the status held.
    SwitchingDesktop(u32),
    /// Waiting for the display mode after a rebuild.
    ReattachMode(Option<u32>),
    /// Waiting for the outcome of a frame acquisition.
    Acquiring,
    /// Waiting for the pointer shape of the frame just acquired.
    FetchingShape(AcquisitionResults),
    /// Torn down, or never came up.
    Terminated,
}

/// The outcome of a platform call, handed back to the session.
#[derive(Debug)]
pub enum SessionEvent {
    /// Start a poll.
    Poll,
    /// The frame has been released.
    Released,
    /// Creating a capture handle succeeded, or failed with a status.
    Created(Result<(), u32>),
    /// The attempt to switch to the input desktop is over (its outcome does
    /// not matter).
    DesktopSwitched,
    /// The current display mode, if it could be read.
    Mode(Option<DisplayMode>),
    /// A frame acquisition (with zero timeout) succeeded, or failed with a
    /// status.
    Frame(Result<FrameInfo, u32>),
    /// Reading the pointer shape succeeded, or failed with a status.
    Shape(Result<PointerShape, u32>),
}

/// What the caller is to do next.
#[derive(Clone, Copy, Debug, PartialEq, Eq)]
pub enum SessionAction {
    /// Release the frame held by the capture handle.
    ReleaseFrame,
    /// Drop any capture handle and create one for the session's display.
    CreateDuplication,
    /// Open the input desktop and make it the calling thread's desktop.
    SwitchDesktop,
    /// Read the display's current mode.
    QueryMode,
    /// Acquire the next frame without waiting.
    AcquireFrame,
    /// Read the pointer shape into a buffer of this many bytes.
    FetchPointerShape(u32),
    /// The poll (or creation) is over, with this outcome.
    Finished(Result<AcquisitionResults, CaptureError>),
}

/// What tearing a session down involves: releasing its frame, then dropping
/// its capture handle.
#[derive(Clone, Copy, Debug, PartialEq, Eq, Structural)]
pub struct Teardown {
    pub release_frame: bool,
    pub close_handle: bool,
}

/// One capture session bound to one display.
///
/// `attached` says whether a capture handle exists, `frame_locked` whether
/// that handle holds a frame for us.
#[derive(Debug)]
pub struct DesktopDuplication {
    pub display: MonitorHandle,
    pub attached: bool,
    pub frame_locked: bool,
    pub display_mode: DisplayMode,
    pub cursor_pos: Option<CursorPos>,
    pub cursor_data: Option<CursorData>,
    pub phase: SessionPhase,
}

/// The session after `phase` moved on, with `action` to perform.
pub open spec fn goto(s: DesktopDuplication, phase: SessionPhase, action: SessionAction) -> (
    DesktopDuplication,
    SessionAction,
) {
    (DesktopDuplication { phase, ..s }, action)
}

/// A poll ends with `outcome` and the session idle.
pub open spec fn finish(
    s: DesktopDuplication,
    outcome: Result<AcquisitionResults, CaptureError>,
) -> (DesktopDuplication, SessionAction) {
    goto(s, SessionPhase::Idle, SessionAction::Finished(outcome))
}

/// A poll starts by releasing the frame held from the previous one; with no
/// capture handle it starts by rebuilding one.
pub open spec fn start_poll(s: DesktopDuplication) -> (DesktopDuplication, SessionAction) {
    if s.attached {
        goto(s, SessionPhase::Releasing, SessionAction::ReleaseFrame)
    } else {
        (
            DesktopDuplication { phase: SessionPhase::Reattaching(None), frame_locked: false, ..s },
            SessionAction::CreateDuplication,
        )
    }
}

/// The sprite height of a pointer shape: a monochrome buffer stacks two
/// masks, so its sprite is half as high as reported.
pub open spec fn sprite_height(t: CursorType, reported: u32) -> u32 {
    if t is Monochrome {
        reported / 2
    } else {
        reported
    }
}

/// The results of an acquisition that brought a frame texture.
pub open spec fn frame_results(info: FrameInfo) -> AcquisitionResults {
    AcquisitionResults {
        success: true,
        frame_update: info.last_present_time != 0,
        cursor_updated: false,
    }
}

/// The pointer position after a frame: unchanged unless the pointer moved or
/// its visibility changed, `None` while it is hidden.
pub open spec fn pos_after(old_pos: Option<CursorPos>, info: FrameInfo) -> Option<CursorPos> {
    if info.last_mouse_update_time != 0 {
        if info.pointer_visible {
            Some(info.pointer_position)
        } else {
            None
        }
    } else {
        old_pos
    }
}

/// The session's answer to an acquisition.
pub open spec fn on_frame(s: DesktopDuplication, r: Result<FrameInfo, u32>) -> (
    DesktopDuplication,
    SessionAction,
) {
    match r {
        Err(code) => match status_class(code) {
            StatusClass::NoNewFrame => finish(s, Ok(AcquisitionResults::default_spec())),
            StatusClass::Reattach => (
                DesktopDuplication {
                    attached: false,
                    frame_locked: false,
                    phase: SessionPhase::Reattaching(Some(code)),
                    ..s
                },
                SessionAction::CreateDuplication,
            ),
            StatusClass::Fatal => finish(s, Err(CaptureError::Fatal(code))),
        },
        Ok(info) => {
            let locked = DesktopDuplication { frame_locked: true, ..s };
            if !info.has_resource {
                finish(locked, Err(CaptureError::MissingFrame))
            } else {
                let moved = DesktopDuplication {
                    cursor_pos: pos_after(s.cursor_pos, info),
                    ..locked
                };
                if info.pointer_shape_buffer_size != 0 {
                    goto(
                        moved,
                        SessionPhase::FetchingShape(frame_results(info)),
                        SessionAction::FetchPointerShape(info.pointer_shape_buffer_size),
                    )
                } else {
                    finish(moved, Ok(frame_results(info)))
                }
            }
        },
    }
}

/// The session's answer to a pointer-shape read, for a poll whose results so
/// far are `res`.
pub open spec fn on_shape(
    s: DesktopDuplication,
    res: AcquisitionResults,
    r: Result<PointerShape, u32>,
) -> (DesktopDuplication, SessionAction) {
    match r {
        Err(code) => finish(s, Err(CaptureError::PointerShape(code))),
        Ok(shape) => match cursor_type_of_code(shape.shape_type) {
            None => finish(s, Err(CaptureError::UnknownShapeType(shape.shape_type))),
            Some(t) => finish(
                DesktopDuplication {
                    cursor_data: Some(
                        CursorData {
                            cursor_type: t,
                            width: shape.width,
                            height: sprite_height(t, shape.height),
                            data: shape.data,
                        },
                    ),
                    ..s
                },
                Ok(AcquisitionResults { cursor_updated: true, ..res }),
            ),
        },
    }
}

/// The transition table of the session: the next session and the action to
/// perform, given an event.
pub open spec fn session_next(s: DesktopDuplication, e: SessionEvent) -> (
    DesktopDuplication,
    SessionAction,
) {
    let out_of_order = (s, SessionAction::Finished(Err(CaptureError::OutOfOrder)));
    match (s.phase, e) {
        (SessionPhase::Creating, SessionEvent::Created(Ok(()))) => goto(
            DesktopDuplication { attached: true, ..s },
            SessionPhase::ReadingMode,
            SessionAction::QueryMode,
        ),
        (SessionPhase::Creating, SessionEvent::Created(Err(code))) => goto(
            s,
            SessionPhase::Terminated,
            SessionAction::Finished(Err(CaptureError::Create(code))),
        ),
        (SessionPhase::ReadingMode, SessionEvent::Mode(Some(m))) => finish(
            DesktopDuplication { display_mode: m, ..s },
            Ok(AcquisitionResults::default_spec()),
        ),
        (SessionPhase::ReadingMode, SessionEvent::Mode(None)) => goto(
            DesktopDuplication { attached: false, ..s },
            SessionPhase::Terminated,
            SessionAction::Finished(Err(CaptureError::ModeUnavailable)),
        ),
        (SessionPhase::Creating, SessionEvent::Poll) => out_of_order,
        (SessionPhase::ReadingMode, SessionEvent::Poll) => out_of_order,
        (SessionPhase::Terminated, _) => out_of_order,
        (_, SessionEvent::Poll) => start_poll(s),
        (SessionPhase::Releasing, SessionEvent::Released) => goto(
            DesktopDuplication { frame_locked: false, ..s },
            SessionPhase::Acquiring,
            SessionAction::AcquireFrame,
        ),
        (SessionPhase::Reattaching(ctx), SessionEvent::Created(Ok(()))) => goto(
            DesktopDuplication { attached: true, frame_locked: false, ..s },
            SessionPhase::ReattachMode(ctx),
            SessionAction::QueryMode,
        ),
        (SessionPhase::Reattaching(_), SessionEvent::Created(Err(code))) => goto(
            s,
            SessionPhase::SwitchingDesktop(code),
            SessionAction::SwitchDesktop,
        ),
        (SessionPhase::SwitchingDesktop(code), SessionEvent::DesktopSwitched) => finish(
            s,
            Err(CaptureError::ReattachFailed(code)),
        ),
        (SessionPhase::ReattachMode(ctx), SessionEvent::Mode(Some(m))) => match ctx {
            None => goto(
                DesktopDuplication { display_mode: m, ..s },
                SessionPhase::Acquiring,
                SessionAction::AcquireFrame,
            ),
            Some(code) => finish(
                DesktopDuplication { display_mode: m, ..s },
                Err(CaptureError::Recovered(code)),
            ),
        },
        (SessionPhase::ReattachMode(_), SessionEvent::Mode(None)) => finish(
            s,
            Err(CaptureError::ModeUnavailable),
        ),
        (SessionPhase::Acquiring, SessionEvent::Frame(r)) => on_frame(s, r),
        (SessionPhase::FetchingShape(res), SessionEvent::Shape(r)) => on_shape(s, res, r),
        _ => out_of_order,
    }
}

impl AcquisitionResults {
    /// Nothing acquired.
    pub open spec fn default_spec() -> AcquisitionResults {
        AcquisitionResults { success: false, frame_update: false, cursor_updated: false }
    }

    pub fn none() -> (r: AcquisitionResults)
        ensures
            r == Self::default_spec(),
    {
        AcquisitionResults { success: false, frame_update: false, cursor_updated: false }
    }
}

impl DesktopDuplication {
    /// The session's invariant: a frame is only held through a live handle,
    /// and each phase has the handle and frame that it waits on.
    pub open spec fn wf(&self) -> bool {
        &&& (self.frame_locked ==> self.attached)
        &&& match self.phase {
            SessionPhase::Idle => true,
            SessionPhase::Creating => !self.attached,
            SessionPhase::ReadingMode => self.attached && !self.frame_locked,
            SessionPhase::Releasing => self.attached,
            SessionPhase::Reattaching(_) => !self.attached,
            SessionPhase::SwitchingDesktop(_) => !self.attached,
            SessionPhase::ReattachMode(_) => self.attached && !self.frame_locked,
            SessionPhase::Acquiring => self.attached && !self.frame_locked,
            SessionPhase::FetchingShape(_) => self.attached && self.frame_locked,
            SessionPhase::Terminated => !self.attached && !self.frame_locked,
        }
    }

    /// A session for `display`, not yet attached; the caller creates its
    /// first capture handle.
    pub open spec fn new_spec(display: MonitorHandle) -> DesktopDuplication {
        DesktopDuplication {
            display,
            attached: false,
            frame_locked: false,
            display_mode: DisplayMode {
                width: 0,
                height: 0,
                orientation: crate::display::DisplayOrientation::Landscape,
                refresh_num: 0,
                refresh_den: 1,
                hdr: false,
            },
            cursor_pos: None,
            cursor_data: None,
            phase: SessionPhase::Creating,
        }
    }

    /// Starts creating a session for `display`: the caller creates the
    /// capture handle (negotiating its pixel format) and answers with
    /// `Created`, then with `Mode`.
    pub fn new(display: MonitorHandle) -> (r: (DesktopDuplication, SessionAction))
        ensures
            r.0 == Self::new_spec(display),
            r.0.wf(),
            r.1 == SessionAction::CreateDuplication,
    {
        (
            DesktopDuplication {
                display,
                attached: false,
                frame_locked: false,
                display_mode: DisplayMode {
                    width: 0,
                    height: 0,
                    orientation: crate::display::DisplayOrientation::Landscape,
                    refresh_num: 0,
                    refresh_den: 1,
                    hdr: false,
                },
                cursor_pos: None,
                cursor_data: None,
                phase: SessionPhase::Creating,
            },
            SessionAction::CreateDuplication,
        )
    }

    fn go(&mut self, phase: SessionPhase, action: SessionAction) -> (r: SessionAction)
        ensures
            (*final(self), r) == goto(*old(self), phase, action),
    {
        self.phase = phase;
        action
    }

    fn frame_arrived(&mut self, r: Result<FrameInfo, u32>) -> (a: SessionAction)
        ensures
            (*final(self), a) == on_frame(*old(self), r),
    {
        match r {
            Err(code) => match classify_acquire_status(code) {
                StatusClass::NoNewFrame => self.go(
                    SessionPhase::Idle,
                    SessionAction::Finished(Ok(AcquisitionResults::none())),
                ),
                StatusClass::Reattach => {
                    self.attached = false;
                    self.frame_locked = false;
                    self.go(SessionPhase::Reattaching(Some(code)), SessionAction::CreateDuplication)
                },
                StatusClass::Fatal => self.go(
                    SessionPhase::Idle,
                    SessionAction::Finished(Err(CaptureError::Fatal(code))),
                ),
            },
            Ok(info) => {
                self.frame_locked = true;
                if !info.has_resource {
                    return self.go(
                        SessionPhase::Idle,
                        SessionAction::Finished(Err(CaptureError::MissingFrame)),
                    );
                }
                if info.last_mouse_update_time != 0 {
                    self.cursor_pos = if info.pointer_visible {
                        Some(info.pointer_position)
                    } else {
                        None
                    };
                }
                let res = AcquisitionResults {
                    success: true,
                    frame_update: info.last_present_time != 0,
                    cursor_updated: false,
                };
                if info.pointer_shape_buffer_size != 0 {
                    self.go(
                        SessionPhase::FetchingShape(res),
                        SessionAction::FetchPointerShape(info.pointer_shape_buffer_size),
                    )
                } else {
                    self.go(SessionPhase::Idle, SessionAction::Finished(Ok(res)))
                }
            },
        }
    }

    fn shape_arrived(&mut self, res: AcquisitionResults, r: Result<PointerShape, u32>) -> (a:
        SessionAction)
        ensures
            (*final(self), a) == on_shape(*old(self), res, r),
    {
        match r {
            Err(code) => self.go(
                SessionPhase::Idle,
                SessionAction::Finished(Err(CaptureError::PointerShape(code))),
            ),
            Ok(shape) => match CursorType::from_shape_type(shape.shape_type) {
                None => self.go(
                    SessionPhase::Idle,
                    SessionAction::Finished(Err(CaptureError::UnknownShapeType(shape.shape_type))),
                ),
                Some(t) => {
                    let height = match t {
                        CursorType::Monochrome => shape.height / 2,
                        _ => shape.height,
                    };
                    self.cursor_data = Some(
                        CursorData { cursor_type: t, width: shape.width, height, data: shape.data },
                    );
                    self.go(
                        SessionPhase::Idle,
                        SessionAction::Finished(
                            Ok(
                                AcquisitionResults {
                                    success: res.success,
                                    frame_update: res.frame_update,
                                    cursor_updated: true,
                                },
                            ),
                        ),
                    )
                },
            },
        }
    }

    /// Starts a poll: the first action releases the frame of the previous
    /// poll (or rebuilds a lost handle); the caller then feeds each outcome
    /// to [`DesktopDuplication::step`] until the action is `Finished`.
    pub fn try_acquire_next_frame(&mut self) -> (r: SessionAction)
        requires
            old(self).wf(),
        ensures
            (*final(self), r) == session_next(*old(self), SessionEvent::Poll),
            final(self).wf(),
    {
        self.step(SessionEvent::Poll)
    }

    /// Advances the session by one event.
    ///
    /// A frame is acquired only after the previous one was released: the
    /// session never asks for a frame while it holds one.
    pub fn step(&mut self, event: SessionEvent) -> (r: SessionAction)
        requires
            old(self).wf(),
        ensures
            (*final(self), r) == session_next(*old(self), event),
            final(self).wf(),
            r == SessionAction::AcquireFrame ==> final(self).attached && !final(self).frame_locked,
            final(self).display == old(self).display,
    {
        let out_of_order = SessionAction::Finished(Err(CaptureError::OutOfOrder));
        match (self.phase, event) {
            (SessionPhase::Creating, SessionEvent::Created(Ok(()))) => {
                self.attached = true;
                self.go(SessionPhase::ReadingMode, SessionAction::QueryMode)
            },
            (SessionPhase::Creating, SessionEvent::Created(Err(code))) => self.go(
                SessionPhase::Terminated,
                SessionAction::Finished(Err(CaptureError::Create(code))),
            ),
            (SessionPhase::ReadingMode, SessionEvent::Mode(Some(m))) => {
                self.display_mode = m;
                self.go(SessionPhase::Idle, SessionAction::Finished(Ok(AcquisitionResults::none())))
            },
            (SessionPhase::ReadingMode, SessionEvent::Mode(None)) => {
                self.attached = false;
                self.go(
                    SessionPhase::Terminated,
                    SessionAction::Finished(Err(CaptureError::ModeUnavailable)),
                )
            },
            (SessionPhase::Creating, SessionEvent::Poll) => out_of_order,
            (SessionPhase::ReadingMode, SessionEvent::Poll) => out_of_order,
            (SessionPhase::Terminated, _) => out_of_order,
            (_, SessionEvent::Poll) => {
                if self.attached {
                    self.go(SessionPhase::Releasing, SessionAction::ReleaseFrame)
                } else {
                    self.frame_locked = false;
                    self.go(SessionPhase::Reattaching(None), SessionAction::CreateDuplication)
                }
            },
            (SessionPhase::Releasing, SessionEvent::Released) => {
                self.frame_locked = false;
                self.go(SessionPhase::Acquiring, SessionAction::AcquireFrame)
            },
            (SessionPhase::Reattaching(ctx), SessionEvent::Created(Ok(()))) => {
                self.attached = true;
                self.frame_locked = false;
                self.go(SessionPhase::ReattachMode(ctx), SessionAction::QueryMode)
            },
            (SessionPhase::Reattaching(_), SessionEvent::Created(Err(code))) => self.go(
                SessionPhase::SwitchingDesktop(code),
                SessionAction::SwitchDesktop,
            ),
            (SessionPhase::SwitchingDesktop(code), SessionEvent::DesktopSwitched) => self.go(
                SessionPhase::Idle,
                SessionAction::Finished(Err(CaptureError::ReattachFailed(code))),
            ),
            (SessionPhase::ReattachMode(ctx), SessionEvent::Mode(Some(m))) => {
                self.display_mode = m;
                match ctx {
                    None => self.go(SessionPhase::Acquiring, SessionAction::AcquireFrame),
                    Some(code) => self.go(
                        SessionPhase::Idle,
                        SessionAction::Finished(Err(CaptureError::Recovered(code))),
                    ),
                }
            },
            (SessionPhase::ReattachMode(_), SessionEvent::Mode(None)) => self.go(
                SessionPhase::Idle,
                SessionAction::Finished(Err(CaptureError::ModeUnavailable)),
            ),
            (SessionPhase::Acquiring, SessionEvent::Frame(r)) => self.frame_arrived(r),
            (SessionPhase::FetchingShape(res), SessionEvent::Shape(r)) => self.shape_arrived(res, r),
            _ => out_of_order,
        }
    }
}


impl DesktopDuplication {
    pub fn get_cursor_pos(&self) -> (r: Option<CursorPos>)
        ensures
            r == self.cursor_pos,
    {
        self.cursor_pos
    }

    pub fn get_cursor_data(&self) -> (r: Option<&CursorData>)
        ensures
            r == match self.cursor_data {
                Some(d) => Some(&d),
                None => None::<&CursorData>,
            },
    {
        match &self.cursor_data {
            Some(d) => Some(d),
            None => None,
        }
    }

    pub fn get_display_mode(&self) -> (r: DisplayMode)
        ensures
            r == self.display_mode,
    {
        self.display_mode
    }

    /// The display this session captures.
    pub fn get_current_output(&self) -> (r: MonitorHandle)
        ensures
            r == self.display,
    {
        self.display
    }

    pub fn is_terminated(&self) -> (r: bool)
        ensures
            r == (self.phase is Terminated),
    {
        match self.phase {
            SessionPhase::Terminated => true,
            _ => false,
        }
    }

    /// What tearing this session down involves.
    pub open spec fn teardown_of(&self) -> Teardown {
        Teardown { release_frame: self.frame_locked, close_handle: self.attached }
    }

    /// The session once torn down.
    pub open spec fn released(self) -> DesktopDuplication {
        DesktopDuplication {
            attached: false,
            frame_locked: false,
            phase: SessionPhase::Terminated,
            ..self
        }
    }

    /// Tears the session down: its frame is released first, then its
    /// capture handle. The caller performs the returned teardown.
    pub fn release(&mut self) -> (r: Teardown)
        ensures
            r == old(self).teardown_of(),
            *final(self) == old(self).released(),
            final(self).wf(),
    {
        let r = Teardown { release_frame: self.frame_locked, close_handle: self.attached };
        self.attached = false;
        self.frame_locked = false;
        self.phase = SessionPhase::Terminated;
        r
    }

    /// Tears the session down and starts over against `display`, as
    /// [`DesktopDuplication::new`] does. The caller performs the teardown,
    /// then creates the capture handle.
    pub fn switch_output(&mut self, display: MonitorHandle) -> (r: (Teardown, SessionAction))
        ensures
            r.0 == old(self).teardown_of(),
            *final(self) == Self::new_spec(display),
            final(self).wf(),
            r.1 == SessionAction::CreateDuplication,
    {
        let teardown = self.release();
        let (fresh, action) = DesktopDuplication::new(display);
        *self = fresh;
        (teardown, action)
    }
}

/// Whatever the session's state and whatever event arrives, the invariant
/// holds afterwards and a frame is only asked for while none is held; so two
/// frames are never locked at once.
pub proof fn lemma_acquire_only_when_unlocked(s: DesktopDuplication, e: SessionEvent)
    requires
        s.wf(),
    ensures
        session_next(s, e).0.wf(),
        session_next(s, e).1 == SessionAction::AcquireFrame ==> session_next(s, e).0.attached
            && !session_next(s, e).0.frame_locked,
{
}

/// A poll that starts while the previous poll's frame is still held releases
/// that frame first, and acquires the next one only once the release is
/// done.
pub proof fn lemma_poll_releases_held_frame(s: DesktopDuplication)
    requires
        s.wf(),
        s.frame_locked,
        !(s.phase is Creating || s.phase is ReadingMode || s.phase is Terminated),
    ensures
        session_next(s, SessionEvent::Poll).1 == SessionAction::ReleaseFrame,
        session_next(s, SessionEvent::Poll).0.frame_locked,
        session_next(session_next(s, SessionEvent::Poll).0, SessionEvent::Released).1
            == SessionAction::AcquireFrame,
        !session_next(session_next(s, SessionEvent::Poll).0, SessionEvent::Released).0.frame_locked,
{
}

} // verus!
