use display_peek::cursor::CursorType;
use display_peek::display::{DisplayMode, DisplayOrientation};
use display_peek::duplication::{
    classify_acquire_status, classify_create_status, AcquisitionResults, CaptureError,
    CreateFailure, CursorPos, DesktopDuplication, FrameInfo, PointerShape, SessionAction,
    SessionEvent, SessionPhase, StatusClass, Teardown, DXGI_ERROR_ACCESS_DENIED,
    DXGI_ERROR_ACCESS_LOST, DXGI_ERROR_INVALID_CALL, DXGI_ERROR_WAIT_TIMEOUT,
};

const DEVICE_REMOVED: u32 = 0x887A_0005;

fn mode() -> DisplayMode {
    DisplayMode {
        width: 2560,
        height: 1440,
        orientation: DisplayOrientation::Landscape,
        refresh_num: 144,
        refresh_den: 1,
        hdr: false,
    }
}

fn active_session() -> DesktopDuplication {
    let (mut s, a) = DesktopDuplication::new(7);
    assert_eq!(a, SessionAction::CreateDuplication);
    assert_eq!(s.step(SessionEvent::Created(Ok(()))), SessionAction::QueryMode);
    assert_eq!(
        s.step(SessionEvent::Mode(Some(mode()))),
        SessionAction::Finished(Ok(AcquisitionResults::default()))
    );
    s
}

fn frame(present: i64, mouse: i64, shape_size: u32) -> FrameInfo {
    FrameInfo {
        last_present_time: present,
        last_mouse_update_time: mouse,
        pointer_position: CursorPos { x: 10, y: 20 },
        pointer_visible: true,
        pointer_shape_buffer_size: shape_size,
        has_resource: true,
    }
}

fn poll_until_acquire(s: &mut DesktopDuplication) {
    assert_eq!(s.try_acquire_next_frame(), SessionAction::ReleaseFrame);
    assert_eq!(s.step(SessionEvent::Released), SessionAction::AcquireFrame);
    assert!(!s.frame_locked);
}

#[test]
fn creation_reads_mode_and_goes_idle() {
    let s = active_session();
    assert!(s.attached);
    assert!(!s.frame_locked);
    assert_eq!(s.phase, SessionPhase::Idle);
    assert_eq!(s.get_display_mode(), mode());
    assert_eq!(s.get_current_output(), 7);
    assert_eq!(s.get_cursor_pos(), None);
    assert!(s.get_cursor_data().is_none());
}

#[test]
fn creation_failure_terminates() {
    let (mut s, _) = DesktopDuplication::new(7);
    assert_eq!(
        s.step(SessionEvent::Created(Err(0x8007_0005))),
        SessionAction::Finished(Err(CaptureError::Create(0x8007_0005)))
    );
    assert!(s.is_terminated());
    assert_eq!(
        s.step(SessionEvent::Poll),
        SessionAction::Finished(Err(CaptureError::OutOfOrder))
    );
}

#[test]
fn creation_without_mode_terminates() {
    let (mut s, _) = DesktopDuplication::new(7);
    s.step(SessionEvent::Created(Ok(())));
    assert_eq!(
        s.step(SessionEvent::Mode(None)),
        SessionAction::Finished(Err(CaptureError::ModeUnavailable))
    );
    assert!(s.is_terminated());
    assert!(!s.attached);
}

#[test]
fn create_status_classes() {
    assert_eq!(classify_create_status(0x8007_0057), CreateFailure::InvalidArgument);
    assert_eq!(classify_create_status(0x8007_0005), CreateFailure::AccessDenied);
    assert_eq!(classify_create_status(0x887A_0004), CreateFailure::Unsupported);
    assert_eq!(classify_create_status(0x887A_0028), CreateFailure::SessionDisconnected);
    assert_eq!(classify_create_status(0x1234), CreateFailure::Other(0x1234));
}

#[test]
fn acquire_status_classes() {
    assert_eq!(classify_acquire_status(DXGI_ERROR_WAIT_TIMEOUT), StatusClass::NoNewFrame);
    assert_eq!(classify_acquire_status(DXGI_ERROR_ACCESS_LOST), StatusClass::Reattach);
    assert_eq!(classify_acquire_status(DXGI_ERROR_ACCESS_DENIED), StatusClass::Reattach);
    assert_eq!(classify_acquire_status(DXGI_ERROR_INVALID_CALL), StatusClass::Reattach);
    assert_eq!(classify_acquire_status(DEVICE_REMOVED), StatusClass::Fatal);
}

#[test]
fn timeout_is_no_new_frame_not_an_error() {
    let mut s = active_session();
    poll_until_acquire(&mut s);
    assert_eq!(
        s.step(SessionEvent::Frame(Err(DXGI_ERROR_WAIT_TIMEOUT))),
        SessionAction::Finished(Ok(AcquisitionResults { success: false, frame_update: false, cursor_updated: false }))
    );
    assert!(!s.frame_locked);
    assert!(s.attached);
}

#[test]
fn frame_only_poll() {
    let mut s = active_session();
    poll_until_acquire(&mut s);
    assert_eq!(
        s.step(SessionEvent::Frame(Ok(frame(5, 0, 0)))),
        SessionAction::Finished(Ok(AcquisitionResults { success: true, frame_update: true, cursor_updated: false }))
    );
    assert!(s.frame_locked);
    assert_eq!(s.get_cursor_pos(), None);
}

#[test]
fn neither_frame_nor_cursor_changed() {
    let mut s = active_session();
    poll_until_acquire(&mut s);
    assert_eq!(
        s.step(SessionEvent::Frame(Ok(frame(0, 0, 0)))),
        SessionAction::Finished(Ok(AcquisitionResults { success: true, frame_update: false, cursor_updated: false }))
    );
}

#[test]
fn cursor_shape_and_position_update() {
    let mut s = active_session();
    poll_until_acquire(&mut s);
    assert_eq!(
        s.step(SessionEvent::Frame(Ok(frame(0, 3, 256)))),
        SessionAction::FetchPointerShape(256)
    );
    assert_eq!(s.get_cursor_pos(), Some(CursorPos { x: 10, y: 20 }));
    let shape = PointerShape { shape_type: 1, width: 32, height: 64, data: vec![0xAB; 256] };
    assert_eq!(
        s.step(SessionEvent::Shape(Ok(shape))),
        SessionAction::Finished(Ok(AcquisitionResults { success: true, frame_update: false, cursor_updated: true }))
    );
    let data = s.get_cursor_data().expect("shape stored");
    assert_eq!(data.cursor_type, CursorType::Monochrome);
    assert_eq!((data.width, data.height), (32, 32));
    assert_eq!(data.data, vec![0xAB; 256]);
}

#[test]
fn color_shape_keeps_height() {
    let mut s = active_session();
    poll_until_acquire(&mut s);
    s.step(SessionEvent::Frame(Ok(frame(1, 0, 16))));
    let shape = PointerShape { shape_type: 2, width: 2, height: 2, data: vec![0; 16] };
    s.step(SessionEvent::Shape(Ok(shape)));
    let data = s.get_cursor_data().unwrap();
    assert_eq!((data.cursor_type, data.height), (CursorType::Color, 2));
}

#[test]
fn hidden_pointer_clears_position() {
    let mut s = active_session();
    poll_until_acquire(&mut s);
    s.step(SessionEvent::Frame(Ok(frame(0, 1, 0))));
    assert!(s.get_cursor_pos().is_some());
    poll_until_acquire(&mut s);
    let hidden = FrameInfo { pointer_visible: false, ..frame(0, 2, 0) };
    s.step(SessionEvent::Frame(Ok(hidden)));
    assert_eq!(s.get_cursor_pos(), None);
}

#[test]
fn pointer_shape_errors() {
    let mut s = active_session();
    poll_until_acquire(&mut s);
    s.step(SessionEvent::Frame(Ok(frame(1, 0, 8))));
    assert_eq!(
        s.step(SessionEvent::Shape(Err(0x8000_4005))),
        SessionAction::Finished(Err(CaptureError::PointerShape(0x8000_4005)))
    );
    poll_until_acquire(&mut s);
    s.step(SessionEvent::Frame(Ok(frame(1, 0, 8))));
    let shape = PointerShape { shape_type: 8, width: 1, height: 1, data: vec![0; 8] };
    assert_eq!(
        s.step(SessionEvent::Shape(Ok(shape))),
        SessionAction::Finished(Err(CaptureError::UnknownShapeType(8)))
    );
    assert!(!CaptureError::UnknownShapeType(8).is_fatal());
}

#[test]
fn missing_frame_texture_is_an_error_and_frame_stays_held() {
    let mut s = active_session();
    poll_until_acquire(&mut s);
    let bare = FrameInfo { has_resource: false, ..frame(1, 0, 0) };
    assert_eq!(
        s.step(SessionEvent::Frame(Ok(bare))),
        SessionAction::Finished(Err(CaptureError::MissingFrame))
    );
    assert!(s.frame_locked);
    poll_until_acquire(&mut s);
}

#[test]
fn access_lost_rebuilds_and_reports() {
    let mut s = active_session();
    poll_until_acquire(&mut s);
    assert_eq!(
        s.step(SessionEvent::Frame(Err(DXGI_ERROR_ACCESS_LOST))),
        SessionAction::CreateDuplication
    );
    assert!(!s.attached);
    assert_eq!(s.step(SessionEvent::Created(Ok(()))), SessionAction::QueryMode);
    let rotated = DisplayMode { orientation: DisplayOrientation::Portrait, ..mode() };
    assert_eq!(
        s.step(SessionEvent::Mode(Some(rotated))),
        SessionAction::Finished(Err(CaptureError::Recovered(DXGI_ERROR_ACCESS_LOST)))
    );
    assert!(!CaptureError::Recovered(DXGI_ERROR_ACCESS_LOST).is_fatal());
    assert_eq!(s.get_display_mode(), rotated);
    assert!(s.attached);
    poll_until_acquire(&mut s);
}

#[test]
fn failed_rebuild_switches_desktop_then_escalates() {
    let mut s = active_session();
    poll_until_acquire(&mut s);
    s.step(SessionEvent::Frame(Err(DXGI_ERROR_ACCESS_DENIED)));
    assert_eq!(s.step(SessionEvent::Created(Err(0x8007_0005))), SessionAction::SwitchDesktop);
    let done = s.step(SessionEvent::DesktopSwitched);
    assert_eq!(done, SessionAction::Finished(Err(CaptureError::ReattachFailed(0x8007_0005))));
    assert!(CaptureError::ReattachFailed(0x8007_0005).is_fatal());
    // a later poll starts by rebuilding the handle
    assert_eq!(s.step(SessionEvent::Poll), SessionAction::CreateDuplication);
    assert_eq!(s.step(SessionEvent::Created(Ok(()))), SessionAction::QueryMode);
    assert_eq!(s.step(SessionEvent::Mode(Some(mode()))), SessionAction::AcquireFrame);
}

#[test]
fn other_status_is_fatal() {
    let mut s = active_session();
    poll_until_acquire(&mut s);
    let done = s.step(SessionEvent::Frame(Err(DEVICE_REMOVED)));
    assert_eq!(done, SessionAction::Finished(Err(CaptureError::Fatal(DEVICE_REMOVED))));
    assert!(CaptureError::Fatal(DEVICE_REMOVED).is_fatal());
}

#[test]
fn consecutive_polls_never_hold_two_frames() {
    let mut s = active_session();
    for _ in 0..3 {
        assert_eq!(s.try_acquire_next_frame(), SessionAction::ReleaseFrame);
        assert_eq!(s.step(SessionEvent::Released), SessionAction::AcquireFrame);
        assert!(!s.frame_locked);
        s.step(SessionEvent::Frame(Ok(frame(1, 0, 0))));
        assert!(s.frame_locked);
    }
}

#[test]
fn events_out_of_order_change_nothing() {
    let mut s = active_session();
    assert_eq!(
        s.step(SessionEvent::Released),
        SessionAction::Finished(Err(CaptureError::OutOfOrder))
    );
    assert_eq!(s.phase, SessionPhase::Idle);
    assert!(!CaptureError::OutOfOrder.is_fatal());
}

#[test]
fn release_frees_frame_then_handle() {
    let mut s = active_session();
    poll_until_acquire(&mut s);
    s.step(SessionEvent::Frame(Ok(frame(1, 0, 0))));
    assert_eq!(s.release(), Teardown { release_frame: true, close_handle: true });
    assert!(!s.frame_locked);
    assert!(!s.attached);
    assert!(s.is_terminated());
}

#[test]
fn switch_output_tears_down_and_recreates() {
    let mut s = active_session();
    poll_until_acquire(&mut s);
    s.step(SessionEvent::Frame(Ok(frame(1, 0, 0))));
    let (teardown, action) = s.switch_output(9);
    assert_eq!(teardown, Teardown { release_frame: true, close_handle: true });
    assert_eq!(action, SessionAction::CreateDuplication);
    assert_eq!(s.get_current_output(), 9);
    assert_eq!(s.phase, SessionPhase::Creating);
    assert!(!s.frame_locked);
}
