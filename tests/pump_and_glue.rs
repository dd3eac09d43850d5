use display_peek::autostart::{disable, enable, is_enabled, reg_key, run_key_path, start_cmd};
use display_peek::cursor::{CursorType, SpriteState};
use display_peek::display::{DisplayMode, DisplayOrientation};
use display_peek::duplication::{
    AcquisitionResults, CaptureError, CursorPos, FrameInfo, SessionAction, SessionEvent, Teardown,
};
use display_peek::orchestrator::{Orchestrator, PollFollowup};
use display_peek::presenter::{
    blend_config, composite_plan, cursor_passes, BlendFactor, BlendState, DrawPass, QuadTexture,
};
use display_peek::vsync::{PumpCommand, PumpEvent, VsyncPump};

fn mode() -> DisplayMode {
    DisplayMode {
        width: 1920,
        height: 1080,
        orientation: DisplayOrientation::Landscape,
        refresh_num: 60,
        refresh_den: 1,
        hdr: false,
    }
}

#[test]
fn pump_unassigned_while_waiting_stops_waiting() {
    let mut pump = VsyncPump::new(Some("A"));
    assert_eq!(pump.start(), PumpCommand::CheckMailbox);
    assert_eq!(pump.step(PumpEvent::Empty), PumpCommand::WaitAndNotify);
    // "none" is sent while the thread is blocked on A's vertical blank
    assert_eq!(pump.step(PumpEvent::Notified { consumer_closed: false }), PumpCommand::CheckMailbox);
    assert_eq!(pump.step(PumpEvent::Assigned(None)), PumpCommand::AwaitAssignment);
    assert_eq!(pump.current(), None);
    assert_eq!(pump.step(PumpEvent::Empty), PumpCommand::AwaitAssignment);
    assert_eq!(pump.step(PumpEvent::Notified { consumer_closed: false }), PumpCommand::AwaitAssignment);
    assert_eq!(pump.step(PumpEvent::Assigned(Some("B"))), PumpCommand::CheckMailbox);
    assert_eq!(pump.current(), Some(&"B"));
    assert_eq!(pump.step(PumpEvent::Empty), PumpCommand::WaitAndNotify);
}

#[test]
fn pump_reassignment_skips_that_wait() {
    let mut pump = VsyncPump::new(Some(1));
    assert_eq!(pump.step(PumpEvent::Assigned(Some(2))), PumpCommand::CheckMailbox);
    assert_eq!(pump.current(), Some(&2));
}

#[test]
fn pump_exits_when_either_side_closes() {
    let mut pump = VsyncPump::new(Some(1));
    assert_eq!(pump.step(PumpEvent::MailboxClosed), PumpCommand::Exit);
    let mut idle: VsyncPump<u8> = VsyncPump::new(None);
    assert_eq!(idle.start(), PumpCommand::AwaitAssignment);
    assert_eq!(idle.step(PumpEvent::MailboxClosed), PumpCommand::Exit);
    let mut busy = VsyncPump::new(Some(1));
    assert_eq!(busy.step(PumpEvent::Notified { consumer_closed: true }), PumpCommand::Exit);
}

fn pass(blend: BlendState, texture: QuadTexture) -> DrawPass {
    DrawPass { blend, texture }
}

#[test]
fn plan_per_cursor_encoding() {
    assert_eq!(cursor_passes(CursorType::Color), vec![pass(BlendState::Color, QuadTexture::CursorNorm)]);
    assert_eq!(
        cursor_passes(CursorType::Monochrome),
        vec![
            pass(BlendState::MonochromeNorm, QuadTexture::CursorNorm),
            pass(BlendState::MonochromeMask, QuadTexture::CursorMask)
        ]
    );
    assert_eq!(
        cursor_passes(CursorType::MaskedColor),
        vec![
            pass(BlendState::MaskedNorm, QuadTexture::CursorNorm),
            pass(BlendState::MaskedMask, QuadTexture::CursorMask)
        ]
    );
}

#[test]
fn plan_draws_frame_then_cursor() {
    let mut sprite = SpriteState::new(32, 32);
    assert_eq!(composite_plan(false, true, &sprite), vec![]);
    assert_eq!(composite_plan(true, true, &sprite), vec![pass(BlendState::Replace, QuadTexture::Frame)]);
    sprite.valid = true;
    sprite.cursor_type = CursorType::MaskedColor;
    assert_eq!(composite_plan(true, false, &sprite), vec![pass(BlendState::Replace, QuadTexture::Frame)]);
    assert_eq!(
        composite_plan(true, true, &sprite),
        vec![
            pass(BlendState::Replace, QuadTexture::Frame),
            pass(BlendState::MaskedNorm, QuadTexture::CursorNorm),
            pass(BlendState::MaskedMask, QuadTexture::CursorMask)
        ]
    );
}

#[test]
fn blend_factors() {
    let c = blend_config(BlendState::Color);
    assert_eq!((c.src, c.dst), (BlendFactor::One, BlendFactor::InvSrcAlpha));
    assert_eq!((c.src_alpha, c.dst_alpha), (BlendFactor::InvDestAlpha, BlendFactor::One));
    let m = blend_config(BlendState::MonochromeNorm);
    assert_eq!((m.src, m.dst), (BlendFactor::Zero, BlendFactor::SrcColor));
    let x = blend_config(BlendState::MonochromeMask);
    assert_eq!((x.src, x.dst), (BlendFactor::InvDestColor, BlendFactor::InvSrcColor));
    let k = blend_config(BlendState::MaskedNorm);
    assert_eq!((k.src, k.dst), (BlendFactor::SrcAlpha, BlendFactor::InvSrcAlpha));
    let r = blend_config(BlendState::Replace);
    assert_eq!((r.src, r.dst), (BlendFactor::One, BlendFactor::Zero));
}

fn create(o: &mut Orchestrator) -> Option<Option<isize>> {
    let d = o.on_session_event(SessionEvent::Created(Ok(())));
    assert_eq!(d.action, SessionAction::QueryMode);
    let d = o.on_session_event(SessionEvent::Mode(Some(mode())));
    assert_eq!(d.action, SessionAction::Finished(Ok(AcquisitionResults::default())));
    d.retarget
}

fn hold_frame(o: &mut Orchestrator) {
    assert_eq!(o.on_session_event(SessionEvent::Poll).action, SessionAction::ReleaseFrame);
    assert_eq!(o.on_session_event(SessionEvent::Released).action, SessionAction::AcquireFrame);
    let info = FrameInfo {
        last_present_time: 1,
        last_mouse_update_time: 1,
        pointer_position: CursorPos { x: 1, y: 1 },
        pointer_visible: true,
        pointer_shape_buffer_size: 0,
        has_resource: true,
    };
    o.on_session_event(SessionEvent::Frame(Ok(info)));
}

#[test]
fn switching_from_a_to_b_end_to_end() {
    let (a, b): (isize, isize) = (0xA, 0xB);
    let mut o = Orchestrator::new();
    let plan = o.on_monitor_switch(Some(a), true);
    assert!(plan.create);
    assert_eq!(create(&mut o), Some(Some(a)));
    hold_frame(&mut o);
    o.frame_copied();
    assert!(o.has_frame());
    assert!(o.cursor_visible());
    assert!(o.session.as_ref().unwrap().frame_locked);

    let plan = o.on_monitor_switch(Some(b), true);
    // (1) A's session is torn down, its held frame released
    assert_eq!(plan.teardown, Some(Teardown { release_frame: true, close_handle: true }));
    // (2) a session bound to B is built
    assert!(plan.create);
    let s = o.session.as_ref().unwrap();
    assert_eq!(s.get_current_output(), b);
    // (4) no frame is held any more
    assert!(!s.frame_locked);
    assert!(!o.has_frame());
    // (3) the pump follows once B's session is up
    assert_eq!(create(&mut o), Some(Some(b)));
    assert_eq!(o.pump_target, Some(b));
    assert_eq!(plan.visible, Some(true));
}

#[test]
fn switching_to_same_display_keeps_session() {
    let mut o = Orchestrator::new();
    o.on_monitor_switch(Some(1), true);
    create(&mut o);
    let plan = o.on_monitor_switch(Some(1), true);
    assert_eq!(plan.teardown, None);
    assert!(!plan.create);
    assert_eq!(plan.retarget, None);
    assert_eq!(o.pump_target, Some(1));
}

#[test]
fn display_without_overlay_hides_everything() {
    let mut o = Orchestrator::new();
    o.on_monitor_switch(Some(1), true);
    create(&mut o);
    let plan = o.on_monitor_switch(Some(2), false);
    assert_eq!(plan.teardown, Some(Teardown { release_frame: false, close_handle: true }));
    assert_eq!(plan.retarget, Some(None));
    assert_eq!(plan.visible, Some(false));
    assert!(o.session.is_none());
    assert!(!o.visible);
}

#[test]
fn unknown_display_changes_nothing() {
    let mut o = Orchestrator::new();
    let plan = o.on_monitor_switch(None, true);
    assert_eq!(plan.teardown, None);
    assert!(!plan.create);
    assert_eq!(plan.visible, None);
}

#[test]
fn failed_creation_idles_pump() {
    let mut o = Orchestrator::new();
    o.on_monitor_switch(Some(3), true);
    let d = o.on_session_event(SessionEvent::Created(Err(0x887A_0004)));
    assert_eq!(d.action, SessionAction::Finished(Err(CaptureError::Create(0x887A_0004))));
    assert_eq!(d.retarget, Some(None));
    assert!(o.session.is_none());
    let d = o.on_session_event(SessionEvent::Poll);
    assert_eq!(d.action, SessionAction::Finished(Err(CaptureError::OutOfOrder)));
}

#[test]
fn fatal_poll_drops_session() {
    let mut o = Orchestrator::new();
    o.on_monitor_switch(Some(3), true);
    create(&mut o);
    o.on_session_event(SessionEvent::Poll);
    o.on_session_event(SessionEvent::Released);
    let d = o.on_session_event(SessionEvent::Frame(Err(0x887A_0005)));
    assert_eq!(d.action, SessionAction::Finished(Err(CaptureError::Fatal(0x887A_0005))));
    assert_eq!(d.teardown, Some(Teardown { release_frame: false, close_handle: true }));
    assert_eq!(d.retarget, Some(None));
    assert!(o.session.is_none());
    assert_eq!(o.pump_target, None);
}

#[test]
fn followup_of_poll_results() {
    let r = AcquisitionResults { success: true, frame_update: true, cursor_updated: false };
    assert_eq!(
        Orchestrator::followup(r),
        PollFollowup { copy_frame: true, redraw: true, update_cursor: false }
    );
    let r = AcquisitionResults { success: true, frame_update: false, cursor_updated: true };
    assert_eq!(
        Orchestrator::followup(r),
        PollFollowup { copy_frame: false, redraw: true, update_cursor: true }
    );
    assert_eq!(
        Orchestrator::followup(AcquisitionResults::default()),
        PollFollowup { copy_frame: false, redraw: false, update_cursor: false }
    );
}

#[test]
fn autostart_registration() {
    assert_eq!(reg_key(), "DisplayPeek");
    assert_eq!(run_key_path(), "Software\\Microsoft\\Windows\\CurrentVersion\\Run");
    assert_eq!(start_cmd("C:\\Apps\\peek.exe"), "\"C:\\Apps\\peek.exe\"");
    let v = enable("C:\\peek.exe");
    assert_eq!(v.name, "DisplayPeek");
    assert_eq!(v.data, "\"C:\\peek.exe\"");
    assert_eq!(disable(), "DisplayPeek");
}

#[test]
fn autostart_detection() {
    let exe = "C:\\peek.exe";
    let values = vec![
        (String::from("Other"), Some(String::from("\"C:\\peek.exe\""))),
        (String::from("DisplayPeek"), None),
    ];
    assert!(!is_enabled(&values, exe));
    let mut more = values.clone();
    more.push((String::from("DisplayPeek"), Some(String::from("\"C:\\old\\peek.exe\""))));
    assert!(!is_enabled(&more, exe));
    more.push((String::from("DisplayPeek"), Some(String::from("\"C:\\peek.exe\""))));
    assert!(is_enabled(&more, exe));
    assert!(!is_enabled(&Vec::new(), exe));
}
