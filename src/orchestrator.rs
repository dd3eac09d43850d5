//! The glue between the pieces: it owns the capture session, tracks the
//! pump's assignment, the overlay's visibility and whether a captured frame
//! is cached, and reacts to monitor switches and to the session's outcomes.

use vstd::prelude::*;
use crate::display::MonitorHandle;
use crate::duplication::{
    AcquisitionResults,
    CaptureError,
    DesktopDuplication,
    SessionAction,
    SessionEvent,
    SessionPhase,
    Teardown,
    session_next,
};

verus! {

/// What a monitor switch asks of the caller, in this order: tear the old
/// session down, create the new session's capture handle (answering with
/// `Created`, then `Mode`), retarget the pump, show or hide the overlay.
#[derive(Clone, Copy, Debug, PartialEq, Eq, Structural)]
pub struct SwitchPlan {
    pub teardown: Option<Teardown>,
    pub create: bool,
    pub retarget: Option<Option<MonitorHandle>>,
    pub visible: Option<bool>,
}

/// What the caller does after the session took an event: perform `action`;
/// if the session was dropped, perform `teardown`; retarget the pump if
/// `retarget` says so.
#[derive(Clone, Copy, Debug, PartialEq, Eq)]
pub struct SessionDirective {
    pub action: SessionAction,
    pub teardown: Option<Teardown>,
    pub retarget: Option<Option<MonitorHandle>>,
}

/// What to do once a poll succeeded.
#[derive(Clone, Copy, Debug, PartialEq, Eq, Structural)]
pub struct PollFollowup {
    /// Copy the acquired frame into the cache.
    pub copy_frame: bool,
    /// Ask for a redraw.
    pub redraw: bool,
    /// Decode and upload the new pointer shape.
    pub update_cursor: bool,
}

#[derive(Debug)]
pub struct Orchestrator {
    pub session: Option<DesktopDuplication>,
    pub pump_target: Option<MonitorHandle>,
    pub visible: bool,
    pub frame_cached: bool,
}

/// What tearing down an optional session involves.
pub open spec fn teardown_of_opt(s: Option<DesktopDuplication>) -> Option<Teardown> {
    match s {
        Some(s) => Some(s.teardown_of()),
        None => None,
    }
}

/// The reaction to the pointer entering the display `target` (`None` when
/// no output matches its handle); `has_overlay` says whether the
/// configuration places an overlay for it.
pub open spec fn switch_next(o: Orchestrator, target: Option<MonitorHandle>, has_overlay: bool) -> (
    Orchestrator,
    SwitchPlan,
) {
    match target {
        None => (o, SwitchPlan { teardown: None, create: false, retarget: None, visible: None }),
        Some(t) => if !has_overlay {
            (
                Orchestrator { session: None, pump_target: None, visible: false, frame_cached: false },
                SwitchPlan {
                    teardown: teardown_of_opt(o.session),
                    create: false,
                    retarget: Some(None),
                    visible: Some(false),
                },
            )
        } else if o.session matches Some(s) && s.display == t {
            (
                Orchestrator { visible: true, ..o },
                SwitchPlan { teardown: None, create: false, retarget: None, visible: Some(true) },
            )
        } else {
            (
                Orchestrator {
                    session: Some(DesktopDuplication::new_spec(t)),
                    visible: true,
                    frame_cached: false,
                    ..o
                },
                SwitchPlan {
                    teardown: teardown_of_opt(o.session),
                    create: true,
                    retarget: None,
                    visible: Some(true),
                },
            )
        },
    }
}

/// The reaction to an event for the session. A session whose creation
/// completes gets the pump; a session that fails fatally (or whose creation
/// fails) is dropped, and the pump goes idle.
pub open spec fn session_event_next(o: Orchestrator, e: SessionEvent) -> (
    Orchestrator,
    SessionDirective,
) {
    match o.session {
        None => (
            o,
            SessionDirective {
                action: SessionAction::Finished(Err(CaptureError::OutOfOrder)),
                teardown: None,
                retarget: None,
            },
        ),
        Some(s) => {
            let (s2, a) = session_next(s, e);
            let creating = s.phase is Creating || s.phase is ReadingMode;
            let fatal = a matches SessionAction::Finished(Err(err)) && err.is_fatal_spec();
            if creating && a matches SessionAction::Finished(Ok(_)) {
                (
                    Orchestrator { session: Some(s2), pump_target: Some(s.display), ..o },
                    SessionDirective { action: a, teardown: None, retarget: Some(Some(s.display)) },
                )
            } else if fatal {
                (
                    Orchestrator { session: None, pump_target: None, frame_cached: false, ..o },
                    SessionDirective {
                        action: a,
                        teardown: Some(s2.teardown_of()),
                        retarget: Some(None),
                    },
                )
            } else {
                (
                    Orchestrator { session: Some(s2), ..o },
                    SessionDirective { action: a, teardown: None, retarget: None },
                )
            }
        },
    }
}

pub open spec fn followup_of(r: AcquisitionResults) -> PollFollowup {
    PollFollowup {
        copy_frame: r.success && r.frame_update,
        redraw: r.success,
        update_cursor: r.cursor_updated,
    }
}

impl Orchestrator {
    pub open spec fn wf(&self) -> bool {
        self.session matches Some(s) ==> s.wf()
    }

    pub fn new() -> (r: Orchestrator)
        ensures
            r.wf(),
            r.session is None,
            r.pump_target is None,
            !r.visible,
            !r.frame_cached,
    {
        Orchestrator { session: None, pump_target: None, visible: false, frame_cached: false }
    }

    /// Drops the current session, if any, and says how to tear it down.
    fn take_session(&mut self) -> (r: Option<Teardown>)
        ensures
            r == teardown_of_opt(old(self).session),
            final(self).session is None,
            final(self).pump_target == old(self).pump_target,
            final(self).visible == old(self).visible,
            final(self).frame_cached == old(self).frame_cached,
    {
        match self.session.take() {
            Some(mut s) => Some(s.release()),
            None => None,
        }
    }

    /// Reacts to the pointer entering the display `target`.
    pub fn on_monitor_switch(&mut self, target: Option<MonitorHandle>, has_overlay: bool) -> (r:
        SwitchPlan)
        requires
            old(self).wf(),
        ensures
            (*final(self), r) == switch_next(*old(self), target, has_overlay),
            final(self).wf(),
    {
        match target {
            None => SwitchPlan { teardown: None, create: false, retarget: None, visible: None },
            Some(t) => {
                if !has_overlay {
                    let teardown = self.take_session();
                    self.pump_target = None;
                    self.visible = false;
                    self.frame_cached = false;
                    SwitchPlan { teardown, create: false, retarget: Some(None), visible: Some(false) }
                } else {
                    let same = match &self.session {
                        Some(s) => s.display == t,
                        None => false,
                    };
                    if same {
                        self.visible = true;
                        SwitchPlan { teardown: None, create: false, retarget: None, visible: Some(true) }
                    } else {
                        let teardown = self.take_session();
                        let (fresh, _) = DesktopDuplication::new(t);
                        self.session = Some(fresh);
                        self.visible = true;
                        self.frame_cached = false;
                        SwitchPlan { teardown, create: true, retarget: None, visible: Some(true) }
                    }
                }
            },
        }
    }

    /// Hands an event to the session (`Poll` on each vertical blank, then
    /// the outcome of each action it asks for).
    pub fn on_session_event(&mut self, e: SessionEvent) -> (r: SessionDirective)
        requires
            old(self).wf(),
        ensures
            (*final(self), r) == session_event_next(*old(self), e),
            final(self).wf(),
    {
        match self.session.take() {
            None => SessionDirective {
                action: SessionAction::Finished(Err(CaptureError::OutOfOrder)),
                teardown: None,
                retarget: None,
            },
            Some(mut s) => {
                let creating = match s.phase {
                    SessionPhase::Creating | SessionPhase::ReadingMode => true,
                    _ => false,
                };
                let display = s.display;
                let a = s.step(e);
                let fatal = match a {
                    SessionAction::Finished(Err(err)) => err.is_fatal(),
                    _ => false,
                };
                let done = match a {
                    SessionAction::Finished(Ok(_)) => true,
                    _ => false,
                };
                if creating && done {
                    self.session = Some(s);
                    self.pump_target = Some(display);
                    SessionDirective { action: a, teardown: None, retarget: Some(Some(display)) }
                } else if fatal {
                    let teardown = s.release();
                    self.pump_target = None;
                    self.frame_cached = false;
                    SessionDirective { action: a, teardown: Some(teardown), retarget: Some(None) }
                } else {
                    self.session = Some(s);
                    SessionDirective { action: a, teardown: None, retarget: None }
                }
            },
        }
    }

    /// What to do after a poll that ended with `results`.
    pub fn followup(results: AcquisitionResults) -> (r: PollFollowup)
        ensures
            r == followup_of(results),
    {
        PollFollowup {
            copy_frame: results.success && results.frame_update,
            redraw: results.success,
            update_cursor: results.cursor_updated,
        }
    }

    /// Records that a captured frame has been copied into the cache.
    pub fn frame_copied(&mut self)
        ensures
            final(self).frame_cached == old(self).session is Some,
            final(self).session == old(self).session,
            final(self).pump_target == old(self).pump_target,
            final(self).visible == old(self).visible,
    {
        self.frame_cached = self.session.is_some();
    }

    /// Whether a redraw has a frame to show: only with a live session and a
    /// cached frame.
    pub fn has_frame(&self) -> (r: bool)
        ensures
            r == (self.session is Some && self.frame_cached),
    {
        self.session.is_some() && self.frame_cached
    }

    /// Whether the pointer is on the captured display and visible.
    pub fn cursor_visible(&self) -> (r: bool)
        ensures
            r == (self.session matches Some(s) && s.cursor_pos is Some),
    {
        match &self.session {
            Some(s) => s.cursor_pos.is_some(),
            None => false,
        }
    }
}

/// Moving the pointer from display `a`, which has a session, to another
/// display `b` with an overlay: the session of `a` is torn down (its held
/// frame, if any, released and its handle closed) and no frame of it stays
/// locked; a session bound to `b` is built, holding no frame; and once its
/// creation completes the pump is retargeted to `b`.
pub proof fn lemma_switch_retargets_everything(
    o: Orchestrator,
    a: MonitorHandle,
    b: MonitorHandle,
    mode: crate::display::DisplayMode,
)
    requires
        o.wf(),
        o.session matches Some(s) && s.display == a,
        a != b,
    ensures
        ({
            let old_session = o.session->0;
            let (o1, plan) = switch_next(o, Some(b), true);
            let (o2, d2) = session_event_next(o1, SessionEvent::Created(Ok(())));
            let (o3, d3) = session_event_next(o2, SessionEvent::Mode(Some(mode)));
            &&& plan.teardown == Some(old_session.teardown_of())
            &&& plan.teardown->0.release_frame == old_session.frame_locked
            &&& plan.teardown->0.close_handle == old_session.attached
            &&& !old_session.released().frame_locked && !old_session.released().attached
            &&& plan.create
            &&& o1.session matches Some(s1) && s1.display == b && !s1.frame_locked && !s1.attached
            &&& d2.action == SessionAction::QueryMode
            &&& d3.retarget == Some(Some(b))
            &&& o3.pump_target == Some(b)
            &&& o3.session matches Some(s3) && s3.display == b && s3.attached && !s3.frame_locked
                && s3.display_mode == mode
        }),
{
}

} // verus!
