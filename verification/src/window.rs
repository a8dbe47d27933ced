use vstd::prelude::*;
use crate::bridge::{bridge_decision, spec_classify};
use crate::error::{CreationStage, WindowError};
use crate::events::{Modifiers, WindowEvent};
use crate::queue::EventQueue;
use crate::window_info::WindowInfo;

verus! {

/// Class style bit: the window gets a device context of its own.
pub const STYLE_OWN_DC: u32 = 0x0020;

/// Class style bit: redraw on horizontal size changes.
pub const STYLE_H_REDRAW: u32 = 0x0002;

/// Class style bit: redraw on vertical size changes.
pub const STYLE_V_REDRAW: u32 = 0x0001;

/// The UTF-16 code units of a string, in order.
pub uninterp spec fn utf16_units(s: Seq<char>) -> Seq<u16>;

/// Relies on str::encode_utf16: the returned code units depend on the
/// characters alone, and an empty string encodes to nothing.
#[verifier::external_body]
fn utf16_of_str(s: &str) -> (r: Vec<u16>)
    ensures
        r@ == utf16_units(s@),
        s@.len() == 0 ==> r@.len() == 0,
{
    s.encode_utf16().collect()
}

/// Encode a string as a null-terminated wide string, the form native window
/// calls expect for names and titles.
pub fn encode_wide(s: &str) -> (r: Vec<u16>)
    ensures
        r@ == utf16_units(s@).push(0),
{
    let mut v = utf16_of_str(s);
    v.push(0);
    v
}

/// The platform-independent part of a window-class descriptor: the style
/// bits and the encoded class name. The descriptor names the event bridge as
/// its callback target when the platform glue fills in the native form.
pub struct ClassDescriptor {
    pub style: u32,
    pub class_name: Vec<u16>,
}

/// Build the class descriptor for this library's windows: an own device
/// context plus redraw-on-resize, and the class name as a null-terminated
/// wide string.
pub fn class_descriptor(class_name: &str) -> (d: ClassDescriptor)
    ensures
        d.style == STYLE_OWN_DC | STYLE_H_REDRAW | STYLE_V_REDRAW,
        d.class_name@ == utf16_units(class_name@).push(0),
{
    ClassDescriptor {
        style: STYLE_OWN_DC | STYLE_H_REDRAW | STYLE_V_REDRAW,
        class_name: encode_wide(class_name),
    }
}

/// Guard for low-level entry points that take a native handle value: a null
/// (zero) handle is malformed input and is rejected before any platform call
/// is made.
pub fn check_handle_arg(h: u64) -> (r: Result<(), WindowError>)
    ensures
        h != 0 <==> r is Ok,
        h == 0 ==> (r matches Err(e) && e == WindowError::InvalidArgument),
{
    if h == 0 {
        Err(WindowError::InvalidArgument)
    } else {
        Ok(())
    }
}

/// The shared record associated one-to-one with a live native window. The
/// operating system keeps a back-reference to it, so the caller that
/// allocates it must keep its address fixed for as long as the native window
/// exists. It holds the native handle value, the event queue the bridge
/// pushes into, and the cached title, extent and position.
pub struct WindowState {
    pub window: u64,
    pub event_buffer: EventQueue,
    pub title: String,
    pub width: u32,
    pub height: u32,
    pub x: i32,
    pub y: i32,
}

impl WindowState {
    /// A fresh record: no native handle yet, an empty queue, and the default
    /// title.
    pub fn new() -> (s: Self)
        ensures
            s.window == 0,
            s.event_buffer@ == Seq::<WindowEvent>::empty(),
            s.title@ == "Application Window"@,
            s.width == 0,
            s.height == 0,
            s.x == 0,
            s.y == 0,
    {
        WindowState {
            window: 0,
            event_buffer: EventQueue::new(),
            title: "Application Window".to_owned(),
            width: 0,
            height: 0,
            x: 0,
            y: 0,
        }
    }

    /// Consume the creation parameters into the cached fields. Called once,
    /// before the native window is created.
    pub fn configure(&mut self, info: WindowInfo)
        ensures
            final(self).title == info.title,
            final(self).width == info.width,
            final(self).height == info.height,
            final(self).x == info.x,
            final(self).y == info.y,
            final(self).window == old(self).window,
            final(self).event_buffer@ == old(self).event_buffer@,
    {
        self.title = info.title;
        self.width = info.width;
        self.height = info.height;
        self.x = info.x;
        self.y = info.y;
    }

    /// Record the native handle once creation has returned it, so later
    /// callbacks can be correlated to this record.
    pub fn store_handle(&mut self, handle: u64)
        ensures
            final(self).window == handle,
            final(self).event_buffer@ == old(self).event_buffer@,
            final(self).title == old(self).title,
            final(self).width == old(self).width,
            final(self).height == old(self).height,
            final(self).x == old(self).x,
            final(self).y == old(self).y,
    {
        self.window = handle;
    }

    /// The bridge's work for one message addressed to an associated window:
    /// classify it against the fixed table, push the resulting event, and
    /// say whether the message still goes to default handling. Only messages
    /// outside the table are forwarded; nothing else about the record
    /// changes.
    pub fn handle_message(&mut self, msg: u32, w: u64, l: i64, mods: Modifiers) -> (forward: bool)
        ensures
            spec_classify(msg, w, l, mods) matches Some(e) ==> (final(self).event_buffer@
                == old(self).event_buffer@.push(e) && !forward),
            spec_classify(msg, w, l, mods) is None ==> (final(self).event_buffer@ == old(self).event_buffer@ && forward),
            final(self).window == old(self).window,
            final(self).title == old(self).title,
            final(self).width == old(self).width,
            final(self).height == old(self).height,
            final(self).x == old(self).x,
            final(self).y == old(self).y,
    {
        let d = bridge_decision(true, msg, w, l, mods);
        match d.event {
            Some(e) => {
                self.event_buffer.push(e);
            },
            None => {},
        }
        d.forward_default
    }

    /// Non-blocking poll: the oldest pending event, or the empty signal when
    /// none is pending. Pops from the queue and touches nothing else; never
    /// blocks and does not pump the native message loop.
    pub fn next_event(&mut self) -> (r: Option<WindowEvent>)
        ensures
            old(self).event_buffer@.len() == 0 ==> r is None && final(self).event_buffer@ == old(self).event_buffer@,
            old(self).event_buffer@.len() > 0 ==> r == Some(old(self).event_buffer@[0]) && final(self).event_buffer@ == old(self).event_buffer@.drop_first(),
            final(self).window == old(self).window,
            final(self).title == old(self).title,
            final(self).width == old(self).width,
            final(self).height == old(self).height,
            final(self).x == old(self).x,
            final(self).y == old(self).y,
    {
        self.event_buffer.pop()
    }

    /// Update the cached title, but only when the caller's native mutation
    /// succeeded; on a failed native call the cache is left untouched and
    /// the failure is surfaced, so no partial update is ever visible.
    pub fn set_title(&mut self, title: &str, native_ok: bool) -> (r: Result<(), WindowError>)
        ensures
            native_ok ==> (r is Ok && final(self).title@ == title@),
            !native_ok ==> (r matches Err(e) && e == WindowError::PlatformCallFailed && *final(self) == *old(self)),
            final(self).window == old(self).window,
            final(self).event_buffer@ == old(self).event_buffer@,
            final(self).width == old(self).width,
            final(self).height == old(self).height,
            final(self).x == old(self).x,
            final(self).y == old(self).y,
    {
        if native_ok {
            self.title = title.to_owned();
            Ok(())
        } else {
            Err(WindowError::PlatformCallFailed)
        }
    }

    /// The cached title; a cache read cannot fail.
    pub fn get_title(&self) -> (t: &String)
        ensures
            t == self.title,
    {
        &self.title
    }

    /// Update the cached extent under the same all-or-nothing rule as
    /// `set_title`.
    pub fn set_size(&mut self, width: u32, height: u32, native_ok: bool) -> (r: Result<
        (),
        WindowError,
    >)
        ensures
            native_ok ==> (r is Ok && final(self).width == width && final(self).height == height),
            !native_ok ==> (r matches Err(e) && e == WindowError::PlatformCallFailed && *final(self) == *old(self)),
            final(self).window == old(self).window,
            final(self).event_buffer@ == old(self).event_buffer@,
            final(self).title == old(self).title,
            final(self).x == old(self).x,
            final(self).y == old(self).y,
    {
        if native_ok {
            self.width = width;
            self.height = height;
            Ok(())
        } else {
            Err(WindowError::PlatformCallFailed)
        }
    }

    /// The cached extent; a cache read cannot fail.
    pub fn get_size(&self) -> (s: (u32, u32))
        ensures
            s.0 == self.width,
            s.1 == self.height,
    {
        (self.width, self.height)
    }

    /// Update the cached position under the same all-or-nothing rule as
    /// `set_title`.
    pub fn set_position(&mut self, x: i32, y: i32, native_ok: bool) -> (r: Result<
        (),
        WindowError,
    >)
        ensures
            native_ok ==> (r is Ok && final(self).x == x && final(self).y == y),
            !native_ok ==> (r matches Err(e) && e == WindowError::PlatformCallFailed && *final(self) == *old(self)),
            final(self).window == old(self).window,
            final(self).event_buffer@ == old(self).event_buffer@,
            final(self).title == old(self).title,
            final(self).width == old(self).width,
            final(self).height == old(self).height,
    {
        if native_ok {
            self.x = x;
            self.y = y;
            Ok(())
        } else {
            Err(WindowError::PlatformCallFailed)
        }
    }

    /// The cached position; a cache read cannot fail.
    pub fn get_position(&self) -> (p: (i32, i32))
        ensures
            p.0 == self.x,
            p.1 == self.y,
    {
        (self.x, self.y)
    }
}

/// Where a creation session stands.
#[derive(Clone, Copy, Debug, PartialEq, Eq, Structural)]
pub enum CreatePhase {
    /// The class must be registered next.
    NeedClass,
    /// The native handle must be created next.
    NeedHandle,
    /// The presentation context must be acquired next.
    NeedContext,
    /// Every resource is held; the session can be finished.
    Done,
    /// A step failed; only rollback remains.
    Failed,
}

/// One ordered step of releasing what creation acquired. The platform glue
/// performs the steps exactly in the order this library hands them out.
#[derive(Clone, Copy, Debug, PartialEq, Eq, Structural)]
pub enum TeardownStep {
    /// Release the presentation context of the given handle.
    ReleaseContext { handle: u64, context: u64 },
    /// Destroy the native handle, which also stops callback delivery for it.
    DestroyHandle { handle: u64 },
    /// Free the pinned state record; nothing may observe it afterwards.
    FreeState,
}

/// Tracks one strictly ordered creation run: register the class, create the
/// native handle, acquire the presentation context. The platform glue makes
/// each native call and reports the raw outcome here; this type decides
/// success, failure and what a failure must roll back, and never loses track
/// of an acquired resource.
pub struct CreateSession {
    pub phase: CreatePhase,
    pub atom: u16,
    pub handle: u64,
    pub context: u64,
}

/// The ordered rollback a session owes after a failure: release the context
/// if it was acquired, then destroy the handle if it was created, then free
/// the state record that creation allocated first. Registration is
/// process-wide and is not reversed; its token is simply discarded.
pub open spec fn spec_rollback_steps(s: CreateSession) -> Seq<TeardownStep> {
    let ctx = if s.context != 0 {
        seq![TeardownStep::ReleaseContext { handle: s.handle, context: s.context }]
    } else {
        Seq::<TeardownStep>::empty()
    };
    let h = if s.handle != 0 {
        seq![TeardownStep::DestroyHandle { handle: s.handle }]
    } else {
        Seq::<TeardownStep>::empty()
    };
    ctx + h + seq![TeardownStep::FreeState]
}

/// Nothing leaks on the failure path: whatever a session has acquired
/// appears in the rollback it owes — the context is released before the
/// handle is destroyed, and the state record is always freed last.
pub proof fn lemma_rollback_complete(s: CreateSession)
    ensures
        s.context != 0 ==> spec_rollback_steps(s).contains(
            TeardownStep::ReleaseContext { handle: s.handle, context: s.context },
        ),
        s.handle != 0 ==> spec_rollback_steps(s).contains(
            TeardownStep::DestroyHandle { handle: s.handle },
        ),
        spec_rollback_steps(s).last() == TeardownStep::FreeState,
{
    let steps = spec_rollback_steps(s);
    if s.context != 0 {
        assert(steps[0] == TeardownStep::ReleaseContext { handle: s.handle, context: s.context });
    }
    if s.handle != 0 {
        if s.context != 0 {
            assert(steps[1] == TeardownStep::DestroyHandle { handle: s.handle });
        } else {
            assert(steps[0] == TeardownStep::DestroyHandle { handle: s.handle });
        }
    }
}

impl CreateSession {
    /// A session that has acquired nothing yet; the state record was just
    /// allocated by the caller.
    pub fn new() -> (s: CreateSession)
        ensures
            s.phase is NeedClass,
            s.atom == 0,
            s.handle == 0,
            s.context == 0,
    {
        CreateSession { phase: CreatePhase::NeedClass, atom: 0, handle: 0, context: 0 }
    }

    /// Report what class registration returned. A zero atom means the
    /// operating system rejected the descriptor; a non-zero atom is the
    /// registration token. Out of order, the report is rejected and nothing
    /// changes.
    pub fn class_registered(&mut self, atom: u16) -> (r: Result<(), WindowError>)
        ensures
            old(self).phase !is NeedClass ==> (r matches Err(e) && e == WindowError::InvalidArgument
                && *final(self) == *old(self)),
            old(self).phase is NeedClass && atom == 0 ==> (r matches Err(e) && e
                == WindowError::RegistrationFailed && final(self).phase is Failed && final(self).atom == old(self).atom && final(self).handle == old(self).handle && final(self).context == old(self).context),
            old(self).phase is NeedClass && atom != 0 ==> (r is Ok && final(self).phase
                is NeedHandle && final(self).atom == atom && final(self).handle == old(self).handle && final(self).context == old(self).context),
    {
        if !matches!(self.phase, CreatePhase::NeedClass) {
            return Err(WindowError::InvalidArgument);
        }
        if atom == 0 {
            self.phase = CreatePhase::Failed;
            Err(WindowError::RegistrationFailed)
        } else {
            self.atom = atom;
            self.phase = CreatePhase::NeedHandle;
            Ok(())
        }
    }

    /// Report what native window creation returned. A zero handle means
    /// creation failed at the handle stage; a non-zero value is the live
    /// handle. Out of order, the report is rejected and nothing changes.
    pub fn handle_created(&mut self, handle: u64) -> (r: Result<(), WindowError>)
        ensures
            old(self).phase !is NeedHandle ==> (r matches Err(e) && e == WindowError::InvalidArgument
                && *final(self) == *old(self)),
            old(self).phase is NeedHandle && handle == 0 ==> (r matches Err(e) && e
                == (WindowError::CreationFailed { stage: CreationStage::HandleCreation }) && final(self).phase is Failed && final(self).atom == old(self).atom && final(self).handle == old(self).handle
                && final(self).context == old(self).context),
            old(self).phase is NeedHandle && handle != 0 ==> (r is Ok && final(self).phase
                is NeedContext && final(self).atom == old(self).atom && final(self).handle == handle
                && final(self).context == old(self).context),
    {
        if !matches!(self.phase, CreatePhase::NeedHandle) {
            return Err(WindowError::InvalidArgument);
        }
        if handle == 0 {
            self.phase = CreatePhase::Failed;
            Err(WindowError::CreationFailed { stage: CreationStage::HandleCreation })
        } else {
            self.handle = handle;
            self.phase = CreatePhase::NeedContext;
            Ok(())
        }
    }

    /// Report what context acquisition returned. A zero context means the
    /// acquisition failed: the session fails at the context stage while
    /// still holding the handle, so the rollback it owes destroys that
    /// handle before the error ever reaches the application. Out of order,
    /// the report is rejected and nothing changes.
    pub fn context_acquired(&mut self, context: u64) -> (r: Result<(), WindowError>)
        ensures
            old(self).phase !is NeedContext ==> (r matches Err(e) && e
                == WindowError::InvalidArgument && *final(self) == *old(self)),
            old(self).phase is NeedContext && context == 0 ==> (r matches Err(e) && e
                == (WindowError::CreationFailed { stage: CreationStage::ContextAcquisition })
                && final(self).phase is Failed && final(self).atom == old(self).atom && final(self).handle == old(self).handle && final(self).context == old(self).context),
            old(self).phase is NeedContext && context != 0 ==> (r is Ok && final(self).phase is Done
                && final(self).atom == old(self).atom && final(self).handle == old(self).handle
                && final(self).context == context),
    {
        if !matches!(self.phase, CreatePhase::NeedContext) {
            return Err(WindowError::InvalidArgument);
        }
        if context == 0 {
            self.phase = CreatePhase::Failed;
            Err(WindowError::CreationFailed { stage: CreationStage::ContextAcquisition })
        } else {
            self.context = context;
            self.phase = CreatePhase::Done;
            Ok(())
        }
    }

    /// The ordered rollback this session owes: exactly the resources it
    /// still holds, context before handle, then the state record. No
    /// acquired resource is missing from the list.
    pub fn rollback_steps(&self) -> (steps: Vec<TeardownStep>)
        ensures
            steps@ == spec_rollback_steps(*self),
    {
        let mut steps: Vec<TeardownStep> = Vec::new();
        if self.context != 0 {
            steps.push(TeardownStep::ReleaseContext { handle: self.handle, context: self.context });
        }
        if self.handle != 0 {
            steps.push(TeardownStep::DestroyHandle { handle: self.handle });
        }
        steps.push(TeardownStep::FreeState);
        proof {
            assert(steps@ =~= spec_rollback_steps(*self));
        }
        steps
    }

    /// Turn a completed session into the live window value. Anything short
    /// of a completed session is rejected.
    pub fn finish(self) -> (r: Result<Window, WindowError>)
        ensures
            self.phase !is Done ==> (r matches Err(e) && e == WindowError::InvalidArgument),
            self.phase is Done ==> (r matches Ok(w) && w.window == self.handle && w.context
                == self.context && w.atom == self.atom && w.live),
    {
        if matches!(self.phase, CreatePhase::Done) {
            Ok(Window { window: self.handle, context: self.context, atom: self.atom, live: true })
        } else {
            Err(WindowError::InvalidArgument)
        }
    }
}

/// A live native window: the handle, its presentation context, the class
/// registration token, and whether teardown has already run. The pinned
/// state record travels separately, because the operating system holds a
/// back-reference to it for the whole lifetime of the handle.
#[derive(Debug)]
pub struct Window {
    pub window: u64,
    pub context: u64,
    pub atom: u16,
    pub live: bool,
}

/// The ordered teardown a live window owes: release the presentation
/// context, then destroy the native handle — which stops further callback
/// delivery — and only then free the state record. A window already torn
/// down owes nothing.
pub open spec fn spec_teardown_steps(w: Window) -> Seq<TeardownStep> {
    if !w.live {
        Seq::<TeardownStep>::empty()
    } else {
        let ctx = if w.context != 0 {
            seq![TeardownStep::ReleaseContext { handle: w.window, context: w.context }]
        } else {
            Seq::<TeardownStep>::empty()
        };
        let h = if w.window != 0 {
            seq![TeardownStep::DestroyHandle { handle: w.window }]
        } else {
            Seq::<TeardownStep>::empty()
        };
        ctx + h + seq![TeardownStep::FreeState]
    }
}

impl Window {
    /// Whether teardown has not run yet.
    pub fn is_live(&self) -> (b: bool)
        ensures
            b == self.live,
    {
        self.live
    }

    /// Tear the window down: hand out the ordered steps the platform glue
    /// must perform and forget the resources. Idempotent — on a window that
    /// was already destroyed nothing changes and no step is owed.
    pub fn destroy(&mut self) -> (steps: Vec<TeardownStep>)
        ensures
            steps@ == spec_teardown_steps(*old(self)),
            old(self).live ==> (!final(self).live && final(self).window == 0 && final(self).context
                == 0 && final(self).atom == old(self).atom),
            !old(self).live ==> *final(self) == *old(self),
            !final(self).live,
    {
        if !self.live {
            return Vec::new();
        }
        let mut steps: Vec<TeardownStep> = Vec::new();
        if self.context != 0 {
            steps.push(TeardownStep::ReleaseContext { handle: self.window, context: self.context });
        }
        if self.window != 0 {
            steps.push(TeardownStep::DestroyHandle { handle: self.window });
        }
        steps.push(TeardownStep::FreeState);
        proof {
            assert(steps@ =~= spec_teardown_steps(*old(self)));
        }
        self.window = 0;
        self.context = 0;
        self.live = false;
        steps
    }
}

/// Destroying twice is safe: after a teardown the window is no longer live,
/// and a window that is not live owes no teardown step, so a second destroy
/// changes nothing and performs nothing.
pub proof fn lemma_destroy_idempotent(w: Window)
    requires
        !w.live,
    ensures
        spec_teardown_steps(w) == Seq::<TeardownStep>::empty(),
{
}

} // verus!
