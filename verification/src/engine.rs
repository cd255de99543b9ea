//! The engine: the status state machine, the message-driven mutation
//! protocol, and the tick that ties messages, input polling and rendering
//! together.
//!
//! One drain applies its batch strictly in arrival order, one message at a
//! time; within a batch the last status-setting message wins (order, not
//! priority, decides — a batch of stop-then-start leaves the engine
//! running). `Kill` is terminal at the loop boundary: the blocking driver
//! terminates the process after the tick that saw it, and the cooperative
//! driver stops rescheduling itself.

use vstd::prelude::*;
use crate::log::{Log, LogMsgView, Logger, NewDefaultLogger};
use crate::messages::{Message, MessageQueue, MessageView};
use crate::renderer::{
    draw_calls, uniforms_after, DrawCall, FramePlan, GraphicsContext, SurfaceError,
    SurfaceManager,
};
use crate::window::{GameWindow, InnerWindow};
use crate::world::{EngineWorld, GameObject};

verus! {

/// The engine's lifecycle status.
#[derive(Debug, Clone, Copy, PartialEq, Eq, Structural)]
pub enum EngineStatus {
    Uninited,
    Initializing,
    Ready,
    Stopped,
    Running,
    Kill,
}

/// What the blocking loop driver must do after a tick.
#[derive(Debug, Clone, Copy, PartialEq, Eq, Structural)]
pub enum LoopControl {
    /// Sleep briefly and tick again.
    Continue,
    /// Break out of the loop: the engine stopped.
    Exit,
    /// Terminate the whole process: the engine was killed.
    Terminate,
}

/// The mathematical state of the engine: everything a message or a tick
/// can touch.
pub struct EngineView {
    pub title: Seq<char>,
    pub size: (u32, u32),
    pub surface: Option<SurfaceManager>,
    pub status: EngineStatus,
    pub log: Seq<LogMsgView>,
    pub world: Seq<GameObject>,
    pub graphics: bool,
}

/// The effect of one message on the engine state. `SetFrameRate` and
/// `Null` are deliberate no-ops; so is `SetCanvasId` here, because the
/// composed-in native window has no canvas to bind (a browser shell binds
/// the canvas on its own window state).
pub open spec fn apply_msg(s: EngineView, m: MessageView) -> EngineView {
    match m {
        MessageView::SetFrameRate(_) => s,
        MessageView::Start => EngineView { status: EngineStatus::Running, ..s },
        MessageView::Stop => EngineView { status: EngineStatus::Stopped, ..s },
        MessageView::Kill => EngineView { status: EngineStatus::Kill, ..s },
        MessageView::Say(t) => EngineView { log: s.log.push(LogMsgView::Info(t)), ..s },
        MessageView::ChangeTitle(t) => EngineView { title: t, ..s },
        MessageView::SetCanvasId(_) => s,
        MessageView::Log(r) => EngineView { log: s.log.push(r), ..s },
        MessageView::Null => s,
    }
}

/// The effect of a whole batch, applied front to back: each message
/// exactly once, in arrival order.
pub open spec fn apply_all(s: EngineView, msgs: Seq<MessageView>) -> EngineView
    decreases msgs.len(),
{
    if msgs.len() == 0 {
        s
    } else {
        apply_all(apply_msg(s, msgs[0]), msgs.drop_first())
    }
}

/// Law: applying a batch extended by one message is applying the batch,
/// then the message. This is what "each message exactly once, in arrival
/// order" means one step at a time.
pub proof fn lemma_apply_all_push(s: EngineView, msgs: Seq<MessageView>, m: MessageView)
    ensures
        apply_all(s, msgs.push(m)) == apply_msg(apply_all(s, msgs), m),
    decreases msgs.len(),
{
    if msgs.len() == 0 {
        assert(msgs.push(m).drop_first() =~= Seq::<MessageView>::empty());
        assert(apply_all(apply_msg(s, m), Seq::<MessageView>::empty()) == apply_msg(s, m));
    } else {
        assert(msgs.push(m).drop_first() =~= msgs.drop_first().push(m));
        lemma_apply_all_push(apply_msg(s, msgs[0]), msgs.drop_first(), m);
    }
}

/// Law: a batch split in two applies as the first part, then the second —
/// so draining messages over several ticks has exactly the effect of
/// draining them at once, in the same overall order, and no message's
/// effect is applied twice.
pub proof fn lemma_apply_all_append(s: EngineView, a: Seq<MessageView>, b: Seq<MessageView>)
    ensures
        apply_all(s, a + b) == apply_all(apply_all(s, a), b),
    decreases a.len(),
{
    if a.len() == 0 {
        assert(a + b =~= b);
    } else {
        assert((a + b)[0] == a[0]);
        assert((a + b).drop_first() =~= a.drop_first() + b);
        lemma_apply_all_append(apply_msg(s, a[0]), a.drop_first(), b);
    }
}

/// The status a single message demands, if any.
pub open spec fn status_of(m: MessageView) -> Option<EngineStatus> {
    match m {
        MessageView::Start => Some(EngineStatus::Running),
        MessageView::Stop => Some(EngineStatus::Stopped),
        MessageView::Kill => Some(EngineStatus::Kill),
        _ => None,
    }
}

/// The status left by a batch: the last status-setting message wins.
pub open spec fn status_after(st: EngineStatus, msgs: Seq<MessageView>) -> EngineStatus
    decreases msgs.len(),
{
    if msgs.len() == 0 {
        st
    } else {
        status_after(
            match status_of(msgs[0]) {
                Some(demanded) => demanded,
                None => st,
            },
            msgs.drop_first(),
        )
    }
}

/// Law: within one drain, message order alone decides the final status —
/// the last status-setting message of the batch wins, whatever came before
/// it (a kill followed by a start leaves the engine running).
pub proof fn lemma_status_in_order(s: EngineView, msgs: Seq<MessageView>)
    ensures
        apply_all(s, msgs).status == status_after(s.status, msgs),
    decreases msgs.len(),
{
    if msgs.len() > 0 {
        lemma_status_in_order(apply_msg(s, msgs[0]), msgs.drop_first());
    }
}

/// Law: a `Kill` message always sets status `Kill`, whatever the status
/// before it was.
pub proof fn lemma_kill_message_kills(s: EngineView)
    ensures
        apply_msg(s, MessageView::Kill).status == EngineStatus::Kill,
{
}

/// Whether a state renders: graphics are up and the window has its
/// surface manager.
pub open spec fn renders(s: EngineView) -> bool {
    s.graphics && s.surface is Some
}

/// The engine state a tick leaves behind, given the state right after its
/// drain: polling changes nothing, and rendering advances the surface
/// uniforms over the world.
pub open spec fn tick_result(s: EngineView) -> EngineView {
    if renders(s) {
        EngineView {
            surface: Some(
                SurfaceManager {
                    uniforms: uniforms_after(s.surface->0.uniforms, s.world),
                    ..s.surface->0
                },
            ),
            ..s
        }
    } else {
        s
    }
}

/// The draws a tick issues, given the state right after its drain.
pub open spec fn tick_draws(s: EngineView) -> Option<Seq<DrawCall>> {
    if renders(s) {
        Some(draw_calls(s.surface->0.uniforms, s.world))
    } else {
        None
    }
}

/// The orchestrator: it owns the window, the world, the logging sink and,
/// once initialized, the graphics context record.
pub struct Engine {
    pub window: GameWindow,
    status: EngineStatus,
    pub logger: Log,
    pub world: EngineWorld,
    pub graphics_context: Option<GraphicsContext>,
}

impl View for Engine {
    type V = EngineView;

    closed spec fn view(&self) -> EngineView {
        EngineView {
            title: self.window.inner.title_view(),
            size: self.window.inner.size_view(),
            surface: self.window.surface_manager,
            status: self.status,
            log: self.logger@,
            world: self.world@,
            graphics: self.graphics_context is Some,
        }
    }
}

impl Engine {
    /// A fresh engine: a window with the given title, an empty world, a
    /// default sink holding the startup record, status `Uninited`, no
    /// graphics yet.
    pub fn new(title: String) -> (e: Self)
        ensures
            e@ == (EngineView {
                title: title@,
                size: (800u32, 600u32),
                surface: None,
                status: EngineStatus::Uninited,
                log: seq![LogMsgView::Info("starting the engine"@)],
                world: Seq::<GameObject>::empty(),
                graphics: false,
            }),
    {
        let window = GameWindow::new(title);
        let mut logger = NewDefaultLogger();
        logger.info("starting the engine");
        let e = Engine {
            window,
            status: EngineStatus::Uninited,
            logger,
            world: EngineWorld::new(),
            graphics_context: None,
        };
        proof {
            assert(e.logger@ =~= seq![LogMsgView::Info("starting the engine"@)]);
        }
        e
    }

    /// The engine's current lifecycle status.
    pub fn status(&self) -> (s: EngineStatus)
        ensures
            s == self@.status,
    {
        self.status
    }

    /// Drains the mailbox and applies every drained message to the engine,
    /// in arrival order, each exactly once; the mailbox is left empty.
    pub fn handle_messages(&mut self, queue: &mut MessageQueue)
        ensures
            final(queue)@ == Seq::<MessageView>::empty(),
            final(self)@ == apply_all(old(self)@, old(queue)@),
    {
        let messages = queue.drain_and_clear();
        let ghost s0 = self@;
        let ghost batch = messages.deep_view();
        let n = messages.len();
        let mut i: usize = 0;
        while i < n
            invariant
                n == messages.len(),
                i <= n,
                batch == messages.deep_view(),
                self@ == apply_all(s0, batch.take(i as int)),
            decreases n - i,
        {
            proof {
                assert(batch.take(i as int + 1) =~= batch.take(i as int).push(batch[i as int]));
                lemma_apply_all_push(s0, batch.take(i as int), batch[i as int]);
            }
            match &messages[i] {
                Message::SetFrameRate(_) => {
                    // Deliberately unimplemented: frame pacing belongs to
                    // the loop driver, so the request is a no-op here.
                },
                Message::Start => {
                    self.status = EngineStatus::Running;
                },
                Message::Stop => {
                    self.status = EngineStatus::Stopped;
                },
                Message::Kill => {
                    self.status = EngineStatus::Kill;
                },
                Message::Say(text) => {
                    self.logger.info(text.as_str());
                },
                Message::ChangeTitle(title) => {
                    self.window.inner.set_title(title.clone());
                },
                Message::SetCanvasId(_) => {
                    // The composed-in native window has no canvas to bind;
                    // a deliberate no-op, as unsupported requests must be.
                },
                Message::Log(record) => {
                    self.logger.log(record);
                },
                Message::Null => {},
            }
            i += 1;
        }
        proof {
            assert(batch.take(n as int) =~= batch);
        }
    }

    /// Starts graphics initialization: exactly once, from a fresh engine.
    /// Returns whether the caller should go on and acquire the device; a
    /// repeated or mistimed start is rejected and changes nothing.
    pub fn begin_graphics_init(&mut self) -> (go: bool)
        ensures
            go == (old(self)@.status == EngineStatus::Uninited && !old(self)@.graphics),
            go ==> final(self)@ == (EngineView {
                status: EngineStatus::Initializing,
                log: old(self)@.log.push(LogMsgView::Info("Initializing Graphics Context..."@)),
                ..old(self)@
            }),
            !go ==> *final(self) == *old(self),
    {
        if matches!(self.status, EngineStatus::Uninited) && self.graphics_context.is_none() {
            self.logger.info("Initializing Graphics Context...");
            self.status = EngineStatus::Initializing;
            true
        } else {
            false
        }
    }

    /// Completes graphics initialization with the acquired context and the
    /// window's negotiated surface manager; may only follow a successful
    /// `begin_graphics_init`. The engine becomes `Ready`.
    pub fn finish_graphics_init(
        &mut self,
        graphics_context: GraphicsContext,
        surface_manager: SurfaceManager,
    )
        requires
            old(self)@.status == EngineStatus::Initializing,
            !old(self)@.graphics,
        ensures
            final(self)@ == (EngineView {
                status: EngineStatus::Ready,
                surface: Some(surface_manager),
                graphics: true,
                log: old(self)@.log + seq![
                    LogMsgView::Info("Graphics Context Initialized!"@),
                    LogMsgView::Info("Window Surface Manager Initialized!"@),
                ],
                ..old(self)@
            }),
    {
        self.graphics_context = Some(graphics_context);
        self.logger.info("Graphics Context Initialized!");
        self.window.surface_manager = Some(surface_manager);
        self.logger.info("Window Surface Manager Initialized!");
        self.status = EngineStatus::Ready;
        proof {
            assert(self@.log =~= old(self)@.log + seq![
                LogMsgView::Info("Graphics Context Initialized!"@),
                LogMsgView::Info("Window Surface Manager Initialized!"@),
            ]);
        }
    }

    /// A reserved per-tick hook; the per-frame draw goes through the
    /// window's surface manager instead.
    pub fn render(&mut self)
        ensures
            *final(self) == *old(self),
    {
    }

    /// One tick: drain and apply the mailbox, poll the window's events,
    /// and — when graphics are up and the window has its surface manager —
    /// plan the frame over the world. All message effects are applied
    /// before the frame is planned.
    pub fn tick(&mut self, queue: &mut MessageQueue) -> (plan: Option<FramePlan>)
        ensures
            final(queue)@ == Seq::<MessageView>::empty(),
            final(self)@ == tick_result(apply_all(old(self)@, old(queue)@)),
            match plan {
                Some(p) => tick_draws(apply_all(old(self)@, old(queue)@)) == Some(p.draws@),
                None => tick_draws(apply_all(old(self)@, old(queue)@)) is None,
            },
    {
        self.handle_messages(queue);
        self.window.poll_events();
        if self.graphics_context.is_some() {
            match &mut self.window.surface_manager {
                Some(sm) => {
                    let plan = sm.render(&self.world);
                    Some(plan)
                },
                None => None,
            }
        } else {
            None
        }
    }

    /// Classifies a frame-acquisition failure reported by the shell: the
    /// error is logged at error severity; a recoverable one (surface lost,
    /// outdated, or a timeout) only skips the frame, while a fatal one
    /// (out of memory, or the generic failure a lost device surfaces as)
    /// kills the engine so the loop terminates at its next boundary.
    pub fn handle_render_error(&mut self, error: &SurfaceError)
        ensures
            final(self)@ == (EngineView {
                log: old(self)@.log.push(
                    LogMsgView::Error("Render error: "@ + error.name_view()),
                ),
                status: if error.is_fatal_spec() {
                    EngineStatus::Kill
                } else {
                    old(self)@.status
                },
                ..old(self)@
            }),
    {
        let line = String::from_str("Render error: ").concat(error.name());
        self.logger.error(line.as_str());
        if error.is_fatal() {
            self.status = EngineStatus::Kill;
        }
    }

    /// The blocking driver's decision after a tick: exit the loop once the
    /// engine has stopped, terminate the process once it was killed, and
    /// otherwise sleep briefly and tick again.
    pub fn loop_control(&self) -> (control: LoopControl)
        ensures
            control == (match self@.status {
                EngineStatus::Stopped => LoopControl::Exit,
                EngineStatus::Kill => LoopControl::Terminate,
                _ => LoopControl::Continue,
            }),
    {
        match self.status {
            EngineStatus::Stopped => LoopControl::Exit,
            EngineStatus::Kill => LoopControl::Terminate,
            _ => LoopControl::Continue,
        }
    }

    /// The cooperative driver's decision after a callback's tick: whether
    /// to register for the next host frame. Once the engine was killed it
    /// logs the fact and stays unregistered — the host owns the process,
    /// so nothing exits.
    pub fn callback_reschedule(&mut self) -> (again: bool)
        ensures
            again == (old(self)@.status != EngineStatus::Kill),
            again ==> *final(self) == *old(self),
            !again ==> final(self)@ == (EngineView {
                log: old(self)@.log.push(LogMsgView::Info("Killing the engine"@)),
                ..old(self)@
            }),
    {
        if matches!(self.status, EngineStatus::Kill) {
            self.logger.info("Killing the engine");
            false
        } else {
            true
        }
    }
}

} // verus!
