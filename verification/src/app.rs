//! The frame loop of a windowed session.
//!
//! A session waits for its window and its renderer, then answers window events
//! until it is closed. The window system drives it: each event is handed to
//! [`App::window_event`], which says what to do; a frame that was asked for is
//! finished by [`App::frame_acquired`] once the surface has given its texture,
//! or failed to.
use crate::error::GpuError;
use crate::frame_counter::{FrameCounter, FrameReport};
use crate::gpu::SurfaceConfig;
use crate::mipmap::ClearColor;
use crate::renderer::{skip_reason, Acquire, Frame, Renderer, RendererView};
use crate::scene::DrawCall;
use vstd::prelude::*;

verus! {

/// Where a session stands.
#[derive(Clone, Copy, Debug, PartialEq, Eq, Structural)]
pub enum Phase {
    /// The window or the renderer is still missing.
    Uninitialized,
    /// Events are answered and frames are drawn.
    Ready,
    /// The session was closed. Nothing is drawn any more.
    Terminated,
}

/// A key of the keyboard, as far as the session tells keys apart.
#[derive(Clone, Copy, Debug, PartialEq, Eq, Structural)]
pub enum KeyCode {
    Escape,
    Other,
}

/// An event of the window.
#[derive(Clone, Copy, Debug, PartialEq, Eq, Structural)]
pub enum WindowEvent {
    KeyboardInput { key: KeyCode },
    Resized { width: u32, height: u32 },
    CloseRequested,
    RedrawRequested,
    Other,
}

impl WindowEvent {
    /// The event asks for the session to end.
    pub open spec fn closes(self) -> bool {
        self == WindowEvent::CloseRequested || self == (WindowEvent::KeyboardInput {
            key: KeyCode::Escape,
        })
    }
}

/// What the caller does in answer to an event.
#[derive(Clone, Copy, Debug, PartialEq, Eq, Structural)]
pub enum Action {
    /// Nothing.
    Nothing,
    /// Apply the session's surface configuration, which has this size now.
    Configure { width: u32, height: u32 },
    /// Ask the surface for its next texture and report with
    /// `frame_acquired`; `delta_nanos` have passed since the last frame.
    Render { delta_nanos: u64 },
    /// Leave the event loop.
    Exit,
}

/// The answer to one event.
#[derive(Clone, Copy, Debug, PartialEq, Eq, Structural)]
pub struct Step {
    pub action: Action,
    /// Whether to ask the window for another redraw.
    pub request_redraw: bool,
    /// Frame statistics, when an interval has passed.
    pub report: Option<FrameReport>,
}

impl Step {
    /// Nothing to do and no redraw to ask for.
    pub open spec fn idle() -> Step {
        Step { action: Action::Nothing, request_redraw: false, report: None }
    }

    /// Nothing to do but to ask for the next redraw.
    pub open spec fn wait() -> Step {
        Step { action: Action::Nothing, request_redraw: true, report: None }
    }

    /// Leave the event loop.
    pub open spec fn exit() -> Step {
        Step { action: Action::Exit, request_redraw: false, report: None }
    }
}

/// What becomes of a frame whose texture was asked for.
pub enum FrameDecision {
    /// Draw the frame, submit it and present the texture.
    Present(Frame),
    /// Skip the frame; the next redraw tries again.
    Skip(GpuError),
    /// The session does not draw: drop the texture, if there is one, without
    /// presenting it.
    Discard,
}

/// The phase after `event` was answered in `phase`.
pub open spec fn next_phase(phase: Phase, event: WindowEvent) -> Phase {
    if phase == Phase::Ready && event.closes() {
        Phase::Terminated
    } else {
        phase
    }
}

/// The phase after all of `events` were answered in turn, starting in `phase`.
pub open spec fn phase_after(phase: Phase, events: Seq<WindowEvent>) -> Phase
    decreases events.len(),
{
    if events.len() == 0 {
        phase
    } else {
        next_phase(phase_after(phase, events.drop_last()), events.last())
    }
}

/// Whether a frame is presented when its texture arrives in `phase`.
pub open spec fn presents(phase: Phase, acquired: Acquire) -> bool {
    phase == Phase::Ready && acquired == Acquire::Ready
}

/// A closed session stays closed, whatever events follow.
pub proof fn lemma_terminated_is_final(events: Seq<WindowEvent>)
    ensures
        phase_after(Phase::Terminated, events) == Phase::Terminated,
    decreases events.len(),
{
    if events.len() > 0 {
        lemma_terminated_is_final(events.drop_last());
    }
}

/// A session that is not ready never becomes ready by window events, and one
/// that is ready is ready or closed afterwards.
pub proof fn lemma_phase_after_cases(phase: Phase, events: Seq<WindowEvent>)
    ensures
        phase != Phase::Ready ==> phase_after(phase, events) == phase,
        phase == Phase::Ready ==> phase_after(phase, events) != Phase::Uninitialized,
    decreases events.len(),
{
    if events.len() > 0 {
        lemma_phase_after_cases(phase, events.drop_last());
    }
}

/// Once a ready session has been asked to close, it is closed after every
/// further event, and no frame whose texture arrives from then on is
/// presented: not the one that was under way when the request came, and none
/// later.
pub proof fn lemma_no_present_after_close(
    phase: Phase,
    events: Seq<WindowEvent>,
    close_at: int,
    acquired: Acquire,
)
    requires
        0 <= close_at < events.len(),
        events[close_at].closes(),
        phase_after(phase, events.take(close_at)) == Phase::Ready,
    ensures
        phase_after(phase, events) == Phase::Terminated,
        !presents(phase_after(phase, events), acquired),
    decreases events.len(),
{
    if close_at == events.len() - 1 {
        assert(events.drop_last() =~= events.take(close_at));
    } else {
        assert(events.drop_last().take(close_at) =~= events.take(close_at));
        lemma_no_present_after_close(phase, events.drop_last(), close_at, acquired);
    }
}

/// What a session holds.
pub struct Session {
    /// Whether a window was created.
    pub has_window: bool,
    /// The renderer, once it was handed over.
    pub renderer: Option<RendererView>,
    /// Whether the session was asked to close while it was ready.
    pub closed: bool,
    /// When the last frame was asked for.
    pub last_render_time: u64,
    /// The size the window last had.
    pub last_size: (u32, u32),
    /// The frame statistics.
    pub frame_counter: FrameCounter,
}

impl Session {
    /// A session without a window and without a renderer.
    pub open spec fn initial() -> Session {
        Session {
            has_window: false,
            renderer: None,
            closed: false,
            last_render_time: 0,
            last_size: (0, 0),
            frame_counter: FrameCounter { last_printed: 0, frame_count: 0 },
        }
    }

    /// Where the session stands: terminated once it was closed, ready while
    /// it has a window and a renderer.
    pub open spec fn phase(self) -> Phase {
        if self.closed {
            Phase::Terminated
        } else if self.has_window && self.renderer is Some {
            Phase::Ready
        } else {
            Phase::Uninitialized
        }
    }

    /// The session after the caller tried to create a window of size
    /// `window`: the first window is kept with its size.
    pub open spec fn resumed(self, window: Option<(u32, u32)>) -> Session {
        match window {
            Some(size) => Session {
                has_window: true,
                last_size: if self.has_window { self.last_size } else { size },
                ..self
            },
            None => self,
        }
    }

    /// The session after it was handed `renderer` at `now`: it takes the
    /// first renderer it is handed, and starts its clocks then.
    pub open spec fn attached(self, renderer: RendererView, now: u64) -> Session {
        if self.renderer is None {
            Session {
                renderer: Some(renderer),
                last_render_time: now,
                frame_counter: FrameCounter { last_printed: now, frame_count: 0 },
                ..self
            }
        } else {
            self
        }
    }

    /// Time from the last frame to `now`, zero if `now` is earlier.
    pub open spec fn delta(self, now: u64) -> u64 {
        if now >= self.last_render_time {
            (now - self.last_render_time) as u64
        } else {
            0
        }
    }

    /// The answer of the session to `event` at `now`.
    pub open spec fn answer(self, event: WindowEvent, now: u64) -> Step {
        if self.phase() != Phase::Ready {
            Step::idle()
        } else if event.closes() {
            Step::exit()
        } else {
            match event {
                WindowEvent::Resized { width, height } => if width > 0 && height > 0 {
                    Step {
                        action: Action::Configure { width, height },
                        request_redraw: true,
                        report: None,
                    }
                } else {
                    Step::wait()
                },
                WindowEvent::RedrawRequested => Step {
                    action: Action::Render { delta_nanos: self.delta(now) },
                    request_redraw: true,
                    report: if self.frame_counter.due(now) {
                        Some(self.frame_counter.report(now))
                    } else {
                        None
                    },
                },
                _ => Step::wait(),
            }
        }
    }

    /// The session after it answered `event` at `now`.
    pub open spec fn after(self, event: WindowEvent, now: u64) -> Session {
        if self.phase() != Phase::Ready {
            self
        } else if event.closes() {
            Session { closed: true, ..self }
        } else {
            match event {
                WindowEvent::Resized { width, height } => if width > 0 && height > 0 {
                    Session {
                        renderer: Some(self.renderer->Some_0.resized(width, height)),
                        last_size: (width, height),
                        ..self
                    }
                } else {
                    self
                },
                WindowEvent::RedrawRequested => Session {
                    last_render_time: now,
                    frame_counter: self.frame_counter.advanced(now),
                    ..self
                },
                _ => self,
            }
        }
    }
}

/// Answering an event moves the phase as `next_phase` says, and a resize never
/// leaves a configuration that a surface would refuse.
pub proof fn lemma_after_follows_next_phase(session: Session, event: WindowEvent, now: u64)
    ensures
        session.after(event, now).phase() == next_phase(session.phase(), event),
        session.phase() != Phase::Ready ==> session.answer(event, now) == Step::idle(),
        (session.renderer matches Some(r) && r.config.valid()) ==> (session.after(
            event,
            now,
        ).renderer matches Some(r2) && r2.config.valid()),
{
}

/// A windowed session.
pub struct App {
    has_window: bool,
    renderer: Option<Renderer>,
    closed: bool,
    last_render_time: u64,
    last_size: (u32, u32),
    frame_counter: FrameCounter,
}

impl App {
    /// What the session holds.
    pub closed spec fn view(&self) -> Session {
        Session {
            has_window: self.has_window,
            renderer: match self.renderer {
                Some(renderer) => Some(renderer@),
                None => None,
            },
            closed: self.closed,
            last_render_time: self.last_render_time,
            last_size: self.last_size,
            frame_counter: self.frame_counter,
        }
    }

    /// Where the session stands.
    pub open spec fn phase(&self) -> Phase {
        self@.phase()
    }

    /// A session without a window and without a renderer.
    pub fn new() -> (r: App)
        ensures
            r@ == Session::initial(),
            r.phase() == Phase::Uninitialized,
    {
        App {
            has_window: false,
            renderer: None,
            closed: false,
            last_render_time: 0,
            last_size: (0, 0),
            frame_counter: FrameCounter::new(0),
        }
    }

    /// The session was resumed and the caller tried to create a window:
    /// `window` is the size of the window, or `None` if none could be created.
    ///
    /// Returns whether a renderer is to be created for the window, which is so
    /// for the first window of the session. The renderer is handed over with
    /// `attach_renderer`.
    pub fn resumed(&mut self, window: Option<(u32, u32)>) -> (create_renderer: bool)
        ensures
            create_renderer == (window is Some && !old(self)@.has_window),
            final(self)@ == old(self)@.resumed(window),
    {
        match window {
            Some(size) => {
                let first = !self.has_window;
                self.has_window = true;
                if first {
                    self.last_size = size;
                }
                first
            },
            None => false,
        }
    }

    /// Hands the session its renderer at time `now`. A session that has none
    /// takes it, and is ready if it has its window; any other session drops
    /// it. Returns whether it was taken.
    pub fn attach_renderer(&mut self, renderer: Renderer, now: u64) -> (taken: bool)
        ensures
            taken == (old(self)@.renderer is None),
            final(self)@ == old(self)@.attached(renderer@, now),
    {
        if self.renderer.is_none() {
            self.renderer = Some(renderer);
            self.last_render_time = now;
            self.frame_counter = FrameCounter::new(now);
            true
        } else {
            false
        }
    }

    /// Answers one event of the window at time `now`.
    ///
    /// Only a ready session answers. A request to close, or the escape key,
    /// ends it. A resize to a size with both axes positive changes the surface
    /// configuration, which the caller then applies; a resize to nothing is
    /// ignored. A redraw request starts a frame and counts it. After every
    /// event but the one that ends the session, another redraw is asked for.
    pub fn window_event(&mut self, event: WindowEvent, now: u64) -> (step: Step)
        ensures
            step == old(self)@.answer(event, now),
            final(self)@ == old(self)@.after(event, now),
            final(self).phase() == next_phase(old(self).phase(), event),
    {
        let idle = Step { action: Action::Nothing, request_redraw: false, report: None };
        if self.closed || !self.has_window {
            return idle;
        }
        let mut renderer = match self.renderer.take() {
            Some(renderer) => renderer,
            None => { return idle; },
        };
        let mut step = Step { action: Action::Nothing, request_redraw: true, report: None };
        match event {
            WindowEvent::KeyboardInput { key } => {
                match key {
                    KeyCode::Escape => {
                        self.closed = true;
                        step = Step { action: Action::Exit, request_redraw: false, report: None };
                    },
                    KeyCode::Other => {},
                }
            },
            WindowEvent::Resized { width, height } => {
                if renderer.resize(width, height) {
                    self.last_size = (width, height);
                    step.action = Action::Configure { width, height };
                }
            },
            WindowEvent::CloseRequested => {
                self.closed = true;
                step = Step { action: Action::Exit, request_redraw: false, report: None };
            },
            WindowEvent::RedrawRequested => {
                let delta_nanos: u64 = if now >= self.last_render_time {
                    now - self.last_render_time
                } else {
                    0
                };
                self.last_render_time = now;
                step.report = self.frame_counter.update(now);
                step.action = Action::Render { delta_nanos };
            },
            WindowEvent::Other => {},
        }
        self.renderer = Some(renderer);
        step
    }

    /// Finishes the frame whose texture was asked for: `acquired` is what the
    /// surface gave, `delta_nanos` the time since the frame before.
    ///
    /// A ready session presents the frame if it got a texture, and skips it
    /// if not. A session that is not ready, such as one that was closed while
    /// the frame was under way, presents nothing.
    pub fn frame_acquired(&mut self, delta_nanos: u64, acquired: Acquire) -> (decision:
        FrameDecision)
        ensures
            final(self)@ == old(self)@,
            decision is Present <==> presents(old(self).phase(), acquired),
            decision is Discard <==> old(self).phase() != Phase::Ready,
            decision matches FrameDecision::Present(frame) ==> {
                let scene = old(self)@.renderer->Some_0.scene;
                &&& frame.clear == ClearColor::Black
                &&& frame.store
                &&& !frame.depth_stencil
                &&& frame.commands.pipeline == scene.pipeline
                &&& frame.commands.bind_group == scene.bind_group
                &&& frame.commands.draw == DrawCall::full_screen_triangle()
            },
            decision matches FrameDecision::Skip(e) ==> skip_reason(acquired) == Some(e)
                && e.transient(),
    {
        if self.closed || !self.has_window {
            return FrameDecision::Discard;
        }
        let mut renderer = match self.renderer.take() {
            Some(renderer) => renderer,
            None => { return FrameDecision::Discard; },
        };
        let decision = match renderer.render_frame(delta_nanos, acquired) {
            Ok(frame) => FrameDecision::Present(frame),
            Err(e) => FrameDecision::Skip(e),
        };
        self.renderer = Some(renderer);
        decision
    }

    /// The configuration to apply to the surface, once there is a renderer.
    pub fn current_config(&self) -> (r: Option<&SurfaceConfig>)
        ensures
            r is Some <==> self@.renderer is Some,
            r matches Some(config) ==> *config == self@.renderer->Some_0.config && config.valid(),
    {
        match &self.renderer {
            Some(renderer) => Some(renderer.surface_config()),
            None => None,
        }
    }

    /// Where the session stands.
    pub fn current_phase(&self) -> (r: Phase)
        ensures
            r == self.phase(),
    {
        if self.closed {
            Phase::Terminated
        } else if self.has_window && self.renderer.is_some() {
            Phase::Ready
        } else {
            Phase::Uninitialized
        }
    }

    /// The size the window last had.
    pub fn window_size(&self) -> (r: (u32, u32))
        ensures
            r == self@.last_size,
    {
        self.last_size
    }

    /// Whether the session was closed.
    pub fn is_terminated(&self) -> (r: bool)
        ensures
            r == (self.phase() == Phase::Terminated),
    {
        self.closed
    }
}

} // verus!
