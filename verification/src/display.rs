//! Event dispatcher: the external-facing state holder that receives
//! window lifecycle events and forwards them to the GPU context.
//!
//! Context creation is deferred until the window is ready; every event
//! is handled exhaustively per state, and each call tells the embedder
//! what outside work to do next (create the context, reconfigure the
//! surface, run the draw protocol, or stop).

use crate::ctx::{resize_spec, Ctx, Extent, SurfaceConfig, SurfaceErrorKind, recoverable_spec};
use vstd::prelude::*;

verus! {

/// Window lifecycle events the dispatcher consumes.
#[derive(PartialEq, Eq, Structural, Clone, Copy, Debug)]
pub enum WindowEventKind {
    /// The user asked to close the window.
    CloseRequested,
    /// The window's physical size changed.
    Resized(Extent),
    /// The window wants to be redrawn.
    RedrawRequested,
    /// Anything else (keyboard input and the like): ignored.
    Other,
}

/// What the embedder must do after an event was dispatched.
#[derive(PartialEq, Eq, Structural, Clone, Copy, Debug)]
pub enum DispatchAction {
    /// Create the window's GPU context and install it.
    CreateContext,
    /// Stop the event loop.
    Exit,
    /// Reconfigure the presentation surface to this configuration, then
    /// ask the window for a redraw.
    ReconfigureAndRedraw(SurfaceConfig),
    /// Ask the window for a redraw.
    RequestRedraw,
    /// Acquire a frame and run the draw protocol.
    Draw,
    /// Nothing to do.
    Idle,
}

/// The dispatcher's state: no window yet, a window whose context is
/// still being built, or a window with a live context.
pub enum AppState {
    NoWindow,
    WindowOnly,
    Ready(Ctx),
}

/// The event dispatcher.
pub struct App {
    pub state: AppState,
}

/// The full event-handling matrix: next state and action for every state
/// and event.
///
/// A close request always exits. A resize reaches the context only once
/// it exists: the context's resize rule is applied, the surface is
/// reconfigured when the size was nonzero, and a redraw is requested
/// either way. A redraw request draws only with a live context. Every
/// other event is ignored.
pub open spec fn handle_event_spec(s: AppState, ev: WindowEventKind) -> (AppState, DispatchAction) {
    match ev {
        WindowEventKind::CloseRequested => (s, DispatchAction::Exit),
        WindowEventKind::Resized(size) => match s {
            AppState::Ready(c) => (
                AppState::Ready(resize_spec(c, size)),
                if size.width > 0 && size.height > 0 {
                    DispatchAction::ReconfigureAndRedraw(resize_spec(c, size).config)
                } else {
                    DispatchAction::RequestRedraw
                },
            ),
            _ => (s, DispatchAction::Idle),
        },
        WindowEventKind::RedrawRequested => match s {
            AppState::Ready(c) => (AppState::Ready(c), DispatchAction::Draw),
            _ => (s, DispatchAction::Idle),
        },
        WindowEventKind::Other => (s, DispatchAction::Idle),
    }
}

impl App {
    /// A fresh dispatcher: no window, no context.
    pub fn new() -> (r: App)
        ensures
            r.state is NoWindow,
    {
        App { state: AppState::NoWindow }
    }

    /// The window-ready signal: the first one asks the embedder to
    /// create the context; later ones change nothing.
    pub fn resumed(&mut self) -> (a: DispatchAction)
        ensures
            old(self).state is NoWindow ==> final(self).state is WindowOnly && a
                == DispatchAction::CreateContext,
            !(old(self).state is NoWindow) ==> *final(self) == *old(self) && a
                == DispatchAction::Idle,
    {
        match self.state {
            AppState::NoWindow => {
                self.state = AppState::WindowOnly;
                DispatchAction::CreateContext
            },
            _ => DispatchAction::Idle,
        }
    }

    /// Install the freshly built context; the dispatcher is ready from
    /// here on.
    pub fn install_ctx(&mut self, ctx: Ctx)
        requires
            old(self).state is WindowOnly,
        ensures
            final(self).state == AppState::Ready(ctx),
    {
        self.state = AppState::Ready(ctx);
    }

    /// Dispatch one window event per the event-handling matrix.
    pub fn window_event(&mut self, ev: WindowEventKind) -> (a: DispatchAction)
        ensures
            (final(self).state, a) == handle_event_spec(old(self).state, ev),
    {
        match ev {
            WindowEventKind::CloseRequested => DispatchAction::Exit,
            WindowEventKind::Resized(size) => match &mut self.state {
                AppState::Ready(c) => {
                    let reconfigure = c.resize(size);
                    if reconfigure {
                        DispatchAction::ReconfigureAndRedraw(c.config)
                    } else {
                        DispatchAction::RequestRedraw
                    }
                },
                _ => DispatchAction::Idle,
            },
            WindowEventKind::RedrawRequested => match &self.state {
                AppState::Ready(_) => DispatchAction::Draw,
                _ => DispatchAction::Idle,
            },
            WindowEventKind::Other => DispatchAction::Idle,
        }
    }

    /// Digest the outcome of a draw: success needs nothing; a transient
    /// acquisition failure (surface lost or outdated) asks the embedder
    /// to reconfigure and retry on the next redraw; any other failure is
    /// fatal and exits.
    pub fn after_draw(&self, outcome: Result<(), SurfaceErrorKind>) -> (a: DispatchAction)
        requires
            self.state is Ready,
        ensures
            outcome is Ok ==> a == DispatchAction::Idle,
            outcome matches Err(e) && recoverable_spec(e) ==> (self.state matches AppState::Ready(c)
                && a == DispatchAction::ReconfigureAndRedraw(c.config)),
            outcome matches Err(e) && !recoverable_spec(e) ==> a == DispatchAction::Exit,
    {
        match outcome {
            Result::Ok(()) => DispatchAction::Idle,
            Result::Err(e) => match &self.state {
                AppState::Ready(c) => {
                    if crate::ctx::surface_error_recoverable(e) {
                        DispatchAction::ReconfigureAndRedraw(c.config)
                    } else {
                        DispatchAction::Exit
                    }
                },
                _ => DispatchAction::Exit,
            },
        }
    }
}

} // verus!
