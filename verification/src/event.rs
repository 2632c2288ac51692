//! What the host window reports, and what the event loop is to do about it.

use vstd::prelude::*;
use crate::state::{State, SurfaceError};
use crate::surface::Size;

verus! {

/// A key of the keyboard.
#[derive(Clone, Copy, Debug, PartialEq, Eq, Structural)]
pub enum Key {
    Escape,
    Other,
}

/// An event of a window.
#[derive(Clone, Copy, Debug, PartialEq, Eq, Structural)]
pub enum WindowEvent {
    /// The user asked for the window to be closed.
    CloseRequested,
    /// A key went down or up.
    KeyboardInput { pressed: bool, key: Key },
    /// The window has a new size.
    Resized(Size),
    /// The scale factor changed, and with it the size in pixels.
    ScaleFactorChanged { new_inner_size: Size },
    /// Anything else.
    Other,
}

/// An event of the host's event loop.
#[derive(Clone, Copy, Debug, PartialEq, Eq, Structural)]
pub enum Event {
    /// An event of a window; `own_window` tells whether it is the window
    /// that the renderer draws into.
    Window { own_window: bool, event: WindowEvent },
    /// Every event of this round has been handled.
    MainEventsCleared,
    /// The window is to be drawn again.
    RedrawRequested,
    /// Anything else.
    Other,
}

/// What the event loop is to do next.
#[derive(Clone, Copy, Debug, PartialEq, Eq, Structural)]
pub enum Directive {
    /// Nothing.
    Proceed,
    /// Leave the loop.
    Exit,
    /// Configure the surface for the renderer's size and replace the depth
    /// attachment.
    Reconfigure,
    /// Ask the window for a redraw.
    RequestRedraw,
    /// Update the uniforms, acquire a frame and render it.
    Redraw,
    /// Report the failure and go on with the next frame.
    Report(SurfaceError),
}

/// How grave a failure to acquire a frame is.
#[derive(Clone, Copy, Debug, PartialEq, Eq, Structural)]
pub enum FailureClass {
    /// The surface must be configured anew; this frame is skipped.
    Recoverable,
    /// Rendering must stop.
    Fatal,
    /// This frame is skipped.
    Transient,
}

impl SurfaceError {
    /// A lost or outdated surface is recoverable, a device out of memory is
    /// fatal, anything else is transient.
    pub open spec fn spec_class(self) -> FailureClass {
        match self {
            SurfaceError::Lost => FailureClass::Recoverable,
            SurfaceError::Outdated => FailureClass::Recoverable,
            SurfaceError::OutOfMemory => FailureClass::Fatal,
            SurfaceError::Timeout => FailureClass::Transient,
        }
    }

    #[verifier::when_used_as_spec(spec_class)]
    pub fn class(self) -> (class: FailureClass)
        ensures
            class == self.spec_class(),
    {
        match self {
            SurfaceError::Lost => FailureClass::Recoverable,
            SurfaceError::Outdated => FailureClass::Recoverable,
            SurfaceError::OutOfMemory => FailureClass::Fatal,
            SurfaceError::Timeout => FailureClass::Transient,
        }
    }
}

/// The size that an event asks the renderer to take, if it asks for one:
/// only a resize or a change of scale of the renderer's own window does.
pub open spec fn requested_size(event: Event) -> Option<Size> {
    match event {
        Event::Window { own_window: true, event: WindowEvent::Resized(size) } => Some(size),
        Event::Window {
            own_window: true,
            event: WindowEvent::ScaleFactorChanged { new_inner_size },
        } => Some(new_inner_size),
        _ => None,
    }
}

/// What the event loop is to do after an event.  A close request ends the
/// loop; a resize that the renderer accepts calls for a new configuration;
/// the end of a round asks for a redraw, and the request for one is
/// answered by a frame.  Key presses, events of other windows and everything
/// else are passed over.
pub open spec fn directive_for(event: Event) -> Directive {
    match event {
        Event::Window { own_window: true, event: WindowEvent::CloseRequested } => Directive::Exit,
        Event::Window { own_window: true, event: WindowEvent::Resized(size) } => {
            if size.is_drawable() {
                Directive::Reconfigure
            } else {
                Directive::Proceed
            }
        },
        Event::Window {
            own_window: true,
            event: WindowEvent::ScaleFactorChanged { new_inner_size },
        } => if new_inner_size.is_drawable() {
            Directive::Reconfigure
        } else {
            Directive::Proceed
        },
        Event::MainEventsCleared => Directive::RequestRedraw,
        Event::RedrawRequested => Directive::Redraw,
        _ => Directive::Proceed,
    }
}

/// What the event loop is to do after an attempt at a frame.
pub open spec fn directive_after(outcome: Result<(), SurfaceError>) -> Directive {
    match outcome {
        Ok(_) => Directive::Proceed,
        Err(e) => match e.spec_class() {
            FailureClass::Recoverable => Directive::Reconfigure,
            FailureClass::Fatal => Directive::Exit,
            FailureClass::Transient => Directive::Report(e),
        },
    }
}

/// Handles one event of the host: resizes the renderer where the event asks
/// for it, and tells the loop what to do next.
pub fn handle_event(state: &mut State, event: &Event) -> (directive: Directive)
    ensures
        old(state).wf() ==> final(state).wf(),
        directive == directive_for(*event),
        *final(state) == match requested_size(*event) {
            Some(size) => old(state).resized(size),
            None => *old(state),
        },
{
    match event {
        Event::Window { own_window, event } => {
            if !*own_window {
                return Directive::Proceed;
            }
            if state.input(event) {
                return Directive::Proceed;
            }
            match event {
                WindowEvent::CloseRequested => Directive::Exit,
                WindowEvent::Resized(size) => {
                    if state.resize(*size) {
                        Directive::Reconfigure
                    } else {
                        Directive::Proceed
                    }
                },
                WindowEvent::ScaleFactorChanged { new_inner_size } => {
                    if state.resize(*new_inner_size) {
                        Directive::Reconfigure
                    } else {
                        Directive::Proceed
                    }
                },
                _ => Directive::Proceed,
            }
        },
        Event::MainEventsCleared => Directive::RequestRedraw,
        Event::RedrawRequested => Directive::Redraw,
        Event::Other => Directive::Proceed,
    }
}

/// Handles the outcome of an attempt at a frame.  After a recoverable
/// failure the renderer is resized to the size it has, which starts a new
/// generation of the surface.
pub fn after_frame(state: &mut State, outcome: Result<(), SurfaceError>) -> (directive: Directive)
    ensures
        old(state).wf() ==> final(state).wf(),
        directive == directive_after(outcome),
        *final(state) == if directive == Directive::Reconfigure {
            old(state).resized(old(state).size)
        } else {
            *old(state)
        },
{
    match outcome {
        Ok(_) => Directive::Proceed,
        Err(e) => match e.class() {
            FailureClass::Recoverable => {
                let size = state.size;
                state.resize(size);
                Directive::Reconfigure
            },
            FailureClass::Fatal => Directive::Exit,
            FailureClass::Transient => Directive::Report(e),
        },
    }
}

} // verus!
