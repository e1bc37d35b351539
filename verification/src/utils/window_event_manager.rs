//! Progress events for the window.

use vstd::prelude::*;

verus! {

/// How much an event matters: `DEBUG`, `INFO` or `ERROR`.
#[derive(Debug, Clone, Copy, PartialEq, Eq, Structural)]
pub enum WindowEventType {
    DEBUG,
    INFO,
    ERROR,
}

/// A named event with a payload, on its way to the window.
#[derive(Debug, Clone, PartialEq, Eq)]
pub struct WindowEvent<P> {
    pub event_name: &'static str,
    pub payload: P,
    pub event_type: WindowEventType,
}

/// `WindowEvent` with its name and payload by their views.
pub struct WindowEventView<V> {
    pub event_name: Seq<char>,
    pub payload: V,
    pub event_type: WindowEventType,
}

impl<P: View> View for WindowEvent<P> {
    type V = WindowEventView<P::V>;

    open spec fn view(&self) -> WindowEventView<P::V> {
        WindowEventView {
            event_name: self.event_name@,
            payload: self.payload@,
            event_type: self.event_type,
        }
    }
}

impl<P> WindowEvent<P> {
    /// An event of the given name, payload and type.
    pub fn new(event_name: &'static str, payload: P, event_type: WindowEventType) -> (event: Self)
        ensures
            event.event_name == event_name,
            event.payload == payload,
            event.event_type == event_type,
    {
        Self { event_name, payload, event_type }
    }

    /// Splits the event into the name under which it is emitted and what is
    /// sent along: the payload together with the type.
    pub fn into_emission(self) -> (emission: (&'static str, WindowEventManagerPayload<P>))
        ensures
            emission.0 == self.event_name,
            emission.1.payload == self.payload,
            emission.1.event_type == self.event_type,
    {
        (
            self.event_name,
            WindowEventManagerPayload { payload: self.payload, event_type: self.event_type },
        )
    }
}

/// What the window receives with an event.
#[derive(Debug, Clone, PartialEq, Eq)]
pub struct WindowEventManagerPayload<P> {
    pub payload: P,
    pub event_type: WindowEventType,
}

} // verus!
