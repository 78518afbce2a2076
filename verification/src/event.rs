//! The events that the event loop delivers and the directives that answer them.

use std::time::Instant;
use vstd::prelude::*;
use vstd::std_specs::convert::FromSpecImpl;

verus! {

/// A window identifier of the windowing library. Opaque: only equality is used.
#[verifier::external_type_specification]
#[verifier::external_body]
pub struct ExWindowId(winit::window::WindowId);

/// A point in time of the monotonic clock. Opaque: only equality is used.
#[verifier::external_type_specification]
#[verifier::external_body]
pub struct ExInstant(std::time::Instant);

/// The identifier of a viewport of the GUI.
#[verifier::external_type_specification]
#[verifier::external_body]
pub struct ExViewportId(egui::ViewportId);

/// An accessibility event together with the window it belongs to.
#[verifier::external_type_specification]
#[verifier::external_body]
pub struct ExAccessKitEvent(egui_winit::accesskit_winit::Event);

/// An event of the event loop, with `T` for the application's own events.
#[verifier::external_type_specification]
#[verifier::external_body]
#[verifier::reject_recursive_types(T)]
pub struct ExEvent<T: 'static>(winit::event::Event<T>);

/// An event of a window.
#[verifier::external_type_specification]
#[verifier::external_body]
pub struct ExWindowEvent(winit::event::WindowEvent);

/// An event of an input device.
#[verifier::external_type_specification]
#[verifier::external_body]
pub struct ExDeviceEvent(winit::event::DeviceEvent);

/// The events that this integration itself sends through the event loop.
#[derive(Debug)]
pub enum UserEvent {
    /// A repaint is requested.
    RequestRepaint {
        /// What to repaint.
        viewport_id: egui::ViewportId,
        /// When to repaint.
        when: Instant,
        /// What the frame number was when the repaint was requested.
        frame_nr: u64,
    },
    /// An event of the accessibility subsystem.
    AccessKitEvent(egui_winit::accesskit_winit::Event),
}

impl From<egui_winit::accesskit_winit::Event> for UserEvent {
    fn from(inner: egui_winit::accesskit_winit::Event) -> (event: Self) {
        Self::AccessKitEvent(inner)
    }
}

impl FromSpecImpl<egui_winit::accesskit_winit::Event> for UserEvent {
    open spec fn obeys_from_spec() -> bool {
        true
    }

    open spec fn from_spec(inner: egui_winit::accesskit_winit::Event) -> Self {
        UserEvent::AccessKitEvent(inner)
    }
}

/// What the host loop is to do once an event has been handled.
#[derive(Clone, Copy, Debug, PartialEq, Eq)]
pub enum EventResult {
    /// Nothing to repaint.
    Wait,
    /// Repaint the window synchronously, inside the event handler. For the
    /// rare repaint that cannot wait for the loop's next redraw.
    RepaintNow(winit::window::WindowId),
    /// Repaint the window when the loop handles its next redraw, so that
    /// several input events can share one frame.
    RepaintNext(winit::window::WindowId),
    /// Repaint the window at the given instant.
    RepaintAt(winit::window::WindowId, Instant),
    /// Leave the event loop.
    Exit,
}

/// An event of the loop, told apart by its kind.
pub enum LoopEvent<'a> {
    /// The loop starts a new round of events.
    NewEvents,
    /// An event of a window.
    Window(&'a winit::event::WindowEvent),
    /// An event of an input device.
    Device(&'a winit::event::DeviceEvent),
    /// An event that this integration sent.
    User(&'a UserEvent),
    /// The application was suspended.
    Suspended,
    /// The application was resumed.
    Resumed,
    /// All pending events were handled; the loop is about to wait.
    AboutToWait,
    /// The loop is shutting down.
    LoopExiting,
    /// The platform is short of memory.
    MemoryWarning,
}

/// Which kind of event the loop's event is, with what it carries.
pub uninterp spec fn loop_event_view(event: winit::event::Event<UserEvent>) -> LoopEvent<'static>;

/// The label that `egui_winit::short_window_event_description` gives the event.
pub uninterp spec fn window_event_label(event: winit::event::WindowEvent) -> Seq<char>;

/// The label that `egui_winit::short_device_event_description` gives the event.
pub uninterp spec fn device_event_label(event: winit::event::DeviceEvent) -> Seq<char>;

/// Tells the variants of `winit::event::Event` apart.
#[verifier::external_body]
fn loop_event_of<'a>(event: &'a winit::event::Event<UserEvent>) -> (own: LoopEvent<'a>)
    ensures
        own == loop_event_view(*event),
{
    match event {
        winit::event::Event::NewEvents(_) => LoopEvent::NewEvents,
        winit::event::Event::WindowEvent { event, .. } => LoopEvent::Window(event),
        winit::event::Event::DeviceEvent { event, .. } => LoopEvent::Device(event),
        winit::event::Event::UserEvent(user_event) => LoopEvent::User(user_event),
        winit::event::Event::Suspended => LoopEvent::Suspended,
        winit::event::Event::Resumed => LoopEvent::Resumed,
        winit::event::Event::AboutToWait => LoopEvent::AboutToWait,
        winit::event::Event::LoopExiting => LoopEvent::LoopExiting,
        winit::event::Event::MemoryWarning => LoopEvent::MemoryWarning,
    }
}

/// `egui_winit::short_window_event_description`: a fixed label for each
/// variant of the window event.
#[verifier::external_body]
fn window_event_description(event: &winit::event::WindowEvent) -> (label: &'static str)
    ensures
        label@ == window_event_label(*event),
{
    egui_winit::short_window_event_description(event)
}

/// `egui_winit::short_device_event_description`: a fixed label for each
/// variant of the device event.
#[verifier::external_body]
fn device_event_description(event: &winit::event::DeviceEvent) -> (label: &'static str)
    ensures
        label@ == device_event_label(*event),
{
    egui_winit::short_device_event_description(event)
}

/// The label of an event that this integration sent.
pub open spec fn user_event_label(event: UserEvent) -> Seq<char> {
    match event {
        UserEvent::RequestRepaint { .. } => "UserEvent::RequestRepaint"@,
        UserEvent::AccessKitEvent(_) => "UserEvent::AccessKitEvent"@,
    }
}

/// The label of an event of the loop.
pub open spec fn loop_event_label(event: LoopEvent) -> Seq<char> {
    match event {
        LoopEvent::NewEvents => "Event::NewEvents"@,
        LoopEvent::Window(window_event) => window_event_label(*window_event),
        LoopEvent::Device(device_event) => device_event_label(*device_event),
        LoopEvent::User(user_event) => user_event_label(*user_event),
        LoopEvent::Suspended => "Event::Suspended"@,
        LoopEvent::Resumed => "Event::Resumed"@,
        LoopEvent::AboutToWait => "Event::AboutToWait"@,
        LoopEvent::LoopExiting => "Event::LoopExiting"@,
        LoopEvent::MemoryWarning => "Event::MemoryWarning"@,
    }
}

/// Short and fast description of an event that this integration sent.
pub fn short_user_event_description(event: &UserEvent) -> (label: &'static str)
    ensures
        label@ == user_event_label(*event),
{
    match event {
        UserEvent::RequestRepaint { .. } => "UserEvent::RequestRepaint",
        UserEvent::AccessKitEvent(_) => "UserEvent::AccessKitEvent",
    }
}

/// Short and fast description of an event, told apart by its kind.
pub fn short_loop_event_description(event: LoopEvent) -> (label: &'static str)
    ensures
        label@ == loop_event_label(event),
{
    match event {
        LoopEvent::NewEvents => "Event::NewEvents",
        LoopEvent::Window(window_event) => window_event_description(window_event),
        LoopEvent::Device(device_event) => device_event_description(device_event),
        LoopEvent::User(user_event) => short_user_event_description(user_event),
        LoopEvent::Suspended => "Event::Suspended",
        LoopEvent::Resumed => "Event::Resumed",
        LoopEvent::AboutToWait => "Event::AboutToWait",
        LoopEvent::LoopExiting => "Event::LoopExiting",
        LoopEvent::MemoryWarning => "Event::MemoryWarning",
    }
}

/// Short and fast description of an event.
/// Useful for logging and profiling.
pub fn short_event_description(event: &winit::event::Event<UserEvent>) -> (label: &'static str)
    ensures
        label@ == loop_event_label(loop_event_view(*event)),
{
    short_loop_event_description(loop_event_of(event))
}

} // verus!
