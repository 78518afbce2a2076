//! What an application implements to be driven by the event loop.

use crate::event::{EventResult, UserEvent};
use std::sync::Arc;
use std::time::Instant;
use vstd::prelude::*;

verus! {

/// The event loop while it runs: the target on which windows are created.
#[verifier::external_type_specification]
#[verifier::external_body]
pub struct ExActiveEventLoop(winit::event_loop::ActiveEventLoop);

/// The platform could not carry out an operation of the windowing library.
#[verifier::external_type_specification]
#[verifier::external_body]
pub struct ExOsError(winit::error::OsError);

/// The event loop of the windowing library failed.
#[verifier::external_type_specification]
#[verifier::external_body]
pub struct ExEventLoopError(winit::error::EventLoopError);

/// Why an event could not be handled.
#[derive(Debug)]
pub enum Error {
    /// An operation on a window failed.
    Winit(winit::error::OsError),
    /// The event loop failed.
    WinitEventLoop(winit::error::EventLoopError),
}

/// An application as the event loop sees it: a registry of windows and
/// viewports, a painter, and a handler of events. The host loop owns the
/// message pump and acts on the directive that each call returns.
pub trait WinitApp {
    /// The current frame number of the viewport.
    fn frame_nr(&self, viewport_id: egui::ViewportId) -> u64;

    /// The window with this identifier, if it is still open.
    fn window(&self, window_id: winit::window::WindowId) -> Option<Arc<winit::window::Window>>;

    /// The window that shows the viewport, if it has one.
    fn window_id_from_viewport_id(&self, id: egui::ViewportId) -> Option<winit::window::WindowId>;

    /// Persists the application's state and tears it down.
    fn save_and_destroy(&mut self);

    /// Runs one pass of the user interface for the window and paints it.
    fn run_ui_and_paint(
        &mut self,
        event_loop: &winit::event_loop::ActiveEventLoop,
        window_id: winit::window::WindowId,
    ) -> EventResult;

    /// Handles one event of the loop and says what the loop is to do next.
    fn on_event(
        &mut self,
        event_loop: &winit::event_loop::ActiveEventLoop,
        event: &winit::event::Event<UserEvent>,
    ) -> Result<EventResult, Error>;
}

/// The directive that answers a request to repaint a viewport at `when`,
/// given the window that shows the viewport: that window repaints at the
/// requested instant. A viewport without a window has nothing to repaint.
pub fn repaint_request_directive(window_id: Option<winit::window::WindowId>, when: Instant) -> (result:
    EventResult)
    ensures
        result == match window_id {
            Some(id) => EventResult::RepaintAt(id, when),
            None => EventResult::Wait,
        },
{
    match window_id {
        Some(id) => EventResult::RepaintAt(id, when),
        None => EventResult::Wait,
    }
}

/// Turns a repaint request into a directive for the host loop, with the
/// window looked up in the application's registry. Whether the request is
/// still current is for the host loop to judge.
pub fn on_repaint_request(app: &dyn WinitApp, viewport_id: egui::ViewportId, when: Instant) -> (result:
    EventResult)
    ensures
        result is Wait || (result is RepaintAt && result->RepaintAt_1 == when),
{
    repaint_request_directive(app.window_id_from_viewport_id(viewport_id), when)
}

} // verus!
