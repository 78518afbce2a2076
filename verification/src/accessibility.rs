//! Events of the accessibility subsystem, and what each one does to the input
//! state of a window and to the host loop.

use crate::event::EventResult;
use vstd::prelude::*;

verus! {

/// The input state of one window: it holds a handle to the GUI context and
/// collects the input events that the next frame will see. Within this crate
/// every change to the state or to the context behind it goes through a
/// `&mut` borrow of the state.
#[verifier::external_type_specification]
#[verifier::external_body]
pub struct ExState(egui_winit::State);

/// An accessibility event of a window, as the platform adapter sends it.
#[verifier::external_type_specification]
#[verifier::external_body]
pub struct ExAccessKitWindowEvent(egui_winit::accesskit_winit::WindowEvent);

/// An action that assistive technology asks for on a node of the tree.
#[verifier::external_type_specification]
#[verifier::external_body]
pub struct ExActionRequest(egui::accesskit::ActionRequest);

/// An accessibility event of a window.
#[derive(Debug, PartialEq)]
pub enum AccessKitWindowEvent {
    /// Assistive technology asks for the accessibility tree for the first time.
    InitialTreeRequested,
    /// Assistive technology asks for an action on a node.
    ActionRequested(egui::accesskit::ActionRequest),
    /// Assistive technology no longer listens.
    AccessibilityDeactivated,
}

/// Which event the adapter's event is: its variant, with the request that an
/// `ActionRequested` carries.
pub uninterp spec fn window_event_view(
    event: egui_winit::accesskit_winit::WindowEvent,
) -> AccessKitWindowEvent;

/// Whether the context behind the input state builds an accessibility tree in
/// the frames to come: the switch that `egui::Context::enable_accesskit` turns
/// on and `egui::Context::disable_accesskit` turns off. The context is a
/// shared handle, so this speaks of the moment a call returns; a clone held
/// elsewhere can turn the switch later.
pub uninterp spec fn accesskit_enabled(state: egui_winit::State) -> bool;

/// The action requests among the input events that the state has collected
/// and not yet handed to a frame, oldest first.
pub uninterp spec fn queued_action_requests(state: egui_winit::State) -> Seq<
    egui::accesskit::ActionRequest,
>;

/// Tells the variants of `accesskit_winit::WindowEvent` apart.
#[verifier::external_body]
fn window_event_of(event: &egui_winit::accesskit_winit::WindowEvent) -> (own: AccessKitWindowEvent)
    ensures
        own == window_event_view(*event),
{
    match event {
        egui_winit::accesskit_winit::WindowEvent::InitialTreeRequested => {
            AccessKitWindowEvent::InitialTreeRequested
        },
        egui_winit::accesskit_winit::WindowEvent::ActionRequested(request) => {
            AccessKitWindowEvent::ActionRequested(request.clone())
        },
        egui_winit::accesskit_winit::WindowEvent::AccessibilityDeactivated => {
            AccessKitWindowEvent::AccessibilityDeactivated
        },
    }
}

/// `egui::Context::enable_accesskit` on the state's context: sets the switch
/// and touches nothing of the state's input.
#[verifier::external_body]
fn enable_accesskit(state: &mut egui_winit::State)
    ensures
        accesskit_enabled(*final(state)),
        queued_action_requests(*final(state)) == queued_action_requests(*old(state)),
{
    state.egui_ctx().enable_accesskit();
}

/// `egui::Context::disable_accesskit` on the state's context: clears the
/// switch and touches nothing of the state's input.
#[verifier::external_body]
fn disable_accesskit(state: &mut egui_winit::State)
    ensures
        !accesskit_enabled(*final(state)),
        queued_action_requests(*final(state)) == queued_action_requests(*old(state)),
{
    state.egui_ctx().disable_accesskit();
}

/// `egui_winit::State::on_accesskit_action_request`: appends the request to
/// the state's input events and leaves the context alone.
#[verifier::external_body]
fn forward_action_request(state: &mut egui_winit::State, request: egui::accesskit::ActionRequest)
    ensures
        queued_action_requests(*final(state)) == queued_action_requests(*old(state)).push(request),
        accesskit_enabled(*final(state)) == accesskit_enabled(*old(state)),
{
    state.on_accesskit_action_request(request);
}

/// What handling an accessibility event of the window `window_id` comes to:
/// the directive `result` for the host loop, and the input state `after` the
/// event given the state `before` it.
///
/// - The first request for the tree switches accessibility on, whatever it
///   was, and the window repaints at once.
/// - A requested action joins the queue of the state's input, and the window
///   repaints with the next regular frame.
/// - Deactivation switches accessibility off, and nothing repaints.
///
/// What an event does not name stays as it was.
pub open spec fn handles(
    event: AccessKitWindowEvent,
    window_id: winit::window::WindowId,
    before: egui_winit::State,
    after: egui_winit::State,
    result: EventResult,
) -> bool {
    match event {
        AccessKitWindowEvent::InitialTreeRequested => {
            &&& result == EventResult::RepaintNow(window_id)
            &&& accesskit_enabled(after)
            &&& queued_action_requests(after) == queued_action_requests(before)
        },
        AccessKitWindowEvent::ActionRequested(request) => {
            &&& result == EventResult::RepaintNext(window_id)
            &&& accesskit_enabled(after) == accesskit_enabled(before)
            &&& queued_action_requests(after) == queued_action_requests(before).push(request)
        },
        AccessKitWindowEvent::AccessibilityDeactivated => {
            &&& result == EventResult::Wait
            &&& !accesskit_enabled(after)
            &&& queued_action_requests(after) == queued_action_requests(before)
        },
    }
}

/// Handles an accessibility event of the window `window_id`.
///
/// The first request for the tree asks for a repaint at once because the tree
/// cannot be handed over from inside the handler: the platform shows a
/// placeholder until the next frame has been painted. An action is input like
/// any other, so it waits for the next regular frame. Deactivation shows
/// nowhere, so nothing is repainted.
pub fn handle_window_event(
    egui_winit: &mut egui_winit::State,
    window_id: winit::window::WindowId,
    event: AccessKitWindowEvent,
) -> (result: EventResult)
    ensures
        handles(event, window_id, *old(egui_winit), *final(egui_winit), result),
{
    match event {
        AccessKitWindowEvent::InitialTreeRequested => {
            enable_accesskit(egui_winit);
            EventResult::RepaintNow(window_id)
        },
        AccessKitWindowEvent::ActionRequested(request) => {
            forward_action_request(egui_winit, request);
            EventResult::RepaintNext(window_id)
        },
        AccessKitWindowEvent::AccessibilityDeactivated => {
            disable_accesskit(egui_winit);
            EventResult::Wait
        },
    }
}

/// Handles an accessibility event of the window `window_id` as the platform
/// adapter delivers it: what `handle_window_event` does for the event that
/// the adapter's event is.
pub fn on_accesskit_window_event(
    egui_winit: &mut egui_winit::State,
    window_id: winit::window::WindowId,
    event: &egui_winit::accesskit_winit::WindowEvent,
) -> (result: EventResult)
    ensures
        handles(
            window_event_view(*event),
            window_id,
            *old(egui_winit),
            *final(egui_winit),
            result,
        ),
{
    handle_window_event(egui_winit, window_id, window_event_of(event))
}

} // verus!
