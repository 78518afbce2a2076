//! The bridge between an immediate-mode GUI context and a native window event
//! loop: bootstrapping the context, naming the events that the loop delivers,
//! and mapping accessibility events to repaint directives.

pub mod accessibility;
pub mod context;
pub mod event;
pub mod theme;
pub mod winit_app;

pub use accessibility::{handle_window_event, on_accesskit_window_event, AccessKitWindowEvent};
pub use context::{
    create_egui_context, is_desktop, stored_egui_memory, Storage, STORAGE_EGUI_MEMORY_KEY,
};
pub use event::{
    short_event_description, short_loop_event_description, short_user_event_description,
    EventResult, LoopEvent, UserEvent,
};
pub use theme::{followed_theme, system_theme, NativeOptions, Theme};
pub use winit_app::{on_repaint_request, repaint_request_directive, Error, WinitApp};
