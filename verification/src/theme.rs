//! Which theme the application takes over from the platform.

use vstd::prelude::*;

verus! {

/// A native window.
#[verifier::external_type_specification]
#[verifier::external_body]
pub struct ExWindow(winit::window::Window);

/// Dark or light colours.
#[derive(Clone, Copy, Debug, PartialEq, Eq, Structural)]
pub enum Theme {
    /// Dark mode: light text on a dark background.
    Dark,
    /// Light mode: dark text on a light background.
    Light,
}

/// What the host configures of the native integration.
#[derive(Clone, Copy, Debug)]
pub struct NativeOptions {
    /// Whether the application takes the theme that the platform reports.
    pub follow_system_theme: bool,
}

/// `winit::window::Window::theme`: the theme that the platform reports for
/// the window right now, or none where it cannot tell. The platform decides,
/// so nothing is claimed of the result.
#[verifier::external_body]
fn window_theme(window: &winit::window::Window) -> Option<Theme> {
    match window.theme() {
        Some(winit::window::Theme::Dark) => Some(Theme::Dark),
        Some(winit::window::Theme::Light) => Some(Theme::Light),
        None => None,
    }
}

/// The theme to take over, given what the platform reported: the reported
/// theme where the options follow the system theme, none otherwise.
pub fn followed_theme(options: &NativeOptions, reported: Option<Theme>) -> (theme: Option<Theme>)
    ensures
        theme == if options.follow_system_theme {
            reported
        } else {
            None
        },
{
    if options.follow_system_theme {
        reported
    } else {
        None
    }
}

/// The theme of the platform, for an application that follows it. The window
/// is asked only where the options follow the system theme; otherwise the
/// choice of theme stays with the application and the result is none.
pub fn system_theme(window: &winit::window::Window, options: &NativeOptions) -> (theme: Option<
    Theme,
>)
    ensures
        !options.follow_system_theme ==> theme is None,
{
    if options.follow_system_theme {
        followed_theme(options, window_theme(window))
    } else {
        None
    }
}

} // verus!
