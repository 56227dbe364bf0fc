//! How the windows of the application are made.

use crate::tray::{visible_after, WindowAction};
use vstd::prelude::*;

verus! {

/// How a window is made that shows a page of the application. Sizes are in logical pixels.
pub struct WindowSpec {
    pub label: &'static str,
    pub page: &'static str,
    pub title: &'static str,
    pub width: u32,
    pub height: u32,
    pub centered: bool,
    pub resizable: bool,
    pub maximizable: bool,
    pub minimizable: bool,
    pub decorations: bool,
    pub transparent: bool,
    pub shadow: bool,
    pub always_on_top: bool,
    pub skip_taskbar: bool,
    pub visible: bool,
}

/// How a window is made, as plain values.
pub struct WindowView {
    pub label: Seq<char>,
    pub page: Seq<char>,
    pub title: Seq<char>,
    pub width: int,
    pub height: int,
    pub centered: bool,
    pub resizable: bool,
    pub maximizable: bool,
    pub minimizable: bool,
    pub decorations: bool,
    pub transparent: bool,
    pub shadow: bool,
    pub always_on_top: bool,
    pub skip_taskbar: bool,
    pub visible: bool,
}

impl View for WindowSpec {
    type V = WindowView;

    open spec fn view(&self) -> WindowView {
        WindowView {
            label: self.label@,
            page: self.page@,
            title: self.title@,
            width: self.width as int,
            height: self.height as int,
            centered: self.centered,
            resizable: self.resizable,
            maximizable: self.maximizable,
            minimizable: self.minimizable,
            decorations: self.decorations,
            transparent: self.transparent,
            shadow: self.shadow,
            always_on_top: self.always_on_top,
            skip_taskbar: self.skip_taskbar,
            visible: self.visible,
        }
    }
}

/// An ordinary window of a fixed size, in the middle of the screen.
pub open spec fn ordinary_window(
    label: Seq<char>,
    page: Seq<char>,
    title: Seq<char>,
    width: int,
    height: int,
) -> WindowView {
    WindowView {
        label,
        page,
        title,
        width,
        height,
        centered: true,
        resizable: false,
        maximizable: true,
        minimizable: true,
        decorations: true,
        transparent: false,
        shadow: true,
        always_on_top: false,
        skip_taskbar: false,
        visible: true,
    }
}

/// The control panel, from which the user connects the providers. It has a fixed size and
/// shows at once.
pub fn create_control_panel() -> (r: WindowSpec)
    ensures
        r@ == ordinary_window(
            "control"@,
            "control.html"@,
            "Code Plan 套餐余量监控"@,
            460,
            320,
        ),
        r.label@ == "control"@,
        r.page@ == "control.html"@,
        r.title@ == "Code Plan 套餐余量监控"@,
        r.width == 460,
        r.height == 320,
        r.centered,
        !r.resizable,
        r.maximizable,
        r.minimizable,
        r.decorations,
        !r.transparent,
        r.shadow,
        !r.always_on_top,
        !r.skip_taskbar,
        r.visible,
{
    WindowSpec {
        label: "control",
        page: "control.html",
        title: "Code Plan 套餐余量监控",
        width: 460,
        height: 320,
        centered: true,
        resizable: false,
        maximizable: true,
        minimizable: true,
        decorations: true,
        transparent: false,
        shadow: true,
        always_on_top: false,
        skip_taskbar: false,
        visible: true,
    }
}

/// What brings the control panel before the user: once it is made, and when the application
/// is started while it runs already.
pub fn show_control_panel() -> (r: Vec<WindowAction>)
    ensures
        r@ == seq![WindowAction::Show, WindowAction::Focus],
{
    vec![WindowAction::Show, WindowAction::Focus]
}

/// What puts the control panel away: its own wish, once all providers are connected.
pub fn hide_control_panel() -> (r: Vec<WindowAction>)
    ensures
        r@ == seq![WindowAction::Hide],
{
    vec![WindowAction::Hide]
}

/// What follows when the user closes the control panel.
pub struct CloseAnswer {
    /// Whether the window is kept from being closed.
    pub prevent_close: bool,
    /// What is done to it instead.
    pub actions: Vec<WindowAction>,
}

/// What follows when the user closes the control panel: it is not closed, only hidden, and
/// the application goes on.
pub fn on_control_closed() -> (r: CloseAnswer)
    ensures
        r.prevent_close,
        r.actions@ == seq![WindowAction::Hide],
        !visible_after(true, r.actions@),
{
    CloseAnswer { prevent_close: true, actions: vec![WindowAction::Hide] }
}

/// An ordinary window can be moved, put aside and found again like any other: it has a frame,
/// stands in the taskbar, and does not stay above others. It shows at once.
pub proof fn law_ordinary_window_behaves_like_others(
    label: Seq<char>,
    page: Seq<char>,
    title: Seq<char>,
    width: int,
    height: int,
)
    ensures
        ({
            let w = ordinary_window(label, page, title, width, height);
            &&& w.label == label && w.page == page && w.title == title
            &&& w.width == width && w.height == height && !w.resizable
            &&& w.decorations && w.minimizable && w.maximizable && w.shadow && w.centered
            &&& !w.transparent && !w.always_on_top && !w.skip_taskbar
            &&& w.visible
        }),
{
}

/// Nothing of how a window is made is left out of its view.
pub proof fn law_spec_view_is_whole(w: WindowSpec)
    ensures
        w@.label == w.label@ && w@.page == w.page@ && w@.title == w.title@,
        w@.width == w.width && w@.height == w.height,
        w@.centered == w.centered && w@.resizable == w.resizable,
        w@.maximizable == w.maximizable && w@.minimizable == w.minimizable,
        w@.decorations == w.decorations && w@.transparent == w.transparent,
        w@.shadow == w.shadow && w@.always_on_top == w.always_on_top,
        w@.skip_taskbar == w.skip_taskbar && w@.visible == w.visible,
{
}

} // verus!
