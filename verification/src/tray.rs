//! The tray menu, and showing and hiding windows.

use crate::text::same_text;
use vstd::prelude::*;

verus! {

/// Something done to a window.
#[derive(Debug, Clone, Copy, PartialEq, Eq, Structural)]
pub enum WindowAction {
    Hide,
    Show,
    Focus,
    /// Has the window listed in the taskbar.
    ListInTaskbar,
    /// Keeps the window above others.
    KeepOnTop,
    /// Focuses the window once more after so many milliseconds.
    FocusAfter(u64),
}

/// What switches a window: a visible one is hidden, another is shown and focused.
pub open spec fn toggle_actions(visible: bool) -> Seq<WindowAction> {
    if visible {
        seq![WindowAction::Hide]
    } else {
        seq![WindowAction::Show, WindowAction::Focus]
    }
}

/// What switches a window that Windows may have put aside: as `toggle_actions`, and on
/// Windows showing it also restores its place in the taskbar and above other windows.
pub open spec fn recovery_actions(visible: bool, on_windows: bool) -> Seq<WindowAction> {
    if visible || !on_windows {
        toggle_actions(visible)
    } else {
        seq![
            WindowAction::ListInTaskbar,
            WindowAction::KeepOnTop,
            WindowAction::Show,
            WindowAction::Focus,
            WindowAction::FocusAfter(50),
        ]
    }
}

/// Switches a window. A window that does not tell whether it is visible counts as hidden.
pub fn toggle_window(visible: Option<bool>) -> (r: Vec<WindowAction>)
    ensures
        r@ == toggle_actions(visible.unwrap_or(false)),
{
    if visible.unwrap_or(false) {
        vec![WindowAction::Hide]
    } else {
        vec![WindowAction::Show, WindowAction::Focus]
    }
}

/// Switches a window that Windows may have put aside.
pub fn toggle_window_with_recovery(visible: Option<bool>, on_windows: bool) -> (r: Vec<
    WindowAction,
>)
    ensures
        r@ == recovery_actions(visible.unwrap_or(false), on_windows),
{
    if visible.unwrap_or(false) || !on_windows {
        toggle_window(visible)
    } else {
        vec![
            WindowAction::ListInTaskbar,
            WindowAction::KeepOnTop,
            WindowAction::Show,
            WindowAction::Focus,
            WindowAction::FocusAfter(50),
        ]
    }
}

/// Whether a window is visible after some actions.
pub open spec fn visible_after(visible: bool, actions: Seq<WindowAction>) -> bool
    decreases actions.len(),
{
    if actions.len() == 0 {
        visible
    } else {
        match actions.last() {
            WindowAction::Hide => false,
            WindowAction::Show => true,
            _ => visible_after(visible, actions.drop_last()),
        }
    }
}

/// Switching a window turns its visibility over, on every system.
pub proof fn law_toggle_turns_visibility_over(visible: bool, on_windows: bool)
    ensures
        visible_after(visible, toggle_actions(visible)) == !visible,
        visible_after(visible, recovery_actions(visible, on_windows)) == !visible,
{
    reveal_with_fuel(visible_after, 4);
}

/// An entry of the tray menu.
pub struct MenuEntry {
    pub id: &'static str,
    pub text: &'static str,
}

/// An entry of the tray menu as plain text.
pub struct EntryView {
    pub id: Seq<char>,
    pub text: Seq<char>,
}

impl View for MenuEntry {
    type V = EntryView;

    open spec fn view(&self) -> EntryView {
        EntryView { id: self.id@, text: self.text@ }
    }
}

/// The tray menu. A filled circle marks a visible window, an empty one a hidden one.
pub open spec fn menu(control_visible: bool, overlay_visible: bool) -> Seq<EntryView> {
    seq![
        EntryView {
            id: "toggle_control"@,
            text: if control_visible {
                "控制面板 ●"@
            } else {
                "控制面板 ○"@
            },
        },
        EntryView {
            id: "toggle_overlay"@,
            text: if overlay_visible {
                "悬浮窗 ●"@
            } else {
                "悬浮窗 ○"@
            },
        },
        EntryView { id: "quit"@, text: "退出"@ },
    ]
}

/// The tray menu. A window that is missing or does not tell whether it is visible counts as
/// hidden.
pub fn build_menu(control_visible: Option<bool>, overlay_visible: Option<bool>) -> (r: Vec<
    MenuEntry,
>)
    ensures
        r@.map_values(|e: MenuEntry| e@) == menu(
            control_visible.unwrap_or(false),
            overlay_visible.unwrap_or(false),
        ),
{
    let control_text = if control_visible.unwrap_or(false) {
        "控制面板 ●"
    } else {
        "控制面板 ○"
    };
    let overlay_text = if overlay_visible.unwrap_or(false) {
        "悬浮窗 ●"
    } else {
        "悬浮窗 ○"
    };
    let r = vec![
        MenuEntry { id: "toggle_control", text: control_text },
        MenuEntry { id: "toggle_overlay", text: overlay_text },
        MenuEntry { id: "quit", text: "退出" },
    ];
    assert(r@.map_values(|e: MenuEntry| e@) =~= menu(
        control_visible.unwrap_or(false),
        overlay_visible.unwrap_or(false),
    ));
    r
}

/// What choosing an entry of the tray menu asks for.
#[derive(Debug, Clone, Copy, PartialEq, Eq, Structural)]
pub enum MenuCommand {
    /// Switches the control panel.
    ToggleControl,
    /// Switches the overlay, with recovery.
    ToggleOverlay,
    /// Ends the application.
    Quit,
    /// Nothing.
    Ignore,
}

/// What the entry with the given identifier asks for.
pub open spec fn command_of(id: Seq<char>) -> MenuCommand {
    if id == "toggle_control"@ {
        MenuCommand::ToggleControl
    } else if id == "toggle_overlay"@ {
        MenuCommand::ToggleOverlay
    } else if id == "quit"@ {
        MenuCommand::Quit
    } else {
        MenuCommand::Ignore
    }
}

/// What the entry with the given identifier asks for.
pub fn menu_command(id: &str) -> (r: MenuCommand)
    ensures
        r == command_of(id@),
{
    if same_text(id, "toggle_control") {
        MenuCommand::ToggleControl
    } else if same_text(id, "toggle_overlay") {
        MenuCommand::ToggleOverlay
    } else if same_text(id, "quit") {
        MenuCommand::Quit
    } else {
        MenuCommand::Ignore
    }
}

/// How long after a switch the menu is built anew, in milliseconds.
pub const MENU_DELAY: u64 = 100;

/// Every entry of the menu asks for something of its own.
pub proof fn law_menu_entries_do_something(control_visible: bool, overlay_visible: bool)
    ensures
        ({
            let m = menu(control_visible, overlay_visible);
            &&& command_of(m[0].id) == MenuCommand::ToggleControl
            &&& command_of(m[1].id) == MenuCommand::ToggleOverlay
            &&& command_of(m[2].id) == MenuCommand::Quit
        }),
{
    reveal_strlit("toggle_control");
    reveal_strlit("toggle_overlay");
    reveal_strlit("quit");
    assert("toggle_control"@[7] != "toggle_overlay"@[7]);
    assert("quit"@.len() == 4 && "toggle_control"@.len() == 14 && "toggle_overlay"@.len() == 14);
}

/// Showing a window also focuses it, and on Windows, where it may have been put aside, it is
/// listed and kept on top before, and focused once more after 50 milliseconds. Hiding it does
/// nothing else.
pub proof fn law_switching_restores_a_window(on_windows: bool)
    ensures
        recovery_actions(true, on_windows) == seq![WindowAction::Hide],
        toggle_actions(true) == seq![WindowAction::Hide],
        ({
            let a = recovery_actions(false, on_windows);
            let n = a.len() as int;
            let k = if on_windows {
                2int
            } else {
                0
            };
            &&& a.subrange(k, k + 2) == seq![WindowAction::Show, WindowAction::Focus]
            &&& toggle_actions(false) == seq![WindowAction::Show, WindowAction::Focus]
            &&& on_windows ==> n == 5 && a[0] is ListInTaskbar && a[1] is KeepOnTop && a[4]
                == WindowAction::FocusAfter(50)
            &&& !on_windows ==> n == 2
        }),
{
    let a = recovery_actions(false, on_windows);
    let k = if on_windows {
        2int
    } else {
        0
    };
    assert(a.subrange(k, k + 2) =~= seq![WindowAction::Show, WindowAction::Focus]);
}

/// The circle behind a window's entry is filled exactly where the window is visible, and
/// nothing else of the menu depends on it.
pub proof fn law_menu_shows_visibility(control_visible: bool, overlay_visible: bool)
    ensures
        ({
            let m = menu(control_visible, overlay_visible);
            &&& m.len() == 3
            &&& m[0].text.drop_last() == "控制面板 "@
            &&& m[0].text.last() == if control_visible {
                '●'
            } else {
                '○'
            }
            &&& m[1].text.drop_last() == "悬浮窗 "@
            &&& m[1].text.last() == if overlay_visible {
                '●'
            } else {
                '○'
            }
            &&& m[2].text == "退出"@
        }),
{
    reveal_strlit("控制面板 ●");
    reveal_strlit("控制面板 ○");
    reveal_strlit("控制面板 ");
    reveal_strlit("悬浮窗 ●");
    reveal_strlit("悬浮窗 ○");
    reveal_strlit("悬浮窗 ");
    let m = menu(control_visible, overlay_visible);
    assert(m[0].text.drop_last() =~= "控制面板 "@);
    assert(m[1].text.drop_last() =~= "悬浮窗 "@);
}

/// Only what stands in the menu does something.
pub proof fn law_unknown_entries_do_nothing(id: Seq<char>)
    requires
        forall|i: int| 0 <= i < 3 ==> id != (#[trigger] menu(true, true)[i]).id,
    ensures
        command_of(id) == MenuCommand::Ignore,
{
    assert(id != menu(true, true)[0].id);
    assert(id != menu(true, true)[1].id);
    assert(id != menu(true, true)[2].id);
}

/// Nothing of an entry is left out of its view.
pub proof fn law_entry_view_is_whole(e: MenuEntry)
    ensures
        e@.id == e.id@ && e@.text == e.text@,
{
}

} // verus!
