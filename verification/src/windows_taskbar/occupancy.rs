//! Which stretches of the taskbar other programs occupy.

use crate::geometry::{fits, is_coordinate, max_of, min_of, Rect};
use crate::text::{
    chars_of, contains, ends_with, law_part_occurs, occurs_in, same_text, stands_at, starts_with,
};
use vstd::prelude::*;

verus! {

/// What is known of a window on the screen.
pub struct WindowInfo {
    /// Whether it is the widget itself.
    pub own: bool,
    /// Whether it is visible.
    pub visible: bool,
    /// Whether it stays above ordinary windows.
    pub topmost: bool,
    /// The name of its class, where it could be read.
    pub class: Option<String>,
    /// Its place, where it could be read.
    pub rect: Option<Rect>,
}

/// The window classes of the Windows shell and of input methods.
pub open spec fn system_classes() -> Seq<Seq<char>> {
    seq![
        "Shell_TrayWnd"@,
        "TrayNotifyWnd"@,
        "ReBarWindow32"@,
        "MSTaskSwWClass"@,
        "MSTaskListWClass"@,
        "TrayDummySearchControl"@,
        "TrayShowDesktopButtonWClass"@,
        "TrayButton"@,
        "Button"@,
        "SysPager"@,
        "ToolbarWindow32"@,
        "NotifyIconOverflowWindow"@,
        "WorkerW"@,
        "Progman"@,
        "DV2ControlHost"@,
        "Shell_SecondaryTrayWnd"@,
        "Clock"@,
        "MSCTFIME UI"@,
        "IME"@,
        "CiceroUIWndFrame"@,
        "TF_FloatLangBar_WndTitle"@,
        "TF_CiceroHiddenWnd"@,
        "TfThreadUI"@,
        "Microsoft IME"@,
        "MSTIP_DocIcon"@,
        "SogouPY"@,
        "SogouPY.1"@,
        "SogouPYCandWindow"@,
        "BaiduIMEWndClass"@,
        "BaiduPinyin"@,
        "IFLYIMEWndClass"@,
        "GooglePinyinInputMain"@,
        "QQInputMain"@,
        "SPInputMain"@,
    ]
}

/// Whether a window class belongs to the Windows shell or to an input method.
pub open spec fn is_system_class(cls: Seq<char>) -> bool {
    ||| system_classes().contains(cls)
    ||| "Windows.UI."@.is_prefix_of(cls)
    ||| "Windows.Internal."@.is_prefix_of(cls)
    ||| occurs_in(cls, "XamlIsland"@)
    ||| occurs_in(cls, "Xaml"@)
    ||| "MSCTF"@.is_prefix_of(cls)
    ||| "TF_"@.is_prefix_of(cls)
    ||| "Sogou"@.is_prefix_of(cls)
    ||| "Baidu"@.is_prefix_of(cls)
    ||| "IFLY"@.is_prefix_of(cls)
    ||| "IMEWndClass"@.is_suffix_of(cls)
    ||| "InputMain"@.is_suffix_of(cls)
    ||| "CandWindow"@.is_suffix_of(cls)
    ||| "CandidateWnd"@.is_suffix_of(cls)
}

/// The window classes of the Windows shell and of input methods, as a table.
fn system_class_table() -> (r: Vec<&'static str>)
    ensures
        r@.map_values(|s: &'static str| s@) == system_classes(),
{
    let r = vec![
        "Shell_TrayWnd",
        "TrayNotifyWnd",
        "ReBarWindow32",
        "MSTaskSwWClass",
        "MSTaskListWClass",
        "TrayDummySearchControl",
        "TrayShowDesktopButtonWClass",
        "TrayButton",
        "Button",
        "SysPager",
        "ToolbarWindow32",
        "NotifyIconOverflowWindow",
        "WorkerW",
        "Progman",
        "DV2ControlHost",
        "Shell_SecondaryTrayWnd",
        "Clock",
        "MSCTFIME UI",
        "IME",
        "CiceroUIWndFrame",
        "TF_FloatLangBar_WndTitle",
        "TF_CiceroHiddenWnd",
        "TfThreadUI",
        "Microsoft IME",
        "MSTIP_DocIcon",
        "SogouPY",
        "SogouPY.1",
        "SogouPYCandWindow",
        "BaiduIMEWndClass",
        "BaiduPinyin",
        "IFLYIMEWndClass",
        "GooglePinyinInputMain",
        "QQInputMain",
        "SPInputMain",
    ];
    assert(r@.map_values(|s: &'static str| s@) =~= system_classes());
    r
}

/// Whether a window class belongs to the Windows shell or to an input method. Their windows
/// are no obstacle: the shell's own windows span the taskbar, and the candidate windows of
/// input methods come and go near it.
pub fn is_system_window_class(cls: &str) -> (r: bool)
    ensures
        r == is_system_class(cls@),
{
    let table = system_class_table();
    let ghost classes = system_classes();
    let mut i: usize = 0;
    while i < table.len()
        invariant
            i <= table@.len(),
            table@.map_values(|s: &'static str| s@) == classes,
            classes == system_classes(),
            forall|k: int| 0 <= k < i ==> classes[k] != cls@,
        decreases table@.len() - i,
    {
        assert(classes[i as int] == table@[i as int]@);
        if same_text(cls, table[i]) {
            return true;
        }
        i += 1;
    }
    let chars = chars_of(cls);
    starts_with(&chars, "Windows.UI.") || starts_with(&chars, "Windows.Internal.") || contains(
        &chars,
        "XamlIsland",
    ) || contains(&chars, "Xaml") || starts_with(&chars, "MSCTF") || starts_with(&chars, "TF_")
        || starts_with(&chars, "Sogou") || starts_with(&chars, "Baidu") || starts_with(
        &chars,
        "IFLY",
    ) || ends_with(&chars, "IMEWndClass") || ends_with(&chars, "InputMain") || ends_with(
        &chars,
        "CandWindow",
    ) || ends_with(&chars, "CandidateWnd")
}

impl WindowInfo {
    /// Whether the window's class could be read and belongs to the shell or an input method.
    pub open spec fn is_system(&self) -> bool {
        self.class is Some && is_system_class(self.class->0@)
    }

    /// Whether the window is worth a look as one that a program put into the taskbar.
    pub open spec fn may_be_child(&self) -> bool {
        &&& !self.own
        &&& self.visible
        &&& self.class is Some
        &&& !self.is_system()
        &&& self.rect is Some
    }

    /// Whether the window is worth a look as one that floats over the taskbar.
    pub open spec fn may_be_floating(&self) -> bool {
        &&& !self.own
        &&& self.visible
        &&& self.topmost
        &&& !self.is_system()
        &&& self.rect is Some
    }
}

/// Whether a rectangle reaches into the stretch between the left end of the taskbar and the
/// notification area.
pub open spec fn reaches_stretch(r: Rect, taskbar: Rect, tray_left: int) -> bool {
    r.right > taskbar.left && r.left < tray_left
}

/// The left end of a rectangle, cut at the left end of the taskbar.
pub open spec fn cut_left(r: Rect, taskbar: Rect) -> int {
    max_of(r.left as int, taskbar.left as int)
}

/// The right end of a rectangle, cut at the notification area.
pub open spec fn cut_right(r: Rect, tray_left: int) -> int {
    min_of(r.right as int, tray_left)
}

/// What a window inside the taskbar occupies: nothing if it is smaller than 8 in either
/// direction or outside the taskbar, and otherwise its stretch before the notification area.
pub open spec fn child_region(w: WindowInfo, taskbar: Rect, tray_left: int) -> Option<(i32, i32)> {
    let r = w.rect->0;
    let (left, right) = (cut_left(r, taskbar), cut_right(r, tray_left));
    if w.may_be_child() && r.right - r.left >= 8 && r.bottom - r.top >= 8 && r.bottom > taskbar.top
        && r.top < taskbar.bottom && reaches_stretch(r, taskbar, tray_left) && left < right {
        Some((left as i32, right as i32))
    } else {
        None
    }
}

/// What a window floating over the taskbar occupies: nothing unless it lies within the height
/// of the taskbar, give or take 4, and its stretch before the notification area if that is
/// wider than 4.
pub open spec fn floating_region(w: WindowInfo, taskbar: Rect, tray_left: int) -> Option<
    (i32, i32),
> {
    let r = w.rect->0;
    let (left, right) = (cut_left(r, taskbar), cut_right(r, tray_left));
    if w.may_be_floating() && r.top >= taskbar.top - 4 && r.bottom <= taskbar.bottom + 4
        && reaches_stretch(r, taskbar, tray_left) && left + 4 < right {
        Some((left as i32, right as i32))
    } else {
        None
    }
}

/// Whether the extents that are computed for a window inside the taskbar are screen
/// coordinates.
pub open spec fn child_fits(w: WindowInfo) -> bool {
    let r = w.rect->0;
    w.may_be_child() ==> fits(r.right - r.left) && (r.right - r.left >= 8 ==> fits(
        r.bottom - r.top,
    ))
}

/// Whether the bounds that are computed for a window over the taskbar are screen coordinates.
pub open spec fn floating_fits(w: WindowInfo, taskbar: Rect, tray_left: int) -> bool {
    let r = w.rect->0;
    w.may_be_floating() ==> {
        &&& fits(taskbar.top - 4)
        &&& r.top >= taskbar.top - 4 ==> fits(taskbar.bottom + 4)
        &&& r.top >= taskbar.top - 4 && r.bottom <= taskbar.bottom + 4 && reaches_stretch(
            r,
            taskbar,
            tray_left,
        ) ==> fits(cut_left(r, taskbar) + 4)
    }
}

/// What windows inside the taskbar occupy, in the order of the windows.
pub open spec fn child_regions(ws: Seq<WindowInfo>, taskbar: Rect, tray_left: int) -> Seq<
    (i32, i32),
>
    decreases ws.len(),
{
    if ws.len() == 0 {
        seq![]
    } else {
        let before = child_regions(ws.drop_last(), taskbar, tray_left);
        match child_region(ws.last(), taskbar, tray_left) {
            Some(region) => before.push(region),
            None => before,
        }
    }
}

/// What windows floating over the taskbar occupy, in the order of the windows.
pub open spec fn floating_regions(ws: Seq<WindowInfo>, taskbar: Rect, tray_left: int) -> Seq<
    (i32, i32),
>
    decreases ws.len(),
{
    if ws.len() == 0 {
        seq![]
    } else {
        let before = floating_regions(ws.drop_last(), taskbar, tray_left);
        match floating_region(ws.last(), taskbar, tray_left) {
            Some(region) => before.push(region),
            None => before,
        }
    }
}

/// Whether every interval is a proper one between the left end of the taskbar and the
/// notification area.
pub open spec fn within_stretch(regions: Seq<(i32, i32)>, taskbar: Rect, tray_left: int) -> bool {
    forall|i: int|
        0 <= i < regions.len() ==> taskbar.left <= (#[trigger] regions[i]).0 < regions[i].1
            <= tray_left
}

/// Whether the window's class could be read and belongs to the shell or an input method.
fn has_system_class(w: &WindowInfo) -> (r: bool)
    ensures
        r == w.is_system(),
{
    match &w.class {
        Some(cls) => is_system_window_class(cls.as_str()),
        None => false,
    }
}

/// What a window inside the taskbar occupies.
pub fn taskbar_child_region(w: &WindowInfo, taskbar: &Rect, tray_left: i32) -> (r: Option<
    (i32, i32),
>)
    requires
        child_fits(*w),
    ensures
        r == child_region(*w, *taskbar, tray_left as int),
{
    if w.own || !w.visible || w.class.is_none() || has_system_class(w) {
        return None;
    }
    let r: Rect = match w.rect {
        Some(r) => r,
        None => {
            return None;
        },
    };
    if r.right - r.left < 8 || r.bottom - r.top < 8 {
        return None;
    }
    if r.bottom <= taskbar.top || r.top >= taskbar.bottom {
        return None;
    }
    if r.right <= taskbar.left || r.left >= tray_left {
        return None;
    }
    let left: i32 = if r.left < taskbar.left {
        taskbar.left
    } else {
        r.left
    };
    let right: i32 = if tray_left < r.right {
        tray_left
    } else {
        r.right
    };
    if right > left {
        Some((left, right))
    } else {
        None
    }
}

/// What a window floating over the taskbar occupies.
pub fn floating_widget_region(w: &WindowInfo, taskbar: &Rect, tray_left: i32) -> (r: Option<
    (i32, i32),
>)
    requires
        floating_fits(*w, *taskbar, tray_left as int),
    ensures
        r == floating_region(*w, *taskbar, tray_left as int),
{
    if w.own || !w.visible || !w.topmost || has_system_class(w) {
        return None;
    }
    let r: Rect = match w.rect {
        Some(r) => r,
        None => {
            return None;
        },
    };
    let contained: bool = r.top >= taskbar.top - 4 && r.bottom <= taskbar.bottom + 4;
    if !contained {
        return None;
    }
    if r.right <= taskbar.left || r.left >= tray_left {
        return None;
    }
    let left: i32 = if r.left < taskbar.left {
        taskbar.left
    } else {
        r.left
    };
    let right: i32 = if tray_left < r.right {
        tray_left
    } else {
        r.right
    };
    if right > left + 4 {
        Some((left, right))
    } else {
        None
    }
}

/// Whether the extents of all windows inside the taskbar are screen coordinates.
pub(crate) fn children_fit(ws: &Vec<WindowInfo>) -> (b: bool)
    ensures
        b == forall|i: int| 0 <= i < ws@.len() ==> child_fits(#[trigger] ws@[i]),
{
    let mut i: usize = 0;
    while i < ws.len()
        invariant
            i <= ws@.len(),
            forall|k: int| 0 <= k < i ==> child_fits(#[trigger] ws@[k]),
        decreases ws@.len() - i,
    {
        let w = &ws[i];
        if let Some(r) = &w.rect {
            let width: i64 = r.right as i64 - r.left as i64;
            let height: i64 = r.bottom as i64 - r.top as i64;
            let ok: bool = is_coordinate(width) && (width < 8 || is_coordinate(height));
            if !w.own && w.visible && w.class.is_some() && !ok && !has_system_class(w) {
                assert(!child_fits(ws@[i as int]));
                return false;
            }
        }
        i += 1;
    }
    true
}

/// Whether the bounds that are computed for windows over the taskbar are all screen
/// coordinates.
pub(crate) fn floating_fit(ws: &Vec<WindowInfo>, taskbar: &Rect, tray_left: i32) -> (b: bool)
    ensures
        b == forall|i: int|
            0 <= i < ws@.len() ==> floating_fits(#[trigger] ws@[i], *taskbar, tray_left as int),
{
    let mut i: usize = 0;
    while i < ws.len()
        invariant
            i <= ws@.len(),
            forall|k: int|
                0 <= k < i ==> floating_fits(#[trigger] ws@[k], *taskbar, tray_left as int),
        decreases ws@.len() - i,
    {
        let w = &ws[i];
        if let Some(r) = &w.rect {
            let above: i64 = taskbar.top as i64 - 4;
            let below: i64 = taskbar.bottom as i64 + 4;
            let left: i64 = if r.left < taskbar.left {
                taskbar.left as i64
            } else {
                r.left as i64
            };
            let inside: bool = r.top as i64 >= above && r.bottom as i64 <= below && r.right
                > taskbar.left && r.left < tray_left;
            let ok: bool = is_coordinate(above) && ((r.top as i64) < above || is_coordinate(below))
                && (!inside || is_coordinate(left + 4));
            if !w.own && w.visible && w.topmost && !ok && !has_system_class(w) {
                assert(!floating_fits(ws@[i as int], *taskbar, tray_left as int));
                return false;
            }
        }
        i += 1;
    }
    true
}

/// What the windows that programs put into the taskbar occupy.
pub fn collect_taskbar_children(ws: &Vec<WindowInfo>, taskbar: &Rect, tray_left: i32) -> (r: Vec<
    (i32, i32),
>)
    requires
        forall|i: int| 0 <= i < ws@.len() ==> child_fits(#[trigger] ws@[i]),
    ensures
        r@ == child_regions(ws@, *taskbar, tray_left as int),
        within_stretch(r@, *taskbar, tray_left as int),
{
    let mut r: Vec<(i32, i32)> = Vec::new();
    let mut i: usize = 0;
    while i < ws.len()
        invariant
            i <= ws@.len(),
            forall|k: int| 0 <= k < ws@.len() ==> child_fits(#[trigger] ws@[k]),
            r@ == child_regions(ws@.take(i as int), *taskbar, tray_left as int),
            within_stretch(r@, *taskbar, tray_left as int),
        decreases ws@.len() - i,
    {
        assert(ws@.take(i + 1).drop_last() =~= ws@.take(i as int));
        if let Some(region) = taskbar_child_region(&ws[i], taskbar, tray_left) {
            r.push(region);
        }
        i += 1;
    }
    assert(ws@.take(i as int) =~= ws@);
    r
}

/// What the windows that float over the taskbar occupy.
pub fn collect_floating_widgets(ws: &Vec<WindowInfo>, taskbar: &Rect, tray_left: i32) -> (r: Vec<
    (i32, i32),
>)
    requires
        forall|i: int|
            0 <= i < ws@.len() ==> floating_fits(#[trigger] ws@[i], *taskbar, tray_left as int),
    ensures
        r@ == floating_regions(ws@, *taskbar, tray_left as int),
        within_stretch(r@, *taskbar, tray_left as int),
{
    let mut r: Vec<(i32, i32)> = Vec::new();
    let mut i: usize = 0;
    while i < ws.len()
        invariant
            i <= ws@.len(),
            forall|k: int|
                0 <= k < ws@.len() ==> floating_fits(
                    #[trigger] ws@[k],
                    *taskbar,
                    tray_left as int,
                ),
            r@ == floating_regions(ws@.take(i as int), *taskbar, tray_left as int),
            within_stretch(r@, *taskbar, tray_left as int),
        decreases ws@.len() - i,
    {
        assert(ws@.take(i + 1).drop_last() =~= ws@.take(i as int));
        if let Some(region) = floating_widget_region(&ws[i], taskbar, tray_left) {
            r.push(region);
        }
        i += 1;
    }
    assert(ws@.take(i as int) =~= ws@);
    r
}

/// Everything that is occupied: by windows inside the taskbar first, then by floating ones.
pub fn occupied_regions(
    children: &Vec<WindowInfo>,
    floating: &Vec<WindowInfo>,
    taskbar: &Rect,
    tray_left: i32,
) -> (r: Vec<(i32, i32)>)
    requires
        forall|i: int| 0 <= i < children@.len() ==> child_fits(#[trigger] children@[i]),
        forall|i: int|
            0 <= i < floating@.len() ==> floating_fits(
                #[trigger] floating@[i],
                *taskbar,
                tray_left as int,
            ),
    ensures
        r@ == child_regions(children@, *taskbar, tray_left as int) + floating_regions(
            floating@,
            *taskbar,
            tray_left as int,
        ),
        within_stretch(r@, *taskbar, tray_left as int),
{
    let mut r = collect_taskbar_children(children, taskbar, tray_left);
    let mut more = collect_floating_widgets(floating, taskbar, tray_left);
    r.append(&mut more);
    r
}

/// The widget itself, hidden windows, and windows of the shell or of an input method occupy
/// nothing.
pub proof fn law_system_windows_occupy_nothing(w: WindowInfo, taskbar: Rect, tray_left: int)
    requires
        w.own || !w.visible || w.is_system(),
    ensures
        child_region(w, taskbar, tray_left) is None,
        floating_region(w, taskbar, tray_left) is None,
{
}

/// All that is occupied is a proper stretch between the left end of the taskbar and the
/// notification area.
pub proof fn law_regions_lie_in_stretch(
    children: Seq<WindowInfo>,
    floating: Seq<WindowInfo>,
    taskbar: Rect,
    tray_left: int,
)
    requires
        fits(tray_left),
    ensures
        within_stretch(
            child_regions(children, taskbar, tray_left) + floating_regions(
                floating,
                taskbar,
                tray_left,
            ),
            taskbar,
            tray_left,
        ),
{
    lemma_child_regions(children, taskbar, tray_left);
    lemma_floating_regions(floating, taskbar, tray_left);
}

/// What windows inside the taskbar occupy lies before the notification area.
proof fn lemma_child_regions(ws: Seq<WindowInfo>, taskbar: Rect, tray_left: int)
    requires
        fits(tray_left),
    ensures
        within_stretch(child_regions(ws, taskbar, tray_left), taskbar, tray_left),
    decreases ws.len(),
{
    if ws.len() > 0 {
        lemma_child_regions(ws.drop_last(), taskbar, tray_left);
    }
}

/// What windows floating over the taskbar occupy lies before the notification area.
proof fn lemma_floating_regions(ws: Seq<WindowInfo>, taskbar: Rect, tray_left: int)
    requires
        fits(tray_left),
    ensures
        within_stretch(floating_regions(ws, taskbar, tray_left), taskbar, tray_left),
    decreases ws.len(),
{
    if ws.len() > 0 {
        lemma_floating_regions(ws.drop_last(), taskbar, tray_left);
    }
}

/// Whether a window is a program's own inside the taskbar: visible, not the widget, of a class
/// that could be read and is not the system's, at least 8 by 8, and on the taskbar before the
/// notification area.
pub open spec fn occupies_as_child(w: WindowInfo, taskbar: Rect, tray_left: int) -> bool {
    &&& w.visible && !w.own
    &&& w.class matches Some(cls) && !is_system_class(cls@)
    &&& w.rect matches Some(r) && {
        &&& r.left + 8 <= r.right && r.top + 8 <= r.bottom
        &&& taskbar.top < r.bottom && r.top < taskbar.bottom
        &&& taskbar.left < r.right && r.left < tray_left && taskbar.left < tray_left
    }
}

/// Whether a window floats over the taskbar: visible, not the widget, above others, not of a
/// class of the system, within 4 of the height of the taskbar, and with more than 4 of its
/// width before the notification area.
pub open spec fn occupies_as_floating(w: WindowInfo, taskbar: Rect, tray_left: int) -> bool {
    &&& w.visible && !w.own && w.topmost
    &&& w.class matches Some(cls) ==> !is_system_class(cls@)
    &&& w.rect matches Some(r) && {
        &&& taskbar.top <= r.top + 4 && r.bottom <= taskbar.bottom + 4
        &&& r.left + 4 < r.right && r.left + 4 < tray_left
        &&& taskbar.left + 4 < r.right && taskbar.left + 4 < tray_left
    }
}

/// Whether an interval is the part of a rectangle between the left end of the taskbar and the
/// notification area.
pub open spec fn is_cut_of(region: (i32, i32), r: Rect, taskbar: Rect, tray_left: int) -> bool {
    &&& region.0 >= r.left && region.0 >= taskbar.left
    &&& region.0 == r.left || region.0 == taskbar.left
    &&& region.1 <= r.right && region.1 <= tray_left
    &&& region.1 == r.right || region.1 == tray_left
}

/// A window inside the taskbar occupies something exactly where it is a program's own there,
/// and then its stretch before the notification area.
pub proof fn law_child_occupies_its_stretch(w: WindowInfo, taskbar: Rect, tray_left: int)
    requires
        fits(tray_left),
    ensures
        child_region(w, taskbar, tray_left) is Some <==> occupies_as_child(w, taskbar, tray_left),
        child_region(w, taskbar, tray_left) matches Some(region) ==> is_cut_of(
            region,
            w.rect->0,
            taskbar,
            tray_left,
        ),
{
}

/// A window on the screen occupies something exactly where it floats over the taskbar, and then
/// its stretch before the notification area.
pub proof fn law_floating_occupies_its_stretch(w: WindowInfo, taskbar: Rect, tray_left: int)
    requires
        fits(tray_left),
    ensures
        floating_region(w, taskbar, tray_left) is Some <==> occupies_as_floating(
            w,
            taskbar,
            tray_left,
        ),
        floating_region(w, taskbar, tray_left) matches Some(region) ==> is_cut_of(
            region,
            w.rect->0,
            taskbar,
            tray_left,
        ),
{
}

/// Whether the part of a rectangle before the notification area is among some intervals.
pub open spec fn has_cut_of(
    regions: Seq<(i32, i32)>,
    r: Rect,
    taskbar: Rect,
    tray_left: int,
) -> bool {
    exists|k: int|
        0 <= k < regions.len() && is_cut_of(#[trigger] regions[k], r, taskbar, tray_left)
}

/// Whether an interval is the stretch of some window that is a program's own in the taskbar.
pub open spec fn is_of_child(
    ws: Seq<WindowInfo>,
    region: (i32, i32),
    taskbar: Rect,
    tray_left: int,
) -> bool {
    exists|i: int|
        0 <= i < ws.len() && occupies_as_child(#[trigger] ws[i], taskbar, tray_left) && is_cut_of(
            region,
            ws[i].rect->0,
            taskbar,
            tray_left,
        )
}

/// Whether an interval is the stretch of some window that floats over the taskbar.
pub open spec fn is_of_floating(
    ws: Seq<WindowInfo>,
    region: (i32, i32),
    taskbar: Rect,
    tray_left: int,
) -> bool {
    exists|i: int|
        0 <= i < ws.len() && occupies_as_floating(#[trigger] ws[i], taskbar, tray_left)
            && is_cut_of(region, ws[i].rect->0, taskbar, tray_left)
}

/// Every window inside the taskbar that is a program's own is among what is occupied, with its
/// stretch; and every occupied stretch is that of such a window. There are no more stretches
/// than windows.
pub proof fn law_every_child_counts(ws: Seq<WindowInfo>, taskbar: Rect, tray_left: int)
    requires
        fits(tray_left),
    ensures
        forall|i: int|
            0 <= i < ws.len() && occupies_as_child(#[trigger] ws[i], taskbar, tray_left)
                ==> has_cut_of(child_regions(ws, taskbar, tray_left), ws[i].rect->0, taskbar, tray_left),
        forall|k: int|
            0 <= k < child_regions(ws, taskbar, tray_left).len() ==> is_of_child(
                ws,
                #[trigger] child_regions(ws, taskbar, tray_left)[k],
                taskbar,
                tray_left,
            ),
        child_regions(ws, taskbar, tray_left).len() <= ws.len(),
    decreases ws.len(),
{
    if ws.len() > 0 {
        let all = child_regions(ws, taskbar, tray_left);
        let rest = ws.drop_last();
        let n = ws.len() - 1;
        let before = child_regions(rest, taskbar, tray_left);
        law_every_child_counts(rest, taskbar, tray_left);
        law_child_occupies_its_stretch(ws[n], taskbar, tray_left);
        assert forall|i: int|
            0 <= i < ws.len() && occupies_as_child(
                #[trigger] ws[i],
                taskbar,
                tray_left,
            ) implies has_cut_of(all, ws[i].rect->0, taskbar, tray_left) by {
            if i < n {
                assert(rest[i] == ws[i]);
                let k = choose|k: int|
                    0 <= k < before.len() && is_cut_of(
                        #[trigger] before[k],
                        ws[i].rect->0,
                        taskbar,
                        tray_left,
                    );
                assert(all[k] == before[k]);
            } else {
                assert(is_cut_of(all[before.len() as int], ws[i].rect->0, taskbar, tray_left));
            }
        }
        assert forall|k: int| 0 <= k < all.len() implies is_of_child(
            ws,
            #[trigger] all[k],
            taskbar,
            tray_left,
        ) by {
            if k < before.len() {
                assert(all[k] == before[k]);
                assert(is_of_child(rest, before[k], taskbar, tray_left));
                let i = choose|i: int|
                    0 <= i < rest.len() && occupies_as_child(#[trigger] rest[i], taskbar, tray_left)
                        && is_cut_of(before[k], rest[i].rect->0, taskbar, tray_left);
                assert(ws[i] == rest[i]);
            } else {
                assert(occupies_as_child(ws[n], taskbar, tray_left));
            }
        }
    }
}

/// Every window that floats over the taskbar is among what is occupied, with its stretch; and
/// every occupied stretch is that of such a window. There are no more stretches than windows.
pub proof fn law_every_floating_window_counts(ws: Seq<WindowInfo>, taskbar: Rect, tray_left: int)
    requires
        fits(tray_left),
    ensures
        forall|i: int|
            0 <= i < ws.len() && occupies_as_floating(#[trigger] ws[i], taskbar, tray_left)
                ==> has_cut_of(floating_regions(ws, taskbar, tray_left), ws[i].rect->0, taskbar, tray_left),
        forall|k: int|
            0 <= k < floating_regions(ws, taskbar, tray_left).len() ==> is_of_floating(
                ws,
                #[trigger] floating_regions(ws, taskbar, tray_left)[k],
                taskbar,
                tray_left,
            ),
        floating_regions(ws, taskbar, tray_left).len() <= ws.len(),
    decreases ws.len(),
{
    if ws.len() > 0 {
        let all = floating_regions(ws, taskbar, tray_left);
        let rest = ws.drop_last();
        let n = ws.len() - 1;
        let before = floating_regions(rest, taskbar, tray_left);
        law_every_floating_window_counts(rest, taskbar, tray_left);
        law_floating_occupies_its_stretch(ws[n], taskbar, tray_left);
        assert forall|i: int|
            0 <= i < ws.len() && occupies_as_floating(
                #[trigger] ws[i],
                taskbar,
                tray_left,
            ) implies has_cut_of(all, ws[i].rect->0, taskbar, tray_left) by {
            if i < n {
                assert(rest[i] == ws[i]);
                let k = choose|k: int|
                    0 <= k < before.len() && is_cut_of(
                        #[trigger] before[k],
                        ws[i].rect->0,
                        taskbar,
                        tray_left,
                    );
                assert(all[k] == before[k]);
            } else {
                assert(is_cut_of(all[before.len() as int], ws[i].rect->0, taskbar, tray_left));
            }
        }
        assert forall|k: int| 0 <= k < all.len() implies is_of_floating(
            ws,
            #[trigger] all[k],
            taskbar,
            tray_left,
        ) by {
            if k < before.len() {
                assert(all[k] == before[k]);
                assert(is_of_floating(rest, before[k], taskbar, tray_left));
                let i = choose|i: int|
                    0 <= i < rest.len() && occupies_as_floating(#[trigger] rest[i], taskbar, tray_left)
                        && is_cut_of(before[k], rest[i].rect->0, taskbar, tray_left);
                assert(ws[i] == rest[i]);
            } else {
                assert(occupies_as_floating(ws[n], taskbar, tray_left));
            }
        }
    }
}

/// What some windows and then others occupy is what the first occupy and then what the others
/// do; one window occupies its own stretch or nothing.
pub proof fn law_regions_add_up(
    a: Seq<WindowInfo>,
    b: Seq<WindowInfo>,
    w: WindowInfo,
    taskbar: Rect,
    tray_left: int,
)
    ensures
        child_regions(a + b, taskbar, tray_left) == child_regions(a, taskbar, tray_left)
            + child_regions(b, taskbar, tray_left),
        floating_regions(a + b, taskbar, tray_left) == floating_regions(a, taskbar, tray_left)
            + floating_regions(b, taskbar, tray_left),
        child_regions(seq![w], taskbar, tray_left) == match child_region(w, taskbar, tray_left) {
            Some(region) => seq![region],
            None => seq![],
        },
        floating_regions(seq![w], taskbar, tray_left) == match floating_region(
            w,
            taskbar,
            tray_left,
        ) {
            Some(region) => seq![region],
            None => seq![],
        },
    decreases b.len(),
{
    reveal_with_fuel(child_regions, 2);
    reveal_with_fuel(floating_regions, 2);
    assert(seq![w].drop_last() =~= seq![]);
    if b.len() == 0 {
        assert(a + b =~= a);
    } else {
        assert((a + b).drop_last() =~= a + b.drop_last());
        law_regions_add_up(a, b.drop_last(), w, taskbar, tray_left);
        assert(child_regions(a + b, taskbar, tray_left) =~= child_regions(a, taskbar, tray_left)
            + child_regions(b, taskbar, tray_left));
        assert(floating_regions(a + b, taskbar, tray_left) =~= floating_regions(
            a,
            taskbar,
            tray_left,
        ) + floating_regions(b, taskbar, tray_left));
    }
}

/// Every class of these families belongs to the system.
pub proof fn law_families_belong_to_the_system(a: Seq<char>, b: Seq<char>)
    ensures
        is_system_class("Windows.UI."@ + b),
        is_system_class("Windows.Internal."@ + b),
        is_system_class(a + "Xaml"@ + b),
        is_system_class("MSCTF"@ + b),
        is_system_class("TF_"@ + b),
        is_system_class("Sogou"@ + b),
        is_system_class("Baidu"@ + b),
        is_system_class("IFLY"@ + b),
        is_system_class(a + "IMEWndClass"@),
        is_system_class(a + "InputMain"@),
        is_system_class(a + "CandWindow"@),
        is_system_class(a + "CandidateWnd"@),
{
    law_part_occurs(a, "Xaml"@, b);
    lemma_ends("Windows.UI."@, b);
    lemma_ends("Windows.Internal."@, b);
    lemma_ends("MSCTF"@, b);
    lemma_ends("TF_"@, b);
    lemma_ends("Sogou"@, b);
    lemma_ends("Baidu"@, b);
    lemma_ends("IFLY"@, b);
    lemma_ends(a, "IMEWndClass"@);
    lemma_ends(a, "InputMain"@);
    lemma_ends(a, "CandWindow"@);
    lemma_ends(a, "CandidateWnd"@);
}

/// Two texts are the beginning and the end of what they are put together to.
proof fn lemma_ends(a: Seq<char>, b: Seq<char>)
    ensures
        a.is_prefix_of(a + b),
        b.is_suffix_of(a + b),
{
    assert((a + b).subrange(0, a.len() as int) =~= a);
    assert((a + b).subrange((a + b).len() - b.len(), (a + b).len() as int) =~= b);
}

/// Every class with one of these names belongs to the system.
pub proof fn law_names_belong_to_the_system(cls: Seq<char>)
    requires
        cls == "Shell_TrayWnd"@ || cls == "TrayNotifyWnd"@ || cls == "ReBarWindow32"@ || cls
            == "MSTaskSwWClass"@ || cls == "MSTaskListWClass"@ || cls == "TrayDummySearchControl"@
            || cls == "TrayShowDesktopButtonWClass"@ || cls == "TrayButton"@ || cls == "Button"@
            || cls == "SysPager"@ || cls == "ToolbarWindow32"@ || cls
            == "NotifyIconOverflowWindow"@ || cls == "WorkerW"@ || cls == "Progman"@ || cls
            == "DV2ControlHost"@ || cls == "Shell_SecondaryTrayWnd"@ || cls == "Clock"@ || cls
            == "MSCTFIME UI"@ || cls == "IME"@ || cls == "CiceroUIWndFrame"@ || cls
            == "TF_FloatLangBar_WndTitle"@ || cls == "TF_CiceroHiddenWnd"@ || cls == "TfThreadUI"@
            || cls == "Microsoft IME"@ || cls == "MSTIP_DocIcon"@ || cls == "SogouPY"@ || cls
            == "SogouPY.1"@ || cls == "SogouPYCandWindow"@ || cls == "BaiduIMEWndClass"@ || cls
            == "BaiduPinyin"@ || cls == "IFLYIMEWndClass"@ || cls == "GooglePinyinInputMain"@
            || cls == "QQInputMain"@ || cls == "SPInputMain"@,
    ensures
        is_system_class(cls),
{
    let names = system_classes();
    assert(names.len() == 34);
    assert(names.contains(cls)) by {
        assert(names[0] == "Shell_TrayWnd"@ && names[1] == "TrayNotifyWnd"@ && names[2]
            == "ReBarWindow32"@ && names[3] == "MSTaskSwWClass"@ && names[4]
            == "MSTaskListWClass"@ && names[5] == "TrayDummySearchControl"@ && names[6]
            == "TrayShowDesktopButtonWClass"@ && names[7] == "TrayButton"@ && names[8]
            == "Button"@ && names[9] == "SysPager"@ && names[10] == "ToolbarWindow32"@ && names[11]
            == "NotifyIconOverflowWindow"@ && names[12] == "WorkerW"@ && names[13] == "Progman"@
            && names[14] == "DV2ControlHost"@ && names[15] == "Shell_SecondaryTrayWnd"@ && names[16]
            == "Clock"@ && names[17] == "MSCTFIME UI"@ && names[18] == "IME"@ && names[19]
            == "CiceroUIWndFrame"@ && names[20] == "TF_FloatLangBar_WndTitle"@ && names[21]
            == "TF_CiceroHiddenWnd"@ && names[22] == "TfThreadUI"@ && names[23]
            == "Microsoft IME"@ && names[24] == "MSTIP_DocIcon"@ && names[25] == "SogouPY"@
            && names[26] == "SogouPY.1"@ && names[27] == "SogouPYCandWindow"@ && names[28]
            == "BaiduIMEWndClass"@ && names[29] == "BaiduPinyin"@ && names[30]
            == "IFLYIMEWndClass"@ && names[31] == "GooglePinyinInputMain"@ && names[32]
            == "QQInputMain"@ && names[33] == "SPInputMain"@);
    }
}

/// A class that is of none of the families and has none of the names is that of a program.
pub proof fn law_other_classes_are_programs(cls: Seq<char>)
    requires
        !"Windows.UI."@.is_prefix_of(cls),
        !"Windows.Internal."@.is_prefix_of(cls),
        !"MSCTF"@.is_prefix_of(cls),
        !"TF_"@.is_prefix_of(cls),
        !"Sogou"@.is_prefix_of(cls),
        !"Baidu"@.is_prefix_of(cls),
        !"IFLY"@.is_prefix_of(cls),
        !occurs_in(cls, "Xaml"@),
        !"IMEWndClass"@.is_suffix_of(cls),
        !"InputMain"@.is_suffix_of(cls),
        !"CandWindow"@.is_suffix_of(cls),
        !"CandidateWnd"@.is_suffix_of(cls),
        !(cls == "Shell_TrayWnd"@ || cls == "TrayNotifyWnd"@ || cls == "ReBarWindow32"@ || cls
            == "MSTaskSwWClass"@ || cls == "MSTaskListWClass"@ || cls == "TrayDummySearchControl"@
            || cls == "TrayShowDesktopButtonWClass"@ || cls == "TrayButton"@ || cls == "Button"@
            || cls == "SysPager"@ || cls == "ToolbarWindow32"@ || cls
            == "NotifyIconOverflowWindow"@ || cls == "WorkerW"@ || cls == "Progman"@ || cls
            == "DV2ControlHost"@ || cls == "Shell_SecondaryTrayWnd"@ || cls == "Clock"@ || cls
            == "MSCTFIME UI"@ || cls == "IME"@ || cls == "CiceroUIWndFrame"@ || cls
            == "TF_FloatLangBar_WndTitle"@ || cls == "TF_CiceroHiddenWnd"@ || cls == "TfThreadUI"@
            || cls == "Microsoft IME"@ || cls == "MSTIP_DocIcon"@ || cls == "SogouPY"@ || cls
            == "SogouPY.1"@ || cls == "SogouPYCandWindow"@ || cls == "BaiduIMEWndClass"@ || cls
            == "BaiduPinyin"@ || cls == "IFLYIMEWndClass"@ || cls == "GooglePinyinInputMain"@
            || cls == "QQInputMain"@ || cls == "SPInputMain"@),
    ensures
        !is_system_class(cls),
{
    reveal_strlit("Xaml");
    reveal_strlit("XamlIsland");
    if occurs_in(cls, "XamlIsland"@) {
        let at = choose|at: int| stands_at(cls, "XamlIsland"@, at);
        assert(cls.subrange(at, at + 4) =~= cls.subrange(at, at + 10).subrange(0, 4));
        assert("XamlIsland"@.subrange(0, 4) =~= "Xaml"@);
        assert(stands_at(cls, "Xaml"@, at));
    }
    if system_classes().contains(cls) {
        let k = choose|k: int| 0 <= k < system_classes().len() && system_classes()[k] == cls;
        assert(system_classes().len() == 34);
    }
}

/// What a window occupies can be told among coordinates within a thousand millions.
pub proof fn law_ordinary_windows_fit(w: WindowInfo, taskbar: Rect, tray_left: int)
    requires
        w.rect matches Some(r) ==> {
            &&& -1_000_000_000 <= r.left <= 1_000_000_000
            &&& -1_000_000_000 <= r.top <= 1_000_000_000
            &&& -1_000_000_000 <= r.right <= 1_000_000_000
            &&& -1_000_000_000 <= r.bottom <= 1_000_000_000
        },
        -1_000_000_000 <= taskbar.left <= 1_000_000_000,
        -1_000_000_000 <= taskbar.top <= 1_000_000_000,
        -1_000_000_000 <= taskbar.bottom <= 1_000_000_000,
    ensures
        child_fits(w),
        floating_fits(w, taskbar, tray_left),
{
}

} // verus!
