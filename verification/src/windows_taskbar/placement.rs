//! Where the widget stands: right before the notification area, clear of other programs.

use crate::geometry::{fits, is_coordinate, max_of, quotient, Point, Rect};
use crate::windows_taskbar::occupancy::{
    child_fits, child_regions, children_fit, floating_fit, floating_fits, floating_regions,
    law_regions_lie_in_stretch, occupied_regions, within_stretch, WindowInfo,
};
use vstd::prelude::*;

verus! {

/// The width of the widget.
pub const WIDGET_WIDTH: i32 = 80;

/// The height of the widget.
pub const WIDGET_HEIGHT: i32 = 40;

/// Stands for a coordinate that has not been recorded yet.
pub const UNSET: i32 = i32::MIN;

/// Whether something of the given width at `x` overlaps none of the occupied intervals.
pub open spec fn is_free(x: int, width: int, occupied: Seq<(i32, i32)>) -> bool {
    forall|i: int|
        0 <= i < occupied.len() ==> x + width <= (#[trigger] occupied[i]).0 || x >= occupied[i].1
}

/// The position that keeps a gap of 4 to the left of an occupied interval.
pub open spec fn beside(region: (i32, i32), width: int) -> int {
    region.0 - width - 4
}

/// Whether `x` is a position to try: the start, or beside an occupied interval.
pub open spec fn is_candidate(x: int, start_x: int, width: int, occupied: Seq<(i32, i32)>) -> bool {
    x == start_x || exists|i: int|
        0 <= i < occupied.len() && x == beside(#[trigger] occupied[i], width)
}

/// Whether `x` is a free candidate that is not left of `min_x`.
pub open spec fn is_eligible(
    x: int,
    start_x: int,
    width: int,
    occupied: Seq<(i32, i32)>,
    min_x: int,
) -> bool {
    is_candidate(x, start_x, width, occupied) && x >= min_x && is_free(x, width, occupied)
}

/// Whether `x` is the position to take: the rightmost eligible one, and `min_x` where none is.
pub open spec fn is_chosen(
    x: int,
    start_x: int,
    width: int,
    occupied: Seq<(i32, i32)>,
    min_x: int,
) -> bool {
    if exists|e: int| is_eligible(e, start_x, width, occupied, min_x) {
        &&& is_eligible(x, start_x, width, occupied, min_x)
        &&& forall|e: int| is_eligible(e, start_x, width, occupied, min_x) ==> e <= x
    } else {
        x == min_x
    }
}

/// The position to take.
pub open spec fn free_x(start_x: int, width: int, occupied: Seq<(i32, i32)>, min_x: int) -> int {
    choose|x: int| is_chosen(x, start_x, width, occupied, min_x)
}

/// Whether the positions to try, and their right ends, are screen coordinates.
pub open spec fn candidates_fit(
    start_x: int,
    width: int,
    occupied: Seq<(i32, i32)>,
    min_x: int,
) -> bool {
    &&& start_x >= min_x ==> fits(start_x + width)
    &&& forall|i: int|
        0 <= i < occupied.len() ==> {
            let c = beside(#[trigger] occupied[i], width);
            fits(occupied[i].0 - width) && fits(c) && (c >= min_x ==> fits(c + width))
        }
}

/// Whether something of the given width at `x` overlaps none of the occupied intervals.
fn check_free(x: i32, width: i32, occupied: &[(i32, i32)]) -> (r: bool)
    requires
        fits(x + width),
    ensures
        r == is_free(x as int, width as int, occupied@),
{
    let x_end: i32 = x + width;
    let mut i: usize = 0;
    while i < occupied.len()
        invariant
            i <= occupied@.len(),
            x_end == x + width,
            forall|k: int|
                0 <= k < i ==> x + width <= (#[trigger] occupied@[k]).0 || x >= occupied@[k].1,
        decreases occupied@.len() - i,
    {
        let (l, r) = occupied[i];
        if !(x_end <= l || x >= r) {
            assert(occupied@[i as int] == (l, r));
            return false;
        }
        i += 1;
    }
    true
}

/// Looks for a free place for something of the given width, from the right to the left.
///
/// The candidates are `start_x` and the positions beside the occupied intervals. The
/// rightmost candidate that is free and not left of `min_x` is taken, and `min_x` itself
/// where there is none.
pub fn find_free_x(start_x: i32, width: i32, occupied: &[(i32, i32)], min_x: i32) -> (r: i32)
    requires
        candidates_fit(start_x as int, width as int, occupied@, min_x as int),
    ensures
        is_chosen(r as int, start_x as int, width as int, occupied@, min_x as int),
        r == free_x(start_x as int, width as int, occupied@, min_x as int),
{
    let mut best: Option<i32> = None;
    if start_x >= min_x && check_free(start_x, width, occupied) {
        best = Some(start_x);
    }
    let mut i: usize = 0;
    while i < occupied.len()
        invariant
            i <= occupied@.len(),
            candidates_fit(start_x as int, width as int, occupied@, min_x as int),
            best matches Some(b) ==> is_eligible(
                b as int,
                start_x as int,
                width as int,
                occupied@,
                min_x as int,
            ),
            forall|e: int|
                is_eligible(e, start_x as int, width as int, occupied@, min_x as int) && (e
                    == start_x || exists|k: int|
                    0 <= k < i && e == beside(#[trigger] occupied@[k], width as int)) ==> best
                    is Some && e <= best->0,
        decreases occupied@.len() - i,
    {
        let (l, _) = occupied[i];
        assert(occupied@[i as int].0 == l);
        let c: i32 = l - width - 4;
        let better: bool = match best {
            Some(b) => c > b,
            None => true,
        };
        if c >= min_x && better && check_free(c, width, occupied) {
            best = Some(c);
        }
        i += 1;
    }
    let r: i32 = match best {
        Some(b) => b,
        None => min_x,
    };
    proof {
        lemma_chosen_is_unique(start_x as int, width as int, occupied@, min_x as int, r as int);
    }
    r
}

/// At most one position is the one to take.
proof fn lemma_chosen_is_unique(
    start_x: int,
    width: int,
    occupied: Seq<(i32, i32)>,
    min_x: int,
    x: int,
)
    requires
        is_chosen(x, start_x, width, occupied, min_x),
    ensures
        free_x(start_x, width, occupied, min_x) == x,
{
}

/// What the widget remembers of its positions.
#[derive(Debug, Clone, Copy, PartialEq, Eq, Structural)]
pub struct WidgetPosition {
    /// The last position that was found acceptable.
    pub last_good: Point,
    /// The last position that the window was moved to.
    pub last_set: Point,
    /// The left edge of the notification area when it was last looked at.
    pub prev_tray_left: i32,
}

/// The left bound of the widget: a third of the taskbar is left to the task buttons.
pub open spec fn leftmost_x(taskbar: Rect) -> int {
    taskbar.left + quotient(taskbar.right - taskbar.left, 3)
}

/// Where the search for a place starts: 4 before the notification area.
pub open spec fn first_x(tray_left: int) -> int {
    tray_left - WIDGET_WIDTH - 4
}

/// The horizontal position of the widget.
pub open spec fn target_x(taskbar: Rect, tray_left: int, occupied: Seq<(i32, i32)>) -> int {
    free_x(first_x(tray_left), WIDGET_WIDTH as int, occupied, leftmost_x(taskbar))
}

/// The vertical position of the widget: in the middle of the taskbar.
pub open spec fn target_y(taskbar: Rect) -> int {
    taskbar.top + max_of(taskbar.bottom - taskbar.top - WIDGET_HEIGHT, 0) / 2
}

/// Whether the widget may stand at `(x, y)`: the notification area begins inside the
/// taskbar, the widget ends before it, and it lies within the height of the taskbar, give or
/// take a few pixels.
pub open spec fn acceptable(taskbar: Rect, tray_left: int, x: int, y: int) -> bool {
    &&& taskbar.left + 50 < tray_left < taskbar.right
    &&& taskbar.left <= x
    &&& x + WIDGET_WIDTH <= tray_left + 10
    &&& taskbar.top - 5 <= y
    &&& y + WIDGET_HEIGHT <= taskbar.bottom + 5
}

/// Whether every coordinate that the placement computes is a screen coordinate.
pub open spec fn placement_fits(taskbar: Rect, tray_left: int, occupied: Seq<(i32, i32)>) -> bool {
    let x = target_x(taskbar, tray_left, occupied);
    let y = target_y(taskbar);
    &&& fits(taskbar.bottom - taskbar.top)
    &&& fits(taskbar.bottom - taskbar.top - WIDGET_HEIGHT)
    &&& fits(taskbar.right - taskbar.left)
    &&& fits(leftmost_x(taskbar))
    &&& fits(tray_left - WIDGET_WIDTH)
    &&& fits(first_x(tray_left))
    &&& candidates_fit(first_x(tray_left), WIDGET_WIDTH as int, occupied, leftmost_x(taskbar))
    &&& fits(y)
    &&& fits(taskbar.left + 50)
    &&& taskbar.left <= x ==> fits(x + WIDGET_WIDTH) && fits(tray_left + 10)
    &&& fits(taskbar.top - 5)
    &&& taskbar.top - 5 <= y ==> fits(y + WIDGET_HEIGHT) && fits(taskbar.bottom + 5)
}

/// What placing the widget does: the positions remembered afterwards, and where the window
/// is to be moved, if anywhere.
///
/// An acceptable position is taken and remembered. Where the position is not acceptable, the
/// last acceptable one is taken; where there is none yet, nothing happens. The window is
/// moved only if it is not where it should be already.
pub open spec fn place_step(
    s: WidgetPosition,
    taskbar: Rect,
    tray_left: int,
    occupied: Seq<(i32, i32)>,
) -> (WidgetPosition, Option<Point>) {
    let x = target_x(taskbar, tray_left, occupied);
    let y = target_y(taskbar);
    let ok = acceptable(taskbar, tray_left, x, y);
    let to = if ok {
        Point { x: x as i32, y: y as i32 }
    } else {
        s.last_good
    };
    if !ok && s.last_good.x == UNSET {
        (s, None)
    } else {
        (
            WidgetPosition { last_good: to, last_set: to, ..s },
            if to == s.last_set {
                None
            } else {
                Some(to)
            },
        )
    }
}

/// What a look at the notification area does: whether its left edge has just changed, and
/// what is remembered of it.
pub open spec fn look_step(s: WidgetPosition, tray_left: i32) -> (WidgetPosition, bool) {
    (
        WidgetPosition { prev_tray_left: tray_left, ..s },
        s.prev_tray_left != UNSET && s.prev_tray_left != tray_left,
    )
}

/// Where the window is to be raised again: at its place, if the taskbar came to the front.
pub open spec fn raise_position(s: WidgetPosition, taskbar_in_front: bool) -> Option<Point> {
    if taskbar_in_front && s.last_set.x != UNSET {
        Some(s.last_set)
    } else {
        None
    }
}

/// The left edge of the notification area, with an estimate where its window is not found.
pub open spec fn tray_edge(taskbar: Rect, tray: Option<Rect>) -> int {
    match tray {
        Some(r) => r.left as int,
        None => taskbar.right - 180,
    }
}

/// The left edge of the notification area, as a screen coordinate.
pub fn tray_left_edge(taskbar: &Rect, tray: Option<Rect>) -> (r: i32)
    requires
        tray is None ==> fits(taskbar.right - 180),
    ensures
        r == tray_edge(*taskbar, tray),
{
    match tray {
        Some(rect) => rect.left,
        None => taskbar.right - 180,
    }
}

/// What is seen of the taskbar and of the windows about it.
pub struct Scene {
    /// The place of the taskbar.
    pub taskbar: Rect,
    /// Whether the taskbar is the foremost window.
    pub taskbar_in_front: bool,
    /// The place of the notification area, where it could be read.
    pub tray: Option<Rect>,
    /// The windows inside the taskbar.
    pub children: Vec<WindowInfo>,
    /// The windows on the screen.
    pub floating: Vec<WindowInfo>,
}

/// What is done to the window of the widget.
#[derive(Debug, Clone, Copy, PartialEq, Eq, Structural)]
pub struct Moves {
    /// Where it is raised again first, if at all.
    pub raise: Option<Point>,
    /// Where it is moved then, if anywhere.
    pub to: Option<Point>,
}

impl Scene {
    /// The left edge of the notification area.
    pub open spec fn tray_left(&self) -> int {
        tray_edge(self.taskbar, self.tray)
    }

    /// What is occupied: by windows inside the taskbar first, then by floating ones.
    pub open spec fn occupied(&self) -> Seq<(i32, i32)> {
        child_regions(self.children@, self.taskbar, self.tray_left()) + floating_regions(
            self.floating@,
            self.taskbar,
            self.tray_left(),
        )
    }
}

/// Whether every coordinate that is computed for a scene is a screen coordinate.
pub open spec fn scene_fits(s: WidgetPosition, scene: Scene) -> bool {
    let tray_left = scene.tray_left();
    &&& fits(tray_left)
    &&& !look_step(s, tray_left as i32).1 ==> {
        &&& forall|i: int|
            0 <= i < scene.children@.len() ==> child_fits(#[trigger] scene.children@[i])
        &&& forall|i: int|
            0 <= i < scene.floating@.len() ==> floating_fits(
                #[trigger] scene.floating@[i],
                scene.taskbar,
                tray_left,
            )
        &&& placement_fits(scene.taskbar, tray_left, scene.occupied())
    }
}

/// Whether the positions to try, and their right ends, are screen coordinates.
fn check_candidates(start_x: i32, width: i32, occupied: &[(i32, i32)], min_x: i32) -> (b: bool)
    ensures
        b == candidates_fit(start_x as int, width as int, occupied@, min_x as int),
{
    if start_x >= min_x && !is_coordinate(start_x as i64 + width as i64) {
        return false;
    }
    let mut i: usize = 0;
    while i < occupied.len()
        invariant
            i <= occupied@.len(),
            forall|k: int|
                0 <= k < i ==> {
                    let c = beside(#[trigger] occupied@[k], width as int);
                    fits(occupied@[k].0 - width) && fits(c) && (c >= min_x ==> fits(c + width))
                },
        decreases occupied@.len() - i,
    {
        let (l, _) = occupied[i];
        assert(occupied@[i as int].0 == l);
        let c: i64 = l as i64 - width as i64 - 4;
        if !is_coordinate(l as i64 - width as i64) || !is_coordinate(c) || (c >= min_x as i64
            && !is_coordinate(c + width as i64)) {
            assert(!(fits(occupied@[i as int].0 - width) && fits(
                beside(occupied@[i as int], width as int),
            ) && (beside(occupied@[i as int], width as int) >= min_x ==> fits(
                beside(occupied@[i as int], width as int) + width,
            ))));
            return false;
        }
        i += 1;
    }
    true
}

/// Whether every coordinate that the placement computes is a screen coordinate.
fn check_placement(taskbar: &Rect, tray_left: i32, occupied: &[(i32, i32)]) -> (b: bool)
    ensures
        b == placement_fits(*taskbar, tray_left as int, occupied@),
{
    let (left, right): (i64, i64) = (taskbar.left as i64, taskbar.right as i64);
    let (top, bottom): (i64, i64) = (taskbar.top as i64, taskbar.bottom as i64);
    let spare: i64 = bottom - top - WIDGET_HEIGHT as i64;
    let leftmost: i64 = left + (right - left) / 3;
    let first: i64 = tray_left as i64 - WIDGET_WIDTH as i64 - 4;
    if !is_coordinate(bottom - top) || !is_coordinate(spare) || !is_coordinate(right - left) || !is_coordinate(
        leftmost,
    ) || !is_coordinate(tray_left as i64 - WIDGET_WIDTH as i64) || !is_coordinate(first) {
        return false;
    }
    if !check_candidates(first as i32, WIDGET_WIDTH, occupied, leftmost as i32) {
        return false;
    }
    let x: i64 = find_free_x(first as i32, WIDGET_WIDTH, occupied, leftmost as i32) as i64;
    let y: i64 = top + (if spare < 0 {
        0
    } else {
        spare / 2
    });
    let x_fits: bool = left > x || (is_coordinate(x + WIDGET_WIDTH as i64) && is_coordinate(
        tray_left as i64 + 10,
    ));
    let y_fits: bool = top - 5 > y || (is_coordinate(y + WIDGET_HEIGHT as i64) && is_coordinate(
        bottom + 5,
    ));
    is_coordinate(y) && is_coordinate(left + 50) && x_fits && is_coordinate(top - 5) && y_fits
}

/// What a scene does: the positions remembered afterwards, and what is done to the window. It
/// is raised if the taskbar came to the front. While the notification area is in motion it
/// stays; otherwise it is placed.
pub open spec fn scene_step(s: WidgetPosition, scene: Scene) -> (WidgetPosition, Moves) {
    let raise = raise_position(s, scene.taskbar_in_front);
    let (looked, changed) = look_step(s, scene.tray_left() as i32);
    if changed {
        (looked, Moves { raise, to: None })
    } else {
        let (placed, to) = place_step(
            looked,
            scene.taskbar,
            scene.tray_left(),
            scene.occupied(),
        );
        (placed, Moves { raise, to })
    }
}

impl WidgetPosition {
    /// Whether the window stands where it was last acceptable.
    pub open spec fn settled(&self) -> bool {
        self.last_set == self.last_good
    }

    /// Nothing is remembered yet.
    pub fn new() -> (r: Self)
        ensures
            r.last_good == (Point { x: UNSET, y: UNSET }),
            r.last_set == (Point { x: UNSET, y: UNSET }),
            r.prev_tray_left == UNSET,
            r.settled(),
    {
        WidgetPosition {
            last_good: Point { x: UNSET, y: UNSET },
            last_set: Point { x: UNSET, y: UNSET },
            prev_tray_left: UNSET,
        }
    }

    /// Where to raise the window again. A click on the taskbar brings the taskbar to the
    /// front, and so before the widget.
    pub fn raise_when_covered(&self, taskbar_in_front: bool) -> (r: Option<Point>)
        ensures
            r == raise_position(*self, taskbar_in_front),
    {
        if taskbar_in_front && self.last_set.x != UNSET {
            Some(self.last_set)
        } else {
            None
        }
    }

    /// Looks at the left edge of the notification area, and tells whether it has just
    /// changed. While the layout is in motion the widget stays where it is.
    pub fn tray_just_changed(&mut self, tray_left: i32) -> (r: bool)
        ensures
            (*final(self), r) == look_step(*old(self), tray_left),
            old(self).settled() ==> final(self).settled(),
    {
        let prev: i32 = self.prev_tray_left;
        self.prev_tray_left = tray_left;
        prev != UNSET && prev != tray_left
    }

    /// Places the widget, and tells where to move the window, if anywhere.
    pub fn place(
        &mut self,
        taskbar: &Rect,
        tray_left: i32,
        occupied: &[(i32, i32)],
    ) -> (r: Option<Point>)
        requires
            placement_fits(*taskbar, tray_left as int, occupied@),
        ensures
            (*final(self), r) == place_step(*old(self), *taskbar, tray_left as int, occupied@),
            old(self).settled() ==> final(self).settled(),
    {
        let start_x: i32 = tray_left - WIDGET_WIDTH - 4;
        let span: i32 = taskbar.right - taskbar.left;
        let min_x: i32 = taskbar.left + span / 3;
        let x: i32 = find_free_x(start_x, WIDGET_WIDTH, occupied, min_x);
        let spare: i32 = taskbar.bottom - taskbar.top - WIDGET_HEIGHT;
        let above: i32 = if spare < 0 {
            0
        } else {
            spare / 2
        };
        let y: i32 = taskbar.top + above;
        let tray_ok: bool = tray_left > taskbar.left + 50 && tray_left < taskbar.right;
        let x_ok: bool = x >= taskbar.left && x + WIDGET_WIDTH <= tray_left + 10;
        let y_ok: bool = y >= taskbar.top - 5 && y + WIDGET_HEIGHT <= taskbar.bottom + 5;
        let to: Point = if tray_ok && x_ok && y_ok {
            Point { x, y }
        } else if self.last_good.x != UNSET {
            self.last_good
        } else {
            return None;
        };
        self.last_good = to;
        if to == self.last_set {
            return None;
        }
        self.last_set = to;
        Some(to)
    }

    /// Whether every coordinate that is computed for a scene is a screen coordinate, so that
    /// the widget can be placed in it.
    pub fn can_place(&self, scene: &Scene) -> (b: bool)
        ensures
            b == scene_fits(*self, *scene),
    {
        if scene.tray.is_none() && !is_coordinate(scene.taskbar.right as i64 - 180) {
            return false;
        }
        let tray_left: i32 = tray_left_edge(&scene.taskbar, scene.tray);
        if self.prev_tray_left != UNSET && self.prev_tray_left != tray_left {
            return true;
        }
        if !children_fit(&scene.children) || !floating_fit(
            &scene.floating,
            &scene.taskbar,
            tray_left,
        ) {
            return false;
        }
        let occupied = occupied_regions(
            &scene.children,
            &scene.floating,
            &scene.taskbar,
            tray_left,
        );
        check_placement(&scene.taskbar, tray_left, occupied.as_slice())
    }

    /// Keeps the widget before the notification area, clear of what other programs show: it is
    /// raised again if the taskbar came before it, and moved unless the layout is in motion.
    pub fn position_near_tray(&mut self, scene: &Scene) -> (r: Moves)
        requires
            scene_fits(*old(self), *scene),
        ensures
            (*final(self), r) == scene_step(*old(self), *scene),
            old(self).settled() ==> final(self).settled(),
    {
        let raise = self.raise_when_covered(scene.taskbar_in_front);
        let tray_left: i32 = tray_left_edge(&scene.taskbar, scene.tray);
        if self.tray_just_changed(tray_left) {
            return Moves { raise, to: None };
        }
        let occupied = occupied_regions(
            &scene.children,
            &scene.floating,
            &scene.taskbar,
            tray_left,
        );
        let to = self.place(&scene.taskbar, tray_left, occupied.as_slice());
        Moves { raise, to }
    }
}

/// The position taken overlaps no occupied interval, unless the left bound cuts off some of
/// the positions to try: beside the leftmost occupied interval there always is room.
pub proof fn law_free_place_is_found(
    start_x: int,
    width: int,
    occupied: Seq<(i32, i32)>,
    min_x: int,
)
    ensures
        is_eligible(free_x(start_x, width, occupied, min_x), start_x, width, occupied, min_x) || (
        exists|c: int| c < min_x && #[trigger] is_candidate(c, start_x, width, occupied)),
{
    let e = if occupied.len() == 0 {
        start_x
    } else {
        let k = lemma_leftmost_exists(occupied);
        beside(occupied[k], width)
    };
    assert(is_candidate(e, start_x, width, occupied));
    if e >= min_x {
        assert(is_eligible(e, start_x, width, occupied, min_x));
    }
    lemma_choice_exists(start_x, width, occupied, min_x);
}

/// Whether something of the given width at `y` keeps a gap of 4 to what is occupied on its
/// right, and overlaps nothing.
pub open spec fn has_room(y: int, width: int, occupied: Seq<(i32, i32)>) -> bool {
    forall|i: int|
        0 <= i < occupied.len() ==> y + width + 4 <= (#[trigger] occupied[i]).0 || y
            >= occupied[i].1
}

/// Wherever there is room between the left bound and the start, the position taken overlaps
/// no occupied interval, and is not left of that room.
pub proof fn law_room_is_used(
    start_x: int,
    width: int,
    occupied: Seq<(i32, i32)>,
    min_x: int,
    y: int,
)
    requires
        min_x <= y <= start_x,
        has_room(y, width, occupied),
    ensures
        is_eligible(free_x(start_x, width, occupied, min_x), start_x, width, occupied, min_x),
        free_x(start_x, width, occupied, min_x) >= y,
{
    let c = lemma_nearest_candidate(start_x, width, occupied, y, occupied.len() as int);
    assert forall|i: int| 0 <= i < occupied.len() implies c + width <= (
    #[trigger] occupied[i]).0 || c >= occupied[i].1 by {
        if y < occupied[i].1 {
            assert(beside(occupied[i], width) >= y);
        }
    }
    assert(is_eligible(c, start_x, width, occupied, min_x));
    lemma_choice_exists(start_x, width, occupied, min_x);
}

/// Among the start and the positions beside the first `n` occupied intervals, there is a
/// leftmost one that is not left of `y`.
proof fn lemma_nearest_candidate(
    start_x: int,
    width: int,
    occupied: Seq<(i32, i32)>,
    y: int,
    n: int,
) -> (c: int)
    requires
        y <= start_x,
        0 <= n <= occupied.len(),
    ensures
        y <= c <= start_x,
        is_candidate(c, start_x, width, occupied),
        forall|i: int|
            0 <= i < n && beside(#[trigger] occupied[i], width) >= y ==> c <= beside(
                occupied[i],
                width,
            ),
    decreases n,
{
    if n == 0 {
        start_x
    } else {
        let c = lemma_nearest_candidate(start_x, width, occupied, y, n - 1);
        let b = beside(occupied[n - 1], width);
        if y <= b < c {
            b
        } else {
            c
        }
    }
}

/// The position taken is never left of the bound.
pub proof fn law_bound_is_respected(
    start_x: int,
    width: int,
    occupied: Seq<(i32, i32)>,
    min_x: int,
)
    ensures
        free_x(start_x, width, occupied, min_x) >= min_x,
{
    lemma_choice_exists(start_x, width, occupied, min_x);
}

/// Some occupied interval begins leftmost.
proof fn lemma_leftmost_exists(occupied: Seq<(i32, i32)>) -> (k: int)
    requires
        occupied.len() > 0,
    ensures
        0 <= k < occupied.len(),
        forall|i: int| 0 <= i < occupied.len() ==> occupied[k].0 <= (#[trigger] occupied[i]).0,
    decreases occupied.len(),
{
    if occupied.len() == 1 {
        0
    } else {
        let k = lemma_leftmost_exists(occupied.drop_last());
        let n = occupied.len() - 1;
        assert forall|i: int| 0 <= i < n implies occupied[k].0 <= (#[trigger] occupied[i]).0 by {
            assert(occupied.drop_last()[i] == occupied[i]);
        }
        if occupied[n].0 < occupied[k].0 {
            n
        } else {
            k
        }
    }
}

/// Some position is the one to take.
proof fn lemma_choice_exists(start_x: int, width: int, occupied: Seq<(i32, i32)>, min_x: int)
    ensures
        is_chosen(
            free_x(start_x, width, occupied, min_x),
            start_x,
            width,
            occupied,
            min_x,
        ),
{
    let r = match lemma_best_of(start_x, width, occupied, min_x, occupied.len() as int) {
        Some(b) => b,
        None => min_x,
    };
    assert(is_chosen(r, start_x, width, occupied, min_x));
}

/// Among the start and the positions beside the first `n` occupied intervals, there is a
/// rightmost eligible one, unless none is eligible.
proof fn lemma_best_of(
    start_x: int,
    width: int,
    occupied: Seq<(i32, i32)>,
    min_x: int,
    n: int,
) -> (best: Option<int>)
    requires
        0 <= n <= occupied.len(),
    ensures
        best matches Some(b) ==> is_eligible(b, start_x, width, occupied, min_x),
        forall|e: int|
            is_eligible(e, start_x, width, occupied, min_x) && (e == start_x || exists|k: int|
                0 <= k < n && e == beside(#[trigger] occupied[k], width)) ==> best is Some && e
                <= best->0,
    decreases n,
{
    if n == 0 {
        if is_eligible(start_x, start_x, width, occupied, min_x) {
            Some(start_x)
        } else {
            None
        }
    } else {
        let best = lemma_best_of(start_x, width, occupied, min_x, n - 1);
        let c = beside(occupied[n - 1], width);
        if is_eligible(c, start_x, width, occupied, min_x) && (best is None || c > best->0) {
            Some(c)
        } else {
            best
        }
    }
}

/// Placing the widget again in the same surroundings changes nothing and moves nothing.
pub proof fn law_placing_again_moves_nothing(
    s: WidgetPosition,
    taskbar: Rect,
    tray_left: int,
    occupied: Seq<(i32, i32)>,
)
    ensures
        ({
            let after = place_step(s, taskbar, tray_left, occupied).0;
            place_step(after, taskbar, tray_left, occupied) == (after, None::<Point>)
        }),
{
}

/// A notification area that is seen twice at the same edge is at rest.
pub proof fn law_unchanged_tray_is_at_rest(s: WidgetPosition, tray_left: i32)
    ensures
        !look_step(look_step(s, tray_left).0, tray_left).1,
{
}

/// A change of the notification area is acted upon at the next look, and after that the
/// window rests as long as the scene stays the same.
pub proof fn law_widget_comes_to_rest(s: WidgetPosition, scene: Scene)
    ensures
        ({
            let once = scene_step(s, scene).0;
            let twice = scene_step(once, scene).0;
            let (thrice, moves) = scene_step(twice, scene);
            &&& !look_step(once, scene.tray_left() as i32).1
            &&& thrice == twice
            &&& moves.to is None
        }),
{
}

/// While the notification area is in motion, the window is not moved, and where it stands is
/// not forgotten.
pub proof fn law_widget_stays_while_tray_moves(s: WidgetPosition, scene: Scene)
    requires
        look_step(s, scene.tray_left() as i32).1,
    ensures
        scene_step(s, scene).1.to is None,
        scene_step(s, scene).0.last_good == s.last_good,
        scene_step(s, scene).0.last_set == s.last_set,
{
}

/// Wherever the window is moved, that place is acceptable now, or is the last one that was.
pub proof fn law_moves_only_to_acceptable_places(
    s: WidgetPosition,
    taskbar: Rect,
    tray_left: int,
    occupied: Seq<(i32, i32)>,
)
    requires
        placement_fits(taskbar, tray_left, occupied),
    ensures
        place_step(s, taskbar, tray_left, occupied).1 matches Some(to) ==> {
            ||| acceptable(taskbar, tray_left, to.x as int, to.y as int)
            ||| to == s.last_good && s.last_good.x != UNSET
        },
{
    law_bound_is_respected(
        first_x(tray_left),
        WIDGET_WIDTH as int,
        occupied,
        leftmost_x(taskbar),
    );
}

/// Where all that is occupied lies before the notification area, the widget ends at least 4
/// before that area, or stands at its left bound.
pub proof fn law_widget_ends_before_tray(
    taskbar: Rect,
    tray_left: int,
    occupied: Seq<(i32, i32)>,
)
    requires
        within_stretch(occupied, taskbar, tray_left),
    ensures
        ({
            let x = target_x(taskbar, tray_left, occupied);
            x == leftmost_x(taskbar) || x + WIDGET_WIDTH + 4 <= tray_left
        }),
{
    lemma_choice_exists(
        first_x(tray_left),
        WIDGET_WIDTH as int,
        occupied,
        leftmost_x(taskbar),
    );
}

/// Whether a coordinate is far from the limits of screen coordinates.
pub open spec fn ordinary(i: int) -> bool {
    -1_000_000_000 <= i <= 1_000_000_000
}

/// Whether all edges of a rectangle are far from the limits of screen coordinates.
pub open spec fn ordinary_rect(r: Rect) -> bool {
    ordinary(r.left as int) && ordinary(r.top as int) && ordinary(r.right as int) && ordinary(
        r.bottom as int,
    )
}

/// Whether all that is known of the place of a window is far from the limits of screen
/// coordinates. The places of hidden windows do not matter.
pub open spec fn ordinary_window(w: WindowInfo) -> bool {
    w.visible ==> (w.rect matches Some(r) ==> ordinary_rect(r))
}

/// Whether this holds of all windows.
pub open spec fn ordinary_windows(ws: Seq<WindowInfo>) -> bool {
    forall|i: int| 0 <= i < ws.len() ==> ordinary_window(#[trigger] ws[i])
}

/// Whether all places in a scene are far from the limits of screen coordinates.
pub open spec fn ordinary_scene(scene: Scene) -> bool {
    &&& ordinary_rect(scene.taskbar)
    &&& scene.tray matches Some(r) ==> ordinary_rect(r)
    &&& ordinary_windows(scene.children@)
    &&& ordinary_windows(scene.floating@)
}

/// In a scene with ordinary coordinates, everything that the placement computes is a screen
/// coordinate.
pub proof fn law_ordinary_scenes_fit(s: WidgetPosition, scene: Scene)
    requires
        ordinary_scene(scene),
    ensures
        scene_fits(s, scene),
{
    let tray_left = scene.tray_left();
    law_regions_lie_in_stretch(scene.children@, scene.floating@, scene.taskbar, tray_left);
    lemma_choice_exists(
        first_x(tray_left),
        WIDGET_WIDTH as int,
        scene.occupied(),
        leftmost_x(scene.taskbar),
    );
    assert forall|i: int| 0 <= i < scene.children@.len() implies child_fits(
        #[trigger] scene.children@[i],
    ) by {
        assert(ordinary_window(scene.children@[i]));
    }
    assert forall|i: int| 0 <= i < scene.floating@.len() implies floating_fits(
        #[trigger] scene.floating@[i],
        scene.taskbar,
        tray_left,
    ) by {
        assert(ordinary_window(scene.floating@[i]));
    }
    assert(placement_fits(scene.taskbar, tray_left, scene.occupied()));
}

/// The position taken is the start, or ends 4 before an occupied interval; it is not left of
/// the bound, overlaps nothing, and no position right of it is like that. Only where there is
/// no such position it is the bound.
pub proof fn law_rightmost_free_place_is_taken(
    start_x: int,
    width: int,
    occupied: Seq<(i32, i32)>,
    min_x: int,
    other: int,
)
    ensures
        ({
            let r = free_x(start_x, width, occupied, min_x);
            let good = |x: int|
                {
                    &&& x >= min_x
                    &&& x == start_x || exists|i: int|
                        0 <= i < occupied.len() && x + width + 4 == (#[trigger] occupied[i]).0
                    &&& forall|i: int|
                        0 <= i < occupied.len() ==> x + width <= (#[trigger] occupied[i]).0 || x
                            >= occupied[i].1
                };
            &&& good(other) ==> good(r) && other <= r
            &&& good(r) || r == min_x
        }),
{
    lemma_choice_exists(start_x, width, occupied, min_x);
    let r = free_x(start_x, width, occupied, min_x);
    assert forall|x: int| #[trigger] is_eligible(x, start_x, width, occupied, min_x) implies x
        >= min_x && (x == start_x || exists|i: int|
        0 <= i < occupied.len() && x + width + 4 == (#[trigger] occupied[i]).0) by {
        if x != start_x {
            let i = choose|i: int|
                0 <= i < occupied.len() && x == beside(#[trigger] occupied[i], width);
            assert(x + width + 4 == occupied[i].0);
        }
    }
    if exists|i: int| 0 <= i < occupied.len() && other + width + 4 == (#[trigger] occupied[i]).0 {
        let i = choose|i: int|
            0 <= i < occupied.len() && other + width + 4 == (#[trigger] occupied[i]).0;
        assert(other == beside(occupied[i], width));
    }
    if exists|i: int| 0 <= i < occupied.len() && r + width + 4 == (#[trigger] occupied[i]).0 {
        let i = choose|i: int|
            0 <= i < occupied.len() && r + width + 4 == (#[trigger] occupied[i]).0;
        assert(r == beside(occupied[i], width));
    }
    assert(is_eligible(other, start_x, width, occupied, min_x) || !({
        &&& other >= min_x
        &&& other == start_x || exists|i: int|
            0 <= i < occupied.len() && other + width + 4 == (#[trigger] occupied[i]).0
        &&& forall|i: int|
            0 <= i < occupied.len() ==> other + width <= (#[trigger] occupied[i]).0 || other
                >= occupied[i].1
    }));
}

/// Where the search for the widget, 80 wide and 40 high, starts and ends: 4 before the
/// notification area, and a third of the taskbar from its left end. It stands in the middle of
/// the height of the taskbar.
pub proof fn law_widget_is_looked_for_before_tray(
    taskbar: Rect,
    tray_left: int,
    occupied: Seq<(i32, i32)>,
)
    ensures
        taskbar.left <= taskbar.right ==> ({
            let third = (taskbar.right - taskbar.left) / 3;
            target_x(taskbar, tray_left, occupied) == free_x(
                tray_left - 84,
                80,
                occupied,
                taskbar.left + third,
            )
        }),
        taskbar.bottom - taskbar.top >= 40 ==> ({
            let above = target_y(taskbar) - taskbar.top;
            let below = taskbar.bottom - (target_y(taskbar) + 40);
            above >= 0 && (above == below || above + 1 == below)
        }),
        taskbar.bottom - taskbar.top < 40 ==> target_y(taskbar) == taskbar.top,
{
}

/// Whether the widget may stand somewhere is decided by the taskbar and the notification area:
/// more than 50 of the taskbar lie before that area, which begins on it; the widget begins on
/// the taskbar and reaches at most 10 into that area, and at most 5 above or below the taskbar.
pub proof fn law_acceptable_places(taskbar: Rect, tray_left: int, x: int, y: int)
    ensures
        acceptable(taskbar, tray_left, x, y) <==> {
            &&& tray_left - taskbar.left > 50
            &&& tray_left < taskbar.right
            &&& x >= taskbar.left
            &&& x + 80 - tray_left <= 10
            &&& taskbar.top - y <= 5
            &&& y + 40 - taskbar.bottom <= 5
        },
{
}

/// Wherever the computed place is acceptable, it is taken and remembered, whatever was
/// remembered before; the window is moved there unless it stands there already. What is
/// remembered of the notification area stays.
pub proof fn law_acceptable_place_is_taken(
    s: WidgetPosition,
    taskbar: Rect,
    tray_left: int,
    occupied: Seq<(i32, i32)>,
    to: Point,
)
    requires
        to.x == target_x(taskbar, tray_left, occupied),
        to.y == target_y(taskbar),
        tray_left - taskbar.left > 50,
        tray_left < taskbar.right,
        to.x >= taskbar.left,
        to.x + 80 <= tray_left + 10,
        to.y >= taskbar.top - 5,
        to.y + 40 <= taskbar.bottom + 5,
    ensures
        ({
            let (after, moved) = place_step(s, taskbar, tray_left, occupied);
            &&& after.last_good == to
            &&& after.last_set == to
            &&& after.prev_tray_left == s.prev_tray_left
            &&& s.last_set == to ==> moved is None
            &&& s.last_set != to ==> moved == Some(to)
        }),
{
}

/// Wherever the computed place is not acceptable, the last good one is taken again, and
/// nothing at all happens where there is none.
pub proof fn law_last_good_place_is_kept(
    s: WidgetPosition,
    taskbar: Rect,
    tray_left: int,
    occupied: Seq<(i32, i32)>,
)
    requires
        ({
            let (x, y) = (target_x(taskbar, tray_left, occupied), target_y(taskbar));
            ||| tray_left - taskbar.left <= 50
            ||| tray_left >= taskbar.right
            ||| x < taskbar.left
            ||| x + 80 > tray_left + 10
            ||| y < taskbar.top - 5
            ||| y + 40 > taskbar.bottom + 5
        }),
    ensures
        ({
            let (after, moved) = place_step(s, taskbar, tray_left, occupied);
            &&& after.last_good == s.last_good
            &&& after.prev_tray_left == s.prev_tray_left
            &&& s.last_good.x == i32::MIN ==> after == s && moved is None
            &&& s.last_good.x != i32::MIN ==> after.last_set == s.last_good
            &&& s.last_good.x != i32::MIN && s.last_set == s.last_good ==> moved is None
            &&& s.last_good.x != i32::MIN && s.last_set != s.last_good ==> moved == Some(
                s.last_good,
            )
        }),
{
}

/// The notification area is in motion exactly where it was seen before at another edge, and the
/// edge is remembered, and nothing else changes.
pub proof fn law_motion_is_a_change_of_edge(s: WidgetPosition, tray_left: i32)
    ensures
        look_step(s, tray_left).1 <==> s.prev_tray_left != tray_left && s.prev_tray_left
            != i32::MIN,
        look_step(s, tray_left).0.prev_tray_left == tray_left,
        look_step(s, tray_left).0.last_good == s.last_good,
        look_step(s, tray_left).0.last_set == s.last_set,
{
}

/// The window is raised exactly where the taskbar came to the front of a placed widget, and it
/// is raised where it stands.
pub proof fn law_covered_widget_is_raised(s: WidgetPosition, scene: Scene)
    ensures
        scene_step(s, scene).1.raise is Some <==> scene.taskbar_in_front && s.last_set.x
            != i32::MIN,
        scene_step(s, scene).1.raise matches Some(p) ==> p == s.last_set,
        raise_position(s, scene.taskbar_in_front) == scene_step(s, scene).1.raise,
{
}

/// The notification area begins where its window does, and is taken to be 180 wide where that
/// is not known.
pub proof fn law_tray_edge(taskbar: Rect, tray: Rect)
    ensures
        tray_edge(taskbar, Some(tray)) == tray.left,
        taskbar.right - tray_edge(taskbar, None) == 180,
{
}

/// In a scene whose notification area is at rest, the outcome does not depend on the positions
/// remembered before, where the computed place is acceptable: the widget stands there
/// afterwards.
pub proof fn law_resting_scene_decides(
    s: WidgetPosition,
    t: WidgetPosition,
    scene: Scene,
    to: Point,
)
    requires
        fits(scene.tray_left()),
        s.prev_tray_left == i32::MIN || s.prev_tray_left == scene.tray_left(),
        t.prev_tray_left == i32::MIN || t.prev_tray_left == scene.tray_left(),
        to.x == target_x(scene.taskbar, scene.tray_left(), scene.occupied()),
        to.y == target_y(scene.taskbar),
        scene.tray_left() - scene.taskbar.left > 50,
        scene.tray_left() < scene.taskbar.right,
        to.x >= scene.taskbar.left,
        to.x + 80 <= scene.tray_left() + 10,
        to.y >= scene.taskbar.top - 5,
        to.y + 40 <= scene.taskbar.bottom + 5,
    ensures
        scene_step(s, scene).0 == scene_step(t, scene).0,
        scene_step(s, scene).0.last_set == to,
        scene_step(s, scene).0.last_good == to,
        scene_step(s, scene).0.prev_tray_left == scene.tray_left(),
        s.last_set != to ==> scene_step(s, scene).1.to == Some(to),
        s.last_set == to ==> scene_step(s, scene).1.to is None,
{
}

/// In a scene whose notification area is at rest, a place that is not acceptable leaves the
/// widget where it was last good.
pub proof fn law_resting_scene_keeps_good_place(s: WidgetPosition, scene: Scene)
    requires
        fits(scene.tray_left()),
        s.prev_tray_left == i32::MIN || s.prev_tray_left == scene.tray_left(),
        ({
            let x = target_x(scene.taskbar, scene.tray_left(), scene.occupied());
            let y = target_y(scene.taskbar);
            ||| scene.tray_left() - scene.taskbar.left <= 50
            ||| scene.tray_left() >= scene.taskbar.right
            ||| x < scene.taskbar.left
            ||| x + 80 > scene.tray_left() + 10
            ||| y < scene.taskbar.top - 5
            ||| y + 40 > scene.taskbar.bottom + 5
        }),
    ensures
        scene_step(s, scene).0.last_good == s.last_good,
        s.last_good.x != i32::MIN ==> scene_step(s, scene).0.last_set == s.last_good,
        s.last_good.x == i32::MIN ==> scene_step(s, scene).0.last_set == s.last_set,
        scene_step(s, scene).1.to matches Some(p) ==> p == s.last_good && p != s.last_set,
        s.last_good.x != i32::MIN && s.last_set != s.last_good ==> scene_step(s, scene).1.to
            is Some,
{
}

/// What is occupied in a scene is what the windows inside the taskbar occupy, and behind it
/// what the floating ones do.
pub proof fn law_scene_holds_both_kinds(scene: Scene)
    ensures
        ({
            let children = child_regions(scene.children@, scene.taskbar, scene.tray_left());
            let floating = floating_regions(scene.floating@, scene.taskbar, scene.tray_left());
            &&& scene.occupied().len() == children.len() + floating.len()
            &&& scene.occupied().take(children.len() as int) == children
            &&& scene.occupied().skip(children.len() as int) == floating
        }),
{
    let children = child_regions(scene.children@, scene.taskbar, scene.tray_left());
    let floating = floating_regions(scene.floating@, scene.taskbar, scene.tray_left());
    assert(scene.occupied().take(children.len() as int) =~= children);
    assert(scene.occupied().skip(children.len() as int) =~= floating);
}

/// Coordinates within a thousand millions are ordinary, and a scene is where all that is seen in
/// it lies within them.
pub proof fn law_scenes_are_ordinary(scene: Scene)
    requires
        ({
            let near = |r: Rect|
                {
                    &&& -1_000_000_000 <= r.left <= 1_000_000_000
                    &&& -1_000_000_000 <= r.top <= 1_000_000_000
                    &&& -1_000_000_000 <= r.right <= 1_000_000_000
                    &&& -1_000_000_000 <= r.bottom <= 1_000_000_000
                };
            &&& near(scene.taskbar)
            &&& scene.tray matches Some(r) ==> near(r)
            &&& forall|i: int|
                0 <= i < scene.children@.len() ==> ((#[trigger] scene.children@[i]).rect matches Some(
                    r,
                ) ==> near(r))
            &&& forall|i: int|
                0 <= i < scene.floating@.len() ==> ((#[trigger] scene.floating@[i]).rect matches Some(
                    r,
                ) ==> near(r))
        }),
    ensures
        ordinary_scene(scene),
        forall|s: WidgetPosition| #[trigger] scene_fits(s, scene),
{
    assert forall|s: WidgetPosition| #[trigger] scene_fits(s, scene) by {
        law_ordinary_scenes_fit(s, scene);
    }
}

/// A place can be looked for among coordinates within a thousand millions.
pub proof fn law_ordinary_candidates_fit(
    start_x: int,
    width: int,
    occupied: Seq<(i32, i32)>,
    min_x: int,
)
    requires
        -1_000_000_000 <= start_x <= 1_000_000_000,
        0 <= width <= 1_000_000_000,
        forall|i: int|
            0 <= i < occupied.len() ==> -1_000_000_000 <= (#[trigger] occupied[i]).0
                <= 1_000_000_000,
    ensures
        candidates_fit(start_x, width, occupied, min_x),
{
}

} // verus!
