use vstd::prelude::*;

verus! {

/// Nanoseconds in one second: the length of the window over which updates are counted.
pub const NANOS_PER_SECOND: u64 = 1_000_000_000;

/// Counts simulation updates and, once a second, publishes the count of the second that ended.
pub struct UpsCounter {
    /// Updates counted since the last publication.
    pub ticks: u32,
    /// Elapsed time, in nanoseconds, at the last publication.
    pub last_second_ns: u64,
    /// Updates counted over the last complete window.
    pub ups: u32,
}

/// Whether at least one second has passed from `last` to `now` (never when time seems to run
/// backwards).
pub open spec fn second_elapsed(last: u64, now: u64) -> bool {
    now >= last && now - last >= NANOS_PER_SECOND
}

/// The counter after one frame at time `now`: a publication when a full second has passed
/// since the last one, no change otherwise.
pub open spec fn after_refresh(c: UpsCounter, now: u64) -> UpsCounter {
    if second_elapsed(c.last_second_ns, now) {
        UpsCounter { ticks: 0, last_second_ns: now, ups: c.ticks }
    } else {
        c
    }
}

/// The counter after one frame at each of `times`, in order.
pub open spec fn after_frames(c: UpsCounter, times: Seq<u64>) -> UpsCounter
    decreases times.len(),
{
    if times.len() == 0 {
        c
    } else {
        after_refresh(after_frames(c, times.drop_last()), times.last())
    }
}

/// Whether the frame at `times[i]` publishes, the counter having started as `c` and seen the
/// frames before it.
pub open spec fn publishes_at(c: UpsCounter, times: Seq<u64>, i: int) -> bool {
    second_elapsed(after_frames(c, times.take(i)).last_second_ns, times[i])
}

impl UpsCounter {
    /// Called once per frame with the elapsed time. When a full second has passed since the
    /// last publication, publishes the tick count as `ups`, restarts the count and the window,
    /// and returns `true` (the caller then reports the rates); otherwise changes nothing.
    pub fn refresh(&mut self, now_ns: u64) -> (rolled: bool)
        ensures
            rolled == second_elapsed(old(self).last_second_ns, now_ns),
            *final(self) == after_refresh(*old(self), now_ns),
    {
        if now_ns >= self.last_second_ns && now_ns - self.last_second_ns >= NANOS_PER_SECOND {
            self.ups = self.ticks;
            self.ticks = 0;
            self.last_second_ns = now_ns;
            true
        } else {
            false
        }
    }
}

/// A frame publishes exactly when at least one full second has passed since the last
/// publication: then the count moves to `ups`, the count restarts at zero and the window
/// restarts now; any earlier frame (or a clock that went back) leaves the counter as it is.
pub proof fn lemma_publishes_exactly_after_a_second(c: UpsCounter, now: u64)
    ensures
        now >= c.last_second_ns + NANOS_PER_SECOND ==> after_refresh(c, now) == (UpsCounter {
            ticks: 0,
            last_second_ns: now,
            ups: c.ticks,
        }),
        now < c.last_second_ns + NANOS_PER_SECOND ==> after_refresh(c, now) == c,
{
}

proof fn lemma_frames_step(c: UpsCounter, times: Seq<u64>, k: int)
    requires
        0 <= k < times.len(),
    ensures
        after_frames(c, times.take(k + 1)) == after_refresh(after_frames(c, times.take(k)), times[k]),
{
    assert(times.take(k + 1).drop_last() =~= times.take(k));
}

proof fn lemma_last_publication_grows(c: UpsCounter, times: Seq<u64>, k: int, m: int)
    requires
        0 <= k <= m <= times.len(),
    ensures
        after_frames(c, times.take(k)).last_second_ns <= after_frames(c, times.take(m)).last_second_ns,
    decreases m - k,
{
    if k < m {
        lemma_last_publication_grows(c, times, k, m - 1);
        lemma_frames_step(c, times, m - 1);
    }
}

/// Over any run of frames, two frames that publish are at least one second apart, whatever
/// frames come between them.
pub proof fn lemma_publications_one_second_apart(c: UpsCounter, times: Seq<u64>, i: int, j: int)
    requires
        0 <= i < j < times.len(),
        publishes_at(c, times, i),
        publishes_at(c, times, j),
    ensures
        times[j] >= times[i] + NANOS_PER_SECOND,
{
    lemma_frames_step(c, times, i);
    lemma_last_publication_grows(c, times, i + 1, j);
}

/// Whether the camera is being dragged with the left mouse button.
pub struct CameraDragState {
    pub is_dragging: bool,
}

/// The drag flag after one frame: a press starts dragging, a release stops it, and a release
/// seen in the same frame as a press wins.
pub open spec fn drag_after(was_dragging: bool, just_pressed: bool, just_released: bool) -> bool {
    if just_released {
        false
    } else if just_pressed {
        true
    } else {
        was_dragging
    }
}

impl Default for CameraDragState {
    /// Not dragging.
    fn default() -> (s: Self)
        ensures
            !s.is_dragging,
    {
        CameraDragState { is_dragging: false }
    }
}

impl CameraDragState {
    /// Applies this frame's left-button edges.
    pub fn update(&mut self, just_pressed: bool, just_released: bool)
        ensures
            final(self).is_dragging == drag_after(old(self).is_dragging, just_pressed, just_released),
            just_released ==> !final(self).is_dragging,
            just_pressed && !just_released ==> final(self).is_dragging,
            !just_pressed && !just_released ==> final(self).is_dragging == old(self).is_dragging,
    {
        if just_pressed {
            self.is_dragging = true;
        }
        if just_released {
            self.is_dragging = false;
        }
    }
}

/// The drag flag follows the left button's edges only: a release stops dragging, a press
/// alone starts it, and a frame with neither leaves the flag as it was (it is never set
/// without a press).
pub proof fn lemma_drag_follows_button_edges(was_dragging: bool, just_pressed: bool, just_released: bool)
    ensures
        just_released ==> !drag_after(was_dragging, just_pressed, just_released),
        just_pressed && !just_released ==> drag_after(was_dragging, just_pressed, just_released),
        !just_pressed && !just_released ==> drag_after(was_dragging, just_pressed, just_released)
            == was_dragging,
        drag_after(was_dragging, just_pressed, just_released) ==> was_dragging || just_pressed,
{
}

/// Which way a pair of opposing keys pushes along one axis: `+1`, `-1`, or `0` when both or
/// neither are held.
pub open spec fn axis_value(positive: bool, negative: bool) -> int {
    (if positive { 1int } else { 0int }) - (if negative { 1int } else { 0int })
}

/// Opposite keys cancel: an axis is still exactly when both or neither of its keys are held,
/// and otherwise points towards the held key.
pub proof fn lemma_opposite_keys_cancel(positive: bool, negative: bool)
    ensures
        axis_value(positive, negative) == 0 <==> positive == negative,
        positive && !negative ==> axis_value(positive, negative) == 1,
        negative && !positive ==> axis_value(positive, negative) == -1,
{
}

/// The push of two opposing keys along one axis.
pub fn axis(positive: bool, negative: bool) -> (d: i8)
    ensures
        d == axis_value(positive, negative),
{
    let mut d: i8 = 0;
    if positive {
        d = d + 1;
    }
    if negative {
        d = d - 1;
    }
    d
}

/// One step of the orthographic zoom, from one mouse-wheel event.
#[derive(PartialEq, Eq, Structural, Debug, Clone, Copy)]
pub enum ZoomStep {
    In,
    Out,
}

/// The zoom steps of wheel events, given the sign of each event's vertical scroll: up zooms
/// in, down zooms out, and an event with no vertical scroll does nothing.
pub open spec fn zoom_steps(scroll: Seq<i8>) -> Seq<ZoomStep>
    decreases scroll.len(),
{
    if scroll.len() == 0 {
        Seq::empty()
    } else {
        let s = scroll.last();
        let rest = zoom_steps(scroll.drop_last());
        if s > 0 {
            rest.push(ZoomStep::In)
        } else if s < 0 {
            rest.push(ZoomStep::Out)
        } else {
            rest
        }
    }
}

/// The step of one wheel event with some vertical scroll: up zooms in, down zooms out.
pub open spec fn step_of(s: i8) -> ZoomStep {
    if s > 0 {
        ZoomStep::In
    } else {
        ZoomStep::Out
    }
}

/// One zoom step per wheel event that scrolls vertically, in the order of the events, each
/// from its event's direction.
pub open spec fn wheel_steps(scroll: Seq<i8>) -> Seq<ZoomStep> {
    scroll.filter(|s: i8| s != 0).map_values(|s: i8| step_of(s))
}

/// Every wheel event that scrolls vertically gives exactly one zoom step, in order and in its
/// direction, with no limit on their number; events without vertical scroll give none.
pub proof fn lemma_zoom_one_step_per_scroll(scroll: Seq<i8>)
    ensures
        zoom_steps(scroll) == wheel_steps(scroll),
        zoom_steps(scroll).len() == scroll.filter(|s: i8| s != 0).len(),
    decreases scroll.len(),
{
    reveal(Seq::filter);
    if scroll.len() > 0 {
        lemma_zoom_one_step_per_scroll(scroll.drop_last());
        let f = scroll.drop_last().filter(|s: i8| s != 0);
        let s = scroll.last();
        if s != 0 {
            assert(scroll.filter(|s: i8| s != 0) == f.push(s));
            assert(f.push(s).map_values(|s: i8| step_of(s)) =~= f.map_values(|s: i8| step_of(s)).push(
                step_of(s),
            ));
        } else {
            assert(scroll.filter(|s: i8| s != 0) == f);
        }
    } else {
        assert(scroll.filter(|s: i8| s != 0) =~= Seq::<i8>::empty());
        assert(wheel_steps(scroll) =~= Seq::<ZoomStep>::empty());
    }
}

/// What the camera system reads in one frame, as plain values.
pub struct CameraInput {
    /// Exactly one camera exists; without one, the frame does nothing.
    pub camera_found: bool,
    pub left_just_pressed: bool,
    pub left_just_released: bool,
    pub key_w: bool,
    pub key_s: bool,
    pub key_a: bool,
    pub key_d: bool,
    /// The camera has an orthographic projection, which alone can zoom.
    pub orthographic: bool,
    /// The sign (`-1`, `0` or `1`) of each mouse-wheel event's vertical scroll, in order.
    pub scroll: Vec<i8>,
}

/// What the camera must do in one frame.
pub struct CameraPlan {
    /// Follow this frame's mouse motion, scaled by the zoom.
    pub pan_with_mouse: bool,
    /// Keyboard direction on each axis (`-1`, `0` or `1`); the camera moves only when one is
    /// not zero, along the normalised direction.
    pub dir_x: i8,
    pub dir_y: i8,
    /// The keyboard moves the camera this frame: the direction is not zero.
    pub moves: bool,
    /// Zoom steps to apply, in order.
    pub zoom: Vec<ZoomStep>,
}

/// Decides the camera's response to one frame of input and updates the drag state: dragging
/// follows the left button (see `drag_after`), the mouse pans while dragging, W/S and D/A give
/// the keyboard direction, and the wheel zooms an orthographic camera.
pub fn handle_camera_inputs(drag: &mut CameraDragState, input: &CameraInput) -> (plan: CameraPlan)
    ensures
        !input.camera_found ==> {
            &&& *final(drag) == *old(drag)
            &&& !plan.pan_with_mouse
            &&& plan.dir_x == 0
            &&& plan.dir_y == 0
            &&& !plan.moves
            &&& plan.zoom@.len() == 0
        },
        input.camera_found ==> {
            &&& final(drag).is_dragging == drag_after(
                old(drag).is_dragging,
                input.left_just_pressed,
                input.left_just_released,
            )
            &&& plan.pan_with_mouse == final(drag).is_dragging
            &&& plan.dir_x == axis_value(input.key_d, input.key_a)
            &&& plan.dir_y == axis_value(input.key_w, input.key_s)
            &&& plan.moves == (plan.dir_x != 0 || plan.dir_y != 0)
            &&& plan.zoom@ == (if input.orthographic {
                zoom_steps(input.scroll@)
            } else {
                Seq::empty()
            })
            &&& input.orthographic ==> plan.zoom@ == wheel_steps(input.scroll@)
            &&& input.orthographic ==> plan.zoom@.len() == input.scroll@.filter(
                |s: i8| s != 0,
            ).len()
            &&& !input.left_just_pressed && !input.left_just_released ==> final(drag).is_dragging
                == old(drag).is_dragging
        },
{
    if !input.camera_found {
        return CameraPlan { pan_with_mouse: false, dir_x: 0, dir_y: 0, moves: false, zoom: Vec::new() };
    }
    drag.update(input.left_just_pressed, input.left_just_released);
    let dir_x = axis(input.key_d, input.key_a);
    let dir_y = axis(input.key_w, input.key_s);
    let mut zoom: Vec<ZoomStep> = Vec::new();
    proof {
        lemma_zoom_one_step_per_scroll(input.scroll@);
    }
    if input.orthographic {
        let n = input.scroll.len();
        let mut i: usize = 0;
        while i < n
            invariant
                n == input.scroll@.len(),
                i <= n,
                zoom@ == zoom_steps(input.scroll@.take(i as int)),
            decreases n - i,
        {
            let s = input.scroll[i];
            assert(input.scroll@.take(i + 1).drop_last() =~= input.scroll@.take(i as int));
            if s > 0 {
                zoom.push(ZoomStep::In);
            } else if s < 0 {
                zoom.push(ZoomStep::Out);
            }
            i = i + 1;
        }
        assert(input.scroll@.take(n as int) =~= input.scroll@);
    }
    let moves = dir_x != 0 || dir_y != 0;
    CameraPlan { pan_with_mouse: drag.is_dragging, dir_x, dir_y, moves, zoom }
}

} // verus!
