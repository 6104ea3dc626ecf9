use vstd::prelude::*;

verus! {

/// Left-button drag tracking for clicks on the map.
pub struct MouseDragState {
    /// The cursor moved far enough while the button was held that the gesture is a drag.
    pub is_dragging: bool,
    /// The cursor position was recorded when the button went down (the position itself stays
    /// with the caller, which alone reads the window).
    pub has_start: bool,
}

impl Default for MouseDragState {
    /// No gesture under way.
    fn default() -> (s: Self)
        ensures
            !s.is_dragging,
            !s.has_start,
    {
        MouseDragState { is_dragging: false, has_start: false }
    }
}

/// What a click does to the node selection.
#[derive(PartialEq, Eq, Structural, Debug, Clone, Copy)]
pub enum SelectionChange {
    /// Leave the selection and the info menu as they are.
    Keep,
    /// Deselect every node, empty the info menus, select this node and open its info menu.
    Select(u64),
    /// Deselect every node and empty the info menus.
    Clear,
}

/// What the interaction system reads in one frame, as plain values.
pub struct PointerFrame {
    pub left_just_pressed: bool,
    pub left_pressed: bool,
    pub left_just_released: bool,
    /// Exactly one window exists.
    pub window_found: bool,
    /// Exactly one camera exists.
    pub camera_found: bool,
    /// The cursor is inside the window.
    pub cursor_in_window: bool,
    /// For each mouse-motion event of the frame, in order: its delta is longer than the drag
    /// threshold.
    pub large_motions: Vec<bool>,
    /// The cursor maps to a point of the world.
    pub world_cursor: bool,
    /// Each star node in query order, with whether that world point lies within the node's
    /// radius.
    pub node_hits: Vec<(u64, bool)>,
}

/// The first node, in order, that the cursor hits.
pub open spec fn first_hit(hits: Seq<(u64, bool)>) -> Option<u64>
    decreases hits.len(),
{
    if hits.len() == 0 {
        None
    } else if hits[0].1 {
        Some(hits[0].0)
    } else {
        first_hit(hits.drop_first())
    }
}

/// Some motion of the frame is long enough to make the gesture a drag.
pub open spec fn any_large(motions: Seq<bool>) -> bool {
    exists|i: int| 0 <= i < motions.len() && motions[i]
}

/// The drag state once a press has been handled: a press (with a window to read the cursor
/// from) starts a new gesture, recording whether the cursor position is known.
pub open spec fn after_press(s: MouseDragState, f: PointerFrame) -> MouseDragState {
    if f.left_just_pressed {
        MouseDragState { is_dragging: false, has_start: f.cursor_in_window }
    } else {
        s
    }
}

/// Whether the frame's mouse motion is to be read, from the button state and whether a window
/// exists.
pub fn motion_is_read(left_just_pressed: bool, left_pressed: bool, window_found: bool) -> (read: bool)
    ensures
        read == (left_pressed && !(left_just_pressed && !window_found)),
{
    left_pressed && !(left_just_pressed && !window_found)
}

/// The drag state once the frame's motion has been seen: while the button is held, one long
/// motion turns the gesture into a drag.
pub open spec fn after_motion(s: MouseDragState, f: PointerFrame) -> MouseDragState {
    let p = after_press(s, f);
    if f.left_pressed && any_large(f.large_motions@) {
        MouseDragState { is_dragging: true, has_start: p.has_start }
    } else {
        p
    }
}

/// What a release does to the selection: a release over a node selects the first node hit;
/// a release over empty space clears the selection unless the gesture was a drag; nothing
/// happens when the cursor is not over the world.
pub open spec fn release_change(dragging: bool, f: PointerFrame) -> SelectionChange {
    if !f.world_cursor {
        SelectionChange::Keep
    } else {
        match first_hit(f.node_hits@) {
            Some(id) => SelectionChange::Select(id),
            None => if dragging {
                SelectionChange::Keep
            } else {
                SelectionChange::Clear
            },
        }
    }
}

/// A frame in which the release is handled (a window and a camera exist).
pub open spec fn release_handled(f: PointerFrame) -> bool {
    f.left_just_released && f.window_found && f.camera_found
}

/// The first node that the cursor hits.
pub fn find_first_hit(hits: &Vec<(u64, bool)>) -> (hit: Option<u64>)
    ensures
        hit == first_hit(hits@),
{
    let n = hits.len();
    let mut i: usize = 0;
    assert(hits@.skip(0) =~= hits@);
    while i < n
        invariant
            n == hits@.len(),
            i <= n,
            first_hit(hits@) == first_hit(hits@.skip(i as int)),
        decreases n - i,
    {
        let (id, hit) = hits[i];
        if hit {
            return Some(id);
        }
        assert(hits@.skip(i as int).drop_first() =~= hits@.skip(i + 1));
        i = i + 1;
    }
    None
}

/// Whether one of the motions is long enough to make the gesture a drag.
pub fn has_large_motion(motions: &Vec<bool>) -> (large: bool)
    ensures
        large == any_large(motions@),
{
    let n = motions.len();
    let mut i: usize = 0;
    while i < n
        invariant
            n == motions@.len(),
            i <= n,
            forall|j: int| 0 <= j < i ==> !motions@[j],
        decreases n - i,
    {
        if motions[i] {
            return true;
        }
        i = i + 1;
    }
    false
}

/// Handles one frame of left-button interaction with the star nodes. A press starts a gesture
/// (when there is no window the frame stops there), a long motion while held makes it a drag,
/// and a release (when a window and a camera exist) selects the first node under the cursor,
/// or clears the selection if the gesture was a plain click on empty space, and then ends the
/// gesture.
pub fn node_interaction_step(drag: &mut MouseDragState, frame: &PointerFrame) -> (change: SelectionChange)
    ensures
        frame.left_just_pressed && !frame.window_found ==> {
            &&& *final(drag) == *old(drag)
            &&& change == SelectionChange::Keep
        },
        !(frame.left_just_pressed && !frame.window_found) && !release_handled(*frame) ==> {
            &&& *final(drag) == after_motion(*old(drag), *frame)
            &&& change == SelectionChange::Keep
        },
        !(frame.left_just_pressed && !frame.window_found) && release_handled(*frame) ==> {
            &&& !final(drag).is_dragging
            &&& !final(drag).has_start
            &&& change == release_change(after_motion(*old(drag), *frame).is_dragging, *frame)
        },
        !(frame.left_just_pressed && !frame.window_found) && !release_handled(*frame)
            ==> final(drag).is_dragging == ((old(drag).is_dragging && !frame.left_just_pressed) || (
        frame.left_pressed && any_large(frame.large_motions@))),
        !(frame.left_just_pressed && !frame.window_found) && release_handled(*frame)
            && frame.world_cursor && first_hit(frame.node_hits@) is None ==> (change
            == SelectionChange::Clear <==> !((old(drag).is_dragging && !frame.left_just_pressed) || (
        frame.left_pressed && any_large(frame.large_motions@)))),
{
    proof {
        lemma_only_long_motion_drags(*old(drag), *frame);
    }
    if frame.left_just_pressed {
        if !frame.window_found {
            return SelectionChange::Keep;
        }
        drag.has_start = frame.cursor_in_window;
        drag.is_dragging = false;
    }
    if frame.left_pressed {
        if has_large_motion(&frame.large_motions) {
            drag.is_dragging = true;
        }
    }
    if frame.left_just_released {
        if !frame.window_found || !frame.camera_found {
            return SelectionChange::Keep;
        }
        let mut change = SelectionChange::Keep;
        if frame.world_cursor {
            match find_first_hit(&frame.node_hits) {
                Some(id) => {
                    change = SelectionChange::Select(id);
                },
                None => {
                    if !drag.is_dragging {
                        change = SelectionChange::Clear;
                    }
                },
            }
        }
        drag.is_dragging = false;
        drag.has_start = false;
        return change;
    }
    SelectionChange::Keep
}

/// `first_hit` finds the first hit: it is `Some(id)` exactly when some entry `(id, true)`
/// comes before every other hit entry.
pub proof fn lemma_first_hit_is_first(hits: Seq<(u64, bool)>, id: u64)
    ensures
        first_hit(hits) == Some(id) <==> exists|i: int|
            0 <= i < hits.len() && #[trigger] hits[i] == (id, true) && forall|j: int|
                0 <= j < i ==> !(#[trigger] hits[j]).1,
    decreases hits.len(),
{
    if hits.len() > 0 {
        let rest = hits.drop_first();
        lemma_first_hit_is_first(rest, id);
        if first_hit(hits) == Some(id) {
            if hits[0].1 {
                assert(hits[0] == (id, true));
            } else {
                let i = choose|i: int|
                    0 <= i < rest.len() && #[trigger] rest[i] == (id, true) && forall|j: int|
                        0 <= j < i ==> !(#[trigger] rest[j]).1;
                assert(hits[i + 1] == (id, true));
                assert forall|j: int| 0 <= j < i + 1 implies !(#[trigger] hits[j]).1 by {
                    if j > 0 {
                        assert(hits[j] == rest[j - 1]);
                    }
                }
            }
        } else {
            assert forall|i: int|
                0 <= i < hits.len() && #[trigger] hits[i] == (id, true) implies exists|j: int|
                0 <= j < i && (#[trigger] hits[j]).1 by {
                if hits[0].1 {
                    assert(hits[0].1);
                } else {
                    assert(i > 0);
                    assert(rest[i - 1] == hits[i]);
                    let k = choose|k: int| 0 <= k < i - 1 && (#[trigger] rest[k]).1;
                    assert(hits[k + 1] == rest[k]);
                }
            }
        }
    }
}

/// A release over a node selects the first node hit, whether the gesture was a click or a
/// drag.
pub proof fn lemma_release_on_node_selects(dragging: bool, f: PointerFrame, id: u64)
    requires
        f.world_cursor,
        first_hit(f.node_hits@) == Some(id),
    ensures
        release_change(dragging, f) == SelectionChange::Select(id),
{
}

/// Ending a drag never clears the selection: after a long motion with the button held, the
/// release keeps the selection unless it lands on a node.
pub proof fn lemma_drag_keeps_selection(s: MouseDragState, f: PointerFrame)
    requires
        f.left_pressed,
        any_large(f.large_motions@),
    ensures
        after_motion(s, f).is_dragging,
        release_change(after_motion(s, f).is_dragging, f) != SelectionChange::Clear,
{
}

/// A plain click on empty space (a press and a release in the same frame, with no long
/// motion) clears the selection.
pub proof fn lemma_click_on_empty_space_clears(s: MouseDragState, f: PointerFrame)
    requires
        f.left_just_pressed,
        !any_large(f.large_motions@),
        f.world_cursor,
        first_hit(f.node_hits@) == None::<u64>,
    ensures
        release_change(after_motion(s, f).is_dragging, f) == SelectionChange::Clear,
{
}

/// A gesture becomes a drag only through a long motion while the button is held: after a
/// frame, the drag flag is set exactly when it was already set and no new press started a
/// gesture, or a motion of this frame is longer than the threshold with the button held.
/// Holding the button still, over any number of frames, never makes a drag.
pub proof fn lemma_only_long_motion_drags(s: MouseDragState, f: PointerFrame)
    ensures
        after_motion(s, f).is_dragging == ((s.is_dragging && !f.left_just_pressed) || (f.left_pressed
            && any_large(f.large_motions@))),
{
}

/// The drag state after a run of frames in which the button is not released.
pub open spec fn held_frames(s: MouseDragState, frames: Seq<PointerFrame>) -> MouseDragState
    decreases frames.len(),
{
    if frames.len() == 0 {
        s
    } else {
        after_motion(held_frames(s, frames.drop_last()), frames.last())
    }
}

/// A click that lasts several frames is still a click: a press, any number of frames with
/// the button held but no long motion, then a release over empty space clears the selection.
pub proof fn lemma_long_click_on_empty_space_clears(
    s: MouseDragState,
    press: PointerFrame,
    held: Seq<PointerFrame>,
    release: PointerFrame,
)
    requires
        press.left_just_pressed,
        !any_large(press.large_motions@),
        forall|i: int| 0 <= i < held.len() ==> !any_large((#[trigger] held[i]).large_motions@),
        !any_large(release.large_motions@),
        release.world_cursor,
        first_hit(release.node_hits@) is None,
    ensures
        release_change(
            after_motion(held_frames(after_motion(s, press), held), release).is_dragging,
            release,
        ) == SelectionChange::Clear,
{
    lemma_only_long_motion_drags(s, press);
    lemma_still_frames_keep_click(after_motion(s, press), held);
    lemma_only_long_motion_drags(held_frames(after_motion(s, press), held), release);
}

proof fn lemma_still_frames_keep_click(s: MouseDragState, held: Seq<PointerFrame>)
    requires
        !s.is_dragging,
        forall|i: int| 0 <= i < held.len() ==> !any_large((#[trigger] held[i]).large_motions@),
    ensures
        !held_frames(s, held).is_dragging,
    decreases held.len(),
{
    if held.len() > 0 {
        let rest = held.drop_last();
        assert forall|i: int| 0 <= i < rest.len() implies !any_large(
            (#[trigger] rest[i]).large_motions@,
        ) by {
            assert(rest[i] == held[i]);
        }
        lemma_still_frames_keep_click(s, rest);
        assert(!any_large(held[held.len() - 1].large_motions@));
        lemma_only_long_motion_drags(held_frames(s, rest), held.last());
    }
}

} // verus!
