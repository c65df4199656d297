//! The hollow border frame shown while capturing: which part of it the
//! pointer is over, the cursor shown there, and what a drag there does.
//!
//! The pointer's position is compared with the frame's edges by the
//! application (its GUI toolkit works in fractional pixels); the decisions
//! on those comparisons are made here.
use vstd::prelude::*;
use crate::geometry::{moves_bottom, moves_left, moves_right, moves_top, ResizeCorner};
use crate::platform::windows::ResizeDirection;

verus! {

/// How close the pointer is to the frame's edges: within the 20-pixel
/// corner squares (`*_c`) and within the 15-pixel grab bands (`*_e`).
#[derive(Debug, Clone, Copy, PartialEq, Eq, Structural)]
pub struct EdgeProximity {
    pub left_c: bool,
    pub right_c: bool,
    pub top_c: bool,
    pub bottom_c: bool,
    pub left_e: bool,
    pub right_e: bool,
    pub top_e: bool,
    pub bottom_e: bool,
}

/// The part of the frame under the pointer.
#[derive(Debug, Clone, Copy, PartialEq, Eq, Structural)]
pub enum FramePart {
    TopLeft,
    TopRight,
    BottomLeft,
    BottomRight,
    TopEdge,
    BottomEdge,
    LeftEdge,
    RightEdge,
    Inside,
}

/// The part of the frame under the pointer: the corners first, then the
/// edges outside the corners, top, bottom, left, right.
pub open spec fn frame_part_spec(p: EdgeProximity) -> FramePart {
    let tl = p.left_c && p.top_c;
    let tr = p.right_c && p.top_c;
    let bl = p.left_c && p.bottom_c;
    let br = p.right_c && p.bottom_c;
    if tl {
        FramePart::TopLeft
    } else if tr {
        FramePart::TopRight
    } else if bl {
        FramePart::BottomLeft
    } else if br {
        FramePart::BottomRight
    } else if p.top_e {
        FramePart::TopEdge
    } else if p.bottom_e {
        FramePart::BottomEdge
    } else if p.left_e {
        FramePart::LeftEdge
    } else if p.right_e {
        FramePart::RightEdge
    } else {
        FramePart::Inside
    }
}

/// The part of the frame under the pointer.
pub fn frame_part(p: EdgeProximity) -> (r: FramePart)
    ensures
        r == frame_part_spec(p),
{
    let tl = p.left_c && p.top_c;
    let tr = p.right_c && p.top_c;
    let bl = p.left_c && p.bottom_c;
    let br = p.right_c && p.bottom_c;
    let top_edge = !tl && !tr && p.top_e;
    let bottom_edge = !bl && !br && p.bottom_e;
    let left_edge = !tl && !bl && p.left_e;
    let right_edge = !tr && !br && p.right_e;
    if tl {
        FramePart::TopLeft
    } else if tr {
        FramePart::TopRight
    } else if bl {
        FramePart::BottomLeft
    } else if br {
        FramePart::BottomRight
    } else if top_edge {
        FramePart::TopEdge
    } else if bottom_edge {
        FramePart::BottomEdge
    } else if left_edge {
        FramePart::LeftEdge
    } else if right_edge {
        FramePart::RightEdge
    } else {
        FramePart::Inside
    }
}

/// The resize direction (and so the cursor) over a part of the frame; the
/// top edge moves the frame, like a title bar.
pub fn direction_for_part(part: FramePart) -> (r: ResizeDirection)
    ensures
        r == match part {
            FramePart::TopLeft => ResizeDirection::TopLeft,
            FramePart::TopRight => ResizeDirection::TopRight,
            FramePart::BottomLeft => ResizeDirection::BottomLeft,
            FramePart::BottomRight => ResizeDirection::BottomRight,
            FramePart::TopEdge => ResizeDirection::Move,
            FramePart::BottomEdge => ResizeDirection::Bottom,
            FramePart::LeftEdge => ResizeDirection::Left,
            FramePart::RightEdge => ResizeDirection::Right,
            FramePart::Inside => ResizeDirection::Idle,
        },
{
    match part {
        FramePart::TopLeft => ResizeDirection::TopLeft,
        FramePart::TopRight => ResizeDirection::TopRight,
        FramePart::BottomLeft => ResizeDirection::BottomLeft,
        FramePart::BottomRight => ResizeDirection::BottomRight,
        FramePart::TopEdge => ResizeDirection::Move,
        FramePart::BottomEdge => ResizeDirection::Bottom,
        FramePart::LeftEdge => ResizeDirection::Left,
        FramePart::RightEdge => ResizeDirection::Right,
        FramePart::Inside => ResizeDirection::Idle,
    }
}

/// What a drag over the frame asks of the application.
#[derive(Debug, Clone, Copy, PartialEq, Eq, Structural)]
pub enum DragRequest {
    /// Resize the border window from this edge or corner.
    Resize(ResizeCorner),
    /// Move the border window.
    Move,
}

/// What a drag over a part of the frame asks, where the pointer moved: the
/// corners and the bottom, left and right edges resize, the top edge moves
/// the window, the inside does nothing.
pub open spec fn drag_request_spec(part: FramePart, moved: bool) -> Option<DragRequest> {
    if !moved {
        None
    } else {
        match part {
            FramePart::TopLeft => Some(DragRequest::Resize(ResizeCorner::TopLeft)),
            FramePart::TopRight => Some(DragRequest::Resize(ResizeCorner::TopRight)),
            FramePart::BottomLeft => Some(DragRequest::Resize(ResizeCorner::BottomLeft)),
            FramePart::BottomRight => Some(DragRequest::Resize(ResizeCorner::BottomRight)),
            FramePart::TopEdge => Some(DragRequest::Move),
            FramePart::BottomEdge => Some(DragRequest::Resize(ResizeCorner::BottomEdge)),
            FramePart::LeftEdge => Some(DragRequest::Resize(ResizeCorner::LeftEdge)),
            FramePart::RightEdge => Some(DragRequest::Resize(ResizeCorner::RightEdge)),
            FramePart::Inside => None,
        }
    }
}

/// What a drag over a part of the frame asks, where the pointer moved.
pub fn drag_request(part: FramePart, moved: bool) -> (r: Option<DragRequest>)
    ensures
        r == drag_request_spec(part, moved),
{
    if !moved {
        return None;
    }
    match part {
        FramePart::TopLeft => Some(DragRequest::Resize(ResizeCorner::TopLeft)),
        FramePart::TopRight => Some(DragRequest::Resize(ResizeCorner::TopRight)),
        FramePart::BottomLeft => Some(DragRequest::Resize(ResizeCorner::BottomLeft)),
        FramePart::BottomRight => Some(DragRequest::Resize(ResizeCorner::BottomRight)),
        FramePart::TopEdge => Some(DragRequest::Move),
        FramePart::BottomEdge => Some(DragRequest::Resize(ResizeCorner::BottomEdge)),
        FramePart::LeftEdge => Some(DragRequest::Resize(ResizeCorner::LeftEdge)),
        FramePart::RightEdge => Some(DragRequest::Resize(ResizeCorner::RightEdge)),
        FramePart::Inside => None,
    }
}

/// A drag over the frame resizes from the edges the pointer grabbed: every
/// edge the requested resize moves is one the pointer is near, a drag in a
/// corner square moves the two edges of that corner, a drag in one edge's
/// band away from the corners moves that edge alone, the top band moves the
/// window, and only the inside asks for nothing.
pub proof fn lemma_drag_moves_grabbed_edges(p: EdgeProximity)
    ensures
        ({
            let corner = (p.left_c || p.right_c) && (p.top_c || p.bottom_c);
            match drag_request_spec(frame_part_spec(p), true) {
                Some(DragRequest::Resize(c)) => {
                    &&& moves_left(c) ==> p.left_c || p.left_e
                    &&& moves_right(c) ==> p.right_c || p.right_e
                    &&& moves_top(c) ==> p.top_c
                    &&& moves_bottom(c) ==> p.bottom_c || p.bottom_e
                    &&& corner ==> (moves_left(c) || moves_right(c)) && (moves_top(c) || moves_bottom(c))
                    &&& corner ==> (moves_left(c) ==> p.left_c) && (moves_right(c) ==> p.right_c)
                    &&& corner ==> (moves_top(c) ==> p.top_c) && (moves_bottom(c) ==> p.bottom_c)
                    &&& !corner ==> {
                        &&& (moves_left(c) ==> p.left_e) && (moves_right(c) ==> p.right_e)
                        &&& (moves_bottom(c) ==> p.bottom_e) && !moves_top(c)
                        &&& (moves_left(c) || moves_right(c)) != moves_bottom(c)
                    }
                },
                Some(DragRequest::Move) => p.top_e && !corner,
                None => !corner && !p.top_e && !p.bottom_e && !p.left_e && !p.right_e,
            }
        }),
        drag_request_spec(frame_part_spec(p), false) is None,
{
}

/// What the frame tells the application.
#[derive(Debug, Clone, Copy, PartialEq, Eq, Structural)]
pub enum FrameEvent {
    /// Resize or move the border window by the drag's distance.
    Drag(DragRequest),
    /// The drag stopped: the application brings the preview and the capture
    /// region up to date.
    DragEnded,
}

/// The events of one pointer interaction with the frame: none where the
/// pointer is not over the window (`part` is `None`) or no event channel is
/// set; else the drag request of the part, where the pointer was dragged
/// and moved, then the end of the drag, where it stopped.
pub open spec fn frame_events_spec(
    part: Option<FramePart>,
    dragged: bool,
    moved: bool,
    drag_stopped: bool,
    has_proxy: bool,
) -> Seq<FrameEvent> {
    match part {
        None => Seq::<FrameEvent>::empty(),
        Some(p) => if !has_proxy {
            Seq::<FrameEvent>::empty()
        } else {
            let first = match drag_request_spec(p, dragged && moved) {
                Some(d) => seq![FrameEvent::Drag(d)],
                None => Seq::<FrameEvent>::empty(),
            };
            if drag_stopped {
                first.push(FrameEvent::DragEnded)
            } else {
                first
            }
        },
    }
}

/// The events of one interaction: nothing without a position over the
/// window or an event channel; otherwise the drag's request, sent exactly
/// when a drag moved over a part that asks for one, first, and the end of
/// the drag, sent exactly when the drag stopped, last.
pub proof fn lemma_frame_events_sent(
    part: Option<FramePart>,
    dragged: bool,
    moved: bool,
    drag_stopped: bool,
    has_proxy: bool,
)
    ensures
        ({
            let ev = frame_events_spec(part, dragged, moved, drag_stopped, has_proxy);
            &&& ev.len() <= 2
            &&& (part is None || !has_proxy) ==> ev.len() == 0
            &&& (part is Some && has_proxy) ==> {
                let p = part->0;
                &&& ev.contains(FrameEvent::DragEnded) == drag_stopped
                &&& drag_stopped ==> ev.last() == FrameEvent::DragEnded
                &&& forall|d: DragRequest|
                    #![trigger ev.contains(FrameEvent::Drag(d))]
                    ev.contains(FrameEvent::Drag(d)) <==> (dragged && moved && drag_request_spec(p, true)
                        == Some(d))
                &&& (ev.len() > 0 && ev[0] != FrameEvent::DragEnded) ==> ev[0] == FrameEvent::Drag(
                    drag_request_spec(p, true)->0,
                )
            }
        }),
{
    let ev = frame_events_spec(part, dragged, moved, drag_stopped, has_proxy);
    match part {
        Some(p) => {
            if has_proxy {
                let first = match drag_request_spec(p, dragged && moved) {
                    Some(d) => seq![FrameEvent::Drag(d)],
                    None => Seq::<FrameEvent>::empty(),
                };
                if drag_stopped {
                    assert(ev[ev.len() - 1] == FrameEvent::DragEnded);
                }
                if ev.contains(FrameEvent::DragEnded) {
                    let k = choose|k: int| 0 <= k < ev.len() && ev[k] == FrameEvent::DragEnded;
                    if !drag_stopped {
                        assert(ev == first);
                    }
                }
                assert forall|d: DragRequest| #![trigger ev.contains(FrameEvent::Drag(d))]
                    ev.contains(FrameEvent::Drag(d)) <==> (dragged && moved && drag_request_spec(p, true)
                        == Some(d)) by {
                    if ev.contains(FrameEvent::Drag(d)) {
                        let k = choose|k: int| 0 <= k < ev.len() && ev[k] == FrameEvent::Drag(d);
                        assert(k == 0);
                    }
                    if dragged && moved && drag_request_spec(p, true) == Some(d) {
                        assert(ev[0] == FrameEvent::Drag(d));
                    }
                }
            }
        },
        None => {},
    }
}

/// The events to send after a pointer interaction with the frame: `part` is
/// the part under the pointer (`None` where it is not over the window),
/// `dragged` whether it is being dragged, `moved` whether it moved since the
/// last frame, `drag_stopped` whether the drag ended, and `has_proxy`
/// whether the application's event channel is set.
pub fn frame_events(
    part: Option<FramePart>,
    dragged: bool,
    moved: bool,
    drag_stopped: bool,
    has_proxy: bool,
) -> (r: Vec<FrameEvent>)
    ensures
        r@ == frame_events_spec(part, dragged, moved, drag_stopped, has_proxy),
{
    let mut out: Vec<FrameEvent> = Vec::new();
    if let Some(p) = part {
        if has_proxy {
            if dragged && moved {
                if let Some(d) = drag_request(p, true) {
                    out.push(FrameEvent::Drag(d));
                }
            }
            if drag_stopped {
                out.push(FrameEvent::DragEnded);
            }
        }
    }
    assert(out@ =~= frame_events_spec(part, dragged, moved, drag_stopped, has_proxy));
    out
}

} // verus!
