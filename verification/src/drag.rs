//! The drag state machine: types, transition specifications, and the
//! executable event handlers.
//!
//! A [`DragController`] cycles between two states, `Idle` and
//! `Dragging { owner, click_origin, position_origin }`, for the whole life of
//! the element it moves. Every handler is total: an event that does not apply
//! in the current state (a move for a pointer that does not own the drag, a
//! pointer-down with the wrong button, a release while idle) is silently
//! ignored, never an error. Coordinates are integer screen units.

use vstd::prelude::*;

verus! {

/// A logical position, or a pointer location, in integer screen units.
#[derive(Clone, Copy, PartialEq, Eq, Structural, Debug)]
pub struct Point {
    pub x: i64,
    pub y: i64,
}

/// The button that actuated a pointer-down event. Only [`PointerButton::Primary`]
/// (the left button of a conventional mouse) starts a drag.
#[derive(Clone, Copy, PartialEq, Eq, Structural, Debug)]
pub enum PointerButton {
    Primary,
    Secondary,
    Auxiliary,
    Fourth,
    Fifth,
}

/// A best-effort request the controller hands back to the host: acquire or
/// release native pointer capture for one pointer on the mounted element.
/// The host may fail to honour it; the controller's position arithmetic does
/// not depend on capture succeeding.
#[derive(Clone, Copy, PartialEq, Eq, Structural, Debug)]
pub enum CaptureRequest {
    Acquire { pointer_id: i32 },
    Release { pointer_id: i32 },
}

/// The drag session. The reference points exist exactly while a drag is
/// active, so the state "dragging but no owner" cannot be represented.
///
/// * `owner` — the id of the single pointer that owns this drag.
/// * `click_origin` — the pointer's screen coordinates at drag start.
/// * `position_origin` — the element's logical position at drag start.
#[derive(Clone, Copy, PartialEq, Eq, Structural, Debug)]
pub enum DragState {
    Idle,
    Dragging { owner: i32, click_origin: Point, position_origin: Point },
}

/// One draggable element's controller: its drag session, its current logical
/// position (the only value the rendering path reads), and whether the root
/// element has been mounted (capture requests are only issued once it has).
#[derive(Clone, Copy, PartialEq, Eq, Structural, Debug)]
pub struct DragController {
    pub state: DragState,
    pub position: Point,
    pub mounted: bool,
}

/// Whether a move of the owning pointer to `(pointer_x, pointer_y)` yields a
/// position whose coordinates both fit in `i64`. A move that would overflow
/// is treated like any other inapplicable event: ignored.
pub open spec fn move_fits(position_origin: Point, click_origin: Point, pointer_x: i64, pointer_y: i64) -> bool {
    &&& i64::MIN <= position_origin.x + pointer_x - click_origin.x <= i64::MAX
    &&& i64::MIN <= position_origin.y + pointer_y - click_origin.y <= i64::MAX
}

/// The position a move of the owning pointer to `(pointer_x, pointer_y)`
/// produces: purely additive, `position_origin + (pointer - click_origin)`,
/// with no clamping or snapping.
pub open spec fn moved_position(position_origin: Point, click_origin: Point, pointer_x: i64, pointer_y: i64) -> Point {
    Point {
        x: (position_origin.x + pointer_x - click_origin.x) as i64,
        y: (position_origin.y + pointer_y - click_origin.y) as i64,
    }
}

/// The controller after a pointer-down event. A non-primary button is
/// ignored. A primary-button down (re)starts the drag session: the pointer
/// becomes the owner, its coordinates become the click origin, and the
/// current position becomes the position origin. The position itself does
/// not change.
pub open spec fn after_pointer_down(c: DragController, pointer_id: i32, button: Option<PointerButton>, pointer_x: i64, pointer_y: i64) -> DragController {
    if button == Some(PointerButton::Primary) {
        DragController {
            state: DragState::Dragging {
                owner: pointer_id,
                click_origin: Point { x: pointer_x, y: pointer_y },
                position_origin: c.position,
            },
            position: c.position,
            mounted: c.mounted,
        }
    } else {
        c
    }
}

/// The capture request a pointer-down event produces: acquire capture for
/// the pointer, if the button is primary and the element is mounted.
pub open spec fn pointer_down_request(c: DragController, pointer_id: i32, button: Option<PointerButton>) -> Option<CaptureRequest> {
    if button == Some(PointerButton::Primary) && c.mounted {
        Some(CaptureRequest::Acquire { pointer_id })
    } else {
        None
    }
}

/// The controller after a pointer-move event. Only a move of the owning
/// pointer, during an active session, whose result is representable, changes
/// the position; the session itself (owner and both origins) never changes.
pub open spec fn after_pointer_move(c: DragController, pointer_id: i32, pointer_x: i64, pointer_y: i64) -> DragController {
    match c.state {
        DragState::Dragging { owner, click_origin, position_origin } => {
            if owner == pointer_id && move_fits(position_origin, click_origin, pointer_x, pointer_y) {
                DragController {
                    state: c.state,
                    position: moved_position(position_origin, click_origin, pointer_x, pointer_y),
                    mounted: c.mounted,
                }
            } else {
                c
            }
        },
        DragState::Idle => c,
    }
}

/// The controller after a pointer-up or pointer-cancel event. Only the
/// owning pointer closes the session; any other pointer, or a release while
/// idle, is ignored. The position is kept.
pub open spec fn after_pointer_release(c: DragController, pointer_id: i32) -> DragController {
    match c.state {
        DragState::Dragging { owner, .. } => {
            if owner == pointer_id {
                DragController { state: DragState::Idle, position: c.position, mounted: c.mounted }
            } else {
                c
            }
        },
        DragState::Idle => c,
    }
}

/// The capture request a pointer-up or pointer-cancel event produces:
/// release capture for the pointer, if it owns the session and the element
/// is mounted.
pub open spec fn pointer_release_request(c: DragController, pointer_id: i32) -> Option<CaptureRequest> {
    if (c.state matches DragState::Dragging { owner, .. } && owner == pointer_id) && c.mounted {
        Some(CaptureRequest::Release { pointer_id })
    } else {
        None
    }
}

/// The controller after a lost-pointer-capture event: unconditionally idle.
/// The event carries no pointer id, so there is no ownership guard; the
/// host's "you lost capture" signal is always trusted, which is the safety
/// net against a stuck drag. The position is kept.
pub open spec fn after_lost_capture(c: DragController) -> DragController {
    DragController { state: DragState::Idle, position: c.position, mounted: c.mounted }
}

impl DragController {
    /// A fresh controller: idle, not yet mounted, at the given position.
    pub fn new(initial_position: Point) -> (controller: DragController)
        ensures
            controller.state is Idle,
            controller.position == initial_position,
            !controller.mounted,
    {
        DragController { state: DragState::Idle, position: initial_position, mounted: false }
    }

    /// The current logical position, for the rendering path to project into
    /// an absolute placement.
    pub fn position(&self) -> (position: Point)
        ensures
            position == self.position,
    {
        self.position
    }

    /// Records that the rendered root element is attached. From now on the
    /// controller asks the host to acquire and release pointer capture; the
    /// drag state and the position are untouched.
    pub fn on_mounted(&mut self)
        ensures
            *final(self) == (DragController {
                state: old(self).state,
                position: old(self).position,
                mounted: true,
            }),
    {
        self.mounted = true;
    }

    /// Handles a pointer-down event. On a primary-button down the controller
    /// (re)starts the drag session owned by `pointer_id` and, if mounted,
    /// asks the host to acquire capture for it; any other button is ignored.
    pub fn on_pointer_down(&mut self, pointer_id: i32, button: Option<PointerButton>, client_x: i64, client_y: i64) -> (request: Option<CaptureRequest>)
        ensures
            *final(self) == after_pointer_down(*old(self), pointer_id, button, client_x, client_y),
            request == pointer_down_request(*old(self), pointer_id, button),
    {
        match button {
            Some(PointerButton::Primary) => {},
            _ => {
                return None;
            },
        }
        let request = if self.mounted {
            Some(CaptureRequest::Acquire { pointer_id })
        } else {
            None
        };
        self.state = DragState::Dragging {
            owner: pointer_id,
            click_origin: Point { x: client_x, y: client_y },
            position_origin: self.position,
        };
        request
    }

    /// Handles a pointer-move event. A move of the pointer that owns the
    /// active session displaces the element by exactly as much as the
    /// pointer has moved since drag start; a move of any other pointer, a
    /// move while idle, or a move whose result would not be representable is
    /// ignored.
    pub fn on_pointer_move(&mut self, pointer_id: i32, client_x: i64, client_y: i64)
        ensures
            *final(self) == after_pointer_move(*old(self), pointer_id, client_x, client_y),
    {
        match self.state {
            DragState::Dragging { owner, click_origin, position_origin } => {
                if owner == pointer_id {
                    let next_x: i128 = position_origin.x as i128 + (client_x as i128 - click_origin.x as i128);
                    let next_y: i128 = position_origin.y as i128 + (client_y as i128 - click_origin.y as i128);
                    let fits: bool = i64::MIN as i128 <= next_x && next_x <= i64::MAX as i128
                        && i64::MIN as i128 <= next_y && next_y <= i64::MAX as i128;
                    if fits {
                        self.position = Point { x: next_x as i64, y: next_y as i64 };
                    }
                }
            },
            DragState::Idle => {},
        }
    }

    /// Handles a pointer-up event. If `pointer_id` owns the active session
    /// the session closes and, if mounted, the controller asks the host to
    /// release capture for it; otherwise the event is ignored. The position
    /// stays where the drag left it.
    pub fn on_pointer_up(&mut self, pointer_id: i32) -> (request: Option<CaptureRequest>)
        ensures
            *final(self) == after_pointer_release(*old(self), pointer_id),
            request == pointer_release_request(*old(self), pointer_id),
    {
        self.finish_session(pointer_id)
    }

    /// Handles a pointer-cancel event: the host aborted the interaction
    /// (for example the device left, or a gesture took over). Exactly like a
    /// pointer-up of the same pointer.
    pub fn on_pointer_cancel(&mut self, pointer_id: i32) -> (request: Option<CaptureRequest>)
        ensures
            *final(self) == after_pointer_release(*old(self), pointer_id),
            request == pointer_release_request(*old(self), pointer_id),
    {
        self.finish_session(pointer_id)
    }

    /// Handles a lost-pointer-capture event: the host revoked capture out of
    /// band. The event names no pointer, so the session closes
    /// unconditionally — the safety net that prevents a stuck drag. Capture
    /// is already gone, so no release request is issued.
    pub fn on_lost_pointer_capture(&mut self)
        ensures
            *final(self) == after_lost_capture(*old(self)),
    {
        self.state = DragState::Idle;
    }

    /// Closes the session owned by `pointer_id`, shared by pointer-up and
    /// pointer-cancel.
    fn finish_session(&mut self, pointer_id: i32) -> (request: Option<CaptureRequest>)
        ensures
            *final(self) == after_pointer_release(*old(self), pointer_id),
            request == pointer_release_request(*old(self), pointer_id),
    {
        match self.state {
            DragState::Dragging { owner, .. } => {
                if owner == pointer_id {
                    self.state = DragState::Idle;
                    if self.mounted {
                        Some(CaptureRequest::Release { pointer_id })
                    } else {
                        None
                    }
                } else {
                    None
                }
            },
            DragState::Idle => None,
        }
    }

    /// Whether a drag session is currently active.
    pub fn is_dragging(&self) -> (dragging: bool)
        ensures
            dragging == (self.state is Dragging),
    {
        match self.state {
            DragState::Dragging { .. } => true,
            DragState::Idle => false,
        }
    }
}

} // verus!
