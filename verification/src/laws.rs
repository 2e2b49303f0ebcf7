//! Guarantees the drag controller gives across whole event sequences,
//! stated over the transition specifications of [`crate::drag`] and proved
//! once and for all.

use vstd::prelude::*;

use crate::drag::after_lost_capture;
use crate::drag::after_pointer_down;
use crate::drag::after_pointer_move;
use crate::drag::after_pointer_release;
use crate::drag::move_fits;
use crate::drag::pointer_down_request;
use crate::drag::pointer_release_request;
use crate::drag::CaptureRequest;
use crate::drag::DragController;
use crate::drag::DragState;
use crate::drag::Point;
use crate::drag::PointerButton;

verus! {

/// Cancellation is idempotent on an idle machine: a pointer-up or
/// pointer-cancel for any pointer, or a lost-capture notification, delivered
/// while idle, changes nothing at all — in particular the position stays as
/// it is — and issues no capture request.
pub proof fn lemma_cancellation_idempotent_on_idle(c: DragController, pointer_id: i32)
    requires
        c.state is Idle,
    ensures
        after_pointer_release(c, pointer_id) == c,
        after_lost_capture(c) == c,
        pointer_release_request(c, pointer_id) == None::<CaptureRequest>,
{
}

/// A drag is owned by a single pointer: after pointer `a` starts a session,
/// a move of any other pointer `b` changes nothing — neither the position
/// nor the session.
pub proof fn lemma_single_ownership(c: DragController, a: i32, b: i32, down_x: i64, down_y: i64, move_x: i64, move_y: i64)
    requires
        a != b,
    ensures
        ({
            let started = after_pointer_down(c, a, Some(PointerButton::Primary), down_x, down_y);
            after_pointer_move(started, b, move_x, move_y) == started
        }),
{
}

/// The displacement law: during a session, a move of the owning pointer to
/// `(move_x, move_y)` puts the element at
/// `position_origin + (pointer - click_origin)`, and leaves the session —
/// owner and both origins — exactly as it was.
pub proof fn lemma_displacement(c: DragController, move_x: i64, move_y: i64)
    requires
        c.state is Dragging,
        move_fits(c.state->position_origin, c.state->click_origin, move_x, move_y),
    ensures
        ({
            let moved = after_pointer_move(c, c.state->owner, move_x, move_y);
            &&& moved.state == c.state
            &&& moved.position.x == c.state->position_origin.x + (move_x - c.state->click_origin.x)
            &&& moved.position.y == c.state->position_origin.y + (move_y - c.state->click_origin.y)
        }),
{
}

/// A session closes exactly once: from a session owned by `a`, the first
/// pointer-up (or pointer-cancel) of `a` closes it and keeps the position;
/// a second one is a complete no-op and issues no capture request.
pub proof fn lemma_session_closes_once(c: DragController, a: i32)
    requires
        c.state matches DragState::Dragging { owner, .. } && owner == a,
    ensures
        ({
            let closed = after_pointer_release(c, a);
            &&& closed.state is Idle
            &&& closed.position == c.position
            &&& closed.mounted == c.mounted
            &&& after_pointer_release(closed, a) == closed
            &&& pointer_release_request(closed, a) == None::<CaptureRequest>
        }),
{
}

/// A pointer-down with anything but the primary button is rejected: the
/// machine — idle or not — is left exactly as it was, and no capture
/// request is issued.
pub proof fn lemma_non_primary_rejected(c: DragController, pointer_id: i32, button: Option<PointerButton>, down_x: i64, down_y: i64)
    requires
        button != Some(PointerButton::Primary),
    ensures
        after_pointer_down(c, pointer_id, button, down_x, down_y) == c,
        pointer_down_request(c, pointer_id, button) == None::<CaptureRequest>,
{
}

/// The capture-loss safety net: a lost-capture notification returns the
/// machine to idle from every state — it carries no pointer id and needs no
/// ownership match — while the position stays where the drag left it.
pub proof fn lemma_capture_loss_safety_net(c: DragController)
    ensures
        after_lost_capture(c).state is Idle,
        after_lost_capture(c).position == c.position,
        after_lost_capture(c).mounted == c.mounted,
{
}

/// The round trip: a drag started anywhere, moved by any delta and then
/// moved back to the click origin, returns the element exactly to where it
/// started — even if the intermediate move was ignored as unrepresentable.
pub proof fn lemma_round_trip(c: DragController, a: i32, click_x: i64, click_y: i64, move_x: i64, move_y: i64)
    ensures
        ({
            let started = after_pointer_down(c, a, Some(PointerButton::Primary), click_x, click_y);
            let away = after_pointer_move(started, a, move_x, move_y);
            let back = after_pointer_move(away, a, click_x, click_y);
            &&& back.position == c.position
            &&& back.state == started.state
        }),
{
}

} // verus!
