//! Locking the cursor when it enters the primary window.
//!
//! The engine reports window events; this module decides, event by
//! event, what the cursor's lock and visibility become. Only a cursor
//! entry on the primary window changes anything.

use vstd::prelude::*;

verus! {

/// A window event as the engine reports it, by window identifier.
#[derive(Clone, Copy, PartialEq, Eq, Structural, Debug)]
pub enum WindowEvent {
    CursorEntered { window: u64 },
    CursorLeft { window: u64 },
    Focused { window: u64, gained: bool },
    Resized { window: u64, width: u32, height: u32 },
}

/// Whether the cursor is held by the window, and whether it is drawn.
#[derive(Clone, Copy, PartialEq, Eq, Structural, Debug)]
pub struct CursorState {
    pub locked: bool,
    pub visible: bool,
}

/// The state after the cursor enters the primary window: held, hidden.
pub open spec fn locked_cursor() -> CursorState {
    CursorState { locked: true, visible: false }
}

/// Whether `ev` is a cursor entry on the window `primary`.
pub open spec fn is_primary_entry(primary: u64, ev: WindowEvent) -> bool {
    match ev {
        WindowEvent::CursorEntered { window } => window == primary,
        _ => false,
    }
}

/// What one event makes of the cursor state: a cursor entry on the
/// primary window locks and hides the cursor, anything else is a no-op.
pub open spec fn cursor_step(s: CursorState, primary: u64, ev: WindowEvent) -> CursorState {
    if is_primary_entry(primary, ev) {
        locked_cursor()
    } else {
        s
    }
}

/// The cursor state after a run of events, each applied once, in order.
pub open spec fn cursor_after(s: CursorState, primary: u64, evs: Seq<WindowEvent>) -> CursorState
    decreases evs.len(),
{
    if evs.len() == 0 {
        s
    } else {
        cursor_after(cursor_step(s, primary, evs[0]), primary, evs.drop_first())
    }
}

/// Applies one window event to the cursor state.
pub fn apply_window_event(s: CursorState, primary: u64, ev: &WindowEvent) -> (r: CursorState)
    ensures
        r == cursor_step(s, primary, *ev),
{
    match ev {
        WindowEvent::CursorEntered { window } => {
            if *window == primary {
                CursorState { locked: true, visible: false }
            } else {
                s
            }
        },
        _ => s,
    }
}

/// Applies a batch of window events, each exactly once, in order.
pub fn apply_window_events(s: CursorState, primary: u64, evs: &Vec<WindowEvent>) -> (r: CursorState)
    ensures
        r == cursor_after(s, primary, evs@),
{
    let mut cur = s;
    let mut idx: usize = 0;
    proof {
        assert(evs@.skip(0) =~= evs@);
    }
    while idx < evs.len()
        invariant
            idx <= evs@.len(),
            cursor_after(s, primary, evs@) == cursor_after(cur, primary, evs@.skip(idx as int)),
        decreases evs@.len() - idx,
    {
        proof {
            assert(evs@.skip(idx as int)[0] == evs@[idx as int]);
            assert(evs@.skip(idx as int).drop_first() =~= evs@.skip(idx as int + 1));
        }
        cur = apply_window_event(cur, primary, &evs[idx]);
        idx = idx + 1;
    }
    proof {
        assert(evs@.skip(evs@.len() as int) =~= Seq::<WindowEvent>::empty());
    }
    cur
}

/// A run of events with no cursor entry on the primary window leaves the
/// cursor state exactly as it was.
pub proof fn lemma_no_primary_entry_no_change(s: CursorState, primary: u64, evs: Seq<WindowEvent>)
    requires
        forall|i: int| 0 <= i < evs.len() ==> !is_primary_entry(primary, evs[i]),
    ensures
        cursor_after(s, primary, evs) == s,
    decreases evs.len(),
{
    if evs.len() > 0 {
        assert(!is_primary_entry(primary, evs[0]));
        lemma_no_primary_entry_no_change(s, primary, evs.drop_first());
    }
}

/// Once any event of a run is a cursor entry on the primary window, the
/// run ends with the cursor locked and hidden.
pub proof fn lemma_primary_entry_locks(s: CursorState, primary: u64, evs: Seq<WindowEvent>)
    requires
        exists|i: int| 0 <= i < evs.len() && is_primary_entry(primary, evs[i]),
    ensures
        cursor_after(s, primary, evs) == locked_cursor(),
    decreases evs.len(),
{
    let i: int = choose|i: int| 0 <= i < evs.len() && is_primary_entry(primary, evs[i]);
    if i == 0 {
        lemma_locked_stays_locked(primary, evs.drop_first());
    } else {
        assert(0 <= i - 1 < evs.drop_first().len() && is_primary_entry(
            primary,
            evs.drop_first()[i - 1],
        ));
        lemma_primary_entry_locks(cursor_step(s, primary, evs[0]), primary, evs.drop_first());
    }
}

/// No event moves the cursor out of the locked, hidden state.
pub proof fn lemma_locked_stays_locked(primary: u64, evs: Seq<WindowEvent>)
    ensures
        cursor_after(locked_cursor(), primary, evs) == locked_cursor(),
    decreases evs.len(),
{
    if evs.len() > 0 {
        lemma_locked_stays_locked(primary, evs.drop_first());
    }
}

} // verus!
