//! The terminal mode switches around a UI session, as a plan of operations that the caller
//! performs in order.
use vstd::prelude::*;

verus! {

#[derive(Clone, Copy, Debug, PartialEq, Eq, Structural)]
pub enum TerminalOp {
    EnterAlternateScreen,
    EnableMouseCapture,
    EnableRawMode,
    /// Resize the drawing surface to the terminal's size, which forces a redraw.
    Resize,
    DisableRawMode,
    LeaveAlternateScreen,
    DisableMouseCapture,
    ShowCursor,
}

/// The parts of the terminal's state that the operations set.
#[derive(Clone, Copy, Debug, PartialEq, Eq, Structural)]
pub struct TerminalMode {
    pub raw: bool,
    pub alternate_screen: bool,
    pub mouse_capture: bool,
    pub cursor_visible: bool,
}

/// The state after `op`.
pub open spec fn apply(m: TerminalMode, op: TerminalOp) -> TerminalMode {
    match op {
        TerminalOp::EnterAlternateScreen => TerminalMode { alternate_screen: true, ..m },
        TerminalOp::EnableMouseCapture => TerminalMode { mouse_capture: true, ..m },
        TerminalOp::EnableRawMode => TerminalMode { raw: true, ..m },
        TerminalOp::Resize => m,
        TerminalOp::DisableRawMode => TerminalMode { raw: false, ..m },
        TerminalOp::LeaveAlternateScreen => TerminalMode { alternate_screen: false, ..m },
        TerminalOp::DisableMouseCapture => TerminalMode { mouse_capture: false, ..m },
        TerminalOp::ShowCursor => TerminalMode { cursor_visible: true, ..m },
    }
}

/// The state after `ops`, performed in order.
pub open spec fn apply_all(m: TerminalMode, ops: Seq<TerminalOp>) -> TerminalMode
    decreases ops.len(),
{
    if ops.len() == 0 {
        m
    } else {
        apply(apply_all(m, ops.drop_last()), ops.last())
    }
}

/// The state of a terminal outside a UI session.
pub open spec fn restored() -> TerminalMode {
    TerminalMode { raw: false, alternate_screen: false, mouse_capture: false, cursor_visible: true }
}

/// The state of a terminal inside a UI session.
pub open spec fn session_mode(m: TerminalMode) -> TerminalMode {
    TerminalMode { raw: true, alternate_screen: true, mouse_capture: true, ..m }
}

/// Raw mode, the alternate screen and mouse capture on, then a redraw.
pub fn enter_tui_ops() -> (r: Vec<TerminalOp>)
    ensures
        r@ == seq![
            TerminalOp::EnterAlternateScreen,
            TerminalOp::EnableMouseCapture,
            TerminalOp::EnableRawMode,
            TerminalOp::Resize,
        ],
{
    let mut r: Vec<TerminalOp> = Vec::new();
    r.push(TerminalOp::EnterAlternateScreen);
    r.push(TerminalOp::EnableMouseCapture);
    r.push(TerminalOp::EnableRawMode);
    r.push(TerminalOp::Resize);
    assert(r@ =~= seq![
        TerminalOp::EnterAlternateScreen,
        TerminalOp::EnableMouseCapture,
        TerminalOp::EnableRawMode,
        TerminalOp::Resize,
    ]);
    r
}

/// Raw mode off, the alternate screen left, mouse capture off, the cursor shown.
pub fn leave_tui_ops() -> (r: Vec<TerminalOp>)
    ensures
        r@ == seq![
            TerminalOp::DisableRawMode,
            TerminalOp::LeaveAlternateScreen,
            TerminalOp::DisableMouseCapture,
            TerminalOp::ShowCursor,
        ],
{
    let mut r: Vec<TerminalOp> = Vec::new();
    r.push(TerminalOp::DisableRawMode);
    r.push(TerminalOp::LeaveAlternateScreen);
    r.push(TerminalOp::DisableMouseCapture);
    r.push(TerminalOp::ShowCursor);
    assert(r@ =~= seq![
        TerminalOp::DisableRawMode,
        TerminalOp::LeaveAlternateScreen,
        TerminalOp::DisableMouseCapture,
        TerminalOp::ShowCursor,
    ]);
    r
}

/// Entering puts any terminal in session mode.
pub proof fn law_enter_sets_session_mode(m: TerminalMode, ops: Seq<TerminalOp>)
    requires
        ops == seq![
            TerminalOp::EnterAlternateScreen,
            TerminalOp::EnableMouseCapture,
            TerminalOp::EnableRawMode,
            TerminalOp::Resize,
        ],
    ensures
        apply_all(m, ops) == session_mode(m),
{
    reveal_with_fuel(apply_all, 5);
    assert(ops.drop_last().drop_last().drop_last().drop_last() =~= Seq::<TerminalOp>::empty());
}

/// Leaving restores the terminal from any state, whether or not a session was entered,
/// so leaving twice in a row leaves it restored too.
pub proof fn law_leave_restores(m: TerminalMode, ops: Seq<TerminalOp>)
    requires
        ops == seq![
            TerminalOp::DisableRawMode,
            TerminalOp::LeaveAlternateScreen,
            TerminalOp::DisableMouseCapture,
            TerminalOp::ShowCursor,
        ],
    ensures
        apply_all(m, ops) == restored(),
        apply_all(apply_all(m, ops), ops) == restored(),
{
    reveal_with_fuel(apply_all, 5);
    assert(ops.drop_last().drop_last().drop_last().drop_last() =~= Seq::<TerminalOp>::empty());
    let m2 = apply_all(m, ops);
    assert(apply_all(m2, ops) == restored());
}

} // verus!
