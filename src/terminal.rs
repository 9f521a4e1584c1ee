use vstd::prelude::*;

verus! {

/// A terminal-control call that a selection session makes.
#[derive(Clone, Copy, Debug, PartialEq, Eq, Structural)]
pub enum TerminalOp {
    EnableRawMode,
    EnterAlternateScreen,
    HideCursor,
    ShowCursor,
    LeaveAlternateScreen,
    DisableRawMode,
}

/// The part of a render that failed.
#[derive(Clone, Copy, Debug, PartialEq, Eq, Structural)]
pub enum RenderStep {
    ClearScreen,
    DrawOption,
    PlaceCursor,
}

/// A failed terminal-control call, with the call that failed.
#[derive(Clone, Copy, Debug, PartialEq, Eq, Structural)]
pub enum TerminalError {
    /// A call of the acquisition failed.
    Enable(TerminalOp),
    /// Drawing the menu failed.
    Render(RenderStep),
    /// A call of the release failed; it is reported, never returned.
    Restore(TerminalOp),
}

/// The terminal state that a session takes over.
#[derive(Clone, Copy, Debug, PartialEq, Eq, Structural)]
pub struct TerminalFlags {
    pub raw_mode: bool,
    pub alternate_screen: bool,
    pub cursor_hidden: bool,
}

/// One terminal-control call and whether it succeeded.
#[derive(Clone, Copy, Debug, PartialEq, Eq, Structural)]
pub struct TerminalCall {
    pub op: TerminalOp,
    pub ok: bool,
}

impl TerminalOp {
    /// The calls that undo an acquisition.
    pub open spec fn is_release(self) -> bool {
        match self {
            TerminalOp::ShowCursor | TerminalOp::LeaveAlternateScreen
            | TerminalOp::DisableRawMode => true,
            _ => false,
        }
    }

    pub fn is_release_op(&self) -> (r: bool)
        ensures
            r == self.is_release(),
    {
        match self {
            TerminalOp::ShowCursor | TerminalOp::LeaveAlternateScreen
            | TerminalOp::DisableRawMode => true,
            _ => false,
        }
    }
}

impl TerminalFlags {
    /// Line mode, main screen, cursor shown.
    pub open spec fn is_normal(self) -> bool {
        !self.raw_mode && !self.alternate_screen && !self.cursor_hidden
    }

    /// Every flag that an acquisition sets is set.
    pub open spec fn is_full(self) -> bool {
        self.raw_mode && self.alternate_screen && self.cursor_hidden
    }

    /// The flags are set in acquisition order: raw mode, then the alternate
    /// screen, then the hidden cursor.
    pub open spec fn is_prefix(self) -> bool {
        &&& self.alternate_screen ==> self.raw_mode
        &&& self.cursor_hidden ==> self.alternate_screen
    }

    pub fn normal() -> (r: TerminalFlags)
        ensures
            r.is_normal(),
    {
        TerminalFlags { raw_mode: false, alternate_screen: false, cursor_hidden: false }
    }

    pub fn is_normal_now(&self) -> (r: bool)
        ensures
            r == self.is_normal(),
    {
        !self.raw_mode && !self.alternate_screen && !self.cursor_hidden
    }

    pub fn is_full_now(&self) -> (r: bool)
        ensures
            r == self.is_full(),
    {
        self.raw_mode && self.alternate_screen && self.cursor_hidden
    }
}

/// The flags after `op` succeeded.
pub open spec fn apply_op(f: TerminalFlags, op: TerminalOp) -> TerminalFlags {
    match op {
        TerminalOp::EnableRawMode => TerminalFlags { raw_mode: true, ..f },
        TerminalOp::EnterAlternateScreen => TerminalFlags { alternate_screen: true, ..f },
        TerminalOp::HideCursor => TerminalFlags { cursor_hidden: true, ..f },
        TerminalOp::ShowCursor => TerminalFlags { cursor_hidden: false, ..f },
        TerminalOp::LeaveAlternateScreen => TerminalFlags { alternate_screen: false, ..f },
        TerminalOp::DisableRawMode => TerminalFlags { raw_mode: false, ..f },
    }
}

/// The flags after `calls` were made in turn; a call that failed changes nothing.
pub open spec fn apply_calls(f: TerminalFlags, calls: Seq<TerminalCall>) -> TerminalFlags
    decreases calls.len(),
{
    if calls.len() == 0 {
        f
    } else {
        let before = apply_calls(f, calls.drop_last());
        if calls.last().ok {
            apply_op(before, calls.last().op)
        } else {
            before
        }
    }
}

/// Every release call in `calls` succeeded.
pub open spec fn releases_succeeded(calls: Seq<TerminalCall>) -> bool {
    forall|i: int| 0 <= i < calls.len() && (#[trigger] calls[i]).op.is_release() ==> calls[i].ok
}

/// The next call of an acquisition that holds `held`.
pub open spec fn acquire_op(held: TerminalFlags) -> TerminalOp {
    if !held.raw_mode {
        TerminalOp::EnableRawMode
    } else if !held.alternate_screen {
        TerminalOp::EnterAlternateScreen
    } else {
        TerminalOp::HideCursor
    }
}

/// The next call of a release that still holds `held`: the reverse of the
/// acquisition order.
pub open spec fn release_op(held: TerminalFlags) -> TerminalOp {
    if held.cursor_hidden {
        TerminalOp::ShowCursor
    } else if held.alternate_screen {
        TerminalOp::LeaveAlternateScreen
    } else {
        TerminalOp::DisableRawMode
    }
}

pub fn next_acquire_op(held: &TerminalFlags) -> (r: TerminalOp)
    ensures
        r == acquire_op(*held),
{
    if !held.raw_mode {
        TerminalOp::EnableRawMode
    } else if !held.alternate_screen {
        TerminalOp::EnterAlternateScreen
    } else {
        TerminalOp::HideCursor
    }
}

pub fn next_release_op(held: &TerminalFlags) -> (r: TerminalOp)
    ensures
        r == release_op(*held),
{
    if held.cursor_hidden {
        TerminalOp::ShowCursor
    } else if held.alternate_screen {
        TerminalOp::LeaveAlternateScreen
    } else {
        TerminalOp::DisableRawMode
    }
}

/// The flags after `op` succeeded.
pub fn apply(f: TerminalFlags, op: TerminalOp) -> (r: TerminalFlags)
    ensures
        r == apply_op(f, op),
{
    match op {
        TerminalOp::EnableRawMode => TerminalFlags { raw_mode: true, ..f },
        TerminalOp::EnterAlternateScreen => TerminalFlags { alternate_screen: true, ..f },
        TerminalOp::HideCursor => TerminalFlags { cursor_hidden: true, ..f },
        TerminalOp::ShowCursor => TerminalFlags { cursor_hidden: false, ..f },
        TerminalOp::LeaveAlternateScreen => TerminalFlags { alternate_screen: false, ..f },
        TerminalOp::DisableRawMode => TerminalFlags { raw_mode: false, ..f },
    }
}

} // verus!
