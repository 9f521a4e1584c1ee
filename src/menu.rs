use vstd::prelude::*;

use crate::terminal::{
    acquire_op, apply, apply_op, next_acquire_op, next_release_op, release_op, RenderStep,
    TerminalCall, TerminalError, TerminalFlags, TerminalOp,
};

verus! {

/// A key that the menu reacts to; every other key is `Other`.
#[derive(Clone, Copy, Debug, PartialEq, Eq, Structural)]
pub enum Key {
    Up,
    Down,
    Enter,
    Other,
}

/// One input event read from the terminal.
#[derive(Clone, Copy, Debug, PartialEq, Eq, Structural)]
pub enum RawEvent {
    KeyPress(Key),
    Resize(u16, u16),
    Other,
}

/// The cursor after `event`, on a list of `len` options.
pub open spec fn next_cursor(cursor: nat, len: nat, event: RawEvent) -> nat {
    match event {
        RawEvent::KeyPress(Key::Up) => if cursor > 0 { (cursor - 1) as nat } else { cursor },
        RawEvent::KeyPress(Key::Down) => if cursor + 1 < len { cursor + 1 } else { cursor },
        _ => cursor,
    }
}

/// Move the cursor for `event`: Up and Down step one row and stop at the
/// first and last rows; any other event leaves it.
pub fn move_cursor(cursor: usize, len: usize, event: RawEvent) -> (r: usize)
    requires
        cursor < len,
    ensures
        r == next_cursor(cursor as nat, len as nat, event),
        r < len,
{
    match event {
        RawEvent::KeyPress(Key::Up) => if cursor > 0 { cursor - 1 } else { cursor },
        RawEvent::KeyPress(Key::Down) => if cursor + 1 < len { cursor + 1 } else { cursor },
        _ => cursor,
    }
}

/// Why a selection ended without a choice.
#[derive(Clone, Copy, Debug, PartialEq, Eq, Structural)]
pub enum InteractionError {
    /// A terminal-control call failed.
    Terminal(TerminalError),
    /// The event channel closed before a choice was confirmed.
    RecvEvent,
}

/// Where a selection stands.
#[derive(Clone, Copy, Debug, PartialEq, Eq)]
pub enum Phase {
    /// Taking over the terminal, one call at a time.
    Acquiring,
    /// Showing the menu and reading events.
    Running,
    /// Giving the terminal back; the result is already decided.
    Releasing(Result<usize, InteractionError>),
    /// The terminal is given back.
    Done(Result<usize, InteractionError>),
}

/// What the driver of a selection must do next.
#[derive(Clone, Copy, Debug, PartialEq, Eq)]
pub enum Action {
    /// Make this terminal-control call, then report `OpOk` or `OpFailed`.
    Terminal(TerminalOp),
    /// Draw the options with this row highlighted, then report `Rendered` or
    /// `RenderFailed`.
    Render(usize),
    /// Wait for the next event, then report `Event` or `Closed`.
    AwaitEvent,
    /// Return this result to the caller.
    Finish(Result<usize, InteractionError>),
}

/// What the driver reports after doing an action.
#[derive(Clone, Copy, Debug, PartialEq, Eq, Structural)]
pub enum Feedback {
    OpOk,
    OpFailed,
    Rendered,
    RenderFailed(RenderStep),
    Event(RawEvent),
    Closed,
}

/// The state of one selection: a cursor over `len` options and the terminal
/// state that the selection holds.
pub struct Selection {
    len: usize,
    cursor: usize,
    phase: Phase,
    held: TerminalFlags,
    needs_render: bool,
    calls: Ghost<Seq<TerminalCall>>,
}

/// The abstract state of a selection; `calls` records every terminal-control
/// call made so far.
pub struct SelectionView {
    pub len: usize,
    pub cursor: usize,
    pub phase: Phase,
    pub held: TerminalFlags,
    pub needs_render: bool,
    pub calls: Seq<TerminalCall>,
}

impl View for Selection {
    type V = SelectionView;

    closed spec fn view(&self) -> SelectionView {
        SelectionView {
            len: self.len,
            cursor: self.cursor,
            phase: self.phase,
            held: self.held,
            needs_render: self.needs_render,
            calls: self.calls@,
        }
    }
}

/// A fresh selection over `len` options.
pub open spec fn initial(len: usize) -> SelectionView {
    SelectionView {
        len,
        cursor: 0,
        phase: Phase::Acquiring,
        held: TerminalFlags { raw_mode: false, alternate_screen: false, cursor_hidden: false },
        needs_render: false,
        calls: Seq::empty(),
    }
}

/// The action that a selection in state `m` asks for.
pub open spec fn action_of(m: SelectionView) -> Action {
    match m.phase {
        Phase::Acquiring => Action::Terminal(acquire_op(m.held)),
        Phase::Running => if m.needs_render {
            Action::Render(m.cursor)
        } else {
            Action::AwaitEvent
        },
        Phase::Releasing(_) => Action::Terminal(release_op(m.held)),
        Phase::Done(r) => Action::Finish(r),
    }
}

/// Decide `result` and start giving the terminal back.
pub open spec fn begin_release(
    m: SelectionView,
    result: Result<usize, InteractionError>,
) -> SelectionView {
    if m.held.is_normal() {
        SelectionView { phase: Phase::Done(result), ..m }
    } else {
        SelectionView { phase: Phase::Releasing(result), ..m }
    }
}

/// The state after an event, while the menu waits for one.
pub open spec fn on_event(m: SelectionView, event: RawEvent) -> SelectionView {
    match event {
        RawEvent::KeyPress(Key::Enter) => begin_release(m, Ok(m.cursor)),
        RawEvent::KeyPress(Key::Up) | RawEvent::KeyPress(Key::Down) => SelectionView {
            cursor: next_cursor(m.cursor as nat, m.len as nat, event) as usize,
            needs_render: true,
            ..m
        },
        RawEvent::Resize(_, _) => SelectionView { needs_render: true, ..m },
        _ => m,
    }
}

/// The state after the driver reports `fb` on the action of `m`. A report that
/// does not answer that action changes nothing.
pub open spec fn step(m: SelectionView, fb: Feedback) -> SelectionView {
    match m.phase {
        Phase::Acquiring => {
            let op = acquire_op(m.held);
            match fb {
                Feedback::OpOk => {
                    let held = apply_op(m.held, op);
                    let calls = m.calls.push(TerminalCall { op, ok: true });
                    if held.is_full() {
                        SelectionView { phase: Phase::Running, held, needs_render: true, calls, ..m }
                    } else {
                        SelectionView { held, calls, ..m }
                    }
                },
                Feedback::OpFailed => begin_release(
                    SelectionView { calls: m.calls.push(TerminalCall { op, ok: false }), ..m },
                    Err(InteractionError::Terminal(TerminalError::Enable(op))),
                ),
                _ => m,
            }
        },
        Phase::Running => if m.needs_render {
            match fb {
                Feedback::Rendered => SelectionView { needs_render: false, ..m },
                Feedback::RenderFailed(s) => begin_release(
                    m,
                    Err(InteractionError::Terminal(TerminalError::Render(s))),
                ),
                _ => m,
            }
        } else {
            match fb {
                Feedback::Event(e) => on_event(m, e),
                Feedback::Closed => begin_release(m, Err(InteractionError::RecvEvent)),
                _ => m,
            }
        },
        Phase::Releasing(r) => {
            let op = release_op(m.held);
            let ok = fb is OpOk;
            if fb is OpOk || fb is OpFailed {
                let held = apply_op(m.held, op);
                let calls = m.calls.push(TerminalCall { op, ok });
                if held.is_normal() {
                    SelectionView { phase: Phase::Done(r), held, calls, ..m }
                } else {
                    SelectionView { held, calls, ..m }
                }
            } else {
                m
            }
        },
        Phase::Done(_) => m,
    }
}

/// The state after the reports of `fbs` in turn.
pub open spec fn run(m: SelectionView, fbs: Seq<Feedback>) -> SelectionView
    decreases fbs.len(),
{
    if fbs.len() == 0 {
        m
    } else {
        step(run(m, fbs.drop_last()), fbs.last())
    }
}

/// What holds of every state that a selection reaches.
pub open spec fn reachable_inv(m: SelectionView) -> bool {
    &&& m.len > 0
    &&& m.cursor < m.len
    &&& m.held.is_prefix()
    &&& m.phase is Acquiring ==> !m.held.is_full()
    &&& m.phase is Running ==> m.held.is_full()
    &&& m.phase is Releasing ==> !m.held.is_normal()
    &&& m.phase is Done ==> m.held.is_normal()
    &&& (m.phase matches Phase::Releasing(Ok(i)) ==> i < m.len)
    &&& (m.phase matches Phase::Done(Ok(i)) ==> i < m.len)
    &&& crate::terminal::releases_succeeded(m.calls) ==> crate::terminal::apply_calls(
        TerminalFlags { raw_mode: false, alternate_screen: false, cursor_hidden: false },
        m.calls,
    ) == m.held
}

impl Selection {
    pub closed spec fn wf(&self) -> bool {
        reachable_inv(self@)
    }

    /// A selection over `len` options, with the cursor on the first.
    pub fn new(len: usize) -> (r: Selection)
        requires
            len > 0,
        ensures
            r@ == initial(len),
            r.wf(),
    {
        let r = Selection {
            len,
            cursor: 0,
            phase: Phase::Acquiring,
            held: TerminalFlags::normal(),
            needs_render: false,
            calls: Ghost(Seq::empty()),
        };
        proof {
            assert(r@.calls =~= Seq::<TerminalCall>::empty());
        }
        r
    }

    /// The row that the cursor is on.
    pub fn cursor(&self) -> (r: usize)
        ensures
            r == self@.cursor,
    {
        self.cursor
    }

    /// The action that the driver must do next.
    pub fn next_action(&self) -> (r: Action)
        ensures
            r == action_of(self@),
    {
        match self.phase {
            Phase::Acquiring => Action::Terminal(next_acquire_op(&self.held)),
            Phase::Running => if self.needs_render {
                Action::Render(self.cursor)
            } else {
                Action::AwaitEvent
            },
            Phase::Releasing(_) => Action::Terminal(next_release_op(&self.held)),
            Phase::Done(r) => Action::Finish(r),
        }
    }

    fn release(&mut self, result: Result<usize, InteractionError>)
        ensures
            final(self)@ == begin_release(old(self)@, result),
    {
        if self.held.is_normal_now() {
            self.phase = Phase::Done(result);
        } else {
            self.phase = Phase::Releasing(result);
        }
    }

    /// Take the driver's report on the last action.
    pub fn advance(&mut self, fb: Feedback)
        requires
            old(self).wf(),
        ensures
            final(self).wf(),
            final(self)@ == step(old(self)@, fb),
    {
        proof {
            lemma_step_inv(self@, fb);
        }
        match self.phase {
            Phase::Acquiring => {
                let op = next_acquire_op(&self.held);
                match fb {
                    Feedback::OpOk => {
                        self.held = apply(self.held, op);
                        self.calls = Ghost(self.calls@.push(TerminalCall { op, ok: true }));
                        if self.held.is_full_now() {
                            self.phase = Phase::Running;
                            self.needs_render = true;
                        }
                    },
                    Feedback::OpFailed => {
                        self.calls = Ghost(self.calls@.push(TerminalCall { op, ok: false }));
                        self.release(Err(InteractionError::Terminal(TerminalError::Enable(op))));
                    },
                    _ => {},
                }
            },
            Phase::Running => {
                if self.needs_render {
                    match fb {
                        Feedback::Rendered => {
                            self.needs_render = false;
                        },
                        Feedback::RenderFailed(s) => {
                            self.release(Err(InteractionError::Terminal(TerminalError::Render(s))));
                        },
                        _ => {},
                    }
                } else {
                    match fb {
                        Feedback::Event(e) => match e {
                            RawEvent::KeyPress(Key::Enter) => {
                                let c = self.cursor;
                                self.release(Ok(c));
                            },
                            RawEvent::KeyPress(Key::Up) | RawEvent::KeyPress(Key::Down) => {
                                self.cursor = move_cursor(self.cursor, self.len, e);
                                self.needs_render = true;
                            },
                            RawEvent::Resize(_, _) => {
                                self.needs_render = true;
                            },
                            _ => {},
                        },
                        Feedback::Closed => {
                            self.release(Err(InteractionError::RecvEvent));
                        },
                        _ => {},
                    }
                }
            },
            Phase::Releasing(r) => {
                let op = next_release_op(&self.held);
                match fb {
                    Feedback::OpOk | Feedback::OpFailed => {
                        let ok = match fb {
                            Feedback::OpOk => true,
                            _ => false,
                        };
                        self.held = apply(self.held, op);
                        self.calls = Ghost(self.calls@.push(TerminalCall { op, ok }));
                        if self.held.is_normal_now() {
                            self.phase = Phase::Done(r);
                        }
                    },
                    _ => {},
                }
            },
            Phase::Done(_) => {},
        }
    }
}

proof fn lemma_apply_calls_push(f: TerminalFlags, calls: Seq<TerminalCall>, c: TerminalCall)
    ensures
        crate::terminal::apply_calls(f, calls.push(c)) == (if c.ok {
            apply_op(crate::terminal::apply_calls(f, calls), c.op)
        } else {
            crate::terminal::apply_calls(f, calls)
        }),
{
    assert(calls.push(c).drop_last() =~= calls);
}

proof fn lemma_releases_push(calls: Seq<TerminalCall>, c: TerminalCall)
    ensures
        crate::terminal::releases_succeeded(calls.push(c)) ==> crate::terminal::releases_succeeded(
            calls,
        ),
        crate::terminal::releases_succeeded(calls.push(c)) ==> (c.op.is_release() ==> c.ok),
{
    if crate::terminal::releases_succeeded(calls.push(c)) {
        assert forall|i: int|
            0 <= i < calls.len() && (#[trigger] calls[i]).op.is_release() implies calls[i].ok by {
            assert(calls.push(c)[i] == calls[i]);
        }
        assert(calls.push(c)[calls.len() as int] == c);
    }
}

/// One step keeps every state reachable.
proof fn lemma_step_inv(m: SelectionView, fb: Feedback)
    requires
        reachable_inv(m),
    ensures
        reachable_inv(step(m, fb)),
        step(m, fb).len == m.len,
{
    match m.phase {
        Phase::Acquiring => {
            let op = acquire_op(m.held);
            let c = TerminalCall { op, ok: fb is OpOk };
            lemma_apply_calls_push(
                TerminalFlags { raw_mode: false, alternate_screen: false, cursor_hidden: false },
                m.calls,
                c,
            );
            lemma_releases_push(m.calls, c);
        },
        Phase::Releasing(_) => {
            let op = release_op(m.held);
            let c = TerminalCall { op, ok: fb is OpOk };
            lemma_apply_calls_push(
                TerminalFlags { raw_mode: false, alternate_screen: false, cursor_hidden: false },
                m.calls,
                c,
            );
            lemma_releases_push(m.calls, c);
        },
        _ => {},
    }
}

/// The cursor after `events` in turn.
pub open spec fn cursor_after(cursor: nat, len: nat, events: Seq<RawEvent>) -> nat
    decreases events.len(),
{
    if events.len() == 0 {
        cursor
    } else {
        cursor_after(next_cursor(cursor, len, events[0]), len, events.drop_first())
    }
}

/// The arrow key that moves the other way.
pub open spec fn opposite(k: Key) -> Key {
    match k {
        Key::Up => Key::Down,
        Key::Down => Key::Up,
        _ => k,
    }
}

/// `k` presses of `first`, each followed by a press of the opposite arrow.
pub open spec fn alternating(first: Key, k: nat) -> Seq<RawEvent>
    decreases k,
{
    if k == 0 {
        Seq::empty()
    } else {
        seq![RawEvent::KeyPress(first), RawEvent::KeyPress(opposite(first))] + alternating(
            first,
            (k - 1) as nat,
        )
    }
}

proof fn lemma_run_inv(len: usize, fbs: Seq<Feedback>)
    requires
        len > 0,
    ensures
        reachable_inv(run(initial(len), fbs)),
        run(initial(len), fbs).len == len,
    decreases fbs.len(),
{
    if fbs.len() > 0 {
        lemma_run_inv(len, fbs.drop_last());
        lemma_step_inv(run(initial(len), fbs.drop_last()), fbs.last());
    }
}

/// Whatever the driver reports, a confirmed choice is the index of an option.
pub proof fn lemma_choice_in_range(len: usize, fbs: Seq<Feedback>)
    requires
        len > 0,
    ensures
        action_of(run(initial(len), fbs)) matches Action::Finish(Ok(i)) ==> i < len,
        run(initial(len), fbs).cursor < len,
{
    lemma_run_inv(len, fbs);
}

/// Up on the first row leaves the cursor there, and so does Down on the last.
pub proof fn lemma_edges_hold(m: SelectionView)
    requires
        reachable_inv(m),
    ensures
        m.cursor == 0 ==> step(m, Feedback::Event(RawEvent::KeyPress(Key::Up))).cursor == 0,
        m.cursor == m.len - 1 ==> step(
            m,
            Feedback::Event(RawEvent::KeyPress(Key::Down)),
        ).cursor == m.len - 1,
        next_cursor(0, m.len as nat, RawEvent::KeyPress(Key::Up)) == 0,
        next_cursor((m.len - 1) as nat, m.len as nat, RawEvent::KeyPress(Key::Down)) == m.len - 1,
{
}

/// Pairs of opposite arrow presses bring the cursor back to where it started,
/// unless the first press of a pair is blocked by an edge of a list of two or
/// more options.
pub proof fn lemma_alternating_returns(cursor: nat, len: nat, first: Key, k: nat)
    requires
        cursor < len,
        first == Key::Up || first == Key::Down,
        k == 0 || len == 1 || ((first == Key::Up ==> cursor > 0) && (first == Key::Down
            ==> cursor + 1 < len)),
    ensures
        cursor_after(cursor, len, alternating(first, k)) == cursor,
    decreases k,
{
    if k > 0 {
        let evs = alternating(first, k);
        let rest = alternating(first, (k - 1) as nat);
        let a = RawEvent::KeyPress(first);
        let b = RawEvent::KeyPress(opposite(first));
        assert(evs[0] == a);
        assert(evs.drop_first() =~= seq![b] + rest);
        assert((seq![b] + rest)[0] == b);
        assert((seq![b] + rest).drop_first() =~= rest);
        let mid = next_cursor(cursor, len, a);
        assert(next_cursor(mid, len, b) == cursor);
        assert(cursor_after(cursor, len, evs) == cursor_after(mid, len, seq![b] + rest));
        assert(cursor_after(mid, len, seq![b] + rest) == cursor_after(cursor, len, rest));
        lemma_alternating_returns(cursor, len, first, (k - 1) as nat);
    }
}

/// A resize event never moves the cursor, whatever the state.
pub proof fn lemma_resize_keeps_cursor(m: SelectionView, width: u16, height: u16)
    ensures
        step(m, Feedback::Event(RawEvent::Resize(width, height))).cursor == m.cursor,
        next_cursor(m.cursor as nat, m.len as nat, RawEvent::Resize(width, height)) == m.cursor,
{
}

/// Once a selection is done, every call that took the terminal over has been
/// followed by the call that undoes it; where those calls succeeded, the
/// terminal is back in the state it was in before the selection.
pub proof fn lemma_terminal_restored(len: usize, fbs: Seq<Feedback>)
    requires
        len > 0,
    ensures
        run(initial(len), fbs).phase is Done ==> run(initial(len), fbs).held.is_normal(),
        run(initial(len), fbs).phase is Done && crate::terminal::releases_succeeded(
            run(initial(len), fbs).calls,
        ) ==> crate::terminal::apply_calls(
            TerminalFlags { raw_mode: false, alternate_screen: false, cursor_hidden: false },
            run(initial(len), fbs).calls,
        ).is_normal(),
{
    lemma_run_inv(len, fbs);
}

} // verus!
