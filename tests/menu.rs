use todo::menu::{
    move_cursor, Action, Feedback, InteractionError, Key, RawEvent, Selection,
};
use todo::terminal::{RenderStep, TerminalError, TerminalOp};

/// A terminal backend that records every call and fails the ones it is told to.
struct FakeTerminal {
    calls: Vec<TerminalOp>,
    renders: Vec<usize>,
    fail_ops: Vec<TerminalOp>,
    fail_render: bool,
    raw_mode: bool,
    alternate_screen: bool,
    cursor_hidden: bool,
}

impl FakeTerminal {
    fn new() -> FakeTerminal {
        FakeTerminal {
            calls: Vec::new(),
            renders: Vec::new(),
            fail_ops: Vec::new(),
            fail_render: false,
            raw_mode: false,
            alternate_screen: false,
            cursor_hidden: false,
        }
    }

    fn call(&mut self, op: TerminalOp) -> bool {
        self.calls.push(op);
        if self.fail_ops.contains(&op) {
            return false;
        }
        match op {
            TerminalOp::EnableRawMode => self.raw_mode = true,
            TerminalOp::EnterAlternateScreen => self.alternate_screen = true,
            TerminalOp::HideCursor => self.cursor_hidden = true,
            TerminalOp::ShowCursor => self.cursor_hidden = false,
            TerminalOp::LeaveAlternateScreen => self.alternate_screen = false,
            TerminalOp::DisableRawMode => self.raw_mode = false,
        }
        true
    }

    fn is_normal(&self) -> bool {
        !self.raw_mode && !self.alternate_screen && !self.cursor_hidden
    }
}

/// Runs a selection over `len` options on `term`; the events are delivered in
/// order and the channel closes after the last one.
fn drive(len: usize, events: &[RawEvent], term: &mut FakeTerminal) -> Result<usize, InteractionError> {
    let mut sel = Selection::new(len);
    let mut next_event = 0;
    for _ in 0..10_000 {
        match sel.next_action() {
            Action::Terminal(op) => {
                let fb = if term.call(op) { Feedback::OpOk } else { Feedback::OpFailed };
                sel.advance(fb);
            }
            Action::Render(cursor) => {
                term.renders.push(cursor);
                if term.fail_render {
                    sel.advance(Feedback::RenderFailed(RenderStep::DrawOption));
                } else {
                    sel.advance(Feedback::Rendered);
                }
            }
            Action::AwaitEvent => {
                if next_event < events.len() {
                    sel.advance(Feedback::Event(events[next_event]));
                    next_event += 1;
                } else {
                    sel.advance(Feedback::Closed);
                }
            }
            Action::Finish(r) => return r,
        }
    }
    panic!("selection did not finish");
}

const UP: RawEvent = RawEvent::KeyPress(Key::Up);
const DOWN: RawEvent = RawEvent::KeyPress(Key::Down);
const ENTER: RawEvent = RawEvent::KeyPress(Key::Enter);

#[test]
fn down_down_up_enter_picks_second() {
    let mut term = FakeTerminal::new();
    assert_eq!(drive(3, &[DOWN, DOWN, UP, ENTER], &mut term), Ok(1));
    assert!(term.is_normal());
}

#[test]
fn single_option_enter_picks_it() {
    let mut term = FakeTerminal::new();
    assert_eq!(drive(1, &[ENTER], &mut term), Ok(0));
    assert_eq!(term.renders, vec![0]);
    assert!(term.is_normal());
}

#[test]
fn channel_closed_before_any_event() {
    let mut term = FakeTerminal::new();
    assert_eq!(drive(3, &[], &mut term), Err(InteractionError::RecvEvent));
    assert!(term.is_normal());
}

#[test]
fn calls_come_in_pairs_in_reverse_order() {
    let mut term = FakeTerminal::new();
    assert_eq!(drive(2, &[DOWN, ENTER], &mut term), Ok(1));
    assert_eq!(
        term.calls,
        vec![
            TerminalOp::EnableRawMode,
            TerminalOp::EnterAlternateScreen,
            TerminalOp::HideCursor,
            TerminalOp::ShowCursor,
            TerminalOp::LeaveAlternateScreen,
            TerminalOp::DisableRawMode,
        ]
    );
}

#[test]
fn failed_alternate_screen_undoes_raw_mode() {
    let mut term = FakeTerminal::new();
    term.fail_ops.push(TerminalOp::EnterAlternateScreen);
    assert_eq!(
        drive(2, &[ENTER], &mut term),
        Err(InteractionError::Terminal(TerminalError::Enable(TerminalOp::EnterAlternateScreen)))
    );
    assert_eq!(
        term.calls,
        vec![
            TerminalOp::EnableRawMode,
            TerminalOp::EnterAlternateScreen,
            TerminalOp::DisableRawMode,
        ]
    );
    assert!(term.renders.is_empty());
    assert!(term.is_normal());
}

#[test]
fn failed_raw_mode_makes_no_other_call() {
    let mut term = FakeTerminal::new();
    term.fail_ops.push(TerminalOp::EnableRawMode);
    assert_eq!(
        drive(2, &[ENTER], &mut term),
        Err(InteractionError::Terminal(TerminalError::Enable(TerminalOp::EnableRawMode)))
    );
    assert_eq!(term.calls, vec![TerminalOp::EnableRawMode]);
    assert!(term.is_normal());
}

#[test]
fn failed_hide_cursor_undoes_the_rest() {
    let mut term = FakeTerminal::new();
    term.fail_ops.push(TerminalOp::HideCursor);
    assert_eq!(
        drive(2, &[ENTER], &mut term),
        Err(InteractionError::Terminal(TerminalError::Enable(TerminalOp::HideCursor)))
    );
    assert_eq!(
        term.calls,
        vec![
            TerminalOp::EnableRawMode,
            TerminalOp::EnterAlternateScreen,
            TerminalOp::HideCursor,
            TerminalOp::LeaveAlternateScreen,
            TerminalOp::DisableRawMode,
        ]
    );
    assert!(term.is_normal());
}

#[test]
fn render_failure_is_returned_and_terminal_restored() {
    let mut term = FakeTerminal::new();
    term.fail_render = true;
    assert_eq!(
        drive(2, &[ENTER], &mut term),
        Err(InteractionError::Terminal(TerminalError::Render(RenderStep::DrawOption)))
    );
    assert!(term.is_normal());
}

#[test]
fn release_failure_does_not_mask_the_choice() {
    let mut term = FakeTerminal::new();
    term.fail_ops.push(TerminalOp::LeaveAlternateScreen);
    assert_eq!(drive(3, &[DOWN, ENTER], &mut term), Ok(1));
    assert_eq!(term.calls.len(), 6);
    assert_eq!(term.calls[5], TerminalOp::DisableRawMode);
    assert!(!term.raw_mode);
    assert!(!term.cursor_hidden);
}

#[test]
fn up_at_top_stays_and_rerenders() {
    let mut term = FakeTerminal::new();
    assert_eq!(drive(3, &[UP, UP, ENTER], &mut term), Ok(0));
    assert_eq!(term.renders, vec![0, 0, 0]);
}

#[test]
fn down_at_bottom_stays() {
    let mut term = FakeTerminal::new();
    assert_eq!(drive(3, &[DOWN, DOWN, DOWN, DOWN, ENTER], &mut term), Ok(2));
}

#[test]
fn alternating_arrows_return_to_start() {
    let mut term = FakeTerminal::new();
    assert_eq!(drive(4, &[DOWN, DOWN, UP, DOWN, UP, DOWN, ENTER], &mut term), Ok(2));
    assert_eq!(move_cursor(2, 4, DOWN), 3);
    assert_eq!(move_cursor(move_cursor(2, 4, UP), 4, DOWN), 2);
}

#[test]
fn resize_keeps_cursor_and_rerenders() {
    let mut term = FakeTerminal::new();
    let events = [DOWN, RawEvent::Resize(80, 24), RawEvent::Resize(10, 5), ENTER];
    assert_eq!(drive(3, &events, &mut term), Ok(1));
    assert_eq!(term.renders, vec![0, 1, 1, 1]);
    assert_eq!(move_cursor(1, 3, RawEvent::Resize(1, 1)), 1);
}

#[test]
fn other_events_are_ignored() {
    let mut term = FakeTerminal::new();
    let events = [RawEvent::KeyPress(Key::Other), RawEvent::Other, DOWN, ENTER];
    assert_eq!(drive(3, &events, &mut term), Ok(1));
    assert_eq!(term.renders, vec![0, 1]);
}

#[test]
fn fresh_selection_starts_by_enabling_raw_mode() {
    let sel = Selection::new(5);
    assert_eq!(sel.cursor(), 0);
    assert_eq!(sel.next_action(), Action::Terminal(TerminalOp::EnableRawMode));
}

#[test]
fn done_selection_ignores_further_reports() {
    let mut sel = Selection::new(1);
    sel.advance(Feedback::OpFailed);
    assert_eq!(
        sel.next_action(),
        Action::Finish(Err(InteractionError::Terminal(TerminalError::Enable(
            TerminalOp::EnableRawMode
        ))))
    );
    sel.advance(Feedback::Event(ENTER));
    sel.advance(Feedback::OpOk);
    assert!(matches!(sel.next_action(), Action::Finish(Err(_))));
}

#[test]
fn mismatched_report_changes_nothing() {
    let mut sel = Selection::new(2);
    sel.advance(Feedback::Event(DOWN));
    assert_eq!(sel.next_action(), Action::Terminal(TerminalOp::EnableRawMode));
    assert_eq!(sel.cursor(), 0);
}

#[test]
fn choice_is_always_in_range() {
    let keys = [UP, DOWN, RawEvent::Resize(3, 3), RawEvent::Other];
    for len in 1..5usize {
        for seed in 0..64usize {
            let mut events = Vec::new();
            let mut x = seed;
            for _ in 0..6 {
                events.push(keys[x % 4]);
                x /= 2;
                x += seed % 3;
            }
            events.push(ENTER);
            let mut term = FakeTerminal::new();
            let index = drive(len, &events, &mut term).unwrap();
            assert!(index < len);
            assert!(term.is_normal());
        }
    }
}
