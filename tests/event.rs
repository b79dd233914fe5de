use std::sync::mpsc;
use taskwarrior_tui::event::{Action, Event, Producer, Wake};
use taskwarrior_tui::terminal::{enter_tui_ops, leave_tui_ops, TerminalOp};

fn drive(wakes: Vec<Wake<char>>) -> Vec<Event<char>> {
    let (tx, rx) = mpsc::channel();
    let mut p = Producer::new();
    for w in wakes {
        if let Action::Send { event, .. } = p.step(w) {
            tx.send(event).unwrap();
        }
    }
    drop(tx);
    rx.iter().collect()
}

#[test]
fn events_arrive_in_order() {
    let got = drive(vec![Wake::TimerFired, Wake::Key('a'), Wake::TimerFired]);
    assert_eq!(got, vec![Event::Tick, Event::Input('a'), Event::Tick]);
}

#[test]
fn other_terminal_events_are_dropped() {
    let got = drive(vec![
        Wake::Key('x'),
        Wake::OtherInput,
        Wake::TimerFired,
        Wake::OtherInput,
        Wake::Key('y'),
    ]);
    assert_eq!(got, vec![Event::Input('x'), Event::Tick, Event::Input('y')]);
}

#[test]
fn other_terminal_event_keeps_timer() {
    let mut p = Producer::new();
    assert!(matches!(p.step(Wake::<char>::OtherInput), Action::Wait));
    assert!(!p.stopped);
}

#[test]
fn tick_and_key_restart_timer() {
    let mut p = Producer::new();
    assert!(matches!(
        p.step(Wake::<char>::TimerFired),
        Action::Send { event: Event::Tick, restart_timer: true, pause: false }
    ));
    assert!(matches!(
        p.step(Wake::Key('k')),
        Action::Send { event: Event::Input('k'), restart_timer: true, pause: true }
    ));
}

#[test]
fn consumer_gone_stops_producer() {
    let mut p = Producer::new();
    assert!(matches!(p.step(Wake::<char>::ConsumerGone), Action::Stop));
    assert!(p.stopped);
    assert!(matches!(p.step(Wake::Key('a')), Action::Stop));
    assert!(matches!(p.step(Wake::<char>::TimerFired), Action::Stop));
    let got = drive(vec![Wake::Key('a'), Wake::ConsumerGone, Wake::Key('b'), Wake::TimerFired]);
    assert_eq!(got, vec![Event::Input('a')]);
}

#[test]
fn enter_plan() {
    assert_eq!(
        enter_tui_ops(),
        vec![
            TerminalOp::EnterAlternateScreen,
            TerminalOp::EnableMouseCapture,
            TerminalOp::EnableRawMode,
            TerminalOp::Resize,
        ]
    );
}

#[test]
fn leave_plan_turns_raw_mode_off_first() {
    let ops = leave_tui_ops();
    assert_eq!(ops[0], TerminalOp::DisableRawMode);
    assert_eq!(
        ops,
        vec![
            TerminalOp::DisableRawMode,
            TerminalOp::LeaveAlternateScreen,
            TerminalOp::DisableMouseCapture,
            TerminalOp::ShowCursor,
        ]
    );
    assert!(!ops.contains(&TerminalOp::EnableRawMode));
}
