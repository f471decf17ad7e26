use editor::editor::event::{
    Event, KeyCode, KeyEvent, KeyEventKind, KeyModifiers, ALT, CONTROL, NONE,
};
use editor::editor::session::{Phase, Reply, Request, Turn};
use editor::editor::terminal::{Command, Position, Size, Terminal};
use editor::editor::Editor;

const SIZE: Size = Size { width: 80, height: 3 };

fn key(code: KeyCode, bits: u8, kind: KeyEventKind) -> Reply {
    Reply::Event(Event::Key(KeyEvent { code, modifiers: KeyModifiers { bits }, kind }))
}

fn banner() -> Command {
    let mut line = String::from("~");
    for _ in 0..30 {
        line.push(' ');
    }
    line.push_str("ed -- version 1.0");
    Command::Print(line)
}

fn first_screen() -> Vec<Command> {
    vec![
        Command::ClearScreen,
        Command::MoveTo(Position { x: 0, y: 1 }),
        banner(),
        Command::MoveTo(Position { x: 0, y: 0 }),
    ]
}

fn rendering(cursor: Position) -> Vec<Command> {
    vec![
        Command::HideCursor,
        Command::MoveTo(Position { x: 0, y: 0 }),
        Command::ClearLine,
        Command::Print(String::from("~")),
        Command::MoveTo(Position { x: 0, y: 1 }),
        Command::ClearLine,
        Command::MoveTo(Position { x: 0, y: 1 }),
        banner(),
        Command::MoveTo(Position { x: 0, y: 2 }),
        Command::ClearLine,
        Command::Print(String::from("~")),
        Command::MoveTo(cursor),
        Command::ShowCursor,
    ]
}

fn farewell() -> Vec<Command> {
    vec![
        Command::HideCursor,
        Command::ClearScreen,
        Command::MoveTo(Position { x: 0, y: 0 }),
        Command::Print(String::from("Goodbye.\r\n")),
        Command::ShowCursor,
    ]
}

fn started() -> (Editor, Terminal) {
    let mut editor = Editor::default();
    let mut term = Terminal::new("ed", "1.0");
    assert_eq!(editor.run(&mut term, Reply::Done), Request::EnableRawMode);
    assert_eq!(editor.run(&mut term, Reply::Done), Request::QuerySize);
    assert_eq!(editor.run(&mut term, Reply::Size(SIZE)), Request::QuerySize);
    assert_eq!(editor.run(&mut term, Reply::Size(SIZE)), Request::ReadEvent);
    assert_eq!(editor.phase(), Phase::Reading);
    (editor, term)
}

#[test]
fn a_session_from_start_to_quit() {
    let mut editor = Editor::default();
    let mut term = Terminal::new("ed", "1.0");

    assert_eq!(editor.run(&mut term, Reply::Done), Request::EnableRawMode);
    assert_eq!(editor.phase(), Phase::Enabling);
    assert_eq!(editor.run(&mut term, Reply::Done), Request::QuerySize);
    assert_eq!(editor.phase(), Phase::Preparing);
    assert_eq!(editor.run(&mut term, Reply::Size(SIZE)), Request::QuerySize);
    assert_eq!(editor.phase(), Phase::Measuring);
    assert_eq!(editor.run(&mut term, Reply::Size(SIZE)), Request::ReadEvent);
    assert_eq!(editor.phase(), Phase::Reading);

    let mut shown = first_screen();
    shown.extend(rendering(Position { x: 0, y: 0 }));
    shown.push(Command::MoveTo(Position { x: 0, y: 0 }));
    let press = key(KeyCode::Right, NONE, KeyEventKind::Press);
    assert_eq!(editor.run(&mut term, press), Request::Flush(shown));
    assert_eq!(editor.phase(), Phase::Flushing);
    assert!(!editor.should_quit());
    assert_eq!(editor.cursor_pos(), Position { x: 0, y: 0 });

    assert_eq!(editor.run(&mut term, Reply::Done), Request::QuerySize);
    assert_eq!(editor.run(&mut term, Reply::Size(SIZE)), Request::ReadEvent);

    let mut shown = rendering(Position { x: 0, y: 0 });
    shown.push(Command::MoveTo(Position { x: 1, y: 0 }));
    let release = key(KeyCode::Right, NONE, KeyEventKind::Release);
    assert_eq!(editor.run(&mut term, release), Request::Flush(shown));
    assert_eq!(editor.cursor_pos(), Position { x: 1, y: 0 });

    assert_eq!(editor.run(&mut term, Reply::Done), Request::QuerySize);
    assert_eq!(editor.run(&mut term, Reply::Size(SIZE)), Request::ReadEvent);

    let mut shown = rendering(Position { x: 1, y: 0 });
    shown.push(Command::MoveTo(Position { x: 1, y: 0 }));
    let quit = key(KeyCode::Char('q'), CONTROL, KeyEventKind::Press);
    assert_eq!(editor.run(&mut term, quit), Request::Flush(shown));
    assert!(editor.should_quit());
    assert_eq!(editor.phase(), Phase::Flushing);

    assert_eq!(editor.run(&mut term, Reply::Done), Request::Flush(farewell()));
    assert_eq!(editor.phase(), Phase::Leaving);
    assert_eq!(editor.run(&mut term, Reply::Done), Request::DisableRawMode);
    assert_eq!(editor.phase(), Phase::Closing { failed: false });
    assert_eq!(editor.run(&mut term, Reply::Done), Request::Exit);
    assert_eq!(editor.phase(), Phase::Exited);
    assert!(editor.should_quit());
    assert_eq!(term.execute(), Vec::<Command>::new());
}

#[test]
fn q_without_control_keeps_the_loop_going() {
    let (mut editor, mut term) = started();
    let mut shown = first_screen();
    shown.extend(rendering(Position { x: 0, y: 0 }));
    shown.push(Command::MoveTo(Position { x: 0, y: 0 }));
    let plain_q = key(KeyCode::Char('q'), NONE, KeyEventKind::Press);
    assert_eq!(editor.run(&mut term, plain_q), Request::Flush(shown));
    assert!(!editor.should_quit());
    assert_eq!(editor.run(&mut term, Reply::Done), Request::QuerySize);
    assert_eq!(editor.run(&mut term, Reply::Size(SIZE)), Request::ReadEvent);

    let mut again = rendering(Position { x: 0, y: 0 });
    again.push(Command::MoveTo(Position { x: 0, y: 0 }));
    let quit = key(KeyCode::Char('q'), CONTROL, KeyEventKind::Release);
    assert_eq!(editor.run(&mut term, quit), Request::Flush(again));
    assert!(editor.should_quit());
    assert_eq!(editor.run(&mut term, Reply::Done), Request::Flush(farewell()));
    assert_eq!(editor.run(&mut term, Reply::Done), Request::DisableRawMode);
    assert_eq!(editor.run(&mut term, Reply::Done), Request::Exit);
}

#[test]
fn the_normal_mode_is_asked_for_once() {
    let (mut editor, mut term) = started();
    let mut asked: u32 = 0;
    let mut reply = key(KeyCode::Char('q'), CONTROL, KeyEventKind::Press);
    for _ in 0..20 {
        let request = editor.run(&mut term, reply);
        if request == Request::DisableRawMode {
            asked += 1;
        }
        reply = Reply::Done;
    }
    assert_eq!(asked, 1);
    assert_eq!(editor.phase(), Phase::Exited);
    assert_eq!(editor.run(&mut term, Reply::Done), Request::Exit);
}

#[test]
fn raw_mode_that_cannot_be_had_ends_the_session() {
    let mut editor = Editor::default();
    let mut term = Terminal::new("ed", "1.0");
    assert_eq!(editor.run(&mut term, Reply::Failed), Request::EnableRawMode);
    assert_eq!(editor.run(&mut term, Reply::Failed), Request::Fail);
    assert_eq!(editor.phase(), Phase::Failed);
    assert_eq!(editor.run(&mut term, Reply::Done), Request::Fail);
    assert_eq!(term.execute(), Vec::<Command>::new());
}

#[test]
fn a_first_size_that_cannot_be_had_ends_the_session() {
    let mut editor = Editor::default();
    let mut term = Terminal::new("ed", "1.0");
    assert_eq!(editor.run(&mut term, Reply::Done), Request::EnableRawMode);
    assert_eq!(editor.run(&mut term, Reply::Done), Request::QuerySize);
    assert_eq!(editor.run(&mut term, Reply::Failed), Request::Fail);
    assert_eq!(editor.phase(), Phase::Failed);
}

#[test]
fn a_failure_in_the_loop_restores_the_terminal_first() {
    let (mut editor, mut term) = started();
    assert_eq!(editor.run(&mut term, Reply::Failed), Request::DisableRawMode);
    assert_eq!(editor.phase(), Phase::Closing { failed: true });
    assert_eq!(editor.run(&mut term, Reply::Done), Request::Fail);
    assert_eq!(editor.phase(), Phase::Failed);

    let (mut editor, mut term) = started();
    let up = key(KeyCode::Up, NONE, KeyEventKind::Release);
    assert!(matches!(editor.run(&mut term, up), Request::Flush(_)));
    assert_eq!(editor.run(&mut term, Reply::Failed), Request::DisableRawMode);
    assert_eq!(editor.run(&mut term, Reply::Done), Request::Fail);

    let (mut editor, mut term) = started();
    assert!(matches!(editor.run(&mut term, up), Request::Flush(_)));
    assert_eq!(editor.run(&mut term, Reply::Done), Request::QuerySize);
    assert_eq!(editor.run(&mut term, Reply::Failed), Request::DisableRawMode);
    assert_eq!(editor.run(&mut term, Reply::Done), Request::Fail);
}

#[test]
fn a_farewell_that_cannot_be_flushed_fails_the_session() {
    let (mut editor, mut term) = started();
    let quit = key(KeyCode::Char('q'), CONTROL, KeyEventKind::Press);
    assert!(matches!(editor.run(&mut term, quit), Request::Flush(_)));
    assert_eq!(editor.run(&mut term, Reply::Done), Request::Flush(farewell()));
    assert_eq!(editor.run(&mut term, Reply::Failed), Request::DisableRawMode);
    assert_eq!(editor.phase(), Phase::Closing { failed: true });
    assert_eq!(editor.run(&mut term, Reply::Done), Request::Fail);
}

#[test]
fn a_normal_mode_that_cannot_be_had_fails_the_session() {
    let (mut editor, mut term) = started();
    let quit = key(KeyCode::Char('q'), CONTROL, KeyEventKind::Press);
    assert!(matches!(editor.run(&mut term, quit), Request::Flush(_)));
    assert_eq!(editor.run(&mut term, Reply::Done), Request::Flush(farewell()));
    assert_eq!(editor.run(&mut term, Reply::Done), Request::DisableRawMode);
    assert_eq!(editor.run(&mut term, Reply::Failed), Request::Fail);
    assert_eq!(editor.phase(), Phase::Failed);
}

#[test]
fn an_answer_that_was_not_awaited_counts_as_a_failure() {
    let (mut editor, mut term) = started();
    assert_eq!(editor.run(&mut term, Reply::Size(SIZE)), Request::DisableRawMode);
    assert_eq!(editor.phase(), Phase::Closing { failed: true });

    let (mut editor, mut term) = started();
    assert_eq!(editor.run(&mut term, Reply::Done), Request::DisableRawMode);

    let mut editor = Editor::default();
    let mut term = Terminal::new("ed", "1.0");
    assert_eq!(editor.run(&mut term, Reply::Done), Request::EnableRawMode);
    assert_eq!(editor.run(&mut term, Reply::Size(SIZE)), Request::Fail);
}

#[test]
fn the_loop_alone_step_by_step() {
    let (mut editor, mut term) = started();
    let down = key(KeyCode::Down, NONE, KeyEventKind::Release);
    let mut shown = first_screen();
    shown.extend(rendering(Position { x: 0, y: 0 }));
    shown.push(Command::MoveTo(Position { x: 0, y: 1 }));
    assert_eq!(editor.repl(&mut term, down), Turn::Ask(Request::Flush(shown)));
    assert_eq!(editor.phase(), Phase::Flushing);
    assert_eq!(editor.repl(&mut term, Reply::Done), Turn::Ask(Request::QuerySize));
    assert_eq!(editor.phase(), Phase::Measuring);
    assert_eq!(editor.repl(&mut term, Reply::Size(SIZE)), Turn::Ask(Request::ReadEvent));
    assert_eq!(term.execute(), rendering(Position { x: 0, y: 1 }));

    let quit = key(KeyCode::Char('q'), CONTROL, KeyEventKind::Repeat);
    assert_eq!(
        editor.repl(&mut term, quit),
        Turn::Ask(Request::Flush(vec![Command::MoveTo(Position { x: 0, y: 1 })]))
    );
    assert_eq!(editor.repl(&mut term, Reply::Done), Turn::Quit);
    assert_eq!(editor.phase(), Phase::Flushing);
    assert_eq!(term.execute(), farewell());
}

#[test]
fn the_loop_aborts_and_changes_nothing() {
    let (mut editor, mut term) = started();
    assert_eq!(editor.repl(&mut term, Reply::Failed), Turn::Abort);
    assert_eq!(editor.phase(), Phase::Reading);
    assert_eq!(editor.cursor_pos(), Position { x: 0, y: 0 });
    let mut queued = first_screen();
    queued.extend(rendering(Position { x: 0, y: 0 }));
    assert_eq!(term.execute(), queued);

    let mut idle = Editor::default();
    let right = key(KeyCode::Right, NONE, KeyEventKind::Release);
    assert_eq!(idle.repl(&mut term, right), Turn::Abort);
    assert_eq!(idle.phase(), Phase::Idle);
    assert_eq!(idle.cursor_pos(), Position { x: 0, y: 0 });
}

#[test]
fn the_size_is_taken_anew_for_each_rendering() {
    let (mut editor, mut term) = started();
    let other = key(KeyCode::Other, NONE, KeyEventKind::Press);
    assert!(matches!(editor.run(&mut term, other), Request::Flush(_)));
    assert_eq!(editor.run(&mut term, Reply::Done), Request::QuerySize);
    let small = Size { width: 5, height: 1 };
    assert_eq!(editor.run(&mut term, Reply::Size(small)), Request::ReadEvent);
    assert_eq!(
        term.execute(),
        vec![
            Command::HideCursor,
            Command::MoveTo(Position { x: 0, y: 0 }),
            Command::ClearLine,
            Command::MoveTo(Position { x: 0, y: 0 }),
            Command::Print(String::from("~ed -")),
            Command::MoveTo(Position { x: 0, y: 0 }),
            Command::ShowCursor,
        ]
    );
}

#[test]
fn a_flag_set_while_the_size_is_awaited_ends_the_loop() {
    let (mut editor, mut term) = started();
    let other = key(KeyCode::Other, NONE, KeyEventKind::Press);
    assert!(matches!(editor.run(&mut term, other), Request::Flush(_)));
    assert_eq!(editor.run(&mut term, Reply::Done), Request::QuerySize);
    assert_eq!(editor.phase(), Phase::Measuring);
    editor.evaluate_event(&Event::Key(KeyEvent {
        code: KeyCode::Char('q'),
        modifiers: KeyModifiers { bits: CONTROL },
        kind: KeyEventKind::Release,
    }));
    assert!(editor.should_quit());

    assert_eq!(editor.run(&mut term, Reply::Size(SIZE)), Request::Flush(farewell()));
    assert_eq!(editor.phase(), Phase::Leaving);
    assert_eq!(editor.run(&mut term, Reply::Done), Request::DisableRawMode);
    assert_eq!(editor.run(&mut term, Reply::Done), Request::Exit);
    assert_eq!(term.execute(), Vec::<Command>::new());
}

#[test]
fn the_loop_quits_on_a_size_once_the_flag_is_set() {
    let (mut editor, mut term) = started();
    let other = key(KeyCode::Other, NONE, KeyEventKind::Press);
    assert!(matches!(editor.repl(&mut term, other), Turn::Ask(Request::Flush(_))));
    assert_eq!(editor.repl(&mut term, Reply::Done), Turn::Ask(Request::QuerySize));
    editor.evaluate_event(&Event::Key(KeyEvent {
        code: KeyCode::Char('q'),
        modifiers: KeyModifiers { bits: CONTROL | ALT },
        kind: KeyEventKind::Press,
    }));
    assert_eq!(editor.repl(&mut term, Reply::Size(SIZE)), Turn::Quit);
    assert_eq!(editor.phase(), Phase::Measuring);
    assert_eq!(term.execute(), farewell());
}
